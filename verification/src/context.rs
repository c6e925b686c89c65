//! The web application's own rendering context, which carries the whole
//! application configuration.

use vstd::prelude::*;
use crate::components::{opt_view, static_uri, url_for};
use crate::config::AppConfig;
use crate::text::join2;

verus! {

/// The context that the web application's components read.
#[derive(Clone, Debug)]
pub struct AppContext {
    pub config: AppConfig,
}

impl AppContext {
    /// `uri` prefixed with the configured base url, if there is one.
    pub fn create_url(&self, uri: &str) -> (res: String)
        ensures
            res@ == url_for(opt_view(self.config.base_url), uri@),
    {
        match &self.config.base_url {
            Some(base_url) => join2(base_url.as_str(), uri),
            None => uri.to_owned(),
        }
    }

    /// The link of the static file `uri`.
    pub fn create_static_url(&self, uri: &str) -> (res: String)
        ensures
            res@ == url_for(opt_view(self.config.base_url), static_uri(uri@)),
    {
        let path = join2("/static/", uri);
        self.create_url(path.as_str())
    }
}

} // verus!
