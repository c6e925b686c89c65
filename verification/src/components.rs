//! The rendering context shared by the page components: links are made
//! relative to the mount point of the application.

use vstd::prelude::*;
use crate::config::AppConfig;
use crate::text::join2;

verus! {

/// The link for `uri` when the application is mounted under `base`.
pub open spec fn url_for(base: Option<Seq<char>>, uri: Seq<char>) -> Seq<char> {
    match base {
        Some(b) => b + uri,
        None => uri,
    }
}

/// The view of an optional string.
pub open spec fn opt_view(o: Option<String>) -> Option<Seq<char>> {
    match o {
        Some(s) => Some(s@),
        None => None,
    }
}

/// The location of a static file below `/static/`.
pub open spec fn static_uri(file: Seq<char>) -> Seq<char> {
    "/static/"@ + file
}

/// The context that components read to build links.
#[derive(Clone, Debug)]
pub struct AppContext {
    pub base_url: Option<String>,
}

impl AppContext {
    /// `uri` prefixed with the base url, if there is one.
    pub fn create_url(&self, uri: &str) -> (res: String)
        ensures
            res@ == url_for(opt_view(self.base_url), uri@),
    {
        match &self.base_url {
            Some(base_url) => join2(base_url.as_str(), uri),
            None => uri.to_owned(),
        }
    }

    /// The link of the static file `uri`.
    pub fn create_static_url(&self, uri: &str) -> (res: String)
        ensures
            res@ == url_for(opt_view(self.base_url), static_uri(uri@)),
    {
        let path = join2("/static/", uri);
        self.create_url(path.as_str())
    }
}

/// Shared state of the web handlers.
#[derive(Clone, Debug)]
pub struct AppState {
    pub config: AppConfig,
}

impl AppState {
    /// The component context of this state: its base url.
    pub fn to_context(&self) -> (res: AppContext)
        ensures
            opt_view(res.base_url) == opt_view(self.config.base_url),
    {
        AppContext { base_url: self.config.base_url.clone() }
    }
}

} // verus!
