//! Where a request's preferred language is read from, and which language
//! the pages are rendered in.

use vstd::prelude::*;
use crate::components::AppState;
use crate::text::str_eq;

verus! {

/// The value of the first entry of `params` under `key`, if any.
pub open spec fn lookup(params: Seq<(String, String)>, key: Seq<char>) -> Option<Seq<char>>
    decreases params.len(),
{
    if params.len() == 0 {
        None
    } else if params[0].0@ == key {
        Some(params[0].1@)
    } else {
        lookup(params.drop_first(), key)
    }
}

/// The languages named by `params` under `key`: the value found, if any.
pub open spec fn languages_for(params: Option<Seq<(String, String)>>, key: Seq<char>) -> Seq<Seq<char>> {
    match params {
        Some(p) => match lookup(p, key) {
            Some(v) => seq![v],
            None => Seq::empty(),
        },
        None => Seq::empty(),
    }
}

/// The views of a list of strings.
pub open spec fn views(v: Seq<String>) -> Seq<Seq<char>> {
    v.map_values(|s: String| s@)
}

/// The request parameters as pairs, or nothing when the request has none.
pub open spec fn params_view(params: Option<&Vec<(String, String)>>) -> Option<Seq<(String, String)>> {
    match params {
        Some(p) => Some(p@),
        None => None,
    }
}

fn find_param(params: &Vec<(String, String)>, key: &str) -> (res: Option<String>)
    ensures
        match res {
            Some(v) => lookup(params@, key@) == Some(v@),
            None => lookup(params@, key@) is None,
        },
{
    let mut i: usize = 0;
    assert(params@.subrange(0, params@.len() as int) =~= params@);
    while i < params.len()
        invariant
            i <= params@.len(),
            lookup(params@, key@) == lookup(params@.subrange(i as int, params@.len() as int), key@),
        decreases params@.len() - i,
    {
        let ghost rest = params@.subrange(i as int, params@.len() as int);
        if str_eq(params[i].0.as_str(), key) {
            return Some(params[i].1.clone());
        }
        assert(rest.drop_first() =~= params@.subrange(i + 1, params@.len() as int));
        i = i + 1;
    }
    None
}

fn languages_from(params: Option<&Vec<(String, String)>>, key: &str) -> (res: Vec<String>)
    ensures
        views(res@) == languages_for(params_view(params), key@),
{
    let mut res: Vec<String> = Vec::new();
    if let Some(p) = params {
        if let Some(lang) = find_param(p, key) {
            res.push(lang);
        }
    }
    assert(views(res@) =~= languages_for(params_view(params), key@));
    res
}

/// Reads the language from a named segment of the request path.
#[derive(Clone, Debug)]
pub struct PathSource {
    name: String,
}

impl View for PathSource {
    type V = Seq<char>;

    /// The name of the path segment.
    closed spec fn view(&self) -> Seq<char> {
        self.name@
    }
}

impl PathSource {
    /// A source reading the path segment `name`.
    pub fn new(name: &str) -> (res: PathSource)
        ensures
            res@ == name@,
    {
        PathSource { name: name.to_owned() }
    }

    /// The languages the request's path segments name: the segment's value
    /// when the request has path segments and this one among them, else none.
    pub fn languages_from_parts(&self, params: Option<&Vec<(String, String)>>) -> (res: Vec<String>)
        ensures
            views(res@) == languages_for(params_view(params), self@),
    {
        languages_from(params, self.name.as_str())
    }
}

/// Reads the language from a named parameter of the request query.
#[derive(Clone, Debug)]
pub struct QuerySource {
    name: String,
}

impl View for QuerySource {
    type V = Seq<char>;

    /// The name of the query parameter.
    closed spec fn view(&self) -> Seq<char> {
        self.name@
    }
}

impl QuerySource {
    /// A source reading the query parameter `name`.
    pub fn new(name: &str) -> (res: QuerySource)
        ensures
            res@ == name@,
    {
        QuerySource { name: name.to_owned() }
    }

    /// The languages the request's query names: the parameter's value when
    /// the request has a query and this parameter in it, else none.
    pub fn languages_from_parts(&self, params: Option<&Vec<(String, String)>>) -> (res: Vec<String>)
        ensures
            views(res@) == languages_for(params_view(params), self@),
    {
        languages_from(params, self.name.as_str())
    }
}

/// The first of `current` that is among `supported`, if any.
pub open spec fn first_supported(current: Seq<Seq<char>>, supported: Seq<Seq<char>>) -> Option<Seq<char>>
    decreases current.len(),
{
    if current.len() == 0 {
        None
    } else if supported.contains(current[0]) {
        Some(current[0])
    } else {
        first_supported(current.drop_first(), supported)
    }
}

/// The language picked is the first of `current` that is among `supported`:
/// it is one of `current`, it is supported, and none before it is; when
/// none of `current` is supported, nothing is picked.
pub proof fn lemma_first_supported(current: Seq<Seq<char>>, supported: Seq<Seq<char>>)
    ensures
        first_supported(current, supported) matches Some(l) ==> exists|i: int|
            0 <= i < current.len() && #[trigger] current[i] == l && supported.contains(l)
            && forall|j: int| 0 <= j < i ==> !supported.contains(#[trigger] current[j]),
        first_supported(current, supported) is None ==> forall|i: int|
            0 <= i < current.len() ==> !supported.contains(#[trigger] current[i]),
        current.len() > 0 && supported.contains(current[0]) ==> first_supported(current, supported) == Some(current[0]),
    decreases current.len(),
{
    if current.len() > 0 && !supported.contains(current[0]) {
        let rest = current.drop_first();
        lemma_first_supported(rest, supported);
        if first_supported(rest, supported) is Some {
            let l = first_supported(rest, supported)->Some_0;
            let k = choose|k: int| 0 <= k < rest.len() && #[trigger] rest[k] == l && supported.contains(l)
                && forall|j: int| 0 <= j < k ==> !supported.contains(#[trigger] rest[j]);
            assert(current[k + 1] == l);
            assert forall|j: int| 0 <= j < k + 1 implies !supported.contains(#[trigger] current[j]) by {
                if j > 0 {
                    assert(current[j] == rest[j - 1]);
                }
            }
        } else {
            assert forall|i: int| 0 <= i < current.len() implies !supported.contains(#[trigger] current[i]) by {
                if i > 0 {
                    assert(current[i] == rest[i - 1]);
                }
            }
        }
    } else if current.len() > 0 {
        assert(current[0] == current[0]);
    }
}

fn contains_string(v: &Vec<String>, s: &str) -> (res: bool)
    ensures
        res == views(v@).contains(s@),
{
    let mut i: usize = 0;
    while i < v.len()
        invariant
            i <= v@.len(),
            forall|j: int| 0 <= j < i ==> v@[j]@ != s@,
        decreases v@.len() - i,
    {
        if str_eq(v[i].as_str(), s) {
            assert(views(v@)[i as int] == s@);
            return true;
        }
        i = i + 1;
    }
    proof {
        if views(v@).contains(s@) {
            let j = choose|j: int| 0 <= j < views(v@).len() && views(v@)[j] == s@;
            assert(v@[j]@ == s@);
        }
    }
    false
}

impl AppState {
    /// The language a page is rendered in: the first of the loader's current
    /// languages that the application ships, or else the loader's fallback.
    pub fn lang(&self, current: &Vec<String>, supported: &Vec<String>, fallback: &str) -> (res: String)
        ensures
            res@ == match first_supported(views(current@), views(supported@)) {
                Some(l) => l,
                None => fallback@,
            },
            (exists|i: int| 0 <= i < current@.len() && views(supported@).contains(#[trigger] views(current@)[i])) ==> exists|i: int|
                0 <= i < current@.len() && #[trigger] views(current@)[i] == res@ && views(supported@).contains(res@)
                && forall|j: int| 0 <= j < i ==> !views(supported@).contains(#[trigger] views(current@)[j]),
            !(exists|i: int| 0 <= i < current@.len() && views(supported@).contains(#[trigger] views(current@)[i])) ==> res@ == fallback@,
    {
        proof {
            lemma_first_supported(views(current@), views(supported@));
        }
        let mut i: usize = 0;
        assert(views(current@).subrange(0, current@.len() as int) =~= views(current@));
        while i < current.len()
            invariant
                i <= current@.len(),
                first_supported(views(current@), views(supported@))
                    == first_supported(views(current@).subrange(i as int, current@.len() as int), views(supported@)),
            decreases current@.len() - i,
        {
            let ghost rest = views(current@).subrange(i as int, current@.len() as int);
            assert(rest[0] == current@[i as int]@);
            if contains_string(supported, current[i].as_str()) {
                proof {
                    lemma_first_supported(views(current@), views(supported@));
                    assert(first_supported(views(current@), views(supported@)) == Some(current@[i as int]@));
                }
                return current[i].clone();
            }
            assert(rest.drop_first() =~= views(current@).subrange(i + 1, current@.len() as int));
            i = i + 1;
        }
        fallback.to_owned()
    }
}

} // verus!
