//! Creating a feed: the submitted form, its validation, and the event that
//! the creation command records.

use vstd::prelude::*;
use crate::event::Created;
use crate::fake_data::{count_char, choose_distinct, fake_buzzword, fake_paragraph, fake_sentence, is_sample_of, random_below};
use crate::ids::{is_crockford_digit, new_aggregate_key, new_request_id, parse_uuid, parsed_uuid};
use crate::text::{join3, str_eq};
use crate::validation::{ErrorMessage, ValidationError, ValidationErrors, ValidationErrorsKind, alert_lines, entries_lines, kind_lines, message_for};
use validator::ValidateLength;

verus! {

/// `s` names some string of `v`.
pub open spec fn contains_view(v: Seq<String>, s: Seq<char>) -> bool {
    exists|j: int| 0 <= j < v.len() && #[trigger] v[j]@ == s
}

/// No two strings of `v` are equal.
pub open spec fn distinct_views(v: Seq<String>) -> bool {
    forall|i: int, j: int| 0 <= i < j < v.len() ==> #[trigger] v[i]@ != #[trigger] v[j]@
}

/// `a` and `b` hold the same strings, as sets.
pub open spec fn same_strings(a: Seq<String>, b: Seq<String>) -> bool {
    &&& forall|i: int| 0 <= i < a.len() ==> contains_view(b, #[trigger] a[i]@)
    &&& forall|j: int| 0 <= j < b.len() ==> contains_view(a, #[trigger] b[j]@)
}

fn contains_str(v: &Vec<String>, s: &str) -> (res: bool)
    ensures
        res == contains_view(v@, s@),
{
    let mut i: usize = 0;
    while i < v.len()
        invariant
            i <= v@.len(),
            forall|j: int| 0 <= j < i ==> v@[j]@ != s@,
        decreases v@.len() - i,
    {
        if str_eq(v[i].as_str(), s) {
            return true;
        }
        i = i + 1;
    }
    false
}

/// The tags with repetitions dropped, each kept once, in order of first
/// appearance.
pub fn distinct_tags(tags: &Vec<String>) -> (res: Vec<String>)
    ensures
        distinct_views(res@),
        same_strings(res@, tags@),
{
    let mut res: Vec<String> = Vec::new();
    let mut i: usize = 0;
    while i < tags.len()
        invariant
            i <= tags@.len(),
            distinct_views(res@),
            forall|k: int| 0 <= k < res@.len() ==> contains_view(tags@.subrange(0, i as int), #[trigger] res@[k]@),
            forall|j: int| 0 <= j < i ==> contains_view(res@, #[trigger] tags@[j]@),
        decreases tags@.len() - i,
    {
        let ghost old_res = res@;
        if !contains_str(&res, tags[i].as_str()) {
            res.push(tags[i].clone());
            proof {
                assert forall|k: int| 0 <= k < res@.len() implies contains_view(tags@.subrange(0, i + 1), #[trigger] res@[k]@) by {
                    if k < old_res.len() {
                        let j = choose|j: int| 0 <= j < i && #[trigger] tags@.subrange(0, i as int)[j]@ == res@[k]@;
                        assert(tags@.subrange(0, i + 1)[j] == tags@.subrange(0, i as int)[j]);
                    } else {
                        assert(tags@.subrange(0, i + 1)[i as int] == tags@[i as int]);
                    }
                }
                assert forall|j: int| 0 <= j < i + 1 implies contains_view(res@, #[trigger] tags@[j]@) by {
                    if j < i {
                        let k = choose|k: int| 0 <= k < old_res.len() && #[trigger] old_res[k]@ == tags@[j]@;
                        assert(res@[k] == old_res[k]);
                    } else {
                        assert(res@[old_res.len() as int]@ == tags@[j]@);
                    }
                }
            }
        } else {
            proof {
                assert forall|k: int| 0 <= k < res@.len() implies contains_view(tags@.subrange(0, i + 1), #[trigger] res@[k]@) by {
                    let j = choose|j: int| 0 <= j < i && #[trigger] tags@.subrange(0, i as int)[j]@ == res@[k]@;
                    assert(tags@.subrange(0, i + 1)[j] == tags@.subrange(0, i as int)[j]);
                }
            }
        }
        i = i + 1;
    }
    proof {
        assert(tags@.subrange(0, i as int) =~= tags@);
    }
    res
}

/// The form that creates a feed.
#[derive(Clone, Debug)]
pub struct CreateFeedInput {
    pub title: String,
    pub user_id: String,
    pub request_id: Option<String>,
}

/// Who asked for a change, recorded beside its events.
#[derive(Clone, Debug)]
pub struct FeedMetadata {
    pub req_id: String,
    pub req_user: u128,
}

/// A feed creation ready to be committed: the id of the new aggregate, the
/// metadata and the `created` event.
#[derive(Debug)]
pub struct FeedCreation {
    pub aggregate_key: String,
    pub metadata: FeedMetadata,
    pub event: Created,
}

/// Why a creation was refused.
#[derive(Clone, Copy, Debug, PartialEq, Eq, Structural)]
pub enum CreateFeedError {
    /// The user id is not a UUID.
    InvalidUserId,
}

/// The fewest characters a title may have.
pub const TITLE_MIN_CHARS: u64 = 3;
/// The most characters a title may have.
pub const TITLE_MAX_CHARS: u64 = 100;

/// A title is accepted when it has 3 to 100 characters.
pub open spec fn title_is_valid(title: Seq<char>) -> bool {
    TITLE_MIN_CHARS <= title.len() <= TITLE_MAX_CHARS
}

/// How the Rust `Debug` format prints a string: quoted, with escapes.
pub uninterp spec fn str_debug(s: Seq<char>) -> Seq<char>;

/// Prints `s` with `format!("{:?}", s)`, the `Debug` format of `str`, which
/// `serde_json::Value` uses for a string value. The text is named by
/// `str_debug`, a function of `s` alone.
#[verifier::external_body]
fn debug_str(s: &str) -> (res: String)
    ensures
        res@ == str_debug(s@),
{
    format!("{:?}", s)
}

/// The parameters of the title's length check as `validator` prints them:
/// the bounds and the title itself. `validator` keeps them in a hash map,
/// whose printing order varies; they are given here in the order min, max,
/// value.
pub open spec fn title_params_text(title: Seq<char>) -> Seq<char> {
    "{\"min\": Number(3), \"max\": Number(100), \"value\": String("@ + str_debug(title) + ")}"@
}

/// The error the form gets for the title `title` of the wrong length.
pub open spec fn title_length_error(e: ValidationError, title: Seq<char>) -> bool {
    &&& e.code@ == "length"@
    &&& e.message is None
    &&& e.params@ == title_params_text(title)
    &&& e.min == Some(TITLE_MIN_CHARS as i64)
    &&& e.max == Some(TITLE_MAX_CHARS as i64)
    &&& e.equal is None
}

/// Calls `validator::ValidateLength::validate_length` on the text with the
/// given bounds and no exact length. Claimed of it: the text is measured by
/// its count of characters and accepted when the count lies within the
/// bounds.
#[verifier::external_body]
fn validate_length(value: &str, min: u64, max: u64) -> (res: bool)
    ensures
        res == (min <= value@.len() <= max),
{
    value.validate_length(Some(min), Some(max), None)
}

impl CreateFeedInput {
    /// Checks the form: the title must have 3 to 100 characters. A refused
    /// form gets one `length` error on `title` carrying both bounds.
    pub fn validate(&self) -> (res: Result<(), ValidationErrors>)
        ensures
            res is Ok <==> title_is_valid(self.title@),
            res matches Err(e) ==> e.errors@.len() == 1 && e.errors@[0].0@ == "title"@
                && (e.errors@[0].1 matches ValidationErrorsKind::Field(errs)
                    && errs@.len() == 1 && title_length_error(errs@[0], self.title@)),
    {
        if validate_length(self.title.as_str(), TITLE_MIN_CHARS, TITLE_MAX_CHARS) {
            return Ok(());
        }
        let shown = debug_str(self.title.as_str());
        let params = join3("{\"min\": Number(3), \"max\": Number(100), \"value\": String(", shown.as_str(), ")}");
        let err = ValidationError {
            code: "length".to_owned(),
            message: None,
            params,
            min: Some(TITLE_MIN_CHARS as i64),
            max: Some(TITLE_MAX_CHARS as i64),
            equal: None,
        };
        let mut field_errs: Vec<ValidationError> = Vec::new();
        field_errs.push(err);
        let mut errors: Vec<(String, ValidationErrorsKind)> = Vec::new();
        errors.push(("title".to_owned(), ValidationErrorsKind::Field(field_errs)));
        Err(ValidationErrors { errors })
    }

    /// Assembles a creation from the values drawn for it: the aggregate key,
    /// a fresh request id (used when the form carries none), the tags drawn
    /// (repetitions dropped), and the title and content of the event. The
    /// creation is refused when the user id is not a UUID. The form's own
    /// title is not used: the event carries the drawn title.
    pub fn build_creation(
        &self,
        aggregate_key: String,
        fresh_request_id: String,
        drawn_tags: &Vec<String>,
        title: String,
        content: String,
    ) -> (res: Result<FeedCreation, CreateFeedError>)
        ensures
            res is Err <==> parsed_uuid(self.user_id@) is None,
            res matches Err(e) ==> e == CreateFeedError::InvalidUserId,
            res matches Ok(c) ==> {
                &&& c.aggregate_key@ == aggregate_key@
                &&& Some(c.metadata.req_user) == parsed_uuid(self.user_id@)
                &&& c.metadata.req_id@ == match self.request_id {
                    Some(r) => r@,
                    None => fresh_request_id@,
                }
                &&& c.event.title@ == title@
                &&& c.event.content@ == content@
                &&& distinct_views(c.event.tags@)
                &&& same_strings(c.event.tags@, drawn_tags@)
            },
    {
        let tags = distinct_tags(drawn_tags);
        let req_user = match parse_uuid(self.user_id.as_str()) {
            Some(u) => u,
            None => return Err(CreateFeedError::InvalidUserId),
        };
        let req_id = match &self.request_id {
            Some(r) => r.clone(),
            None => fresh_request_id,
        };
        Ok(FeedCreation {
            aggregate_key,
            metadata: FeedMetadata { req_id, req_user },
            event: Created { title, content, tags },
        })
    }

    /// Prepares the creation of a feed with sample content: five random
    /// buzzwords are drawn, one to five of them are picked as tags (each
    /// kept once, none empty), a new ULID keys the aggregate, the title is a lorem
    /// sentence of five to nine words and the content a paragraph of 50 to
    /// 99 sentences. Refused when the user id is not a UUID.
    pub fn handle(&self) -> (res: Result<FeedCreation, CreateFeedError>)
        ensures
            res is Err <==> parsed_uuid(self.user_id@) is None,
            res matches Ok(c) ==> {
                &&& c.aggregate_key@.len() == 26
                &&& forall|i: int| 0 <= i < 26 ==> is_crockford_digit(#[trigger] c.aggregate_key@[i])
                &&& Some(c.metadata.req_user) == parsed_uuid(self.user_id@)
                &&& match self.request_id {
                    Some(r) => c.metadata.req_id@ == r@,
                    None => c.metadata.req_id@.len() == 36 && parsed_uuid(c.metadata.req_id@) is Some,
                }
                &&& c.event.title@.len() > 0 && c.event.title@.last() == '.'
                &&& 5 <= count_char(c.event.title@, ' ') + 1 <= 9
                &&& 50 <= count_char(c.event.content@, '\n') + 1 <= 99
                &&& distinct_views(c.event.tags@)
                &&& 1 <= c.event.tags@.len() <= 5
                &&& forall|i: int| 0 <= i < c.event.tags@.len() ==> #[trigger] c.event.tags@[i]@.len() > 0
            },
    {
        let mut pool: Vec<String> = Vec::new();
        let mut k: usize = 0;
        while k < 5
            invariant
                k <= 5,
                pool@.len() == k,
                forall|j: int| 0 <= j < k ==> #[trigger] pool@[j]@.len() > 0,
            decreases 5 - k,
        {
            pool.push(fake_buzzword());
            k = k + 1;
        }
        let amount = random_below(1, 6);
        let drawn = choose_distinct(&pool, amount);
        let aggregate_key = new_aggregate_key();
        let fresh_request_id = new_request_id();
        let title = fake_sentence(5, 10);
        let content = fake_paragraph(50, 100);
        let res = self.build_creation(aggregate_key, fresh_request_id, &drawn, title, content);
        proof {
            if res is Ok {
                let c = res->Ok_0;
                assert(drawn@.len() >= 1);
                assert(contains_view(c.event.tags@, drawn@[0]@));
                lemma_distinct_subset_len(c.event.tags@, pool@, drawn@);
                let pos = choose|pos: Seq<int>|
                    #![trigger pos.len()]
                    pos.len() == drawn@.len()
                    && pos.no_duplicates()
                    && (forall|i: int| 0 <= i < pos.len() ==> 0 <= #[trigger] pos[i] < pool@.len())
                    && (forall|i: int| 0 <= i < pos.len() ==> #[trigger] drawn@[i]@ == pool@[pos[i]]@);
                assert forall|i: int| 0 <= i < c.event.tags@.len() implies #[trigger] c.event.tags@[i]@.len() > 0 by {
                    assert(contains_view(drawn@, c.event.tags@[i]@));
                    let j = choose|j: int| 0 <= j < drawn@.len() && #[trigger] drawn@[j]@ == c.event.tags@[i]@;
                    assert(drawn@[j]@ == pool@[pos[j]]@);
                    assert(pool@[pos[j]]@.len() > 0);
                }
            }
        }
        res
    }
}

/// Why a submitted form did not lead to a creation.
#[derive(Debug)]
pub enum SubmitError {
    /// The form failed validation; the alert lists these errors.
    Invalid(ValidationErrors),
    /// The creation command refused the form.
    Refused(CreateFeedError),
}

impl CreateFeedInput {
    /// Handles a submitted form: it is validated first and, when valid,
    /// prepared for creation. A form that fails validation never reaches
    /// the command.
    pub fn submit(&self) -> (res: Result<FeedCreation, SubmitError>)
        ensures
            !title_is_valid(self.title@) ==> (res matches Err(SubmitError::Invalid(e))
                && alert_lines(e) == seq![("title"@, ErrorMessage::LengthMinMax(3, 100))]),
            title_is_valid(self.title@) ==> match res {
                Err(SubmitError::Invalid(_)) => false,
                Err(SubmitError::Refused(e)) => e == CreateFeedError::InvalidUserId
                    && parsed_uuid(self.user_id@) is None,
                Ok(c) => parsed_uuid(self.user_id@) == Some(c.metadata.req_user)
                    && distinct_views(c.event.tags@) && 1 <= c.event.tags@.len() <= 5,
            },
    {
        match self.validate() {
            Err(errors) => {
                proof {
                    lemma_refused_title_alert(errors, self.title@);
                }
                Err(SubmitError::Invalid(errors))
            },
            Ok(()) => match self.handle() {
                Ok(c) => Ok(c),
                Err(e) => Err(SubmitError::Refused(e)),
            },
        }
    }
}

/// Distinct strings that all come from a sample of a five-element pool are
/// at most five.
proof fn lemma_distinct_subset_len(tags: Seq<String>, pool: Seq<String>, drawn: Seq<String>)
    requires
        distinct_views(tags),
        pool.len() == 5,
        is_sample_of(drawn, pool),
        forall|i: int| 0 <= i < tags.len() ==> contains_view(drawn, #[trigger] tags[i]@),
    ensures
        tags.len() <= 5,
{
    let pos = choose|pos: Seq<int>|
        #![trigger pos.len()]
        pos.len() == drawn.len()
        && pos.no_duplicates()
        && (forall|i: int| 0 <= i < pos.len() ==> 0 <= #[trigger] pos[i] < pool.len())
        && (forall|i: int| 0 <= i < pos.len() ==> #[trigger] drawn[i]@ == pool[pos[i]]@);
    // every tag equals some pool element; distinct tags map to distinct pool positions
    let f = |i: int| {
        let j = choose|j: int| 0 <= j < drawn.len() && #[trigger] drawn[j]@ == tags[i]@;
        pos[j]
    };
    let img = Seq::new(tags.len(), f);
    assert forall|i: int| 0 <= i < tags.len() implies 0 <= #[trigger] img[i] < 5 && pool[img[i]]@ == tags[i]@ by {
        assert(contains_view(drawn, tags[i]@));
        let j = choose|j: int| 0 <= j < drawn.len() && #[trigger] drawn[j]@ == tags[i]@;
        assert(img[i] == pos[j]);
    }
    assert(img.no_duplicates()) by {
        assert forall|a: int, b: int| 0 <= a < img.len() && 0 <= b < img.len() && a != b implies img[a] != img[b] by {
            if img[a] == img[b] {
                assert(tags[a]@ == tags[b]@);
                if a < b {
                    assert(tags[a]@ != tags[b]@);
                } else {
                    assert(tags[b]@ != tags[a]@);
                }
            }
        }
    }
    lemma_injective_into_range(img, 5);
}

/// A sequence of distinct integers drawn from `0..n` has at most `n` elements.
proof fn lemma_injective_into_range(s: Seq<int>, n: int)
    requires
        0 <= n,
        s.no_duplicates(),
        forall|i: int| 0 <= i < s.len() ==> 0 <= #[trigger] s[i] < n,
    ensures
        s.len() <= n,
{
    let set = s.to_set();
    s.unique_seq_to_set();
    assert(set.subset_of(Set::new(|x: int| 0 <= x < n)));
    vstd::set_lib::lemma_int_range(0, n);
    assert(Set::new(|x: int| 0 <= x < n) =~= vstd::set_lib::set_int_range(0, n));
    vstd::set_lib::lemma_len_subset(set, vstd::set_lib::set_int_range(0, n));
}

/// A refused form is answered with one line: the `title` field and the
/// message for a length between 3 and 100.
pub proof fn lemma_refused_title_alert(errors: ValidationErrors, title: Seq<char>)
    requires
        errors.errors@.len() == 1,
        errors.errors@[0].0@ == "title"@,
        errors.errors@[0].1 matches ValidationErrorsKind::Field(errs) && errs@.len() == 1 && title_length_error(errs@[0], title),
    ensures
        alert_lines(errors) == seq![("title"@, ErrorMessage::LengthMinMax(3, 100))],
{
    reveal_strlit("length");
    reveal_strlit("email");
    reveal_strlit("required");
    reveal_strlit("phone");
    let e = errors.errors@;
    let errs = e[0].1->Field_0;
    assert(e.subrange(0, 0) =~= Seq::<(String, ValidationErrorsKind)>::empty());
    assert(Seq::<char>::empty() + e[0].0@ =~= "title"@);
    assert(errs@[0].code@ == "length"@);
    assert("length"@.len() == 6 && "email"@.len() == 5 && "required"@.len() == 8);
    assert("length"@[0] != "phone"@[0]);
    assert(message_for(errs@[0]) == ErrorMessage::LengthMinMax(3, 100));
    assert(kind_lines(e[0].1, "title"@) =~= seq![("title"@, ErrorMessage::LengthMinMax(3, 100))]);
    assert(entries_lines(e, Seq::empty()) == entries_lines(e.subrange(0, 0), Seq::empty()) + kind_lines(e[0].1, Seq::<char>::empty() + e[0].0@));
    assert(alert_lines(errors) =~= seq![("title"@, ErrorMessage::LengthMinMax(3, 100))]);
}

} // verus!
