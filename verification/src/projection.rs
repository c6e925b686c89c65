//! The read models built from feed events: the feed list with its
//! summaries, and the tag counters.

use vstd::prelude::*;
use crate::aggregate::Feed;
use crate::command::FeedMetadata;
use crate::event::{Created, FeedEvent, feed_event_from_name};
use crate::fake_data::{fake_name, is_full_name};
use crate::paging::PageArgs;
use crate::text::remove_first;

verus! {

/// A feed as the feed list shows it.
#[derive(Clone, Debug)]
pub struct UserFeed {
    pub id: String,
    pub title: String,
    pub author: String,
    pub content: String,
    pub content_short: String,
    pub total_likes: i32,
    pub tags: Vec<String>,
    /// The UUID of the author, as a 128-bit value.
    pub user_id: u128,
    /// Creation time, in microseconds since the Unix epoch.
    pub created_at: i64,
}

/// A stored event as the read models see it.
#[derive(Clone, Debug)]
pub struct StoredEvent {
    pub name: String,
    pub aggregate_id: String,
    /// Creation time, in microseconds since the Unix epoch.
    pub created_at: i64,
}

/// A payload or metadata that could not be decoded.
#[derive(Clone, Copy, Debug, PartialEq, Eq, Structural)]
pub struct DecodeError;

/// Why a read model could not handle an event.
#[derive(Clone, Copy, Debug, PartialEq, Eq, Structural)]
pub enum ProjectionError {
    /// The event's name is not a feed event.
    UnknownEvent,
    /// The event's payload or metadata did not decode.
    Decode,
}

/// The number of characters kept in a feed's summary.
pub const SUMMARY_CHARS: usize = 250;

/// The summary of a content: its first 250 characters.
pub open spec fn summary_of(content: Seq<char>) -> Seq<char> {
    if content.len() <= SUMMARY_CHARS {
        content
    } else {
        content.subrange(0, SUMMARY_CHARS as int)
    }
}

/// The summary shown in the feed list: the content's first 250 characters.
pub fn content_short(content: &str) -> (res: String)
    ensures
        res@ == summary_of(content@),
        res@.len() == if content@.len() <= SUMMARY_CHARS { content@.len() } else { SUMMARY_CHARS as nat },
        forall|i: int| 0 <= i < res@.len() ==> #[trigger] res@[i] == content@[i],
{
    let len = content.unicode_len();
    let end = if len < SUMMARY_CHARS { len } else { SUMMARY_CHARS };
    let short = content.substring_char(0, end);
    proof {
        if content@.len() <= SUMMARY_CHARS {
            assert(content@.subrange(0, len as int) =~= content@);
        }
    }
    short.to_owned()
}

/// The summary is the beginning of the content: all of it when it has at
/// most 250 characters, else its first 250, so that the summary followed by
/// the rest of the content is the content.
pub proof fn lemma_summary_is_prefix(content: Seq<char>)
    ensures
        summary_of(content).len() == if content.len() <= SUMMARY_CHARS { content.len() } else { SUMMARY_CHARS as nat },
        forall|i: int| 0 <= i < summary_of(content).len() ==> #[trigger] summary_of(content)[i] == content[i],
        summary_of(content) + content.subrange(summary_of(content).len() as int, content.len() as int) == content,
{
    assert(summary_of(content) + content.subrange(summary_of(content).len() as int, content.len() as int) =~= content);
}

/// `feed` is the feed list entry for a feed created by `event`, with `data`
/// its payload and `metadata` its metadata; the author's name is not
/// constrained.
pub open spec fn projected_feed(
    event: StoredEvent,
    metadata: FeedMetadata,
    data: Created,
    feed: UserFeed,
) -> bool {
    &&& feed.id@ == remove_first(event.aggregate_id@, "feed_"@)
    &&& feed.user_id == metadata.req_user
    &&& feed.title@ == data.title@
    &&& feed.content@ == data.content@
    &&& feed.content_short@ == summary_of(data.content@)
    &&& feed.total_likes == 0
    &&& feed.tags@ == data.tags@
    &&& feed.created_at == event.created_at
}

/// Builds the feed list entry of a new feed.
pub fn project_created(event: &StoredEvent, metadata: &FeedMetadata, data: Created, author: String) -> (res: UserFeed)
    ensures
        projected_feed(*event, *metadata, data, res),
        res.author@ == author@,
{
    let id = Feed::to_id(event.aggregate_id.as_str());
    let short = content_short(data.content.as_str());
    UserFeed {
        id,
        title: data.title,
        author,
        content: data.content,
        content_short: short,
        total_likes: 0,
        tags: data.tags,
        user_id: metadata.req_user,
        created_at: event.created_at,
    }
}

/// The hashid that `harsh`'s default coder writes for `values`.
pub uninterp spec fn hashid_of(values: Seq<u64>) -> Seq<char>;

/// The values that `harsh`'s default coder reads from `s`, when `s` is a
/// hashid.
pub uninterp spec fn hashid_decoding(s: Seq<char>) -> Option<Seq<u64>>;

/// The earliest time `chrono` has, the start of its first day in the year
/// -262143, in microseconds since the Unix epoch.
pub const EARLIEST_MICROS: i64 = -8334601228800000000;

/// The latest time `chrono` has, the last microsecond of 262142-12-31, in
/// microseconds since the Unix epoch.
pub const LATEST_MICROS: i64 = 8210266876799999999;

/// Whether `chrono` has a date and time `micros` microseconds after the
/// Unix epoch: whether it lies between its earliest and latest dates.
pub open spec fn micros_representable(micros: i64) -> bool {
    EARLIEST_MICROS <= micros <= LATEST_MICROS
}

/// The error `harsh`'s decoder gives for a text that is no hashid, carried
/// through unopened.
#[verifier::external_type_specification]
#[verifier::external_body]
pub struct ExHarshError(harsh::Error);

/// Whether `c` is one of the separators of `harsh`'s default coder, the
/// letters `cfhistuCFHISTU`.
pub open spec fn is_hashid_separator(c: char) -> bool {
    c == 'c' || c == 'f' || c == 'h' || c == 'i' || c == 's' || c == 't' || c == 'u'
        || c == 'C' || c == 'F' || c == 'H' || c == 'I' || c == 'S' || c == 'T' || c == 'U'
}

/// The number of bytes `c` takes in UTF-8.
pub open spec fn utf8_width(c: char) -> nat {
    if (c as u32) < 0x80 {
        1
    } else if (c as u32) < 0x800 {
        2
    } else if (c as u32) < 0x10000 {
        3
    } else {
        4
    }
}

/// The bytes of the stretch of non-separator characters that ends just
/// before position `i` of `s`.
pub open spec fn stretch_before(s: Seq<char>, i: int) -> nat
    decreases i,
{
    if i <= 0 {
        0
    } else if is_hashid_separator(s[i - 1]) {
        0
    } else {
        stretch_before(s, i - 1) + utf8_width(s[i - 1])
    }
}

/// Some separator stands before position `i` of `s`.
pub open spec fn separator_before(s: Seq<char>, i: int) -> bool {
    exists|k: int| 0 <= k < i && is_hashid_separator(#[trigger] s[k])
}

/// The stretch ending before position `i` is short enough: at most 12
/// bytes while no separator came yet (the lottery byte and 11 digits), at
/// most 11 bytes after one.
pub open spec fn stretch_fits(s: Seq<char>, i: int) -> bool {
    stretch_before(s, i) <= if separator_before(s, i) { 11nat } else { 12nat }
}

/// `s` can be handed to `harsh`'s decoder: every stretch between
/// separators is short enough that its digits, read in base 44, stay below
/// 44^11, which fits in a `u64`.
pub open spec fn hashid_digits_fit(s: Seq<char>) -> bool {
    forall|i: int| 0 <= i <= s.len() ==> #[trigger] stretch_fits(s, i)
}

/// 44 to the power 11: the first value whose hashid needs 12 digits.
pub const HASHID_DIGITS_LIMIT: u64 = 1196683881290399744;

/// Encodes one value with `harsh::Harsh::default().encode`, the encoding a
/// cursor writes its timestamp in. The hashid is named by `hashid_of`.
/// Claimed of it: one value is written as a lottery character followed by
/// its digits in base 44, all ASCII letters and digits and none a
/// separator, with no padding, so a value below 44^11 takes at most 12
/// characters.
#[verifier::external_body]
fn encode_hashid(value: u64) -> (res: String)
    ensures
        res@ == hashid_of(seq![value]),
        forall|i: int| 0 <= i < res@.len() ==> (#[trigger] res@[i] as u32) < 0x80 && !is_hashid_separator(res@[i]),
        value < HASHID_DIGITS_LIMIT ==> res@.len() <= 12,
{
    harsh::Harsh::default().encode(&[value])
}

/// Decodes with `harsh::Harsh::default().decode`, the reading of a
/// cursor's timestamp. What it reads is named by `hashid_decoding`.
/// Claimed of it: it accepts an input only when encoding the values it read
/// gives the input back, it reads at least one value, and the hashid of a
/// value reads back as that value.
///
/// The decoder adds up the digits of each stretch between separators in a
/// `u64` without checking for overflow, so a stretch of 12 digits can
/// overflow and panic. The input is therefore required to keep every
/// stretch within 11 digits, whose sum stays below 44^11: the first
/// stretch, which also holds the lottery byte, within 12 bytes, and every
/// later one within 11 bytes.
#[verifier::external_body]
fn decode_hashid(s: &str) -> (res: Result<Vec<u64>, harsh::Error>)
    requires
        hashid_digits_fit(s@),
    ensures
        res is Ok <==> hashid_decoding(s@) is Some,
        res matches Ok(v) ==> hashid_decoding(s@) == Some(v@) && v@.len() >= 1 && hashid_of(v@) == s@,
        res is Err ==> forall|x: u64| s@ != #[trigger] hashid_of(seq![x]),
        res matches Ok(v) ==> forall|x: u64| s@ == #[trigger] hashid_of(seq![x]) ==> v@ == seq![x],
{
    harsh::Harsh::default().decode(s)
}

/// Whether `c` is a separator of `harsh`'s default coder.
fn hashid_separator(c: char) -> (res: bool)
    ensures
        res == is_hashid_separator(c),
{
    c == 'c' || c == 'f' || c == 'h' || c == 'i' || c == 's' || c == 't' || c == 'u'
        || c == 'C' || c == 'F' || c == 'H' || c == 'I' || c == 'S' || c == 'T' || c == 'U'
}

/// The number of bytes `c` takes in UTF-8.
fn char_width(c: char) -> (res: usize)
    ensures
        res == utf8_width(c),
{
    let code = c as u32;
    if code < 0x80 {
        1
    } else if code < 0x800 {
        2
    } else if code < 0x10000 {
        3
    } else {
        4
    }
}

/// Tells whether `s` can be handed to `harsh`'s decoder without overflow.
pub fn hashid_fits(s: &str) -> (res: bool)
    ensures
        res == hashid_digits_fit(s@),
{
    let len = s.unicode_len();
    let mut i: usize = 0;
    let mut stretch: usize = 0;
    let mut seen = false;
    while i < len
        invariant
            len == s@.len(),
            i <= len,
            stretch == stretch_before(s@, i as int),
            seen == separator_before(s@, i as int),
            stretch <= 12,
            forall|j: int| 0 <= j <= i ==> #[trigger] stretch_fits(s@, j),
        decreases len - i,
    {
        let c = s.get_char(i);
        assert(stretch_before(s@, i + 1) == if is_hashid_separator(c) { 0 } else { stretch_before(s@, i as int) + utf8_width(c) });
        if hashid_separator(c) {
            stretch = 0;
            seen = true;
            assert(separator_before(s@, i + 1)) by {
                assert(is_hashid_separator(s@[i as int]));
            }
        } else {
            stretch = stretch + char_width(c);
            assert(separator_before(s@, i + 1) == separator_before(s@, i as int)) by {
                if separator_before(s@, i + 1) {
                    let k = choose|k: int| 0 <= k < i + 1 && is_hashid_separator(#[trigger] s@[k]);
                    assert(k != i);
                }
            }
            let limit: usize = if seen { 11 } else { 12 };
            if stretch > limit {
                assert(!stretch_fits(s@, i + 1));
                return false;
            }
        }
        i = i + 1;
        assert(stretch_fits(s@, i as int));
    }
    true
}

/// The hashid of one value below 44^11 can be handed to the decoder.
proof fn lemma_short_hashid_fits(s: Seq<char>)
    requires
        s.len() <= 12,
        forall|i: int| 0 <= i < s.len() ==> (#[trigger] s[i] as u32) < 0x80 && !is_hashid_separator(s[i]),
    ensures
        hashid_digits_fit(s),
{
    assert forall|i: int| 0 <= i <= s.len() implies #[trigger] stretch_fits(s, i) by {
        lemma_stretch_is_length(s, i);
        assert(!separator_before(s, i));
    }
}

/// With ASCII characters and no separator, the stretch before `i` is `i` bytes.
proof fn lemma_stretch_is_length(s: Seq<char>, i: int)
    requires
        0 <= i <= s.len(),
        forall|k: int| 0 <= k < s.len() ==> (#[trigger] s[k] as u32) < 0x80 && !is_hashid_separator(s[k]),
    ensures
        stretch_before(s, i) == i,
    decreases i,
{
    if i > 0 {
        lemma_stretch_is_length(s, i - 1);
        assert((s[i - 1] as u32) < 0x80);
    }
}

/// Calls `chrono::NaiveDateTime::from_timestamp_micros` and tells whether it
/// gave a date and time: exactly when the time lies between `chrono`'s
/// earliest and latest dates.
#[verifier::external_body]
#[allow(deprecated)]
fn representable_micros(micros: i64) -> (res: bool)
    ensures
        res == micros_representable(micros),
{
    chrono::NaiveDateTime::from_timestamp_micros(micros).is_some()
}

/// The cursor text of a creation time: the hashid of its microseconds, taken
/// as an unsigned number.
pub open spec fn timestamp_hashid(created_at: i64) -> Seq<char> {
    hashid_of(seq![created_at as u64])
}

/// Why cursor values could not be read back, in the terms of `evento_query`.
#[derive(Debug)]
pub enum CursorError {
    /// A value is missing; the name of its field.
    MissingField(String),
    /// The creation time is not a hashid.
    Harsh(harsh::Error),
    /// The creation time could not be read: out of `chrono`'s range (the
    /// field, the call that refused it, and what that call returned), or
    /// with more digits than `harsh` reads without overflow.
    Unknown(String, String, String),
}

/// `f` is the empty feed entry apart from its creation time and id.
pub open spec fn is_cursor_entry(f: UserFeed, created_at: int, id: Seq<char>) -> bool {
    &&& f.created_at == created_at
    &&& f.id@ == id
    &&& f.title@.len() == 0 && f.author@.len() == 0
    &&& f.content@.len() == 0 && f.content_short@.len() == 0
    &&& f.total_likes == 0 && f.tags@.len() == 0 && f.user_id == 0
}

impl Default for UserFeed {
    /// An entry with every field empty or zero.
    fn default() -> (res: UserFeed)
        ensures
            is_cursor_entry(res, 0, Seq::empty()),
    {
        UserFeed {
            id: String::new(),
            title: String::new(),
            author: String::new(),
            content: String::new(),
            content_short: String::new(),
            total_likes: 0,
            tags: Vec::new(),
            user_id: 0,
            created_at: 0,
        }
    }
}

/// A timestamp survives the trip through `u64`.
proof fn lemma_timestamp_cast(t: i64)
    ensures
        (t as u64) as i64 == t,
{
    assert((t as u64) as i64 == t) by (bit_vector);
}

impl UserFeed {
    /// The values of the entry's cursor, in the order of `keys`: the
    /// creation time as a hashid, then the id.
    pub fn serialize(&self) -> (res: Vec<String>)
        ensures
            res@.len() == 2,
            res@[0]@ == timestamp_hashid(self.created_at),
            res@[1]@ == self.id@,
            0 <= self.created_at < HASHID_DIGITS_LIMIT ==> hashid_digits_fit(res@[0]@),
    {
        let mut v: Vec<String> = Vec::new();
        let stamp = encode_hashid(self.created_at as u64);
        proof {
            if 0 <= self.created_at < HASHID_DIGITS_LIMIT {
                lemma_short_hashid_fits(stamp@);
            }
        }
        v.push(stamp);
        v.push(self.id.clone());
        v
    }

    /// Reads cursor values back, in the order of `keys`, into an entry that
    /// carries only the creation time and the id. A missing value, a
    /// creation time that is not a hashid, and one out of `chrono`'s range
    /// are refused, and so is a creation time with a stretch of digits too
    /// long for `harsh` to read without overflow. Values that begin with the
    /// hashid of a time in range give that time back.
    pub fn deserialize(values: &Vec<String>) -> (res: Result<UserFeed, CursorError>)
        ensures
            values@.len() == 0 ==> (res matches Err(CursorError::MissingField(f)) && f@ == "created_at"@),
            values@.len() >= 1 && !hashid_digits_fit(values@[0]@) ==> (res matches Err(CursorError::Unknown(a, b, c))
                && a@ == "created_at"@ && b@ == "Harsh::decode"@ && c@ == "more digits than a u64 holds"@),
            values@.len() >= 1 && hashid_digits_fit(values@[0]@) ==> match hashid_decoding(values@[0]@) {
                None => res matches Err(CursorError::Harsh(_)),
                Some(ts) => if !micros_representable(ts[0] as i64) {
                    res matches Err(CursorError::Unknown(a, b, c)) && a@ == "field"@
                        && b@ == "NaiveDateTime::from_timestamp_opt"@ && c@ == "none"@
                } else if values@.len() == 1 {
                    res matches Err(CursorError::MissingField(f)) && f@ == "id"@
                } else {
                    res matches Ok(e) && is_cursor_entry(e, (ts[0] as i64) as int, values@[1]@)
                },
            },
            forall|t: i64| values@.len() >= 2 && values@[0]@ == #[trigger] timestamp_hashid(t)
                && hashid_digits_fit(values@[0]@) && micros_representable(t)
                ==> (res matches Ok(e) && is_cursor_entry(e, t as int, values@[1]@)),
    {
        if values.len() == 0 {
            return Err(CursorError::MissingField("created_at".to_owned()));
        }
        if !hashid_fits(values[0].as_str()) {
            return Err(CursorError::Unknown(
                "created_at".to_owned(),
                "Harsh::decode".to_owned(),
                "more digits than a u64 holds".to_owned(),
            ));
        }
        let decoded = decode_hashid(values[0].as_str());
        proof {
            assert forall|t: i64| values@[0]@ == #[trigger] timestamp_hashid(t)
                implies hashid_decoding(values@[0]@) == Some(seq![t as u64]) && (t as u64) as i64 == t by {
                assert(values@[0]@ == hashid_of(seq![t as u64]));
                lemma_timestamp_cast(t);
            }
        }
        let stamps = match decoded {
            Ok(v) => v,
            Err(e) => return Err(CursorError::Harsh(e)),
        };
        let created_at = stamps[0] as i64;
        if !representable_micros(created_at) {
            return Err(CursorError::Unknown(
                "field".to_owned(),
                "NaiveDateTime::from_timestamp_opt".to_owned(),
                "none".to_owned(),
            ));
        }
        if values.len() < 2 {
            return Err(CursorError::MissingField("id".to_owned()));
        }
        let mut feed = UserFeed::default();
        feed.created_at = created_at;
        feed.id = values[1].clone();
        Ok(feed)
    }

    /// The columns a feed list is ordered and paged by: creation time, then id.
    pub fn keys() -> (res: Vec<&'static str>)
        ensures
            res@.len() == 2,
            res@[0]@ == "created_at"@,
            res@[1]@ == "id"@,
    {
        let mut v: Vec<&'static str> = Vec::new();
        v.push("created_at");
        v.push("id");
        v
    }
}

/// Keeps the feed list: each new feed gets an entry.
#[derive(Clone, Copy, Debug)]
pub struct FeedDetailsHandler;

impl FeedDetailsHandler {
    /// The entry to insert for `event`. An event name that is no feed event
    /// is an error; an event without metadata is skipped; for a `created`
    /// event the payload must decode, and the entry gets a random author,
    /// a first name, a space and a last name.
    pub fn handle(
        &self,
        event: &StoredEvent,
        metadata: Result<Option<FeedMetadata>, DecodeError>,
        data: Result<Created, DecodeError>,
    ) -> (res: Result<Option<UserFeed>, ProjectionError>)
        ensures
            feed_event_from_name(event.name@) is None ==> res == Err::<Option<UserFeed>, ProjectionError>(ProjectionError::UnknownEvent),
            feed_event_from_name(event.name@) is Some ==> match metadata {
                Err(_) => res == Err::<Option<UserFeed>, ProjectionError>(ProjectionError::Decode),
                Ok(None) => res matches Ok(None),
                Ok(Some(m)) => match data {
                    Err(_) => res == Err::<Option<UserFeed>, ProjectionError>(ProjectionError::Decode),
                    Ok(d) => res matches Ok(Some(f)) && projected_feed(*event, m, d, f) && is_full_name(f.author@),
                },
            },
    {
        let feed_event = match FeedEvent::from_str(event.name.as_str()) {
            Ok(e) => e,
            Err(_) => return Err(ProjectionError::UnknownEvent),
        };
        let metadata = match metadata {
            Ok(Some(m)) => m,
            Ok(None) => return Ok(None),
            Err(_) => return Err(ProjectionError::Decode),
        };
        match feed_event {
            FeedEvent::Created => {
                let data = match data {
                    Ok(d) => d,
                    Err(_) => return Err(ProjectionError::Decode),
                };
                let author = fake_name();
                let feed = project_created(event, &metadata, data, author);
                Ok(Some(feed))
            },
        }
    }
}

/// One tag and how many feeds carry it.
#[derive(Clone, Debug)]
pub struct TagCount {
    pub tag: String,
    pub total_count: i32,
}

/// Keeps the tag counters: each tag of a new feed is counted once more.
#[derive(Clone, Copy, Debug)]
pub struct TagsCountHandler;

impl TagsCountHandler {
    /// The tags whose counters `event` increments: those of a `created`
    /// event's payload. An event name that is no feed event, or a payload
    /// that did not decode, is an error.
    pub fn handle(&self, event: &StoredEvent, data: Result<Created, DecodeError>) -> (res: Result<Vec<String>, ProjectionError>)
        ensures
            feed_event_from_name(event.name@) is None ==> res == Err::<Vec<String>, ProjectionError>(ProjectionError::UnknownEvent),
            feed_event_from_name(event.name@) is Some ==> match data {
                Err(_) => res == Err::<Vec<String>, ProjectionError>(ProjectionError::Decode),
                Ok(d) => res matches Ok(tags) && tags@ == d.tags@,
            },
    {
        let feed_event = match FeedEvent::from_str(event.name.as_str()) {
            Ok(e) => e,
            Err(_) => return Err(ProjectionError::UnknownEvent),
        };
        match feed_event {
            FeedEvent::Created => match data {
                Ok(d) => Ok(d.tags),
                Err(_) => Err(ProjectionError::Decode),
            },
        }
    }
}

/// What the `feeds` subscriber does with `event`: an event name that is no
/// feed event is passed over; otherwise the metadata must decode and, for a
/// `created` event, the payload too, and the entry to insert gets a random
/// author, a first name, a space and a last name.
pub fn feeds_projection(
    event: &StoredEvent,
    metadata: Result<FeedMetadata, DecodeError>,
    data: Result<Created, DecodeError>,
) -> (res: Result<Option<UserFeed>, DecodeError>)
    ensures
        feed_event_from_name(event.name@) is None ==> res matches Ok(None),
        feed_event_from_name(event.name@) is Some ==> match metadata {
            Err(_) => res is Err,
            Ok(m) => match data {
                Err(_) => res is Err,
                Ok(d) => res matches Ok(Some(f)) && projected_feed(*event, m, d, f) && is_full_name(f.author@),
            },
        },
{
    let feed_event = match FeedEvent::from_str(event.name.as_str()) {
        Ok(e) => e,
        Err(_) => return Ok(None),
    };
    let metadata = match metadata {
        Ok(m) => m,
        Err(e) => return Err(e),
    };
    match feed_event {
        FeedEvent::Created => {
            let data = match data {
                Ok(d) => d,
                Err(e) => return Err(e),
            };
            let author = fake_name();
            Ok(Some(project_created(event, &metadata, data, author)))
        },
    }
}

/// What the `tags-count` subscriber does with `event`: an event name that is
/// no feed event is passed over; for a `created` event the payload must
/// decode, and its tags are counted once more.
pub fn tags_count_projection(event: &StoredEvent, data: Result<Created, DecodeError>) -> (res: Result<Option<Vec<String>>, DecodeError>)
    ensures
        feed_event_from_name(event.name@) is None ==> res matches Ok(None),
        feed_event_from_name(event.name@) is Some ==> match data {
            Err(_) => res is Err,
            Ok(d) => res matches Ok(Some(tags)) && tags@ == d.tags@,
        },
{
    let feed_event = match FeedEvent::from_str(event.name.as_str()) {
        Ok(e) => e,
        Err(_) => return Ok(None),
    };
    match feed_event {
        FeedEvent::Created => match data {
            Ok(d) => Ok(Some(d.tags)),
            Err(e) => Err(e),
        },
    }
}

/// Lists the feeds, newest first (by creation time, then id, descending),
/// optionally only those with a tag.
#[derive(Clone, Debug)]
pub struct ListFeedsInput {
    pub first: Option<u16>,
    pub after: Option<String>,
    pub last: Option<u16>,
    pub before: Option<String>,
    pub tag: Option<String>,
}

/// The database query that lists feeds.
#[derive(Clone, Debug)]
pub struct FeedListQuery {
    pub sql: String,
    pub tag: Option<String>,
    pub args: PageArgs,
    /// The rows are ordered by the cursor keys descending, newest first.
    pub descending: bool,
}

impl ListFeedsInput {
    /// The first page of the list, 20 feeds, optionally only those with `tag`.
    pub fn first_page(tag: Option<String>) -> (res: ListFeedsInput)
        ensures
            res.first == Some(20u16),
            res.after is None && res.last is None && res.before is None,
            res.tag == tag,
    {
        ListFeedsInput { first: Some(20), after: None, last: None, before: None, tag }
    }

    /// The query to run: all feeds, or those whose tags contain the tag,
    /// newest first, paged by the input's arguments.
    pub fn query(&self) -> (res: FeedListQuery)
        ensures
            self.tag is Some ==> res.sql@ == "SELECT * FROM feed_feeds WHERE tags @> ARRAY[$1]"@,
            self.tag is None ==> res.sql@ == "SELECT * FROM feed_feeds"@,
            res.tag == self.tag,
            res.args.first == self.first,
            res.args.after == self.after,
            res.args.last == self.last,
            res.args.before == self.before,
            res.descending,
    {
        let sql = match &self.tag {
            Some(_) => "SELECT * FROM feed_feeds WHERE tags @> ARRAY[$1]".to_owned(),
            None => "SELECT * FROM feed_feeds".to_owned(),
        };
        FeedListQuery {
            sql,
            tag: self.tag.clone(),
            args: PageArgs {
                first: self.first,
                after: self.after.clone(),
                last: self.last,
                before: self.before.clone(),
            },
            descending: true,
        }
    }
}

/// Fetches one feed by id.
#[derive(Clone, Debug)]
pub struct GetFeedInput {
    pub id: String,
}

/// Lists the five most used tags.
#[derive(Clone, Copy, Debug)]
pub struct ListPopularTagsInput;

} // verus!
