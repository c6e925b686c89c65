//! Validation errors of submitted forms and how the error alert lists
//! them: one line per failed check, with the dotted path of the field and
//! the message to show.

use vstd::prelude::*;
use crate::text::{decimal, join2, join3, str_eq, usize_to_decimal};

verus! {

/// One failed check on one field.
#[derive(Clone, Debug)]
pub struct ValidationError {
    /// What was checked: `length`, `email`, `required`, `phone`, ...
    pub code: String,
    /// A message chosen by the check itself, shown as it is.
    pub message: Option<String>,
    /// The check's parameters as `validator` prints them: `{:?}` of its
    /// map from parameter names to JSON values.
    pub params: String,
    /// The `min` parameter of the check, when it has one.
    pub min: Option<i64>,
    /// The `max` parameter of the check, when it has one.
    pub max: Option<i64>,
    /// The `equal` parameter of the check, when it has one.
    pub equal: Option<i64>,
}

/// The errors of one field: its own failed checks, those of a nested
/// structure, or those of the elements of a list (by index).
#[derive(Debug)]
pub enum ValidationErrorsKind {
    Struct(Box<ValidationErrors>),
    List(Vec<(usize, ValidationErrors)>),
    Field(Vec<ValidationError>),
}

/// The errors of a structure, field by field.
#[derive(Debug)]
pub struct ValidationErrors {
    pub errors: Vec<(String, ValidationErrorsKind)>,
}

/// What the alert shows for one failed check; all but `Custom` and
/// `Unlocalized` are looked up in the translations.
#[derive(Clone, Debug)]
pub enum ErrorMessage {
    /// The check's own message.
    Custom(String),
    Email,
    Required,
    Phone,
    LengthEqual(i64),
    LengthMax(i64),
    LengthMin(i64),
    LengthMinMax(i64, i64),
    /// No translation: the error itself, shown as `validator` prints it
    /// (see `ValidationError::to_string`).
    Unlocalized(ValidationError),
}

/// One line of the error alert.
#[derive(Clone, Debug)]
pub struct ErrorLine {
    pub path: String,
    pub message: ErrorMessage,
}

/// The message shown for one failed check.
pub open spec fn message_for(e: ValidationError) -> ErrorMessage {
    if e.message is Some {
        ErrorMessage::Custom(e.message.unwrap())
    } else if e.code@ == "email"@ {
        ErrorMessage::Email
    } else if e.code@ == "required"@ {
        ErrorMessage::Required
    } else if e.code@ == "phone"@ {
        ErrorMessage::Phone
    } else if e.code@ == "length"@ {
        match (e.min, e.max, e.equal) {
            (None, None, Some(eq)) => ErrorMessage::LengthEqual(eq),
            (None, Some(mx), None) => ErrorMessage::LengthMax(mx),
            (Some(mn), None, None) => ErrorMessage::LengthMin(mn),
            (Some(mn), Some(mx), None) => ErrorMessage::LengthMinMax(mn, mx),
            _ => ErrorMessage::Unlocalized(e),
        }
    } else {
        ErrorMessage::Unlocalized(e)
    }
}

/// How `validator` prints an error: its own message when it has one, else
/// `Validation error: `, the code, and the parameters in square brackets.
pub open spec fn error_text(e: ValidationError) -> Seq<char> {
    match e.message {
        Some(m) => m@,
        None => "Validation error: "@ + e.code@ + " ["@ + e.params@ + "]"@,
    }
}

/// A copy of `e`, field by field.
fn copy_error(e: &ValidationError) -> (res: ValidationError)
    ensures
        res == *e,
{
    let message = match &e.message {
        Some(m) => Some(m.clone()),
        None => None,
    };
    ValidationError {
        code: e.code.clone(),
        message,
        params: e.params.clone(),
        min: e.min,
        max: e.max,
        equal: e.equal,
    }
}

impl ValidationError {
    /// The error as `validator`'s `Display` prints it.
    pub fn to_string(&self) -> (res: String)
        ensures
            res@ == error_text(*self),
    {
        match &self.message {
            Some(m) => m.clone(),
            None => {
                let head = join3("Validation error: ", self.code.as_str(), " [");
                join3(head.as_str(), self.params.as_str(), "]")
            },
        }
    }
}

/// The alert lines of the errors `k` of the field at `path`.
pub open spec fn kind_lines(k: ValidationErrorsKind, path: Seq<char>) -> Seq<(Seq<char>, ErrorMessage)>
    decreases k,
{
    match k {
        ValidationErrorsKind::Field(errs) => errs@.map_values(|e: ValidationError| (path, message_for(e))),
        ValidationErrorsKind::Struct(b) => entries_lines(b.errors@, path + "."@),
        ValidationErrorsKind::List(items) => list_lines(items@, path),
    }
}

/// The alert lines of the fields `entries`, each at `prefix` followed by its name.
pub open spec fn entries_lines(entries: Seq<(String, ValidationErrorsKind)>, prefix: Seq<char>) -> Seq<(Seq<char>, ErrorMessage)>
    decreases entries,
{
    if entries.len() == 0 {
        Seq::empty()
    } else {
        let n = entries.len() - 1;
        entries_lines(entries.subrange(0, n), prefix) + kind_lines(entries[n].1, prefix + entries[n].0@)
    }
}

/// The alert lines of the list elements `items`, element `i` at `path[i].`.
pub open spec fn list_lines(items: Seq<(usize, ValidationErrors)>, path: Seq<char>) -> Seq<(Seq<char>, ErrorMessage)>
    decreases items,
{
    if items.len() == 0 {
        Seq::empty()
    } else {
        let n = items.len() - 1;
        list_lines(items.subrange(0, n), path) + entries_lines(
            items[n].1.errors@,
            path + "["@ + decimal(items[n].0 as nat) + "]."@,
        )
    }
}

/// The alert lists the elements of a list one after the other, in order:
/// adding an element adds its lines after those of the elements before it,
/// each under the list's path with the element's index in brackets.
pub proof fn lemma_list_lines_append(items: Seq<(usize, ValidationErrors)>, x: (usize, ValidationErrors), path: Seq<char>)
    ensures
        list_lines(items.push(x), path) == list_lines(items, path)
            + entries_lines(x.1.errors@, path + "["@ + decimal(x.0 as nat) + "]."@),
        list_lines(items.push(x), path).len() == list_lines(items, path).len()
            + entries_lines(x.1.errors@, path + "["@ + decimal(x.0 as nat) + "]."@).len(),
{
    assert(items.push(x).subrange(0, items.len() as int) =~= items);
}

/// The alert lists the fields one after the other, in order: adding a field
/// adds its lines after those of the fields before it, under the prefix
/// followed by the field's name.
pub proof fn lemma_entries_lines_append(entries: Seq<(String, ValidationErrorsKind)>, x: (String, ValidationErrorsKind), prefix: Seq<char>)
    ensures
        entries_lines(entries.push(x), prefix) == entries_lines(entries, prefix) + kind_lines(x.1, prefix + x.0@),
{
    assert(entries.push(x).subrange(0, entries.len() as int) =~= entries);
}

/// A field's own failed checks give one line each, in order, all under the
/// field's path, each with the message of its check.
pub proof fn lemma_field_lines(errs: Vec<ValidationError>, path: Seq<char>)
    ensures
        kind_lines(ValidationErrorsKind::Field(errs), path).len() == errs@.len(),
        forall|i: int| 0 <= i < errs@.len() ==> #[trigger] kind_lines(ValidationErrorsKind::Field(errs), path)[i]
            == (path, message_for(errs@[i])),
{
}

/// The lines of the whole alert: each top-level field at its own name.
pub open spec fn alert_lines(errs: ValidationErrors) -> Seq<(Seq<char>, ErrorMessage)> {
    entries_lines(errs.errors@, Seq::empty())
}

/// The view of alert lines.
pub open spec fn lines_view(lines: Seq<ErrorLine>) -> Seq<(Seq<char>, ErrorMessage)> {
    lines.map_values(|l: ErrorLine| (l.path@, l.message))
}

/// The message shown for one failed check: its own message when it has one,
/// else the translation chosen by its code and, for `length`, by which of
/// its `min`, `max` and `equal` parameters are set; a code without a
/// translation, and a `length` check with another set of parameters, show
/// the error as `validator` prints it.
pub fn display_error(err: &ValidationError) -> (res: ErrorMessage)
    ensures
        res == message_for(*err),
{
    if let Some(msg) = &err.message {
        return ErrorMessage::Custom(msg.clone());
    }
    let code = err.code.as_str();
    if str_eq(code, "email") {
        ErrorMessage::Email
    } else if str_eq(code, "required") {
        ErrorMessage::Required
    } else if str_eq(code, "phone") {
        ErrorMessage::Phone
    } else if str_eq(code, "length") {
        match (err.min, err.max, err.equal) {
            (None, None, Some(eq)) => ErrorMessage::LengthEqual(eq),
            (None, Some(mx), None) => ErrorMessage::LengthMax(mx),
            (Some(mn), None, None) => ErrorMessage::LengthMin(mn),
            (Some(mn), Some(mx), None) => ErrorMessage::LengthMinMax(mn, mx),
            _ => ErrorMessage::Unlocalized(copy_error(err)),
        }
    } else {
        ErrorMessage::Unlocalized(copy_error(err))
    }
}

/// Appends the alert lines of the errors `errs` of the field at `path`.
pub fn display_errors(errs: &ValidationErrorsKind, path: &str, out: &mut Vec<ErrorLine>)
    ensures
        lines_view(final(out)@) == lines_view(old(out)@) + kind_lines(*errs, path@),
    decreases errs,
{
    match errs {
        ValidationErrorsKind::Field(field_errs) => {
            let ghost start = lines_view(out@);
            let mut i: usize = 0;
            while i < field_errs.len()
                invariant
                    i <= field_errs@.len(),
                    lines_view(out@) == start + field_errs@.subrange(0, i as int).map_values(
                        |e: ValidationError| (path@, message_for(e)),
                    ),
                decreases field_errs@.len() - i,
            {
                let message = display_error(&field_errs[i]);
                let ghost prev = out@;
                out.push(ErrorLine { path: path.to_owned(), message });
                proof {
                    let f = |e: ValidationError| (path@, message_for(e));
                    assert(lines_view(out@) =~= lines_view(prev).push((path@, message_for(field_errs@[i as int]))));
                    assert(field_errs@.subrange(0, i + 1) =~= field_errs@.subrange(0, i as int).push(field_errs@[i as int]));
                    assert(field_errs@.subrange(0, i + 1).map_values(f) =~= field_errs@.subrange(0, i as int).map_values(f).push(f(field_errs@[i as int])));
                }
                i = i + 1;
            }
            assert(field_errs@.subrange(0, i as int) =~= field_errs@);
        },
        ValidationErrorsKind::Struct(inner) => {
            let prefix = join2(path, ".");
            display_struct_entries(&inner.errors, prefix.as_str(), out);
        },
        ValidationErrorsKind::List(items) => {
            let ghost start = lines_view(out@);
            let mut i: usize = 0;
            while i < items.len()
                invariant
                    i <= items@.len(),
                    lines_view(out@) == start + list_lines(items@.subrange(0, i as int), path@),
                    *errs == ValidationErrorsKind::List(*items),
                decreases items@.len() - i,
            {
                let idx = usize_to_decimal(items[i].0);
                let head = join3(path, "[", idx.as_str());
                let prefix = join2(head.as_str(), "].");
                proof {
                    reveal_strlit("].");
                    reveal_strlit("[");
                    assert(prefix@ =~= path@ + "["@ + decimal(items@[i as int].0 as nat) + "]."@);
                }
                proof {
                    assert(decreases_to!(*errs => (*errs)->List_0));
                    assert(decreases_to!(items => items@));
                    assert(decreases_to!(items@ => items@[i as int]));
                    assert(decreases_to!(items@[i as int] => items@[i as int].1));
                    assert(decreases_to!(items@[i as int].1 => items@[i as int].1.errors));
                    assert(decreases_to!(*errs => items@[i as int].1.errors));
                }
                display_struct_entries(&items[i].1.errors, prefix.as_str(), out);
                assert(items@.subrange(0, i + 1).subrange(0, i as int) =~= items@.subrange(0, i as int));
                i = i + 1;
            }
            assert(items@.subrange(0, i as int) =~= items@);
        },
    }
}

/// Appends the alert lines of the fields `entries`, each at `prefix`
/// followed by the field's name.
pub fn display_struct_entries(entries: &Vec<(String, ValidationErrorsKind)>, prefix: &str, out: &mut Vec<ErrorLine>)
    ensures
        lines_view(final(out)@) == lines_view(old(out)@) + entries_lines(entries@, prefix@),
    decreases entries,
{
    let ghost start = lines_view(out@);
    let mut i: usize = 0;
    while i < entries.len()
        invariant
            i <= entries@.len(),
            lines_view(out@) == start + entries_lines(entries@.subrange(0, i as int), prefix@),
        decreases entries@.len() - i,
    {
        let path = join2(prefix, entries[i].0.as_str());
        display_errors(&entries[i].1, path.as_str(), out);
        assert(entries@.subrange(0, i + 1).subrange(0, i as int) =~= entries@.subrange(0, i as int));
        i = i + 1;
    }
    assert(entries@.subrange(0, i as int) =~= entries@);
}

/// The lines of the error alert for the errors of a submitted form: each
/// top-level field at its own name, nested fields at `outer.inner`, list
/// elements at `list[index].field`.
pub fn error_alert_lines(errors: &ValidationErrors) -> (res: Vec<ErrorLine>)
    ensures
        lines_view(res@) == alert_lines(*errors),
{
    let mut out: Vec<ErrorLine> = Vec::new();
    proof {
        reveal_strlit("");
        assert(""@ =~= Seq::<char>::empty());
        assert(lines_view(out@) =~= Seq::empty());
    }
    display_struct_entries(&errors.errors, "", &mut out);
    assert(lines_view(out@) =~= alert_lines(*errors));
    out
}

} // verus!
