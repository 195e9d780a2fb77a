use vstd::prelude::*;

verus! {

/// The classifiers and the locale that a run reads the export with.
#[derive(Clone, Debug, PartialEq, Eq)]
pub struct Config {
    /// The single locale whose values are read.
    pub locale: String,
    /// Content type of the entries that name tags.
    pub tag_type: String,
    /// Content type of the entries that name categories.
    pub category_type: String,
    /// Content type of the entries that become documents.
    pub post_type: String,
}

/// The value of one field in one locale.
#[derive(Clone, Debug, PartialEq, Eq)]
pub enum FieldValue {
    /// A string value.
    Text(String),
    /// A reference to another entry, by its id.
    Link(String),
    /// A list of references to other entries, by id, in source order.
    Links(Vec<String>),
    /// Any other value (a number, a boolean, a nested object).
    Other,
}

/// One localized field of an entry.
#[derive(Clone, Debug, PartialEq, Eq)]
pub struct Field {
    pub key: String,
    pub locale: String,
    pub value: FieldValue,
}

/// One entry of the export.
#[derive(Clone, Debug, PartialEq, Eq)]
pub struct Entry {
    pub id: String,
    pub content_type: String,
    pub fields: Vec<Field>,
}

/// Why a run stopped.
#[derive(Clone, Debug, PartialEq, Eq)]
pub enum ExportError {
    /// A mandatory field is absent from the entry, or is not of the expected shape.
    MissingField { entry: String, field: String },
    /// The date part of the entry's `date` field is not a calendar date.
    InvalidDate { entry: String, text: String },
}

/// The mathematical view of an [`ExportError`].
pub enum Failure {
    MissingField { entry: Seq<char>, field: Seq<char> },
    InvalidDate { entry: Seq<char>, text: Seq<char> },
}

impl View for ExportError {
    type V = Failure;

    open spec fn view(&self) -> Failure {
        match self {
            ExportError::MissingField { entry, field } => Failure::MissingField {
                entry: entry@,
                field: field@,
            },
            ExportError::InvalidDate { entry, text } => Failure::InvalidDate {
                entry: entry@,
                text: text@,
            },
        }
    }
}

/// Whether `f` holds the value of `key` in `locale`.
pub open spec fn field_is(f: Field, key: Seq<char>, locale: Seq<char>) -> bool {
    f.key@ == key && f.locale@ == locale
}

/// The value of the first field from position `i` on that holds `key` in `locale`.
pub open spec fn field_from(fields: Seq<Field>, i: int, key: Seq<char>, locale: Seq<char>) -> Option<
    FieldValue,
>
    decreases fields.len() - i,
{
    if i < 0 || i >= fields.len() {
        None
    } else if field_is(fields[i], key, locale) {
        Some(fields[i].value)
    } else {
        field_from(fields, i + 1, key, locale)
    }
}

/// The value of `key` in `locale` on entry `e`.
pub open spec fn field_value(e: Entry, key: Seq<char>, locale: Seq<char>) -> Option<FieldValue> {
    field_from(e.fields@, 0, key, locale)
}

/// The string value of `key` in `locale`, if the field is present and a string.
pub open spec fn text_field(e: Entry, key: Seq<char>, locale: Seq<char>) -> Option<Seq<char>> {
    match field_value(e, key, locale) {
        Some(FieldValue::Text(s)) => Some(s@),
        _ => None,
    }
}

/// The id that `key` refers to, if the field is present and a single reference.
pub open spec fn link_field(e: Entry, key: Seq<char>, locale: Seq<char>) -> Option<Seq<char>> {
    match field_value(e, key, locale) {
        Some(FieldValue::Link(id)) => Some(id@),
        _ => None,
    }
}

/// The ids that `key` refers to, in source order; none unless the field is a list of references.
pub open spec fn links_field(e: Entry, key: Seq<char>, locale: Seq<char>) -> Seq<Seq<char>> {
    match field_value(e, key, locale) {
        Some(FieldValue::Links(ids)) => views(ids@),
        _ => Seq::empty(),
    }
}

/// The views of a sequence of strings.
pub open spec fn views(s: Seq<String>) -> Seq<Seq<char>> {
    s.map_values(|x: String| x@)
}

/// The error for a mandatory field that `entry` lacks.
pub open spec fn missing(entry: Entry, field: Seq<char>) -> Failure {
    Failure::MissingField { entry: entry.id@, field }
}

/// Finds the value of `key` in `locale` on `entry`.
pub fn find_field<'a>(entry: &'a Entry, key: &String, locale: &String) -> (r: Option<&'a FieldValue>)
    ensures
        match r {
            Some(v) => field_value(*entry, key@, locale@) == Some(*v),
            None => field_value(*entry, key@, locale@) is None,
        },
{
    let n = entry.fields.len();
    let mut i: usize = 0;
    while i < n
        invariant
            n == entry.fields@.len(),
            i <= n,
            field_value(*entry, key@, locale@) == field_from(entry.fields@, i as int, key@, locale@),
        decreases n - i,
    {
        let f = &entry.fields[i];
        if f.key == *key && f.locale == *locale {
            return Some(&f.value);
        }
        i = i + 1;
    }
    None
}

/// Reads the mandatory string field `key` of `entry` in `locale`.
pub fn get_field(key: &str, entry: &Entry, locale: &String) -> (r: Result<String, ExportError>)
    ensures
        match r {
            Ok(s) => text_field(*entry, key@, locale@) == Some(s@),
            Err(e) => text_field(*entry, key@, locale@) is None && e@ == missing(*entry, key@),
        },
{
    let k = key.to_owned();
    match find_field(entry, &k, locale) {
        Some(FieldValue::Text(s)) => Ok(s.clone()),
        _ => Err(ExportError::MissingField { entry: entry.id.clone(), field: k }),
    }
}

} // verus!
