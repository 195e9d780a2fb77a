use vstd::prelude::*;

use crate::date::{date_part, naive_date_of, parse_date, ymd, CalendarDate};
use crate::lookup::{opt_view, resolve, Lookup};
use crate::model::{
    find_field, get_field, link_field, links_field, missing, text_field, views, Config, Entry,
    ExportError, Failure, FieldValue,
};

verus! {

/// The metadata header of a document.
#[derive(Clone, Debug, PartialEq, Eq)]
pub struct Frontmatter {
    pub date: CalendarDate,
    pub title: String,
    pub slug: String,
    /// The category's name; absent where the reference does not resolve.
    pub category: Option<String>,
    /// The names of the tags that resolve, in source order.
    pub tags: Vec<String>,
}

/// One output document: metadata and the raw body text.
#[derive(Clone, Debug, PartialEq, Eq)]
pub struct Post {
    pub meta: Frontmatter,
    pub body: String,
}

/// The names that `ids` resolve to in `m`, in order; ids that do not resolve are dropped.
pub open spec fn resolved_names(m: Map<Seq<char>, Seq<char>>, ids: Seq<Seq<char>>) -> Seq<
    Seq<char>,
>
    decreases ids.len(),
{
    if ids.len() == 0 {
        Seq::empty()
    } else {
        let rest = resolved_names(m, ids.drop_last());
        if m.contains_key(ids.last()) {
            rest.push(m[ids.last()])
        } else {
            rest
        }
    }
}

/// The tag names of `e` in `locale`.
pub open spec fn tag_names(e: Entry, tags: Map<Seq<char>, Seq<char>>, locale: Seq<char>) -> Seq<
    Seq<char>,
> {
    resolved_names(tags, links_field(e, "tags"@, locale))
}

/// The first reason why `e` cannot become a document, checked in the order date, title,
/// slug, category, body.
pub open spec fn post_error(e: Entry, locale: Seq<char>) -> Option<Failure> {
    match text_field(e, "date"@, locale) {
        None => Some(missing(e, "date"@)),
        Some(d) => if naive_date_of(date_part(d)) is None {
            Some(Failure::InvalidDate { entry: e.id@, text: d })
        } else if text_field(e, "title"@, locale) is None {
            Some(missing(e, "title"@))
        } else if text_field(e, "slug"@, locale) is None {
            Some(missing(e, "slug"@))
        } else if link_field(e, "category"@, locale) is None {
            Some(missing(e, "category"@))
        } else if text_field(e, "body"@, locale) is None {
            Some(missing(e, "body"@))
        } else {
            None
        },
    }
}

/// Whether `p` is the document that `e` projects to.
pub open spec fn post_matches(
    p: Post,
    e: Entry,
    tags: Map<Seq<char>, Seq<char>>,
    categories: Map<Seq<char>, Seq<char>>,
    locale: Seq<char>,
) -> bool {
    &&& Some(ymd(p.meta.date)) == naive_date_of(date_part(text_field(e, "date"@, locale)->0))
    &&& Some(p.meta.title@) == text_field(e, "title"@, locale)
    &&& Some(p.meta.slug@) == text_field(e, "slug"@, locale)
    &&& opt_view(p.meta.category) == resolve(categories, link_field(e, "category"@, locale)->0)
    &&& views(p.meta.tags@) == tag_names(e, tags, locale)
    &&& Some(p.body@) == text_field(e, "body"@, locale)
}

/// Reads the `date` field of `entry` and keeps its calendar date.
pub fn get_date(entry: &Entry, locale: &String) -> (r: Result<CalendarDate, ExportError>)
    ensures
        match r {
            Ok(d) => text_field(*entry, "date"@, locale@) matches Some(t) && naive_date_of(
                date_part(t),
            ) == Some(ymd(d)),
            Err(e) => match text_field(*entry, "date"@, locale@) {
                None => e@ == missing(*entry, "date"@),
                Some(t) => naive_date_of(date_part(t)) is None && e@ == (Failure::InvalidDate {
                    entry: entry.id@,
                    text: t,
                }),
            },
        },
{
    let text = get_field("date", entry, locale)?;
    match parse_date(text.as_str()) {
        Some(d) => Ok(d),
        None => Err(ExportError::InvalidDate { entry: entry.id.clone(), text }),
    }
}

/// Resolves the category reference of `entry`; a reference that does not resolve gives
/// no name, and only a missing reference is an error.
pub fn get_category(entry: &Entry, categories: &Lookup, locale: &String) -> (r: Result<
    Option<String>,
    ExportError,
>)
    ensures
        match r {
            Ok(c) => link_field(*entry, "category"@, locale@) matches Some(id) && opt_view(c)
                == resolve(categories@, id),
            Err(e) => link_field(*entry, "category"@, locale@) is None && e@ == missing(
                *entry,
                "category"@,
            ),
        },
{
    let key = "category".to_owned();
    match find_field(entry, &key, locale) {
        Some(FieldValue::Link(id)) => Ok(categories.get(id)),
        _ => Err(ExportError::MissingField { entry: entry.id.clone(), field: key }),
    }
}

/// The names of the tags that `ids` refers to, in order, without those that do not resolve.
pub fn resolve_tags(ids: &Vec<String>, tags: &Lookup) -> (r: Vec<String>)
    ensures
        views(r@) == resolved_names(tags@, views(ids@)),
{
    let mut names: Vec<String> = Vec::new();
    let n = ids.len();
    let mut i: usize = 0;
    while i < n
        invariant
            n == ids@.len(),
            i <= n,
            views(names@) == resolved_names(tags@, views(ids@.take(i as int))),
        decreases n - i,
    {
        proof {
            assert(views(ids@.take(i + 1)).drop_last() == views(ids@.take(i as int)));
        }
        match tags.get(&ids[i]) {
            Some(name) => {
                let ghost before = names@;
                names.push(name);
                proof {
                    assert(views(names@) == views(before).push(name@));
                }
            },
            None => {},
        }
        i = i + 1;
    }
    proof {
        assert(ids@.take(n as int) == ids@);
    }
    names
}

/// The names of the tags of `entry`; none where the entry has no list of tag references.
pub fn get_tags(entry: &Entry, tags: &Lookup, locale: &String) -> (r: Vec<String>)
    ensures
        views(r@) == tag_names(*entry, tags@, locale@),
{
    let key = "tags".to_owned();
    match find_field(entry, &key, locale) {
        Some(FieldValue::Links(ids)) => resolve_tags(ids, tags),
        _ => {
            let r: Vec<String> = Vec::new();
            proof {
                assert(views(r@) == Seq::<Seq<char>>::empty());
            }
            r
        },
    }
}

/// Projects an entry of the primary kind into a document.
pub fn get_post(entry: &Entry, tags: &Lookup, categories: &Lookup, config: &Config) -> (r: Result<
    Post,
    ExportError,
>)
    ensures
        match r {
            Ok(p) => post_error(*entry, config.locale@) is None && post_matches(
                p,
                *entry,
                tags@,
                categories@,
                config.locale@,
            ),
            Err(e) => post_error(*entry, config.locale@) == Some(e@),
        },
{
    let locale = &config.locale;
    let date = get_date(entry, locale)?;
    let title = get_field("title", entry, locale)?;
    let slug = get_field("slug", entry, locale)?;
    let category = get_category(entry, categories, locale)?;
    let tag_list = get_tags(entry, tags, locale);
    let body = get_field("body", entry, locale)?;
    Ok(Post { meta: Frontmatter { date, title, slug, category, tags: tag_list }, body })
}

/// Resolving tag references keeps the source order and drops the ids that do not resolve:
/// the names are those of the resolvable ids, in the order in which the ids come, with
/// duplicates kept.
pub proof fn tags_keep_order_and_drop_unresolved(
    m: Map<Seq<char>, Seq<char>>,
    ids: Seq<Seq<char>>,
)
    ensures
        resolved_names(m, ids) == ids.filter(|id: Seq<char>| m.contains_key(id)).map_values(
            |id: Seq<char>| m[id],
        ),
    decreases ids.len(),
{
    reveal(Seq::filter);
    if ids.len() > 0 {
        tags_keep_order_and_drop_unresolved(m, ids.drop_last());
        let kept = ids.drop_last().filter(|id: Seq<char>| m.contains_key(id));
        if m.contains_key(ids.last()) {
            assert(kept.push(ids.last()).map_values(|id: Seq<char>| m[id]) == kept.map_values(
                |id: Seq<char>| m[id],
            ).push(m[ids.last()]));
        }
    }
}

} // verus!
