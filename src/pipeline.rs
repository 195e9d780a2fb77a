use vstd::prelude::*;

use crate::date::{date_part, naive_date_of};
use crate::lookup::{
    first_missing_title, get_lookup_by_content_type_id, lacks_title, lookup_of, opt_view, Lookup,
};
use crate::model::{missing, text_field, views, Config, Entry, ExportError, Failure};
use crate::record::{get_post, post_error, post_matches, Post};

verus! {

/// The entries of kind `kind`, in source order.
pub open spec fn of_kind(entries: Seq<Entry>, kind: Seq<char>) -> Seq<Entry>
    decreases entries.len(),
{
    if entries.len() == 0 {
        Seq::empty()
    } else {
        let rest = of_kind(entries.drop_last(), kind);
        if entries.last().content_type@ == kind {
            rest.push(entries.last())
        } else {
            rest
        }
    }
}

/// Whether `posts` are the documents of `primaries`, one for each, in order, each paired
/// with the id of its entry.
pub open spec fn posts_match(
    posts: Seq<(String, Post)>,
    primaries: Seq<Entry>,
    tags: Map<Seq<char>, Seq<char>>,
    categories: Map<Seq<char>, Seq<char>>,
    locale: Seq<char>,
) -> bool {
    &&& posts.len() == primaries.len()
    &&& forall|k: int|
        0 <= k < posts.len() ==> #[trigger] posts[k].0@ == primaries[k].id@ && post_matches(
            posts[k].1,
            primaries[k],
            tags,
            categories,
            locale,
        )
}

/// Whether `f` is the failure of the first of `entries` that cannot become a document.
pub open spec fn first_post_error(entries: Seq<Entry>, locale: Seq<char>, f: Failure) -> bool {
    exists|i: int|
        0 <= i < entries.len() && post_error(entries[i], locale) == Some(f) && forall|j: int|
            0 <= j < i ==> post_error(#[trigger] entries[j], locale) is None
}

/// Projects every entry of kind `post_content_type_id` into a document, in source order,
/// paired with the entry's id. Entries of other kinds give none. Fails on the first entry
/// that cannot be projected.
pub fn get_posts(
    post_content_type_id: &String,
    entries: &Vec<Entry>,
    tags: &Lookup,
    categories: &Lookup,
    config: &Config,
) -> (r: Result<Vec<(String, Post)>, ExportError>)
    ensures
        match r {
            Ok(posts) => posts_match(
                posts@,
                of_kind(entries@, post_content_type_id@),
                tags@,
                categories@,
                config.locale@,
            ) && forall|i: int|
                0 <= i < of_kind(entries@, post_content_type_id@).len() ==> post_error(
                    #[trigger] of_kind(entries@, post_content_type_id@)[i],
                    config.locale@,
                ) is None,
            Err(e) => first_post_error(
                of_kind(entries@, post_content_type_id@),
                config.locale@,
                e@,
            ),
        },
{
    let ghost kind = post_content_type_id@;
    let ghost locale = config.locale@;
    let mut posts: Vec<(String, Post)> = Vec::new();
    let n = entries.len();
    let mut i: usize = 0;
    while i < n
        invariant
            n == entries@.len(),
            i <= n,
            kind == post_content_type_id@,
            locale == config.locale@,
            posts_match(posts@, of_kind(entries@.take(i as int), kind), tags@, categories@, locale),
            forall|j: int|
                0 <= j < of_kind(entries@.take(i as int), kind).len() ==> post_error(
                    #[trigger] of_kind(entries@.take(i as int), kind)[j],
                    locale,
                ) is None,
        decreases n - i,
    {
        let e = &entries[i];
        let ghost prev = of_kind(entries@.take(i as int), kind);
        proof {
            assert(entries@.take(i + 1).drop_last() == entries@.take(i as int));
        }
        if e.content_type == *post_content_type_id {
            match get_post(e, tags, categories, config) {
                Ok(p) => {
                    posts.push((e.id.clone(), p));
                    proof {
                        let cur = of_kind(entries@.take(i + 1), kind);
                        assert(cur == prev.push(*e));
                    }
                },
                Err(err) => {
                    proof {
                        let all = of_kind(entries@, kind);
                        lemma_of_kind_prefix(entries@, i as int + 1, kind);
                        let cur = of_kind(entries@.take(i + 1), kind);
                        assert(cur == prev.push(*e));
                        assert(all.take(cur.len() as int) == cur);
                        assert(all[prev.len() as int] == cur[prev.len() as int]);
                        assert forall|j: int| 0 <= j < prev.len() implies post_error(
                            #[trigger] all[j],
                            locale,
                        ) is None by {
                            assert(all[j] == cur[j]);
                            assert(cur[j] == prev[j]);
                        }
                    }
                    return Err(err);
                },
            }
        }
        i = i + 1;
    }
    proof {
        assert(entries@.take(n as int) == entries@);
    }
    Ok(posts)
}

/// The entries of a kind among a prefix of `entries` are a prefix of those among all of them.
proof fn lemma_of_kind_prefix(entries: Seq<Entry>, i: int, kind: Seq<char>)
    requires
        0 <= i <= entries.len(),
    ensures
        of_kind(entries.take(i), kind).len() <= of_kind(entries, kind).len(),
        of_kind(entries, kind).take(of_kind(entries.take(i), kind).len() as int) == of_kind(
            entries.take(i),
            kind,
        ),
    decreases entries.len() - i,
{
    if i < entries.len() {
        lemma_of_kind_prefix(entries, i + 1, kind);
        assert(entries.take(i + 1).drop_last() == entries.take(i));
        let a = of_kind(entries.take(i), kind);
        let b = of_kind(entries.take(i + 1), kind);
        let all = of_kind(entries, kind);
        assert(all.take(b.len() as int) == b);
        if entries[i].content_type@ == kind {
            assert(b == a.push(entries[i]));
            assert(all.take(a.len() as int) == b.take(a.len() as int));
            assert(b.take(a.len() as int) == a);
        }
    } else {
        assert(entries.take(i) == entries);
    }
}


/// Runs the whole conversion: builds the tag and category mappings, then projects every
/// entry of the primary kind. Fails on the first tag without a title, else on the first
/// category without a title, else on the first primary entry that cannot be projected.
pub fn run(entries: &Vec<Entry>, config: &Config) -> (r: Result<Vec<(String, Post)>, ExportError>)
    ensures
        match r {
            Ok(posts) => {
                &&& forall|i: int|
                    0 <= i < entries@.len() ==> !lacks_title(
                        #[trigger] entries@[i],
                        config.tag_type@,
                        config.locale@,
                    ) && !lacks_title(entries@[i], config.category_type@, config.locale@)
                &&& forall|i: int|
                    0 <= i < of_kind(entries@, config.post_type@).len() ==> post_error(
                        #[trigger] of_kind(entries@, config.post_type@)[i],
                        config.locale@,
                    ) is None
                &&& posts_match(
                    posts@,
                    of_kind(entries@, config.post_type@),
                    lookup_of(entries@, config.tag_type@, config.locale@),
                    lookup_of(entries@, config.category_type@, config.locale@),
                    config.locale@,
                )
            },
            Err(e) => run_failure(entries@, config, e@),
        },
{
    let tags = get_lookup_by_content_type_id(&config.tag_type, entries, &config.locale)?;
    let categories = get_lookup_by_content_type_id(&config.category_type, entries, &config.locale)?;
    get_posts(&config.post_type, entries, &tags, &categories, config)
}

/// Whether `f` is the failure that a run on `entries` stops with.
pub open spec fn run_failure(entries: Seq<Entry>, config: &Config, f: Failure) -> bool {
    let locale = config.locale@;
    let tags_named = forall|i: int|
        0 <= i < entries.len() ==> !lacks_title(#[trigger] entries[i], config.tag_type@, locale);
    let categories_named = forall|i: int|
        0 <= i < entries.len() ==> !lacks_title(
            #[trigger] entries[i],
            config.category_type@,
            locale,
        );
    if !tags_named {
        first_missing_title(entries, config.tag_type@, locale, f)
    } else if !categories_named {
        first_missing_title(entries, config.category_type@, locale, f)
    } else {
        first_post_error(of_kind(entries, config.post_type@), locale, f)
    }
}


/// The documents of a run stand one for one, in source order, for the entries whose
/// content type is the primary kind: exactly the entries that a filter on that kind keeps,
/// so entries of other kinds give none.
pub proof fn documents_are_the_primary_entries(entries: Seq<Entry>, kind: Seq<char>)
    ensures
        of_kind(entries, kind) == entries.filter(|e: Entry| e.content_type@ == kind),
        forall|k: int|
            0 <= k < of_kind(entries, kind).len() ==> (#[trigger] of_kind(entries, kind)[k]).content_type@
                == kind,
    decreases entries.len(),
{
    reveal(Seq::filter);
    if entries.len() > 0 {
        documents_are_the_primary_entries(entries.drop_last(), kind);
    }
}

/// The documents are a function of the input: two results that both meet the contract of
/// a run on the same entries hold the same ids and the same values, field for field.
pub proof fn documents_are_determined(
    a: Seq<(String, Post)>,
    b: Seq<(String, Post)>,
    primaries: Seq<Entry>,
    tags: Map<Seq<char>, Seq<char>>,
    categories: Map<Seq<char>, Seq<char>>,
    locale: Seq<char>,
)
    requires
        posts_match(a, primaries, tags, categories, locale),
        posts_match(b, primaries, tags, categories, locale),
    ensures
        a.len() == b.len(),
        forall|k: int| 0 <= k < a.len() ==> same_post(#[trigger] a[k], b[k]),
{
    assert forall|k: int| 0 <= k < a.len() implies same_post(#[trigger] a[k], b[k]) by {
        assert(a[k].0@ == primaries[k].id@);
        assert(b[k].0@ == primaries[k].id@);
        let (pa, pb) = (a[k].1, b[k].1);
        assert(post_matches(pa, primaries[k], tags, categories, locale));
        assert(post_matches(pb, primaries[k], tags, categories, locale));
        match (pa.meta.category, pb.meta.category) {
            (Some(x), Some(y)) => {
                assert(opt_view(Some(x)) == opt_view(Some(y)));
            },
            _ => {},
        }
    }
}

/// A primary entry without a string `slug` makes the run fail: no run whose entries hold
/// one can meet the success clause of `run`, and where the entry's date and title are
/// sound the failure it reports is the missing slug.
pub proof fn missing_slug_is_fatal(entries: Seq<Entry>, config: Config, i: int)
    requires
        0 <= i < of_kind(entries, config.post_type@).len(),
        text_field(of_kind(entries, config.post_type@)[i], "slug"@, config.locale@) is None,
    ensures
        exists|j: int|
            0 <= j < of_kind(entries, config.post_type@).len() && post_error(
                #[trigger] of_kind(entries, config.post_type@)[j],
                config.locale@,
            ) is Some,
        ({
            let e = of_kind(entries, config.post_type@)[i];
            text_field(e, "date"@, config.locale@) matches Some(d) && naive_date_of(date_part(d))
                is Some && text_field(e, "title"@, config.locale@) is Some ==> post_error(
                e,
                config.locale@,
            ) == Some(missing(e, "slug"@))
        }),
{
    assert(post_error(of_kind(entries, config.post_type@)[i], config.locale@) is Some);
}

/// Whether two documents, each with the id of its entry, hold the same values.
pub open spec fn same_post(a: (String, Post), b: (String, Post)) -> bool {
    &&& a.0@ == b.0@
    &&& a.1.meta.date == b.1.meta.date
    &&& a.1.meta.title@ == b.1.meta.title@
    &&& a.1.meta.slug@ == b.1.meta.slug@
    &&& opt_view(a.1.meta.category) == opt_view(b.1.meta.category)
    &&& views(a.1.meta.tags@) == views(b.1.meta.tags@)
    &&& a.1.body@ == b.1.body@
}

} // verus!
