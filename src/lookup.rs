use vstd::prelude::*;

use crate::model::{get_field, missing, text_field, Entry, ExportError, Failure};

verus! {

/// A mapping from entry id to display name.
///
/// The pairs are kept in insertion order; where an id was inserted twice the later
/// name is the one that counts.
#[derive(Clone, Debug)]
pub struct Lookup {
    pairs: Vec<(String, String)>,
}

/// The mapping that a sequence of insertions builds.
pub open spec fn pairs_map(s: Seq<(String, String)>) -> Map<Seq<char>, Seq<char>>
    decreases s.len(),
{
    if s.len() == 0 {
        Map::empty()
    } else {
        pairs_map(s.drop_last()).insert(s.last().0@, s.last().1@)
    }
}

/// What looking `id` up in `m` gives.
pub open spec fn resolve(m: Map<Seq<char>, Seq<char>>, id: Seq<char>) -> Option<Seq<char>> {
    if m.contains_key(id) {
        Some(m[id])
    } else {
        None
    }
}

/// The view of an optional string.
pub open spec fn opt_view(o: Option<String>) -> Option<Seq<char>> {
    match o {
        Some(s) => Some(s@),
        None => None,
    }
}

impl View for Lookup {
    type V = Map<Seq<char>, Seq<char>>;

    closed spec fn view(&self) -> Map<Seq<char>, Seq<char>> {
        pairs_map(self.pairs@)
    }
}

impl Lookup {
    /// An empty mapping.
    pub fn new() -> (r: Lookup)
        ensures
            r@ == Map::<Seq<char>, Seq<char>>::empty(),
    {
        Lookup { pairs: Vec::new() }
    }

    /// Maps `id` to `name`, replacing what `id` mapped to before.
    pub fn insert(&mut self, id: String, name: String)
        ensures
            final(self)@ == old(self)@.insert(id@, name@),
    {
        self.pairs.push((id, name));
        proof {
            assert(self.pairs@.drop_last() == old(self).pairs@);
        }
    }

    /// The name that `id` maps to, if any.
    pub fn get(&self, id: &String) -> (r: Option<String>)
        ensures
            opt_view(r) == resolve(self@, id@),
    {
        let n = self.pairs.len();
        let mut found: Option<usize> = None;
        let mut i: usize = 0;
        while i < n
            invariant
                n == self.pairs@.len(),
                i <= n,
                match found {
                    Some(j) => j < i && pairs_map(self.pairs@.take(i as int)).contains_key(id@)
                        && pairs_map(self.pairs@.take(i as int))[id@] == self.pairs@[j as int].1@,
                    None => !pairs_map(self.pairs@.take(i as int)).contains_key(id@),
                },
            decreases n - i,
        {
            proof {
                assert(self.pairs@.take(i + 1).drop_last() == self.pairs@.take(i as int));
            }
            if self.pairs[i].0 == *id {
                found = Some(i);
            }
            i = i + 1;
        }
        proof {
            assert(self.pairs@.take(n as int) == self.pairs@);
        }
        match found {
            Some(j) => Some(self.pairs[j].1.clone()),
            None => None,
        }
    }
}

/// Whether `e` is of kind `kind` and has no string `title` in `locale`.
pub open spec fn lacks_title(e: Entry, kind: Seq<char>, locale: Seq<char>) -> bool {
    e.content_type@ == kind && text_field(e, "title"@, locale) is None
}

/// Whether `f` reports the first entry of kind `kind` in `entries` that has no title.
pub open spec fn first_missing_title(
    entries: Seq<Entry>,
    kind: Seq<char>,
    locale: Seq<char>,
    f: Failure,
) -> bool {
    exists|i: int|
        0 <= i < entries.len() && lacks_title(entries[i], kind, locale) && (forall|j: int|
            0 <= j < i ==> !lacks_title(#[trigger] entries[j], kind, locale)) && f == missing(
            entries[i],
            "title"@,
        )
}

/// The id-to-title mapping of the entries of kind `kind`; a later entry wins over an
/// earlier one with the same id.
pub open spec fn lookup_of(entries: Seq<Entry>, kind: Seq<char>, locale: Seq<char>) -> Map<
    Seq<char>,
    Seq<char>,
>
    decreases entries.len(),
{
    if entries.len() == 0 {
        Map::empty()
    } else {
        let m = lookup_of(entries.drop_last(), kind, locale);
        let e = entries.last();
        match text_field(e, "title"@, locale) {
            Some(t) if e.content_type@ == kind => m.insert(e.id@, t),
            _ => m,
        }
    }
}

/// Builds the id-to-title mapping of the entries of kind `content_type_id`.
///
/// Fails on the first entry of that kind without a string title.
pub fn get_lookup_by_content_type_id(
    content_type_id: &String,
    entries: &Vec<Entry>,
    locale: &String,
) -> (r: Result<Lookup, ExportError>)
    ensures
        match r {
            Ok(l) => l@ == lookup_of(entries@, content_type_id@, locale@) && forall|i: int|
                0 <= i < entries@.len() ==> !lacks_title(
                    #[trigger] entries@[i],
                    content_type_id@,
                    locale@,
                ),
            Err(e) => first_missing_title(entries@, content_type_id@, locale@, e@),
        },
{
    let mut lookup = Lookup::new();
    let n = entries.len();
    let mut i: usize = 0;
    while i < n
        invariant
            n == entries@.len(),
            i <= n,
            lookup@ == lookup_of(entries@.take(i as int), content_type_id@, locale@),
            forall|j: int|
                0 <= j < i ==> !lacks_title(#[trigger] entries@[j], content_type_id@, locale@),
        decreases n - i,
    {
        let e = &entries[i];
        proof {
            assert(entries@.take(i + 1).drop_last() == entries@.take(i as int));
        }
        if e.content_type == *content_type_id {
            match get_field("title", e, locale) {
                Ok(title) => {
                    lookup.insert(e.id.clone(), title);
                },
                Err(err) => {
                    return Err(err);
                },
            }
        }
        i = i + 1;
    }
    proof {
        assert(entries@.take(n as int) == entries@);
    }
    Ok(lookup)
}

} // verus!
