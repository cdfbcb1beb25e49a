//! The slug index: from a document's slug to its content id.
use vstd::prelude::*;
use crate::entry::Entry;

verus! {

/// The index built from the slugs of content ids `0..slugs.len()`, in that
/// order: where two documents share a slug, the later one's id is kept.
pub open spec fn slug_map(slugs: Seq<Seq<char>>) -> Map<Seq<char>, int>
    decreases slugs.len(),
{
    if slugs.len() == 0 {
        Map::empty()
    } else {
        slug_map(slugs.drop_last()).insert(slugs.last(), slugs.len() - 1)
    }
}

/// The slugs of `entries`, in order.
pub open spec fn slugs_of(entries: Seq<Entry>) -> Seq<Seq<char>> {
    Seq::new(entries.len(), |i: int| entries[i].fm.slug@)
}

/// The views of the strings of `v`, in order.
pub open spec fn string_views(v: Seq<String>) -> Seq<Seq<char>> {
    Seq::new(v.len(), |i: int| v[i]@)
}

/// Maps each slug to the content id of the document that has it.
pub struct SlugIndex {
    slugs: Vec<String>,
}

impl View for SlugIndex {
    type V = Map<Seq<char>, int>;

    open spec fn view(&self) -> Map<Seq<char>, int> {
        slug_map(self.slug_seq())
    }
}

/// Past position `i` no slug is `k`, so the index of the first `i` slugs
/// answers for `k` as the whole index does.
proof fn lemma_absent_after(s: Seq<Seq<char>>, i: int, k: Seq<char>)
    requires
        0 <= i <= s.len(),
        forall|j: int| i <= j < s.len() ==> s[j] != k,
    ensures
        slug_map(s).contains_key(k) == slug_map(s.take(i)).contains_key(k),
        slug_map(s).contains_key(k) ==> slug_map(s)[k] == slug_map(s.take(i))[k],
    decreases s.len(),
{
    if i < s.len() {
        lemma_absent_after(s.drop_last(), i, k);
        assert(s.drop_last().take(i) =~= s.take(i));
    } else {
        assert(s.take(i) =~= s);
    }
}

impl SlugIndex {
    /// The slug of each content id, in order of id.
    pub closed spec fn slug_seq(&self) -> Seq<Seq<char>> {
        string_views(self.slugs@)
    }

    /// The index of `entries`, where the entry at position `i` has content id `i`.
    pub fn from_entries(entries: &Vec<Entry>) -> (r: SlugIndex)
        ensures
            r@ == slug_map(slugs_of(entries@)),
    {
        let mut slugs: Vec<String> = Vec::new();
        let mut i: usize = 0;
        while i < entries.len()
            invariant
                i <= entries@.len(),
                slugs@.len() == i,
                forall|j: int| 0 <= j < i ==> #[trigger] slugs@[j]@ == entries@[j].fm.slug@,
            decreases entries@.len() - i,
        {
            slugs.push(entries[i].fm.slug.clone());
            i = i + 1;
        }
        assert(string_views(slugs@) =~= slugs_of(entries@));
        SlugIndex { slugs }
    }

    /// The content id of the document with slug `slug`, if there is one.
    pub fn get(&self, slug: &str) -> (r: Option<usize>)
        ensures
            r is Some <==> self@.contains_key(slug@),
            r is Some ==> r->Some_0 == self@[slug@],
    {
        let key = slug.to_owned();
        let ghost s = self.slug_seq();
        let mut i: usize = self.slugs.len();
        while i > 0
            invariant
                s == self.slug_seq(),
                key@ == slug@,
                i <= s.len(),
                forall|j: int| i <= j < s.len() ==> s[j] != key@,
            decreases i,
        {
            if self.slugs[i - 1] == key {
                proof {
                    assert(s[i - 1] == key@);
                    lemma_absent_after(s, i as int, key@);
                    assert(s.take(i as int).last() == key@);
                    assert(slug_map(s.take(i as int)) == slug_map(
                        s.take(i as int).drop_last(),
                    ).insert(key@, i - 1));
                    assert(slug_map(s.take(i as int)).contains_key(key@));
                    assert(slug_map(s).contains_key(key@));
                                assert(self@ == slug_map(s));
                }
                return Some(i - 1);
            }
            assert(s[i - 1] != key@);
            i = i - 1;
        }
        proof {
            lemma_absent_after(s, 0, key@);
        }
        None
    }
}

/// The index has a key for a slug exactly where some document has that slug.
proof fn lemma_key_iff_present(s: Seq<Seq<char>>, k: Seq<char>)
    ensures
        slug_map(s).contains_key(k) <==> exists|m: int| 0 <= m < s.len() && s[m] == k,
    decreases s.len(),
{
    if s.len() > 0 {
        lemma_key_iff_present(s.drop_last(), k);
        if exists|m: int| 0 <= m < s.len() && s[m] == k {
            let m = choose|m: int| 0 <= m < s.len() && s[m] == k;
            if m < s.len() - 1 {
                assert(s.drop_last()[m] == k);
            }
        }
    }
}

/// The index has finitely many keys, at most one per document.
proof fn lemma_index_finite(s: Seq<Seq<char>>)
    ensures
        slug_map(s).dom().finite(),
        slug_map(s).dom().len() <= s.len(),
    decreases s.len(),
{
    if s.len() > 0 {
        lemma_index_finite(s.drop_last());
    }
}

/// With N documents whose slugs are all different, the index holds exactly
/// N slugs, maps the slug of the document with content id `i` to `i`, and
/// has no other key.
pub proof fn lemma_distinct_slugs_indexed(slugs: Seq<Seq<char>>)
    requires
        forall|i: int, j: int| 0 <= i < j < slugs.len() ==> slugs[i] != slugs[j],
    ensures
        slug_map(slugs).dom().len() == slugs.len(),
        forall|i: int|
            0 <= i < slugs.len() ==> slug_map(slugs).contains_key(#[trigger] slugs[i])
                && slug_map(slugs)[slugs[i]] == i,
        forall|k: Seq<char>| #[trigger]
            slug_map(slugs).contains_key(k) ==> exists|i: int| 0 <= i < slugs.len() && slugs[i] == k,
    decreases slugs.len(),
{
    if slugs.len() > 0 {
        let rest = slugs.drop_last();
        lemma_distinct_slugs_indexed(rest);
        lemma_index_finite(rest);
        lemma_key_iff_present(rest, slugs.last());
        assert forall|i: int| 0 <= i < slugs.len() implies slug_map(slugs).contains_key(
            #[trigger] slugs[i],
        ) && slug_map(slugs)[slugs[i]] == i by {
            if i < slugs.len() - 1 {
                assert(rest[i] == slugs[i]);
            }
        }
        assert forall|k: Seq<char>| #[trigger] slug_map(slugs).contains_key(k) implies exists|i: int|
            0 <= i < slugs.len() && slugs[i] == k by {
            if k != slugs.last() {
                let i = choose|i: int| 0 <= i < rest.len() && rest[i] == k;
                assert(slugs[i] == k);
            }
        }
    }
}

} // verus!
