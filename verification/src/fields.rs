//! The accumulated field values of one module: an association list of
//! `(key, value)` pairs with unique keys, viewed as a finite map from key
//! characters to value characters.  Probe results are merged into it
//! field by field, later values replacing earlier ones.

use vstd::prelude::*;

use crate::strutil::str_eq;

verus! {

/// Map described by an association list; on a duplicated key the later
/// entry wins, as it does when merging probe results.
pub open spec fn map_of(entries: Seq<(String, String)>) -> Map<Seq<char>, Seq<char>>
    decreases entries.len(),
{
    if entries.len() == 0 {
        Map::empty()
    } else {
        map_of(entries.drop_last()).insert(entries.last().0@, entries.last().1@)
    }
}

/// The value of a field, or a default where the field is absent: how the
/// renderers read the accumulated data.
pub open spec fn field_or(
    m: Map<Seq<char>, Seq<char>>,
    key: Seq<char>,
    default: Seq<char>,
) -> Seq<char> {
    if m.contains_key(key) {
        m[key]
    } else {
        default
    }
}

/// Accumulated `field name -> field value` data of one module.
pub struct FieldMap {
    entries: Vec<(String, String)>,
}

impl View for FieldMap {
    type V = Map<Seq<char>, Seq<char>>;

    closed spec fn view(&self) -> Map<Seq<char>, Seq<char>> {
        map_of(self.entries@)
    }
}

pub open spec fn entries_wf(entries: Seq<(String, String)>) -> bool {
    forall|i: int, j: int|
        0 <= i < j < entries.len() ==> (#[trigger] entries[i]).0@ != (#[trigger] entries[j]).0@
}

proof fn lemma_map_of_absent(entries: Seq<(String, String)>, k: Seq<char>)
    requires
        forall|i: int| 0 <= i < entries.len() ==> (#[trigger] entries[i]).0@ != k,
    ensures
        !map_of(entries).contains_key(k),
    decreases entries.len(),
{
    if entries.len() > 0 {
        assert(entries.last() == entries[entries.len() - 1]);
        lemma_map_of_absent(entries.drop_last(), k);
    }
}

proof fn lemma_map_of_found(entries: Seq<(String, String)>, i: int)
    requires
        entries_wf(entries),
        0 <= i < entries.len(),
    ensures
        map_of(entries).contains_key(entries[i].0@),
        map_of(entries)[entries[i].0@] == entries[i].1@,
    decreases entries.len(),
{
    if i == entries.len() - 1 {
        assert(entries.last() == entries[i]);
    } else {
        assert(entries.last() == entries[entries.len() - 1]);
        assert(entries.drop_last()[i] == entries[i]);
        lemma_map_of_found(entries.drop_last(), i);
    }
}

proof fn lemma_map_of_len(entries: Seq<(String, String)>)
    requires
        entries_wf(entries),
    ensures
        map_of(entries).dom().finite(),
        map_of(entries).dom().len() == entries.len(),
    decreases entries.len(),
{
    if entries.len() > 0 {
        let rest = entries.drop_last();
        lemma_map_of_len(rest);
        assert(forall|i: int|
            0 <= i < rest.len() ==> (#[trigger] rest[i]).0@ != entries.last().0@);
        lemma_map_of_absent(rest, entries.last().0@);
        assert(map_of(entries).dom() =~= map_of(rest).dom().insert(entries.last().0@));
        vstd::set::axiom_set_insert_len(map_of(rest).dom(), entries.last().0@);
    }
}

impl FieldMap {
    /// The keys of the stored entries are pairwise distinct, so each field
    /// has exactly one current value.
    pub closed spec fn wf(self) -> bool {
        entries_wf(self.entries@)
    }

    pub closed spec fn spec_len(self) -> nat {
        self.entries@.len()
    }

    pub fn new() -> (r: FieldMap)
        ensures
            r.wf(),
            r@ == Map::<Seq<char>, Seq<char>>::empty(),
            r.spec_len() == 0,
    {
        FieldMap { entries: Vec::new() }
    }

    pub fn len(&self) -> (r: usize)
        requires
            self.wf(),
        ensures
            r == self.spec_len(),
            r == self@.dom().len(),
    {
        proof {
            lemma_map_of_len(self.entries@);
        }
        self.entries.len()
    }

    /// The entry at a position, for walking the accumulated fields.
    pub fn pair_at(&self, i: usize) -> (r: (&String, &String))
        requires
            self.wf(),
            i < self.spec_len(),
        ensures
            self@.contains_key(r.0@),
            self@[r.0@] == r.1@,
    {
        proof {
            lemma_map_of_found(self.entries@, i as int);
        }
        let pair = &self.entries[i];
        (&pair.0, &pair.1)
    }

    /// Looks a field up by name.
    pub fn get(&self, key: &str) -> (r: Option<&String>)
        requires
            self.wf(),
        ensures
            match r {
                Some(v) => self@.contains_key(key@) && self@[key@] == v@,
                None => !self@.contains_key(key@),
            },
    {
        let n = self.entries.len();
        let mut i: usize = 0;
        while i < n
            invariant
                self.wf(),
                n == self.entries@.len(),
                i <= n,
                forall|j: int| 0 <= j < i ==> (#[trigger] self.entries@[j]).0@ != key@,
            decreases n - i,
        {
            if str_eq(self.entries[i].0.as_str(), key) {
                proof {
                    lemma_map_of_found(self.entries@, i as int);
                }
                return Some(&self.entries[i].1);
            }
            i += 1;
        }
        proof {
            lemma_map_of_absent(self.entries@, key@);
        }
        None
    }

    /// Stores a field value, replacing the value of an equal key.
    pub fn insert(&mut self, key: String, value: String)
        requires
            old(self).wf(),
        ensures
            final(self).wf(),
            final(self)@ == old(self)@.insert(key@, value@),
    {
        let ghost pre = self.entries@;
        let n = self.entries.len();
        let mut i: usize = 0;
        while i < n
            invariant
                self.entries@ == pre,
                old(self)@ == map_of(pre),
                entries_wf(pre),
                n == pre.len(),
                i <= n,
                forall|j: int| 0 <= j < i ==> (#[trigger] pre[j]).0@ != key@,
            decreases n - i,
        {
            if str_eq(self.entries[i].0.as_str(), key.as_str()) {
                self.entries.remove(i);
                self.entries.push((key, value));
                proof {
                    let mid = pre.remove(i as int);
                    assert(forall|j: int|
                        0 <= j < mid.len() ==> #[trigger] mid[j] == (if j < i {
                            pre[j]
                        } else {
                            pre[j + 1]
                        }));
                    assert(entries_wf(mid));
                    assert(forall|j: int| 0 <= j < mid.len() ==> (#[trigger] mid[j]).0@ != key@);
                    let post = self.entries@;
                    assert(post == mid.push((key, value)));
                    assert(post.drop_last() == mid) by {
                        assert(post.drop_last() =~= mid);
                    }
                    assert(entries_wf(post));
                    assert(self@ == map_of(mid).insert(key@, value@));
                    lemma_insert_extensional(pre, mid, i as int, key@, value@);
                }
                return ;
            }
            i += 1;
        }
        self.entries.push((key, value));
        proof {
            let post = self.entries@;
            assert(post.drop_last() == pre) by {
                assert(post.drop_last() =~= pre);
            }
            assert(forall|j: int| 0 <= j < pre.len() ==> (#[trigger] pre[j]).0@ != key@);
            assert(entries_wf(post));
        }
    }

    /// Builds the store from a list of pairs, later pairs replacing
    /// earlier ones of equal key — how a persisted state is read back.
    pub fn from_pairs(pairs: Vec<(String, String)>) -> (r: FieldMap)
        ensures
            r.wf(),
            r@ == map_of(pairs@),
    {
        let ghost all = pairs@;
        let mut rest = pairs;
        let mut out = FieldMap::new();
        let ghost mut done: int = 0;
        proof {
            assert(all.skip(0) =~= all);
            assert(out@ =~= map_of(all.take(0)));
        }
        while rest.len() > 0
            invariant
                out.wf(),
                0 <= done <= all.len(),
                rest@ == all.skip(done),
                out@ == map_of(all.take(done)),
            decreases rest@.len(),
        {
            let ghost pre_rest = rest@;
            let pair = rest.remove(0);
            proof {
                assert(all.skip(done)[0] == all[done]);
                assert(pair == all[done]);
                assert forall|j: int| 0 <= j < rest@.len() implies rest@[j] == all.skip(
                    done + 1,
                )[j] by {
                    assert(rest@[j] == pre_rest[j + 1]);
                    assert(pre_rest[j + 1] == all[done + 1 + j]);
                }
                assert(rest@ =~= all.skip(done + 1));
                assert(all.take(done + 1).drop_last() =~= all.take(done));
                assert(all.take(done + 1).last() == all[done]);
            }
            out.insert(pair.0, pair.1);
            proof {
                done = done + 1;
            }
        }
        proof {
            assert(all.take(done) =~= all);
        }
        out
    }

    /// Merges another batch of fields into this one, field by field; on a
    /// key present in both, the incoming value replaces the stored one.
    pub fn extend(&mut self, other: FieldMap)
        requires
            old(self).wf(),
        ensures
            final(self).wf(),
            final(self)@ == old(self)@.union_prefer_right(other@),
    {
        let ghost base = old(self)@;
        let ghost all = other.entries@;
        let mut rest = other.entries;
        let ghost mut done: int = 0;
        proof {
            assert(all.skip(0) =~= all);
            assert(base.union_prefer_right(map_of(all.take(0))) =~= base);
        }
        while rest.len() > 0
            invariant
                self.wf(),
                0 <= done <= all.len(),
                rest@ == all.skip(done),
                self@ == base.union_prefer_right(map_of(all.take(done))),
            decreases rest@.len(),
        {
            let ghost pre_rest = rest@;
            let pair = rest.remove(0);
            proof {
                assert(all.skip(done)[0] == all[done]);
                assert(pair == all[done]);
                assert forall|j: int| 0 <= j < rest@.len() implies rest@[j] == all.skip(
                    done + 1,
                )[j] by {
                    assert(rest@[j] == pre_rest[j + 1]);
                    assert(pre_rest[j + 1] == all[done + 1 + j]);
                }
                assert(rest@ =~= all.skip(done + 1));
                assert(all.take(done + 1).drop_last() =~= all.take(done));
                assert(all.take(done + 1).last() == all[done]);
                assert(map_of(all.take(done + 1)) == map_of(all.take(done)).insert(
                    pair.0@,
                    pair.1@,
                ));
            }
            let ghost key = pair.0@;
            let ghost value = pair.1@;
            self.insert(pair.0, pair.1);
            proof {
                done = done + 1;
                assert(base.union_prefer_right(map_of(all.take(done - 1))).insert(key, value)
                    =~= base.union_prefer_right(map_of(all.take(done - 1)).insert(key, value)));
            }
        }
        proof {
            assert(all.take(done) =~= all);
            assert(other@ == map_of(all));
        }
    }
}

/// After replacing the one entry that held `k`, the list describes the same
/// map as inserting `(k, v)` over the unchanged list.
proof fn lemma_insert_extensional(
    pre: Seq<(String, String)>,
    mid: Seq<(String, String)>,
    i: int,
    k: Seq<char>,
    v: Seq<char>,
)
    requires
        entries_wf(pre),
        0 <= i < pre.len(),
        pre[i].0@ == k,
        mid == pre.remove(i),
        entries_wf(mid),
        forall|j: int| 0 <= j < mid.len() ==> (#[trigger] mid[j]).0@ != k,
    ensures
        map_of(mid).insert(k, v) == map_of(pre).insert(k, v),
{
    let lhs = map_of(mid).insert(k, v);
    let rhs = map_of(pre).insert(k, v);
    assert forall|key: Seq<char>| lhs.contains_key(key) implies rhs.contains_key(key) by {
        if key != k {
            lemma_contains_witness(mid, key);
            let w = choose|w: int| 0 <= w < mid.len() && (#[trigger] mid[w]).0@ == key;
            let orig = if w < i {
                w
            } else {
                w + 1
            };
            assert(pre[orig] == mid[w]);
            lemma_map_of_found(pre, orig);
        }
    }
    assert forall|key: Seq<char>| rhs.contains_key(key) implies lhs.contains_key(key) by {
        if key != k {
            lemma_contains_witness(pre, key);
            let w = choose|w: int| 0 <= w < pre.len() && (#[trigger] pre[w]).0@ == key;
            let moved = if w < i {
                w
            } else {
                w - 1
            };
            assert(w != i);
            assert(mid[moved] == pre[w]);
            lemma_map_of_found(mid, moved);
        }
    }
    assert forall|key: Seq<char>| #[trigger]
        lhs.contains_key(key) && rhs.contains_key(key) implies lhs[key] == rhs[key] by {
        if key != k {
            lemma_contains_witness(mid, key);
            let w = choose|w: int| 0 <= w < mid.len() && (#[trigger] mid[w]).0@ == key;
            let orig = if w < i {
                w
            } else {
                w + 1
            };
            assert(pre[orig] == mid[w]);
            lemma_map_of_found(mid, w);
            lemma_map_of_found(pre, orig);
        }
    }
    assert(lhs =~= rhs);
}

/// A key held by the described map is held by some entry of the list.
proof fn lemma_contains_witness(entries: Seq<(String, String)>, k: Seq<char>)
    requires
        map_of(entries).contains_key(k),
    ensures
        exists|i: int| 0 <= i < entries.len() && (#[trigger] entries[i]).0@ == k,
    decreases entries.len(),
{
    if entries.len() > 0 {
        if entries.last().0@ == k {
            assert(entries[entries.len() - 1].0@ == k);
        } else {
            lemma_contains_witness(entries.drop_last(), k);
            let i = choose|i: int|
                0 <= i < entries.drop_last().len() && (#[trigger] entries.drop_last()[i]).0@ == k;
            assert(entries[i].0@ == k);
        }
    }
}

} // verus!
