//! The tag mapping attached to every element: string keys to string values,
//! keys unique, insertion order irrelevant.

use vstd::prelude::*;

verus! {

use vstd::pervasive::VecAdditionalExecFns;
use vstd::std_specs::cmp::PartialEqSpecImpl;

/// Free-form descriptive attributes of an element.
///
/// Abstractly a mapping from string keys to string values; the view is that
/// mapping. Keys are unique in any value built through this interface, the
/// order in which pairs were inserted carries no meaning, and equality is
/// order-independent.
#[derive(Debug)]
pub struct Tags {
    entries: Vec<(String, String)>,
}

/// The mapping denoted by a sequence of key/value pairs; a later pair with
/// the same key supersedes an earlier one.
pub open spec fn map_of(s: Seq<(String, String)>) -> Map<Seq<char>, Seq<char>>
    decreases s.len(),
{
    if s.len() == 0 {
        Map::empty()
    } else {
        map_of(s.drop_last()).insert(s.last().0@, s.last().1@)
    }
}

/// A key of `map_of(s)` is a key of some pair of `s`, and conversely.
proof fn lemma_map_of_dom(s: Seq<(String, String)>)
    ensures
        forall|k: Seq<char>|
            #[trigger] map_of(s).contains_key(k) <==> exists|i: int|
                0 <= i < s.len() && (#[trigger] s[i]).0@ == k,
    decreases s.len(),
{
    if s.len() > 0 {
        let t = s.drop_last();
        lemma_map_of_dom(t);
        assert forall|k: Seq<char>| #[trigger] map_of(s).contains_key(k) implies exists|i: int|
            0 <= i < s.len() && (#[trigger] s[i]).0@ == k by {
            if k == s.last().0@ {
                assert((s[s.len() - 1]).0@ == k);
            } else {
                assert(map_of(t).contains_key(k));
                let i = choose|i: int| 0 <= i < t.len() && (t[i]).0@ == k;
                assert((s[i]).0@ == k);
            }
        }
        assert forall|k: Seq<char>|
            exists|i: int|
                0 <= i < s.len() && (#[trigger] s[i]).0@ == k implies #[trigger] map_of(
            s,
        ).contains_key(k) by {
            let i = choose|i: int| 0 <= i < s.len() && (s[i]).0@ == k;
            if i < s.len() - 1 {
                assert((t[i]).0@ == k);
            }
        }
    }
}

/// With pairwise-distinct keys, the mapping has exactly one key per pair.
proof fn lemma_map_of_unique_len(s: Seq<(String, String)>)
    requires
        forall|i: int, j: int|
            0 <= i < j < s.len() ==> (#[trigger] s[i]).0@ != (#[trigger] s[j]).0@,
    ensures
        map_of(s).dom().finite(),
        map_of(s).dom().len() == s.len(),
    decreases s.len(),
{
    if s.len() == 0 {
        assert(map_of(s).dom() =~= Set::<Seq<char>>::empty());
    } else {
        let t = s.drop_last();
        lemma_map_of_unique_len(t);
        lemma_map_of_dom(t);
        assert(!map_of(t).contains_key(s.last().0@));
        assert(map_of(s).dom() =~= map_of(t).dom().insert(s.last().0@));
    }
}

/// Updating the last pair that carries a key acts on the mapping as an
/// insertion of that key.
proof fn lemma_map_of_update_last(s: Seq<(String, String)>, i: int, e: (String, String))
    requires
        0 <= i < s.len(),
        (s[i]).0@ == e.0@,
        forall|j: int| i < j < s.len() ==> (#[trigger] s[j]).0@ != e.0@,
    ensures
        map_of(s.update(i, e)) == map_of(s).insert(e.0@, e.1@),
    decreases s.len(),
{
    let t = s.drop_last();
    if i == s.len() - 1 {
        assert(s.update(i, e).drop_last() =~= t);
        assert(s.update(i, e).last() == e);
        assert(map_of(t).insert(s.last().0@, s.last().1@).insert(e.0@, e.1@) =~= map_of(t).insert(
            e.0@,
            e.1@,
        ));
    } else {
        assert(s.update(i, e).drop_last() =~= t.update(i, e));
        assert(s.update(i, e).last() == s.last());
        lemma_map_of_update_last(t, i, e);
        assert(s.last().0@ != e.0@);
        assert(map_of(t).insert(e.0@, e.1@).insert(s.last().0@, s.last().1@) =~= map_of(t).insert(
            s.last().0@,
            s.last().1@,
        ).insert(e.0@, e.1@));
    }
}

/// Scan for the last pair carrying `key`; its value is the mapping's value.
fn lookup_last<'a>(entries: &'a Vec<(String, String)>, key: &String) -> (r: Option<&'a String>)
    ensures
        match r {
            Some(v) => map_of(entries@).contains_key(key@) && map_of(entries@)[key@] == v@,
            None => !map_of(entries@).contains_key(key@),
        },
{
    let ghost s = entries@;
    let mut i: usize = entries.len();
    proof {
        assert(s.take(s.len() as int) =~= s);
    }
    while i > 0
        invariant
            i <= entries.len(),
            s == entries@,
            map_of(s).contains_key(key@) == map_of(s.take(i as int)).contains_key(key@),
            map_of(s).contains_key(key@) ==> map_of(s)[key@] == map_of(s.take(i as int))[key@],
        decreases i,
    {
        let j: usize = i - 1;
        proof {
            assert(s.take(j + 1).drop_last() =~= s.take(j as int));
            assert(s.take(j + 1).last() == s[j as int]);
        }
        if entries[j].0 == *key {
            return Some(&entries[j].1);
        }
        i = j;
    }
    proof {
        assert(s.take(0) =~= Seq::<(String, String)>::empty());
    }
    None
}

impl View for Tags {
    type V = Map<Seq<char>, Seq<char>>;

    /// The mapping a value denotes.
    open spec fn view(&self) -> Map<Seq<char>, Seq<char>> {
        map_of(self.spec_pairs())
    }
}

impl Tags {
    /// The key/value pairs in storage order.
    pub closed spec fn spec_pairs(self) -> Seq<(String, String)> {
        self.entries@
    }

    /// No key occurs in two pairs. Established by [`Tags::new`] and kept by
    /// every operation of this interface.
    pub open spec fn wf(self) -> bool {
        forall|i: int, j: int|
            0 <= i < j < self.spec_pairs().len() ==> (#[trigger] self.spec_pairs()[i]).0@
                != (#[trigger] self.spec_pairs()[j]).0@
    }

    /// The empty mapping.
    pub fn new() -> (t: Tags)
        ensures
            t@ == Map::<Seq<char>, Seq<char>>::empty(),
            t.wf(),
            t.spec_pairs().len() == 0,
    {
        Tags { entries: Vec::new() }
    }

    /// Bind `key` to `value`, superseding any earlier binding of `key`.
    pub fn insert(&mut self, key: String, value: String)
        ensures
            final(self)@ == old(self)@.insert(key@, value@),
            old(self).wf() ==> final(self).wf(),
    {
        let ghost s = old(self).entries@;
        let ghost e = (key, value);
        let mut i: usize = self.entries.len();
        while i > 0
            invariant
                i <= self.entries.len(),
                self.entries@ == s,
                s == old(self).spec_pairs(),
                e == (key, value),
                forall|j: int| i <= j < s.len() ==> (#[trigger] s[j]).0@ != key@,
            decreases i,
        {
            let j: usize = i - 1;
            if self.entries[j].0 == key {
                self.entries.set(j, (key, value));
                proof {
                    assert(self.entries@ == s.update(j as int, e));
                    lemma_map_of_update_last(s, j as int, e);
                    if old(self).wf() {
                        assert forall|i2: int, j2: int|
                            0 <= i2 < j2 < self.entries@.len() implies (
                        #[trigger] self.entries@[i2]).0@ != (#[trigger] self.entries@[j2]).0@ by {
                            assert((old(self).spec_pairs()[i2]).0@ != (old(self).spec_pairs()[
                                j2
                            ]).0@);
                            assert(self.entries@[i2].0@ == s[i2].0@);
                            assert(self.entries@[j2].0@ == s[j2].0@);
                        }
                    }
                }
                return ;
            }
            i = j;
        }
        self.entries.push((key, value));
        proof {
            assert(self.entries@ == s.push(e));
            assert(s.push(e).drop_last() =~= s);
            assert(map_of(s.push(e)) == map_of(s).insert(e.0@, e.1@));
            if old(self).wf() {
                assert forall|i2: int, j2: int|
                    0 <= i2 < j2 < self.entries@.len() implies (#[trigger] self.entries@[i2]).0@
                    != (#[trigger] self.entries@[j2]).0@ by {
                    if j2 < s.len() {
                        assert((old(self).spec_pairs()[i2]).0@ != (old(self).spec_pairs()[
                            j2
                        ]).0@);
                    } else {
                        assert(s[i2].0@ != key@);
                        assert(self.entries@[j2] == e);
                    }
                }
            }
        }
    }

    /// Look the value of `key` up.
    pub fn get<'a>(&'a self, key: &String) -> (r: Option<&'a String>)
        ensures
            match r {
                Some(v) => self@.contains_key(key@) && self@[key@] == v@,
                None => !self@.contains_key(key@),
            },
    {
        lookup_last(&self.entries, key)
    }

    /// How many pairs are stored; on a well-formed value, how many keys the
    /// mapping has.
    pub fn len(&self) -> (n: usize)
        ensures
            n == self.spec_pairs().len(),
            self.wf() ==> n == self@.dom().len(),
    {
        proof {
            if self.wf() {
                assert forall|i2: int, j2: int|
                    0 <= i2 < j2 < self.entries@.len() implies (#[trigger] self.entries@[i2]).0@
                    != (#[trigger] self.entries@[j2]).0@ by {
                    assert((self.spec_pairs()[i2]).0@ != (self.spec_pairs()[j2]).0@);
                }
                lemma_map_of_unique_len(self.entries@);
            }
        }
        self.entries.len()
    }

    /// The pair at a storage position, for enumeration. On a well-formed
    /// value each pair is a binding of the mapping.
    pub fn pair_at<'a>(&'a self, i: usize) -> (kv: (&'a String, &'a String))
        requires
            i < self.spec_pairs().len(),
        ensures
            *kv.0 == self.spec_pairs()[i as int].0,
            *kv.1 == self.spec_pairs()[i as int].1,
            self.wf() ==> self@.contains_key(kv.0@) && self@[kv.0@] == kv.1@,
    {
        proof {
            if self.wf() {
                assert forall|i2: int, j2: int|
                    0 <= i2 < j2 < self.entries@.len() implies (#[trigger] self.entries@[i2]).0@
                    != (#[trigger] self.entries@[j2]).0@ by {
                    assert((self.spec_pairs()[i2]).0@ != (self.spec_pairs()[j2]).0@);
                }
                lemma_map_of_dom(self.entries@);
                lemma_map_of_values_unique(self.entries@, i as int);
            }
        }
        (&self.entries[i].0, &self.entries[i].1)
    }
}

/// With pairwise-distinct keys, each pair's value is the mapping's value.
proof fn lemma_map_of_values_unique(s: Seq<(String, String)>, i: int)
    requires
        forall|i2: int, j2: int|
            0 <= i2 < j2 < s.len() ==> (#[trigger] s[i2]).0@ != (#[trigger] s[j2]).0@,
        0 <= i < s.len(),
    ensures
        map_of(s).contains_key((s[i]).0@),
        map_of(s)[(s[i]).0@] == (s[i]).1@,
    decreases s.len(),
{
    lemma_map_of_dom(s);
    if i == s.len() - 1 {
    } else {
        let t = s.drop_last();
        lemma_map_of_values_unique(t, i);
        assert((t[i]).0@ == (s[i]).0@);
        assert(s.last().0@ != (s[i]).0@);
    }
}

/// One inclusion of the mapping order: every binding of `a` is a binding of
/// `b`.
fn map_le(a: &Tags, b: &Tags) -> (r: bool)
    ensures
        r == forall|k: Seq<char>|
            #[trigger] a@.contains_key(k) ==> b@.contains_key(k) && b@[k] == a@[k],
{
    let n = a.entries.len();
    for i in 0..n
        invariant
            n == a.entries@.len(),
            forall|j: int|
                0 <= j < i ==> {
                    let k = (#[trigger] a.entries@[j]).0@;
                    b@.contains_key(k) && b@[k] == a@[k]
                },
    {
        let key = &a.entries[i].0;
        proof {
            lemma_map_of_dom(a.entries@);
            assert((a.entries@[i as int]).0@ == key@);
        }
        let va = lookup_last(&a.entries, key);
        let vb = lookup_last(&b.entries, key);
        match va {
            Some(x) => {
                match vb {
                    Some(y) => {
                        if !(*x == *y) {
                            proof {
                                assert(a@.contains_key(key@) && a@[key@] == x@);
                                assert(b@.contains_key(key@) && b@[key@] == y@);
                                assert(!(b@[key@] == a@[key@]));
                            }
                            return false;
                        }
                    },
                    None => {
                        proof {
                            assert(a@.contains_key(key@));
                            assert(!b@.contains_key(key@));
                        }
                        return false;
                    },
                }
            },
            None => {
                proof {
                    assert(a@.contains_key(key@));
                    assert(false);
                }
            },
        }
    }
    proof {
        lemma_map_of_dom(a.entries@);
        assert forall|k: Seq<char>| #[trigger] a@.contains_key(k) implies b@.contains_key(k)
            && b@[k] == a@[k] by {
            let j = choose|j: int| 0 <= j < a.entries@.len() && (a.entries@[j]).0@ == k;
            assert((a.entries@[j]).0@ == k);
        }
    }
    true
}

impl PartialEq for Tags {
    /// Mapping equality: the same keys bound to the same values, whatever
    /// order the pairs were inserted in.
    fn eq(&self, other: &Tags) -> (r: bool) {
        let r1 = map_le(self, other);
        let r2 = map_le(other, self);
        proof {
            if r1 && r2 {
                assert(self@ =~= other@);
            }
        }
        r1 && r2
    }
}

impl PartialEqSpecImpl for Tags {
    open spec fn obeys_eq_spec() -> bool {
        true
    }

    open spec fn eq_spec(&self, other: &Tags) -> bool {
        self@ == other@
    }
}

impl Eq for Tags {}

impl Clone for Tags {
    /// The clone denotes the same mapping and stores the same pairs.
    fn clone(&self) -> (r: Self)
        ensures
            r.spec_pairs() == self.spec_pairs(),
            r@ == self@,
    {
        let mut v: Vec<(String, String)> = Vec::new();
        let n = self.entries.len();
        for i in 0..n
            invariant
                n == self.entries@.len(),
                v@.len() == i,
                forall|j: int| 0 <= j < i ==> v@[j] == self.entries@[j],
        {
            let k = self.entries[i].0.clone();
            let val = self.entries[i].1.clone();
            v.push((k, val));
        }
        proof {
            assert(v@ =~= self.entries@);
        }
        Tags { entries: v }
    }
}

/// Tag-mapping equality does not depend on insertion order: binding two
/// distinct keys in either order yields the same mapping.
pub proof fn lemma_tags_order_independent(
    m: Map<Seq<char>, Seq<char>>,
    k1: Seq<char>,
    v1: Seq<char>,
    k2: Seq<char>,
    v2: Seq<char>,
)
    requires
        k1 != k2,
    ensures
        m.insert(k1, v1).insert(k2, v2) == m.insert(k2, v2).insert(k1, v1),
{
    assert(m.insert(k1, v1).insert(k2, v2) =~= m.insert(k2, v2).insert(k1, v1));
}

} // verus!
