use vstd::prelude::*;

verus! {

/// A sequence of key/value pairs of character strings: the model of
/// overwrite mappings and of extra-argument lists.
pub type KvSeq = Seq<(Seq<char>, Seq<char>)>;

/// Whether some pair of the sequence has the given key.
pub open spec fn ov_contains(m: KvSeq, k: Seq<char>) -> bool {
    exists|i: int| 0 <= i < m.len() && m[i].0 == k
}

/// The value of the first pair with the given key, if any.
pub open spec fn ov_lookup(m: KvSeq, k: Seq<char>) -> Option<Seq<char>>
    decreases m.len(),
{
    if m.len() == 0 {
        None
    } else if m[0].0 == k {
        Some(m[0].1)
    } else {
        ov_lookup(m.drop_first(), k)
    }
}

/// The sequence with the first pair of the given key taken out; a sequence
/// without the key is unchanged.
pub open spec fn ov_remove(m: KvSeq, k: Seq<char>) -> KvSeq
    decreases m.len(),
{
    if m.len() == 0 {
        m
    } else if m[0].0 == k {
        m.drop_first()
    } else {
        seq![m[0]] + ov_remove(m.drop_first(), k)
    }
}

/// No two pairs of the sequence share a key.
pub open spec fn ov_unique(m: KvSeq) -> bool {
    forall|i: int, j: int| 0 <= i < j < m.len() ==> m[i].0 != m[j].0
}

pub proof fn lemma_ov_first_match(m: KvSeq, k: Seq<char>, i: int)
    requires
        0 <= i < m.len(),
        m[i].0 == k,
        forall|j: int| 0 <= j < i ==> m[j].0 != k,
    ensures
        ov_remove(m, k) == m.remove(i),
        ov_lookup(m, k) == Some(m[i].1),
    decreases i,
{
    if i == 0 {
        assert(ov_remove(m, k) =~= m.remove(0));
    } else {
        assert forall|j: int| 0 <= j < i - 1 implies m.drop_first()[j].0 != k by {
            assert(m[j + 1].0 != k);
        }
        lemma_ov_first_match(m.drop_first(), k, i - 1);
        assert(ov_remove(m, k) =~= m.remove(i));
    }
}

pub proof fn lemma_ov_no_match(m: KvSeq, k: Seq<char>)
    requires
        forall|j: int| 0 <= j < m.len() ==> m[j].0 != k,
    ensures
        ov_remove(m, k) == m,
        ov_lookup(m, k) is None,
    decreases m.len(),
{
    if m.len() > 0 {
        assert forall|j: int| 0 <= j < m.drop_first().len() implies m.drop_first()[j].0 != k by {
            assert(m[j + 1].0 != k);
        }
        lemma_ov_no_match(m.drop_first(), k);
        assert(ov_remove(m, k) =~= m);
    }
}

/// Removing a key that no pair has leaves the sequence unchanged.
pub proof fn lemma_ov_remove_absent(m: KvSeq, k: Seq<char>)
    requires
        ov_lookup(m, k) is None,
    ensures
        ov_remove(m, k) == m,
    decreases m.len(),
{
    if m.len() > 0 {
        lemma_ov_remove_absent(m.drop_first(), k);
        assert(ov_remove(m, k) =~= m);
    }
}

/// A lookup succeeds exactly when some pair has the key.
pub proof fn lemma_ov_lookup_contains(m: KvSeq, k: Seq<char>)
    ensures
        ov_lookup(m, k) is Some <==> ov_contains(m, k),
    decreases m.len(),
{
    if m.len() > 0 {
        lemma_ov_lookup_contains(m.drop_first(), k);
        if ov_contains(m, k) && m[0].0 != k {
            let i = choose|i: int| 0 <= i < m.len() && m[i].0 == k;
            assert(m.drop_first()[i - 1].0 == k);
        }
        if ov_contains(m.drop_first(), k) {
            let i = choose|i: int| 0 <= i < m.drop_first().len() && m.drop_first()[i].0 == k;
            assert(m[i + 1].0 == k);
        }
    }
}

/// Removing one key does not change what any other key looks up.
pub proof fn lemma_ov_remove_preserves_other(m: KvSeq, k: Seq<char>, k2: Seq<char>)
    requires
        k2 != k,
    ensures
        ov_lookup(ov_remove(m, k), k2) == ov_lookup(m, k2),
    decreases m.len(),
{
    if m.len() > 0 {
        if m[0].0 == k {
            assert(ov_remove(m, k) == m.drop_first());
        } else {
            lemma_ov_remove_preserves_other(m.drop_first(), k, k2);
            let r = seq![m[0]] + ov_remove(m.drop_first(), k);
            assert(r[0] == m[0]);
            assert(r.drop_first() =~= ov_remove(m.drop_first(), k));
        }
    }
}

/// Under unique keys, a removed key is gone from what remains.
pub proof fn lemma_ov_remove_not_contains(m: KvSeq, k: Seq<char>)
    requires
        ov_unique(m),
    ensures
        !ov_contains(ov_remove(m, k), k),
    decreases m.len(),
{
    if m.len() > 0 {
        assert forall|i: int, j: int|
            0 <= i < j < m.drop_first().len() implies m.drop_first()[i].0
            != m.drop_first()[j].0 by {
            assert(m[i + 1].0 != m[j + 1].0);
        }
        if m[0].0 == k {
            if ov_contains(m.drop_first(), k) {
                let i = choose|i: int|
                    0 <= i < m.drop_first().len() && m.drop_first()[i].0 == k;
                assert(m[i + 1].0 == m[0].0);
                assert(false);
            }
        } else {
            lemma_ov_remove_not_contains(m.drop_first(), k);
            let r = seq![m[0]] + ov_remove(m.drop_first(), k);
            if ov_contains(r, k) {
                let i = choose|i: int| 0 <= i < r.len() && r[i].0 == k;
                assert(i > 0);
                assert(ov_remove(m.drop_first(), k)[i - 1].0 == k);
                assert(false);
            }
        }
    }
}

/// A successful lookup names the value of some pair with the key.
pub proof fn lemma_ov_lookup_index(m: KvSeq, k: Seq<char>)
    requires
        ov_lookup(m, k) is Some,
    ensures
        exists|i: int|
            0 <= i < m.len() && m[i].0 == k && m[i].1 == ov_lookup(m, k)->0,
    decreases m.len(),
{
    if m.len() > 0 {
        if m[0].0 == k {
            assert(m[0].0 == k && m[0].1 == ov_lookup(m, k)->0);
        } else {
            lemma_ov_lookup_index(m.drop_first(), k);
            let i = choose|i: int|
                0 <= i < m.drop_first().len() && m.drop_first()[i].0 == k && m.drop_first()[i].1
                    == ov_lookup(m.drop_first(), k)->0;
            assert(m[i + 1].0 == k && m[i + 1].1 == ov_lookup(m, k)->0);
        }
    }
}

/// A caller-supplied mapping from field key to overwrite value, kept in
/// insertion order; matched entries are consumed as fields are merged, and
/// what remains afterwards is appended to the output.
pub struct Overwrites {
    pub entries: Vec<(String, String)>,
}

impl View for Overwrites {
    type V = KvSeq;

    open spec fn view(&self) -> KvSeq {
        self.entries.deep_view()
    }
}

impl Overwrites {
    /// An empty overwrite mapping.
    pub fn new() -> (r: Overwrites)
        ensures
            r@ == Seq::<(Seq<char>, Seq<char>)>::empty(),
    {
        let r = Overwrites { entries: Vec::new() };
        proof {
            assert(r@ =~= Seq::<(Seq<char>, Seq<char>)>::empty());
        }
        r
    }

    /// Append one key/value entry.
    pub fn push(&mut self, key: String, value: String)
        ensures
            final(self)@ == old(self)@.push((key@, value@)),
    {
        let ghost prev = self@;
        self.entries.push((key, value));
        proof {
            assert(self@ =~= prev.push((key@, value@)));
        }
    }

    /// How many entries remain.
    pub fn len(&self) -> (n: usize)
        ensures
            n == self@.len(),
    {
        self.entries.len()
    }

    /// Take the entry with the given key out of the mapping, handing its
    /// value back; a mapping without the key is left unchanged.
    #[verifier::loop_isolation(false)]
    pub fn remove(&mut self, key: &String) -> (r: Option<String>)
        ensures
            final(self)@ == ov_remove(old(self)@, key@),
            r.deep_view() == ov_lookup(old(self)@, key@),
    {
        let ghost m = self@;
        let mut i: usize = 0;
        while i < self.entries.len()
            invariant
                0 <= i <= self.entries.len(),
                self@ == m,
                forall|j: int| 0 <= j < i ==> m[j].0 != key@,
            decreases self.entries.len() - i,
        {
            assert(m[i as int].0 == self.entries@[i as int].0@);
            if self.entries[i].0 == *key {
                proof {
                    lemma_ov_first_match(m, key@, i as int);
                }
                let pair = self.entries.remove(i);
                proof {
                    assert(self@ =~= m.remove(i as int));
                }
                return Some(pair.1);
            }
            i = i + 1;
        }
        proof {
            lemma_ov_no_match(m, key@);
        }
        None
    }
}

} // verus!
