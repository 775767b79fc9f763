//! One contract's persisted fields: a key-addressed working copy that the
//! sandbox mutates during an invocation and the runtime persists on `flush`.

use vstd::prelude::*;

verus! {

/// One contract's state, seen as a map from 32-byte keys to byte values.
///
/// The representation is an append log of bindings: a later binding for a
/// key shadows every earlier one, and the view is the map of newest
/// bindings.  Reads search newest-first.
#[derive(Debug, PartialEq, Eq)]
pub struct State {
    entries: Vec<([u8; 32], Vec<u8>)>,
}

/// The map that a log of bindings denotes: each binding, oldest first, is
/// inserted over the ones before it.
pub open spec fn bindings_view(s: Seq<([u8; 32], Vec<u8>)>) -> Map<Seq<u8>, Seq<u8>>
    decreases s.len(),
{
    if s.len() == 0 {
        Map::empty()
    } else {
        bindings_view(s.drop_last()).insert(s.last().0@, s.last().1@)
    }
}

/// Two logs whose bindings agree pairwise denote the same map.
proof fn lemma_bindings_view_congruent(s1: Seq<([u8; 32], Vec<u8>)>, s2: Seq<([u8; 32], Vec<u8>)>)
    requires
        s1.len() == s2.len(),
        forall|i: int| 0 <= i < s1.len() ==> s1[i].0@ == s2[i].0@ && s1[i].1@ == s2[i].1@,
    ensures
        bindings_view(s1) == bindings_view(s2),
    decreases s1.len(),
{
    if s1.len() > 0 {
        lemma_bindings_view_congruent(s1.drop_last(), s2.drop_last());
        assert(s1.last().0@ == s2.last().0@ && s1.last().1@ == s2.last().1@);
    }
}

/// Copies a byte string.
pub fn copy_bytes(v: &[u8]) -> (r: Vec<u8>)
    ensures
        r@ == v@,
{
    let mut out: Vec<u8> = Vec::new();
    let mut i: usize = 0;
    while i < v.len()
        invariant
            0 <= i <= v@.len(),
            out@ == v@.subrange(0, i as int),
        decreases v@.len() - i,
    {
        out.push(v[i]);
        proof {
            assert(out@ =~= v@.subrange(0, i + 1));
        }
        i = i + 1;
    }
    proof {
        assert(out@ =~= v@);
    }
    out
}

/// Whether two byte strings hold the same bytes.
pub fn bytes_eq(a: &[u8], b: &[u8]) -> (r: bool)
    ensures
        r == (a@ == b@),
{
    if a.len() != b.len() {
        proof {
            assert(a@ != b@);
        }
        return false;
    }
    let mut i: usize = 0;
    while i < a.len()
        invariant
            0 <= i <= a@.len(),
            a@.len() == b@.len(),
            forall|j: int| 0 <= j < i ==> a@[j] == b@[j],
        decreases a@.len() - i,
    {
        if a[i] != b[i] {
            proof {
                assert(a@[i as int] != b@[i as int]);
            }
            return false;
        }
        i = i + 1;
    }
    proof {
        assert(a@ =~= b@);
    }
    true
}

impl View for State {
    type V = Map<Seq<u8>, Seq<u8>>;

    closed spec fn view(&self) -> Map<Seq<u8>, Seq<u8>> {
        bindings_view(self.entries@)
    }
}

impl State {
    /// A state with no bindings.
    pub fn new() -> (r: State)
        ensures
            r@ == Map::<Seq<u8>, Seq<u8>>::empty(),
    {
        State { entries: Vec::new() }
    }

    /// The newest binding for `key` among the first `i` log entries, if any.
    fn get_prefix(entries: &Vec<([u8; 32], Vec<u8>)>, key: &[u8; 32], i: usize) -> (r: Option<
        Vec<u8>,
    >)
        requires
            i <= entries@.len(),
        ensures
            match r {
                Some(v) => bindings_view(entries@.take(i as int)).contains_key(key@)
                    && v@ == bindings_view(entries@.take(i as int))[key@],
                None => !bindings_view(entries@.take(i as int)).contains_key(key@),
            },
        decreases i,
    {
        if i == 0 {
            proof {
                assert(entries@.take(0) =~= Seq::<([u8; 32], Vec<u8>)>::empty());
            }
            None
        } else {
            let entry = &entries[i - 1];
            proof {
                assert(entries@.take(i as int).drop_last() =~= entries@.take(i - 1));
                assert(entries@.take(i as int).last() == entries@[i - 1]);
            }
            if bytes_eq(entry.0.as_slice(), key.as_slice()) {
                proof {
                    assert(entry.0@ == key@);
                }
                Some(copy_bytes(entry.1.as_slice()))
            } else {
                Self::get_prefix(entries, key, i - 1)
            }
        }
    }

    /// The value bound to `key`, if any: exactly the view's binding.
    pub fn get(&self, key: &[u8; 32]) -> (r: Option<Vec<u8>>)
        ensures
            match r {
                Some(v) => self@.contains_key(key@) && v@ == self@[key@],
                None => !self@.contains_key(key@),
            },
    {
        proof {
            assert(self.entries@.take(self.entries@.len() as int) =~= self.entries@);
        }
        Self::get_prefix(&self.entries, key, self.entries.len())
    }

    /// Binds `key` to `value`, shadowing any earlier binding.
    pub fn set(&mut self, key: &[u8; 32], value: Vec<u8>)
        ensures
            final(self)@ == old(self)@.insert(key@, value@),
    {
        let k: [u8; 32] = *key;
        self.entries.push((k, value));
        proof {
            assert(self.entries@.drop_last() =~= old(self).entries@);
        }
    }

    /// An equal, independently owned copy of this state.
    pub fn duplicate(&self) -> (r: State)
        ensures
            r@ == self@,
    {
        let mut out: Vec<([u8; 32], Vec<u8>)> = Vec::new();
        let mut i: usize = 0;
        while i < self.entries.len()
            invariant
                0 <= i <= self.entries@.len(),
                out@.len() == i,
                forall|j: int| 0 <= j < i ==> out@[j].0@ == self.entries@[j].0@
                    && out@[j].1@ == self.entries@[j].1@,
            decreases self.entries@.len() - i,
        {
            let entry = &self.entries[i];
            let k: [u8; 32] = entry.0;
            out.push((k, copy_bytes(entry.1.as_slice())));
            i = i + 1;
        }
        proof {
            lemma_bindings_view_congruent(out@, self.entries@);
        }
        State { entries: out }
    }
}

} // verus!
