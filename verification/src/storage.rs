//! The abstract key-addressed state store behind every runtime, and an
//! in-memory implementation of it.
//!
//! Keys are contract code hashes; values are whole contract states.  `flush`
//! is the only point at which a sandbox's working state becomes durable.

use vstd::prelude::*;
use crate::result::Error;
use crate::state::{bytes_eq, State};

verus! {

/// A key-addressed store of contract states, modelled as a map from code
/// hashes to state maps.
pub trait Storage: Sized {
    /// The store's contents: code hash to contract state.
    spec fn model(&self) -> Map<Seq<u8>, Map<Seq<u8>, Seq<u8>>>;

    /// The state stored under `code_hash`, if any: exactly the model's
    /// binding.
    fn get(&self, code_hash: &[u8; 32]) -> (r: Option<State>)
        ensures
            match r {
                Some(st) => self.model().contains_key(code_hash@)
                    && st@ == self.model()[code_hash@],
                None => !self.model().contains_key(code_hash@),
            },
    ;

    /// A fresh, empty state for a contract that has none yet.
    fn new_state(&self) -> (r: State)
        ensures
            r@ == Map::<Seq<u8>, Seq<u8>>::empty(),
    ;

    /// Persists `state` under `code_hash`.  On success the model gains
    /// exactly that binding; on failure it is unchanged.
    fn set(&mut self, code_hash: &[u8; 32], state: State) -> (r: Result<(), Error>)
        ensures
            r is Ok ==> final(self).model() == old(self).model().insert(code_hash@, state@),
            r is Err ==> r == Err::<(), Error>(Error::SetStorageFailed)
                && final(self).model() == old(self).model(),
    ;
}

/// The map that a log of stored states denotes, newest binding per hash.
pub open spec fn store_view(s: Seq<([u8; 32], State)>) -> Map<Seq<u8>, Map<Seq<u8>, Seq<u8>>>
    decreases s.len(),
{
    if s.len() == 0 {
        Map::empty()
    } else {
        store_view(s.drop_last()).insert(s.last().0@, s.last().1@)
    }
}

/// An in-memory store: an append log of `(code hash, state)` bindings in
/// which a later binding shadows every earlier one.
#[derive(Debug)]
pub struct MemoryStorage {
    entries: Vec<([u8; 32], State)>,
}

impl MemoryStorage {
    /// An empty store.
    pub fn new() -> (r: MemoryStorage)
        ensures
            r.model() == Map::<Seq<u8>, Map<Seq<u8>, Seq<u8>>>::empty(),
    {
        MemoryStorage { entries: Vec::new() }
    }

    /// The newest state for `code_hash` among the first `i` log entries.
    fn get_prefix(entries: &Vec<([u8; 32], State)>, code_hash: &[u8; 32], i: usize) -> (r: Option<
        State,
    >)
        requires
            i <= entries@.len(),
        ensures
            match r {
                Some(st) => store_view(entries@.take(i as int)).contains_key(code_hash@)
                    && st@ == store_view(entries@.take(i as int))[code_hash@],
                None => !store_view(entries@.take(i as int)).contains_key(code_hash@),
            },
        decreases i,
    {
        if i == 0 {
            proof {
                assert(entries@.take(0) =~= Seq::<([u8; 32], State)>::empty());
            }
            None
        } else {
            let entry = &entries[i - 1];
            proof {
                assert(entries@.take(i as int).drop_last() =~= entries@.take(i - 1));
                assert(entries@.take(i as int).last() == entries@[i - 1]);
            }
            if bytes_eq(entry.0.as_slice(), code_hash.as_slice()) {
                proof {
                    assert(entry.0@ == code_hash@);
                }
                Some(entry.1.duplicate())
            } else {
                Self::get_prefix(entries, code_hash, i - 1)
            }
        }
    }
}

impl Storage for MemoryStorage {
    closed spec fn model(&self) -> Map<Seq<u8>, Map<Seq<u8>, Seq<u8>>> {
        store_view(self.entries@)
    }

    fn get(&self, code_hash: &[u8; 32]) -> (r: Option<State>) {
        proof {
            assert(self.entries@.take(self.entries@.len() as int) =~= self.entries@);
        }
        Self::get_prefix(&self.entries, code_hash, self.entries.len())
    }

    fn new_state(&self) -> (r: State) {
        State::new()
    }

    fn set(&mut self, code_hash: &[u8; 32], state: State) -> (r: Result<(), Error>) {
        let h: [u8; 32] = *code_hash;
        self.entries.push((h, state));
        proof {
            assert(self.entries@.drop_last() =~= old(self).entries@);
        }
        Ok(())
    }
}

/// Round-trip persistence: flushing a state under a code hash and then
/// loading that hash from the same store yields exactly the flushed state.
/// `store` is a storage model before the flush, `state` the sandbox state
/// written to it; loading after the insert finds that state.
pub proof fn lemma_flush_roundtrip(
    store: Map<Seq<u8>, Map<Seq<u8>, Seq<u8>>>,
    code_hash: Seq<u8>,
    state: Map<Seq<u8>, Seq<u8>>,
)
    ensures
        store.insert(code_hash, state).contains_key(code_hash),
        store.insert(code_hash, state)[code_hash] == state,
{
}

} // verus!
