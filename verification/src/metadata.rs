//! Contract ABI metadata: the constructor and message tables, the code hash,
//! and the hex-encoded module of a contract package.

use vstd::prelude::*;

verus! {

/// Where a contract package's code lives: the `0x`-prefixed hex encodings of
/// the compiled module and of its code hash, as ASCII bytes.
#[derive(Debug, PartialEq, Eq)]
pub struct Source {
    pub wasm: Vec<u8>,
    pub hash: Vec<u8>,
}

/// One callable method: a human-readable name, its 4-byte selector, and the
/// declared parameter types in order.
#[derive(Debug, PartialEq, Eq)]
pub struct MethodDef {
    pub name: String,
    pub selector: [u8; 4],
    pub arg_types: Vec<String>,
}

/// The ABI description the runtime consumes: source fields plus the
/// constructor and message tables.
#[derive(Debug, PartialEq, Eq)]
pub struct Metadata {
    pub source: Source,
    pub constructors: Vec<MethodDef>,
    pub messages: Vec<MethodDef>,
}

/// The first method of the given name, if any.
pub open spec fn first_method(defs: Seq<MethodDef>, name: Seq<char>) -> Option<MethodDef>
    decreases defs.len(),
{
    if defs.len() == 0 {
        None
    } else if defs[0].name@ == name {
        Some(defs[0])
    } else {
        first_method(defs.skip(1), name)
    }
}

/// Finds the first method of the given name in a table; agrees exactly with
/// [`first_method`].
fn find_method(defs: &Vec<MethodDef>, name: &str) -> (r: Option<usize>)
    ensures
        match r {
            Some(i) => i < defs@.len() && first_method(defs@, name@) == Some(defs@[i as int]),
            None => first_method(defs@, name@) is None,
        },
{
    let wanted: String = name.to_owned();
    proof {
        assert(defs@.skip(0) =~= defs@);
    }
    let mut i: usize = 0;
    while i < defs.len()
        invariant
            0 <= i <= defs@.len(),
            wanted@ == name@,
            first_method(defs@, name@) == first_method(defs@.skip(i as int), name@),
        decreases defs@.len() - i,
    {
        if defs[i].name == wanted {
            proof {
                assert(defs@.skip(i as int)[0] == defs@[i as int]);
            }
            return Some(i);
        }
        proof {
            assert(defs@.skip(i as int)[0] == defs@[i as int]);
            assert(defs@.skip(i as int).skip(1) =~= defs@.skip(i + 1));
        }
        i = i + 1;
    }
    proof {
        assert(defs@.skip(defs@.len() as int) =~= Seq::<MethodDef>::empty());
    }
    None
}

impl Metadata {
    /// The first constructor of the given name, as an index into
    /// `constructors`.
    pub fn constructor(&self, name: &str) -> (r: Option<usize>)
        ensures
            match r {
                Some(i) => i < self.constructors@.len() && first_method(self.constructors@, name@)
                    == Some(self.constructors@[i as int]),
                None => first_method(self.constructors@, name@) is None,
            },
    {
        find_method(&self.constructors, name)
    }

    /// The first message of the given name, as an index into `messages`.
    pub fn message(&self, name: &str) -> (r: Option<usize>)
        ensures
            match r {
                Some(i) => i < self.messages@.len() && first_method(self.messages@, name@) == Some(
                    self.messages@[i as int],
                ),
                None => first_method(self.messages@, name@) is None,
            },
    {
        find_method(&self.messages, name)
    }
}

} // verus!
