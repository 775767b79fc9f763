//! Hex decoding of contract fields and marshalling of call arguments.

use vstd::prelude::*;
use crate::result::Error;

verus! {

/// Whether `b` is an ASCII hex digit.
pub open spec fn is_hex_digit(b: u8) -> bool {
    (48 <= b <= 57) || (97 <= b <= 102) || (65 <= b <= 70)
}

/// The value of an ASCII hex digit.
pub open spec fn hex_digit_value(b: u8) -> u8 {
    if 48 <= b <= 57 {
        (b - 48) as u8
    } else if 97 <= b <= 102 {
        (b - 97 + 10) as u8
    } else if 65 <= b <= 70 {
        (b - 65 + 10) as u8
    } else {
        0
    }
}

/// Whether `s` is a decodable hex string: even length, hex digits only.
pub open spec fn is_hex(s: Seq<u8>) -> bool {
    s.len() % 2 == 0 && forall|i: int| 0 <= i < s.len() ==> is_hex_digit(#[trigger] s[i])
}

/// The bytes a hex string denotes: each digit pair, high digit first, is
/// one byte.
pub open spec fn hex_bytes(s: Seq<u8>) -> Seq<u8> {
    Seq::new(
        s.len() / 2,
        |i: int| (hex_digit_value(s[2 * i]) * 16 + hex_digit_value(s[2 * i + 1])) as u8,
    )
}

/// Relies on `hex::decode`: it succeeds exactly on even-length strings of
/// hex digits (either case), and then yields one byte per digit pair, high
/// digit first.
#[verifier::external_body]
pub fn hex_decode(s: &[u8]) -> (r: Option<Vec<u8>>)
    ensures
        match r {
            Some(v) => is_hex(s@) && v@ == hex_bytes(s@),
            None => !is_hex(s@),
        },
{
    hex::decode(s).ok()
}

/// Decodes a `0x`-prefixed hex string of exactly 32 bytes into a code hash.
/// Every other input fails with `DecodeContractFailed`.
pub fn parse_code_hash(s: &[u8]) -> (r: Result<[u8; 32], Error>)
    ensures
        r matches Ok(h) ==> s@.len() == 66 && s@[0] == 48 && s@[1] == 120
            && is_hex(s@.skip(2)) && h@ == hex_bytes(s@.skip(2)),
        r is Err <==> !(s@.len() == 66 && s@[0] == 48 && s@[1] == 120 && is_hex(s@.skip(2))),
        r is Err ==> r == Err::<[u8; 32], Error>(Error::DecodeContractFailed),
{
    if s.len() != 66 || s[0] != 48 || s[1] != 120 {
        return Err(Error::DecodeContractFailed);
    }
    let tail = vstd::slice::slice_subrange(s, 2, 66);
    proof {
        assert(tail@ =~= s@.skip(2));
    }
    match hex_decode(tail) {
        None => Err(Error::DecodeContractFailed),
        Some(v) => {
            let mut h: [u8; 32] = [0u8; 32];
            let mut i: usize = 0;
            while i < 32
                invariant
                    0 <= i <= 32,
                    v@.len() == 32,
                    h@.len() == 32,
                    forall|j: int| 0 <= j < i ==> h@[j] == v@[j],
                decreases 32 - i,
            {
                h[i] = v[i];
                i = i + 1;
            }
            proof {
                assert(h@ =~= v@);
            }
            Ok(h)
        },
    }
}

/// Decodes the `0x`-prefixed hex module field of a contract document.
/// Succeeds exactly on a `0x`-prefixed decodable hex string and then yields
/// its bytes; every other input fails with `DecodeContractFailed`.
pub fn parse_hex_field(s: &[u8]) -> (r: Result<Vec<u8>, Error>)
    ensures
        r matches Ok(v) ==> s@.len() >= 2 && s@[0] == 48 && s@[1] == 120
            && is_hex(s@.skip(2)) && v@ == hex_bytes(s@.skip(2)),
        r is Err <==> !(s@.len() >= 2 && s@[0] == 48 && s@[1] == 120 && is_hex(s@.skip(2))),
        r is Err ==> r == Err::<Vec<u8>, Error>(Error::DecodeContractFailed),
{
    if s.len() < 2 || s[0] != 48 || s[1] != 120 {
        return Err(Error::DecodeContractFailed);
    }
    let tail = vstd::slice::slice_subrange(s, 2, s.len());
    proof {
        assert(tail@ =~= s@.skip(2));
    }
    match hex_decode(tail) {
        None => Err(Error::DecodeContractFailed),
        Some(v) => Ok(v),
    }
}

/// The concatenation of a list of byte strings, in order.
pub open spec fn concat_bytes(args: Seq<Seq<u8>>) -> Seq<u8>
    decreases args.len(),
{
    if args.len() == 0 {
        Seq::empty()
    } else {
        concat_bytes(args.drop_last()) + args.last()
    }
}

/// Marshals a call: the payload is the 4-byte selector followed by the
/// pre-encoded arguments concatenated in order.  Fails with
/// `WrongArgumentLength` if and only if the number of supplied arguments
/// differs from the declared parameter list's length; the arguments' inner
/// encoding is not re-validated.
pub fn parse_args(selector: &[u8; 4], args: &Vec<Vec<u8>>, arg_types: &Vec<String>) -> (r: Result<
    Vec<u8>,
    Error,
>)
    ensures
        r is Err <==> args@.len() != arg_types@.len(),
        r is Err ==> r == Err::<Vec<u8>, Error>(Error::WrongArgumentLength),
        r matches Ok(p) ==> p@ == selector@ + concat_bytes(args@.map_values(|a: Vec<u8>| a@)),
{
    if args.len() != arg_types.len() {
        return Err(Error::WrongArgumentLength);
    }
    let mut payload: Vec<u8> = Vec::new();
    payload.extend_from_slice(selector.as_slice());
    proof {
        assert(payload@ =~= selector@);
    }
    let ghost views = args@.map_values(|a: Vec<u8>| a@);
    let mut i: usize = 0;
    while i < args.len()
        invariant
            0 <= i <= args@.len(),
            views == args@.map_values(|a: Vec<u8>| a@),
            payload@ == selector@ + concat_bytes(views.take(i as int)),
        decreases args@.len() - i,
    {
        payload.extend_from_slice(args[i].as_slice());
        proof {
            assert(views.take(i + 1).drop_last() =~= views.take(i as int));
            assert(views.take(i + 1).last() == views[i as int]);
            assert(views[i as int] == args@[i as int]@);
            assert(payload@ =~= selector@ + concat_bytes(views.take(i + 1)));
        }
        i = i + 1;
    }
    proof {
        assert(views.take(views.len() as int) =~= views);
    }
    Ok(payload)
}

} // verus!
