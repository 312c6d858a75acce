//! Text as the engine takes it: bytes that end at the first NUL.

use vstd::prelude::*;
use vstd::string::StringSliceAdditionalSpecFns;

verus! {

/// No byte of `bytes` is NUL, so the engine reads all of them.
pub open spec fn nul_free(bytes: Seq<u8>) -> bool {
    forall|i: int| 0 <= i < bytes.len() ==> bytes[i] != 0u8
}

/// The bytes handed to the engine for `bytes`: the same bytes and one
/// closing NUL.
pub open spec fn terminated(bytes: Seq<u8>) -> Seq<u8> {
    bytes.push(0u8)
}

/// Whether `bytes` holds a NUL, at which the engine would stop reading.
pub fn bytes_have_nul(bytes: &[u8]) -> (found: bool)
    ensures
        found == !nul_free(bytes@),
{
    let mut i: usize = 0;
    while i < bytes.len()
        invariant
            i <= bytes.len(),
            nul_free(bytes@.take(i as int)),
        decreases bytes.len() - i,
    {
        if bytes[i] == 0u8 {
            return true;
        }
        i += 1;
    }
    assert(bytes@.take(i as int) =~= bytes@);
    false
}

/// The NUL-terminated copy of `bytes`, or nothing when `bytes` holds a NUL
/// itself.
pub fn c_bytes(bytes: &[u8]) -> (out: Option<Vec<u8>>)
    ensures
        out is Some <==> nul_free(bytes@),
        out is Some ==> out.unwrap()@ == terminated(bytes@),
{
    if bytes_have_nul(bytes) {
        return None;
    }
    let mut copy: Vec<u8> = Vec::new();
    let mut i: usize = 0;
    while i < bytes.len()
        invariant
            i <= bytes.len(),
            copy@ == bytes@.take(i as int),
        decreases bytes.len() - i,
    {
        copy.push(bytes[i]);
        assert(bytes@.take(i + 1) =~= bytes@.take(i as int).push(bytes@[i as int]));
        i += 1;
    }
    assert(bytes@.take(i as int) =~= bytes@);
    copy.push(0u8);
    Some(copy)
}

/// Whether the UTF-8 form of `s` holds a NUL.
pub fn has_nul(s: &str) -> (found: bool)
    ensures
        found == !nul_free(s.spec_bytes()),
{
    bytes_have_nul(s.as_bytes())
}

/// The NUL-terminated UTF-8 form of `s`, or nothing when `s` holds a NUL
/// itself.
pub fn c_string(s: &str) -> (out: Option<Vec<u8>>)
    ensures
        out is Some <==> nul_free(s.spec_bytes()),
        out is Some ==> out.unwrap()@ == terminated(s.spec_bytes()),
{
    c_bytes(s.as_bytes())
}

/// A flag as the engine takes it: 1 for set, 0 for clear.
pub fn c_flag(set: bool) -> (flag: i32)
    ensures
        flag == if set { 1i32 } else { 0i32 },
{
    if set {
        1
    } else {
        0
    }
}

/// A truth value as the engine gives it: every number but 0 means yes.
pub fn c_truth(value: i64) -> (set: bool)
    ensures
        set == (value != 0),
{
    value != 0
}

} // verus!
