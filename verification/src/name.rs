//! Names on their way to the store and back: a name goes out as bytes without
//! a zero byte, and comes back as bytes that may or may not be UTF-8.

use crate::error::Error;
use vstd::prelude::*;
use vstd::slice::slice_to_vec;
use vstd::string::StringSliceAdditionalSpecFns;
use vstd::utf8::valid_utf8;

verus! {

/// Whether a zero byte occurs in `bytes`. The store takes a name up to its
/// first zero byte, so a name that holds one cannot be handed to it.
pub open spec fn has_nul(bytes: Seq<u8>) -> bool {
    exists|i: int| 0 <= i < bytes.len() && bytes[i] == 0
}

/// The bytes to hand to the store for `name`: its UTF-8 bytes, unless a zero
/// byte is among them.
pub fn encode(name: &str) -> (res: Result<Vec<u8>, Error>)
    ensures
        match res {
            Ok(bytes) => !has_nul(name.spec_bytes()) && bytes@ == name.spec_bytes(),
            Err(e) => has_nul(name.spec_bytes()) && e == Error::InvalidName,
        },
{
    let bytes = name.as_bytes();
    let mut i: usize = 0;
    while i < bytes.len()
        invariant
            i <= bytes.len(),
            bytes@ == name.spec_bytes(),
            forall|k: int| 0 <= k < i ==> bytes@[k] != 0,
        decreases bytes.len() - i,
    {
        if bytes[i] == 0 {
            return Err(Error::InvalidName);
        }
        i += 1;
    }
    Ok(slice_to_vec(bytes))
}

/// As [`encode`], for a name that may be absent: no name needs no check.
pub fn encode_opt(name: Option<&str>) -> (res: Result<Option<Vec<u8>>, Error>)
    ensures
        match name {
            None => res == Ok::<Option<Vec<u8>>, Error>(None),
            Some(s) => match res {
                Ok(bytes) => !has_nul(s.spec_bytes()) && (bytes matches Some(b) && b@
                    == s.spec_bytes()),
                Err(e) => has_nul(s.spec_bytes()) && e == Error::InvalidName,
            },
        },
{
    match name {
        None => Ok(None),
        Some(s) => match encode(s) {
            Ok(bytes) => Ok(Some(bytes)),
            Err(e) => Err(e),
        },
    }
}

/// `core::str::from_utf8`, with its error dropped: the bytes are read as a
/// string exactly when they are valid UTF-8, and the string then consists of
/// these very bytes.
#[verifier::external_body]
pub(crate) fn from_utf8(bytes: &[u8]) -> (res: Option<&str>)
    ensures
        res is Some <==> valid_utf8(bytes@),
        res matches Some(s) ==> s.spec_bytes() == bytes@,
{
    std::str::from_utf8(bytes).ok()
}

} // verus!
