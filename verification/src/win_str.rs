//! Zero-terminated narrow strings for platform calls: the platform takes
//! signed bytes ending in a terminating zero, so a borrowed string is
//! copied byte for byte with the terminator appended.

use vstd::prelude::*;
use vstd::string::StringSliceAdditionalSpecFns;

verus! {

/// An owned, zero-terminated narrow string. Only the bytes of an ASCII
/// source survive the signed reinterpretation unchanged.
pub struct WinStr {
    pub chars: Vec<i8>,
}

impl WinStr {
    /// Copies a string's bytes, each reinterpreted as a signed byte, and
    /// appends the terminating zero.
    pub fn from(s: &str) -> (r: WinStr)
        ensures
            r.chars@.len() == s.spec_bytes().len() + 1,
            forall|i: int|
                0 <= i < s.spec_bytes().len() ==> r.chars@[i] == s.spec_bytes()[i] as i8,
            r.chars@.last() == 0i8,
    {
        let bytes = s.as_bytes();
        let mut chars: Vec<i8> = Vec::new();
        let mut i: usize = 0;
        while i < bytes.len()
            invariant
                i <= bytes.len(),
                bytes@ == s.spec_bytes(),
                chars@.len() == i,
                forall|j: int| 0 <= j < i ==> chars@[j] == s.spec_bytes()[j] as i8,
            decreases bytes.len() - i,
        {
            let b: u8 = bytes[i];
            chars.push(#[verifier::truncate] (b as i8));
            i += 1;
        }
        chars.push(0i8);
        WinStr { chars }
    }
}

} // verus!
