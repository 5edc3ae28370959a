//! Detection of the no$gba emulator through its signature bytes.
use vstd::prelude::*;

verus! {

/// The seven bytes that no$gba exposes at its signature address: ASCII `"no$gba "`.
pub open spec fn magic() -> Seq<u8> {
    seq![0x6eu8, 0x6fu8, 0x24u8, 0x67u8, 0x62u8, 0x61u8, 0x20u8]
}

/// Whether `bytes` is exactly the emulator's signature.
pub open spec fn is_signature(bytes: Seq<u8>) -> bool {
    bytes == magic()
}

/// Compares the bytes read from the signature address with `"no$gba "`.
pub fn detect(signature: &[u8; 7]) -> (r: bool)
    ensures
        r == is_signature(signature@),
{
    let s = signature;
    let r = s[0] == 0x6e && s[1] == 0x6f && s[2] == 0x24 && s[3] == 0x67 && s[4] == 0x62
        && s[5] == 0x61 && s[6] == 0x20;
    proof {
        if r {
            assert(signature@ =~= magic());
        } else {
            assert(exists|i: int| 0 <= i < 7 && signature@[i] != magic()[i]);
        }
    }
    r
}

/// A sequence that differs from the signature in any single position is rejected:
/// detection is exact byte equality, with no tolerance for case or trailing spaces.
pub proof fn lemma_any_difference_rejected(bytes: Seq<u8>, i: int)
    requires
        0 <= i < bytes.len(),
        i < 7,
        bytes[i] != magic()[i],
    ensures
        !is_signature(bytes),
{
}

} // verus!
