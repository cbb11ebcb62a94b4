//! Check of the firmware revision that is kept in the user signature of
//! the flash.
use vstd::prelude::*;

verus! {

/// The word of a user signature that was never written.
pub const EMPTY_SIGNATURE: u32 = 0xFFFF_FFFF;

/// What the check of a user signature decides.
#[derive(Clone, Copy, Debug, PartialEq, Eq, Structural)]
pub struct SignatureCheck {
    /// Whether the signature is in order: it was empty, or it holds this
    /// firmware's revision.
    pub valid: bool,
    /// The word to write to the signature, if it was empty.
    pub write: Option<u32>,
}

/// The revision that a signature word holds: its lower sixteen bits.
pub open spec fn stored_revision(word: u32) -> nat {
    (word % 0x1_0000) as nat
}

/// The signature word for a revision: the revision below sixteen set bits.
pub open spec fn signature_for(revision: u16) -> u32 {
    (0xFFFF_0000 + revision) as u32
}

/// Checks the first word of the user signature against the firmware
/// revision. An empty signature is in order and gets the revision
/// written; any other signature is in order if it holds the revision.
pub fn check_user_signature(word: u32, revision: u16) -> (check: SignatureCheck)
    ensures
        word == EMPTY_SIGNATURE ==> check.valid && check.write == Some(signature_for(revision)),
        word != EMPTY_SIGNATURE ==> check.write is None && check.valid == (stored_revision(word)
            == revision),
{
    if word == EMPTY_SIGNATURE {
        let fresh: u32 = 0xFFFF_0000u32 | (revision as u32);
        assert(0xFFFF_0000u32 | (revision as u32) == 0xFFFF_0000u32 + (revision as u32))
            by (bit_vector);
        SignatureCheck { valid: true, write: Some(fresh) }
    } else {
        assert(word & 0x0000_FFFFu32 == word % 0x1_0000u32) by (bit_vector);
        SignatureCheck { valid: word & 0x0000_FFFF == revision as u32, write: None }
    }
}

} // verus!
