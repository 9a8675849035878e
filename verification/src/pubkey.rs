//! Account addresses.

use vstd::prelude::*;
use vstd::std_specs::cmp::PartialEqSpecImpl;

verus! {

/// A 32-byte account address: the key under which the ledger knows a signer,
/// a record or a token account.
#[derive(Clone, Copy, Debug, Eq, Hash)]
pub struct Pubkey {
    pub bytes: [u8; 32],
}

impl PartialEq for Pubkey {
    /// Two addresses are equal when all 32 bytes agree. Every byte is looked at,
    /// whatever the earlier ones were.
    fn eq(&self, other: &Self) -> (r: bool) {
        let mut agree: bool = true;
        let mut i: usize = 0;
        while i < 32
            invariant
                i <= 32,
                agree == (forall|j: int| 0 <= j < i ==> self.bytes[j] == other.bytes[j]),
            decreases 32 - i,
        {
            if self.bytes[i] != other.bytes[i] {
                agree = false;
            }
            i += 1;
        }
        assert(agree == (self.bytes =~= other.bytes));
        agree
    }
}

impl PartialEqSpecImpl for Pubkey {
    open spec fn obeys_eq_spec() -> bool {
        true
    }

    open spec fn eq_spec(&self, other: &Self) -> bool {
        *self == *other
    }
}

/// The base58 text (Bitcoin alphabet) of a byte string, as `bs58` encodes it.
pub uninterp spec fn base58_text(bytes: Seq<u8>) -> Seq<char>;

impl Pubkey {
    /// Wraps 32 bytes as an address.
    pub fn new_from_array(bytes: [u8; 32]) -> (key: Pubkey)
        ensures
            key.bytes == bytes,
    {
        Pubkey { bytes }
    }

    /// The address in its usual written form. Trusted: `Display` of
    /// `anchor_lang::prelude::Pubkey` writes `bs58::encode(bytes).into_string()`,
    /// which depends on the 32 bytes alone; the contract gives that text a name
    /// and claims nothing else of it.
    #[verifier::external_body]
    pub(crate) fn to_base58(&self) -> (text: String)
        ensures
            text@ == base58_text(self.bytes@),
    {
        anchor_lang::prelude::Pubkey::new_from_array(self.bytes).to_string()
    }
}

} // verus!
