use anchor_lang::prelude::Pubkey;
use std::str::FromStr;
use vstd::prelude::*;

verus! {

/// A 32-byte public identifier naming a party or an address.
#[derive(Clone, Copy, Debug)]
pub struct Identity {
    pub bytes: [u8; 32],
}

impl View for Identity {
    type V = Seq<u8>;

    open spec fn view(&self) -> Seq<u8> {
        self.bytes@
    }
}

impl PartialEq for Identity {
    fn eq(&self, o: &Identity) -> (r: bool) {
        let mut i: usize = 0;
        while i < 32
            invariant
                0 <= i <= 32,
                forall|j: int| 0 <= j < i ==> self.bytes[j] == o.bytes[j],
            decreases 32 - i,
        {
            if self.bytes[i] != o.bytes[i] {
                return false;
            }
            i = i + 1;
        }
        assert(self.bytes@ =~= o.bytes@);
        true
    }
}

impl vstd::std_specs::cmp::PartialEqSpecImpl for Identity {
    open spec fn obeys_eq_spec() -> bool {
        true
    }

    open spec fn eq_spec(&self, o: &Identity) -> bool {
        self@ == o@
    }
}

impl Eq for Identity {
}

/// The 32 bytes that the canonical base58 text `s` denotes, if it denotes any.
pub uninterp spec fn pubkey_from_text(s: Seq<char>) -> Option<Seq<u8>>;

/// Relies on `FromStr for Pubkey` (solana-program): base58 text of at most
/// 44 characters that decodes to exactly 32 bytes gives those bytes; any
/// other text is an error.
#[verifier::external_body]
fn parse_pubkey(s: &str) -> (r: Option<Identity>)
    ensures
        match r {
            Some(id) => pubkey_from_text(s@) == Some(id@),
            None => pubkey_from_text(s@) is None,
        },
        s@.len() > 44 ==> r is None,
{
    match Pubkey::from_str(s) {
        Ok(k) => Some(Identity { bytes: k.to_bytes() }),
        Err(_) => None,
    }
}

impl Identity {
    /// Reads an identity from its canonical base58 text.
    pub fn parse(s: &str) -> (r: Option<Identity>)
        ensures
            match r {
                Some(id) => pubkey_from_text(s@) == Some(id@),
                None => pubkey_from_text(s@) is None,
            },
    {
        parse_pubkey(s)
    }

}

} // verus!
