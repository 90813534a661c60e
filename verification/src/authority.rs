//! Derived authorities: addresses that belong to the program itself.
//!
//! A derived address is computed from a fixed seed tag and the program's own
//! identity. Nobody holds a key for it; whoever can reproduce the seed tag
//! and the bump that came with the address can act for it. The computation
//! itself is the host's: this module reaches it through one call.

use anchor_lang::prelude::Pubkey;
use vstd::prelude::*;

use crate::address::Address;

verus! {

/// The fixed seeds the program derives its own addresses from.
#[derive(Clone, Copy, Debug, PartialEq, Eq, Structural)]
pub enum SeedTag {
    /// The treasury configuration record.
    TreasuryConfig,
    /// The governance mint.
    GovernanceMint,
    /// The vault that collects payments.
    SolVault,
    /// The authority that may mint governance tokens.
    MintAuthority,
}

/// A derived address together with the bump that proves the derivation.
#[derive(Clone, Copy, Debug, PartialEq, Eq)]
pub struct DerivedAuthority {
    pub address: Address,
    pub bump: u8,
}

/// What the host's derivation yields for a seed and a program identity: the
/// derived address with its bump, or nothing when no bump gives an address.
pub uninterp spec fn program_address(seed: Seq<u8>, program: Seq<u8>) -> Option<(Seq<u8>, u8)>;

impl SeedTag {
    /// The bytes of each seed: the ASCII text of its name.
    pub open spec fn spec_bytes(self) -> Seq<u8> {
        match self {
            SeedTag::TreasuryConfig => seq![
                116u8, 114u8, 101u8, 97u8, 115u8, 117u8, 114u8, 121u8, 95u8, 99u8, 111u8, 110u8,
                102u8, 105u8, 103u8,
            ],
            SeedTag::GovernanceMint => seq![120u8, 95u8, 109u8, 105u8, 110u8, 116u8],
            SeedTag::SolVault => seq![
                115u8, 111u8, 108u8, 95u8, 118u8, 97u8, 117u8, 108u8, 116u8,
            ],
            SeedTag::MintAuthority => seq![
                109u8, 105u8, 110u8, 116u8, 95u8, 97u8, 117u8, 116u8, 104u8, 111u8, 114u8, 105u8,
                116u8, 121u8,
            ],
        }
    }

    /// The bytes of this seed.
    pub fn bytes(&self) -> (bytes: Vec<u8>)
        ensures
            bytes@ == self.spec_bytes(),
    {
        let bytes: Vec<u8> = match self {
            SeedTag::TreasuryConfig => vec![
                116u8, 114u8, 101u8, 97u8, 115u8, 117u8, 114u8, 121u8, 95u8, 99u8, 111u8, 110u8,
                102u8, 105u8, 103u8,
            ],
            SeedTag::GovernanceMint => vec![120u8, 95u8, 109u8, 105u8, 110u8, 116u8],
            SeedTag::SolVault => vec![
                115u8, 111u8, 108u8, 95u8, 118u8, 97u8, 117u8, 108u8, 116u8,
            ],
            SeedTag::MintAuthority => vec![
                109u8, 105u8, 110u8, 116u8, 95u8, 97u8, 117u8, 116u8, 104u8, 111u8, 114u8, 105u8,
                116u8, 121u8,
            ],
        };
        assert(bytes@ =~= self.spec_bytes());
        bytes
    }
}

/// Whether `derived` is what the derivation gives for `tag` under
/// `program_id`: the derived address and bump, or nothing where the host
/// finds none.
pub open spec fn derives_to(
    tag: SeedTag,
    program_id: Address,
    derived: Option<DerivedAuthority>,
) -> bool {
    match derived {
        Some(authority) => program_address(tag.spec_bytes(), program_id@) == Some(
            (authority.address@, authority.bump),
        ),
        None => program_address(tag.spec_bytes(), program_id@) is None,
    }
}

/// `Pubkey::try_find_program_address`, as `anchor_lang`'s prelude exports
/// it, for a single seed. The contract claims only that the call is a
/// function of the seed bytes and the program's 32 bytes: what it returns,
/// address bytes and bump or nothing, is `program_address` of the two.
#[verifier::external_body]
fn find_program_address(seed: &Vec<u8>, program_id: &Address) -> (found: Option<([u8; 32], u8)>)
    ensures
        found is Some ==> program_address(seed@, program_id@) == Some(((found->0).0@, (found->0).1)),
        found is None ==> program_address(seed@, program_id@) is None,
{
    let program = Pubkey::new_from_array(program_id.bytes);
    Pubkey::try_find_program_address(&[seed.as_slice()], &program)
        .map(|(address, bump)| (address.to_bytes(), bump))
}

/// Derives the authority for `tag` under the program `program_id`.
pub fn derive_authority(tag: SeedTag, program_id: &Address) -> (derived: Option<DerivedAuthority>)
    ensures
        derives_to(tag, *program_id, derived),
{
    let seed = tag.bytes();
    match find_program_address(&seed, program_id) {
        Some((bytes, bump)) => Some(DerivedAuthority { address: Address::new(bytes), bump }),
        None => None,
    }
}

impl DerivedAuthority {
    /// Whether this is the authority that `tag` derives under `program_id`:
    /// the derivation is made again and compared.
    pub fn confirms(&self, tag: SeedTag, program_id: &Address) -> (confirmed: bool)
        ensures
            confirmed == derives_to(tag, *program_id, Some(*self)),
    {
        match derive_authority(tag, program_id) {
            Some(derived) => {
                proof {
                    if derives_to(tag, *program_id, Some(*self)) {
                        lemma_derivation_is_deterministic(
                            tag,
                            *program_id,
                            Some(derived),
                            Some(*self),
                        );
                    }
                }
                derived.bump == self.bump && derived.address.same(&self.address)
            },
            None => false,
        }
    }
}

/// Derivation is a function: the same tag under the same program always
/// gives the same authority.
pub proof fn lemma_derivation_is_deterministic(
    tag: SeedTag,
    program_id: Address,
    first: Option<DerivedAuthority>,
    second: Option<DerivedAuthority>,
)
    requires
        derives_to(tag, program_id, first),
        derives_to(tag, program_id, second),
    ensures
        first == second,
{
    if let Some(a) = first {
        let b = second->0;
        assert(a.address.bytes@ == b.address.bytes@);
        assert(a.address.bytes =~= b.address.bytes);
    }
}

} // verus!
