//! Who a party is, and under whose authority an account may be debited.

use vstd::prelude::*;
use crate::constant_time_eq::constant_time_eq;

verus! {

/// The public identity of a party: thirty-two opaque bytes.
#[derive(Clone, Copy, Debug, PartialEq, Eq)]
pub struct Identity {
    pub bytes: [u8; 32],
}

impl Identity {
    /// The identity whose bytes are all zero, which names no party.
    pub open spec fn spec_zero() -> Identity {
        Identity { bytes: vstd::array::spec_array_fill_for_copy_type::<u8, 32>(0u8) }
    }

    /// The identity whose bytes are all zero, which names no party.
    pub fn zero() -> (id: Identity)
        ensures
            id == Self::spec_zero(),
            forall|i: int| 0 <= i < 32 ==> id.bytes@[i] == 0u8,
    {
        Identity { bytes: [0u8; 32] }
    }

    /// Tells whether two identities are the same party.
    pub fn same(&self, other: &Identity) -> (r: bool)
        ensures
            r == (*self == *other),
    {
        let r = constant_time_eq(self.bytes.as_slice(), other.bytes.as_slice());
        proof {
            if r {
                assert(self.bytes =~= other.bytes);
            }
        }
        r
    }
}

/// The identity under which an account may be debited.
///
/// A party signs for its own accounts. A session record holds no key: its
/// authority is derived from the pair of parties that names the record, so
/// that only the record itself can stand for it.
#[derive(Clone, Copy, Debug, PartialEq, Eq)]
pub enum Authority {
    /// A party acting under its own signature.
    Party(Identity),
    /// The record of the session between `payer` and `provider`.
    Record { payer: Identity, provider: Identity },
}

impl Authority {
    /// Tells whether two authorities are the same.
    pub fn same(&self, other: &Authority) -> (r: bool)
        ensures
            r == (*self == *other),
    {
        match (self, other) {
            (Authority::Party(a), Authority::Party(b)) => a.same(b),
            (
                Authority::Record { payer: p1, provider: q1 },
                Authority::Record { payer: p2, provider: q2 },
            ) => {
                let payers = p1.same(p2);
                let providers = q1.same(q2);
                payers && providers
            },
            _ => false,
        }
    }
}

/// The authority of the record between `payer` and `provider`.
pub open spec fn record_authority(payer: Identity, provider: Identity) -> Authority {
    Authority::Record { payer, provider }
}

/// Derives the authority of the record between `payer` and `provider`.
///
/// The derivation is a function of the pair alone, and two different pairs
/// never share an authority.
pub fn derive_authority(payer: &Identity, provider: &Identity) -> (a: Authority)
    ensures
        a == record_authority(*payer, *provider),
{
    Authority::Record { payer: *payer, provider: *provider }
}

/// The tag that sets the addresses of session records apart from every
/// other derived address: the ASCII text `session_v1`.
pub open spec fn session_tag() -> Seq<u8> {
    seq![115u8, 101u8, 115u8, 115u8, 105u8, 111u8, 110u8, 95u8, 118u8, 49u8]
}

/// The seeds from which the address and the signing authority of the record
/// between `payer` and `provider` are derived: the tag, the two identities,
/// and the byte that completes the derivation.
pub open spec fn session_seeds(payer: Identity, provider: Identity, bump: u8) -> Seq<Seq<u8>> {
    seq![session_tag(), payer.bytes@, provider.bytes@, seq![bump]]
}

/// Writes out the seeds under which the record between `payer` and
/// `provider` signs for its custody account.
pub fn signer_seeds(payer: &Identity, provider: &Identity, bump: u8) -> (seeds: Vec<Vec<u8>>)
    ensures
        seeds@.len() == 4,
        forall|k: int| 0 <= k < 4 ==> (#[trigger] seeds@[k])@ == session_seeds(
            *payer,
            *provider,
            bump,
        )[k],
{
    let tag: Vec<u8> = vec![115u8, 101u8, 115u8, 115u8, 105u8, 111u8, 110u8, 95u8, 118u8, 49u8];
    assert(tag@ =~= session_tag());
    let payer_seed: Vec<u8> = bytes_of(payer);
    let provider_seed: Vec<u8> = bytes_of(provider);
    let bump_seed: Vec<u8> = vec![bump];
    assert(bump_seed@ =~= seq![bump]);
    let seeds: Vec<Vec<u8>> = vec![tag, payer_seed, provider_seed, bump_seed];
    seeds
}

/// The bytes of an identity, copied out.
pub fn bytes_of(id: &Identity) -> (bytes: Vec<u8>)
    ensures
        bytes@ == id.bytes@,
{
    let mut bytes: Vec<u8> = Vec::new();
    let mut i: usize = 0;
    while i < 32
        invariant
            i <= 32,
            bytes@ == id.bytes@.subrange(0, i as int),
        decreases 32 - i,
    {
        bytes.push(id.bytes[i]);
        i += 1;
        assert(bytes@ =~= id.bytes@.subrange(0, i as int));
    }
    assert(bytes@ =~= id.bytes@);
    bytes
}

/// Seeds name one record only: two derivations that agree were made from
/// the same payer, the same provider and the same completing byte.
pub proof fn seeds_name_one_record(
    payer: Identity,
    provider: Identity,
    bump: u8,
    other_payer: Identity,
    other_provider: Identity,
    other_bump: u8,
)
    requires
        session_seeds(payer, provider, bump) == session_seeds(
            other_payer,
            other_provider,
            other_bump,
        ),
    ensures
        payer == other_payer,
        provider == other_provider,
        bump == other_bump,
        record_authority(payer, provider) == record_authority(other_payer, other_provider),
{
    let a = session_seeds(payer, provider, bump);
    let b = session_seeds(other_payer, other_provider, other_bump);
    assert(a[1] == b[1]);
    assert(a[2] == b[2]);
    assert(a[3] == b[3]);
    assert(payer.bytes =~= other_payer.bytes);
    assert(provider.bytes =~= other_provider.bytes);
    assert(seq![bump][0] == seq![other_bump][0]);
}

} // verus!
