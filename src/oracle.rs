use vstd::prelude::*;
use crate::state::Address;

verus! {

/// The value that the oracle SDK draws from 32 random bytes within inclusive bounds.
pub uninterp spec fn roll_of(bytes: Seq<u8>, min_value: u8, max_value: u8) -> u8;

/// Relies on `ephemeral_vrf_sdk::rnd::random_u8_with_range`: it returns a value in
/// `[min_value, max_value]` computed from the bytes and the bounds alone, and it
/// panics when `min_value > max_value`.
#[verifier::external_body]
pub(crate) fn random_u8_with_range(bytes: &[u8; 32], min_value: u8, max_value: u8) -> (r: u8)
    requires
        min_value <= max_value,
    ensures
        r == roll_of(bytes@, min_value, max_value),
        min_value <= r <= max_value,
{
    ephemeral_vrf_sdk::rnd::random_u8_with_range(bytes, min_value, max_value)
}

/// The address the ledger derives from a namespace, an owner, a bump and a program,
/// or `None` where the seeds give a point on the curve.
pub uninterp spec fn program_address(namespace: Seq<u8>, owner: Seq<u8>, bump: u8, program_id: Seq<u8>) -> Option<Seq<u8>>;

/// Relies on `Pubkey::create_program_address` (re-exported by the oracle SDK): the
/// address derived from the seeds `[namespace, owner, [bump]]` and the program, a
/// function of these alone; it fails, rather than panics, on seeds it cannot use.
#[verifier::external_body]
pub(crate) fn create_program_address(namespace: &[u8], owner: &Address, bump: u8, program_id: &Address) -> (r: Option<Address>)
    ensures
        match r {
            Some(a) => program_address(namespace@, owner@, bump, program_id@) == Some(a@),
            None => program_address(namespace@, owner@, bump, program_id@) is None,
        },
{
    let seeds: [&[u8]; 3] = [namespace, &owner.bytes, &[bump]];
    let program = ephemeral_vrf_sdk::Pubkey::new_from_array(program_id.bytes);
    match ephemeral_vrf_sdk::Pubkey::create_program_address(&seeds, &program) {
        Ok(k) => Some(Address { bytes: k.to_bytes() }),
        Err(_) => None,
    }
}

/// Relies on `ephemeral_vrf_sdk::consts::DEFAULT_QUEUE`: the oracle queue that
/// randomness requests are sent to.
#[verifier::external_body]
fn sdk_default_queue() -> (r: Address) {
    Address { bytes: ephemeral_vrf_sdk::consts::DEFAULT_QUEUE.to_bytes() }
}

/// Relies on `ephemeral_vrf_sdk::consts::VRF_PROGRAM_IDENTITY`: the derived address
/// that signs every callback the oracle program makes.
#[verifier::external_body]
fn sdk_program_identity() -> (r: Address) {
    Address { bytes: ephemeral_vrf_sdk::consts::VRF_PROGRAM_IDENTITY.to_bytes() }
}

/// The two identities this program trusts: the queue it asks for randomness and
/// the identity that alone may deliver it.
#[derive(Clone, Copy, Debug)]
pub struct OracleConfig {
    pub queue: Address,
    pub identity: Address,
}

impl OracleConfig {
    /// The oracle SDK's well-known queue and program identity.
    pub fn sdk_defaults() -> (r: OracleConfig) {
        OracleConfig { queue: sdk_default_queue(), identity: sdk_program_identity() }
    }

    /// Whether `queue` is the trusted oracle queue.
    pub fn is_trusted_queue(&self, queue: &Address) -> (r: bool)
        ensures
            r == (queue@ == self.queue@),
    {
        queue.same_as(&self.queue)
    }

    /// Whether `invoker` is the oracle's signing identity.
    pub fn is_oracle(&self, invoker: &Address) -> (r: bool)
        ensures
            r == (invoker@ == self.identity@),
    {
        invoker.same_as(&self.identity)
    }
}

} // verus!
