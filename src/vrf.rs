use vstd::prelude::*;
use crate::instructions::{follows, owned_record, with_value, Outcome};
use crate::oracle::{create_program_address, program_address, random_u8_with_range, roll_of, OracleConfig};
use crate::state::{Address, Authority, ErrorCode, UserAccount};

verus! {

/// Smallest value the delegated callback writes.
pub const DELEGATED_MIN: u8 = 1;

/// Largest value the delegated callback writes.
pub const DELEGATED_MAX: u8 = 6;

/// Smallest value the undelegated callback writes.
pub const UNDELEGATED_MIN: u8 = 1;

/// Largest value the undelegated callback writes.
pub const UNDELEGATED_MAX: u8 = 61;

/// The namespace seed of a record's derived address: the bytes of `"user"`.
pub open spec fn user_namespace() -> Seq<u8> {
    seq![117u8, 115u8, 101u8, 114u8]
}

fn user_seed() -> (r: Vec<u8>)
    ensures
        r@ == user_namespace(),
{
    vec![117u8, 115u8, 101u8, 114u8]
}

/// Whether `account` is the address derived for `owner`'s record with `bump`.
pub open spec fn is_record_address(account: Address, owner: Address, bump: u8, program_id: Address) -> bool {
    program_address(user_namespace(), owner@, bump, program_id@) == Some(account@)
}

/// Checks that `account` is the address derived for `owner`'s record with `bump`.
pub fn verify_record_address(account: &Address, owner: &Address, bump: u8, program_id: &Address) -> (r: bool)
    ensures
        r == is_record_address(*account, *owner, bump, *program_id),
{
    let seed = user_seed();
    match create_program_address(seed.as_slice(), owner, bump, program_id) {
        Some(derived) => derived.same_as(account),
        None => false,
    }
}

/// The entry point the oracle is asked to call back.
#[derive(Clone, Copy, Debug, PartialEq, Eq, Structural)]
pub enum Callback {
    DelegatedUpdateCommit,
    UndelegatedUpdate,
}

/// A request for randomness, as it is handed to the oracle queue.
#[derive(Clone, Copy, Debug)]
pub struct RandomnessRequest {
    /// Who pays for the request: the record's owner.
    pub payer: Address,
    /// The queue the request is sent to.
    pub oracle_queue: Address,
    /// Where the oracle delivers the random bytes.
    pub callback: Callback,
    /// The caller's seed, which perturbs the request but is no source of entropy.
    pub caller_seed: [u8; 32],
    /// The record the callback is to update, handed on as writable.
    pub account: Address,
    /// The program whose callback is called.
    pub callback_program: Address,
}

/// The seed bytes a request carries: the low byte of `seed`, 32 times.
pub open spec fn seed_bytes(seed: u64) -> Seq<u8> {
    Seq::new(32, |i: int| seed as u8)
}

/// Whether a randomness request may be issued: the record must exist and belong
/// to `user`, `account` must be its derived address, `queue` must be the trusted
/// one, and the record must be held by the layer `needed`.
pub open spec fn request_check(
    slot: Option<UserAccount>,
    user: Address,
    account: Address,
    program_id: Address,
    queue: Address,
    cfg: OracleConfig,
    needed: Authority,
) -> Result<(), ErrorCode> {
    match owned_record(slot, user) {
        Err(e) => Err(e),
        Ok(a) => if !is_record_address(account, user, a.bump, program_id) {
            Err(ErrorCode::AddressMismatch)
        } else if queue@ != cfg.queue@ {
            Err(ErrorCode::OracleQueueMismatch)
        } else if a.authority != needed {
            if needed == Authority::Delegated {
                Err(ErrorCode::NotDelegated)
            } else {
                Err(ErrorCode::AlreadyDelegated)
            }
        } else {
            Ok(())
        },
    }
}

/// `r` is the request that `check` allows, or the error it gives.
pub open spec fn request_made(
    check: Result<(), ErrorCode>,
    r: Result<RandomnessRequest, ErrorCode>,
    user: Address,
    queue: Address,
    account: Address,
    program_id: Address,
    seed: u64,
    callback: Callback,
) -> bool {
    match check {
        Err(e) => r == Err::<RandomnessRequest, ErrorCode>(e),
        Ok(_) => match r {
            Err(_) => false,
            Ok(q) => q.payer == user && q.oracle_queue == queue && q.callback == callback
                && q.caller_seed@ == seed_bytes(seed) && q.account == account
                && q.callback_program == program_id,
        },
    }
}

/// What a callback carrying `roll` does: the invoker must be the oracle identity,
/// the record must exist and be held by the layer `needed`; its value becomes `roll`.
pub open spec fn roll_outcome(
    slot: Option<UserAccount>,
    invoker: Address,
    cfg: OracleConfig,
    roll: u8,
    needed: Authority,
) -> Outcome {
    if invoker@ != cfg.identity@ {
        Err(ErrorCode::UnauthorizedCallback)
    } else {
        match slot {
            None => Err(ErrorCode::AccountNotInitialized),
            Some(a) => if a.authority != needed {
                if needed == Authority::Delegated {
                    Err(ErrorCode::NotDelegated)
                } else {
                    Err(ErrorCode::AlreadyDelegated)
                }
            } else {
                Ok(Some(with_value(a, roll as u64)))
            },
        }
    }
}

fn issue_request(
    slot: &Option<UserAccount>,
    user: &Address,
    queue: &Address,
    account: &Address,
    program_id: &Address,
    cfg: &OracleConfig,
    seed: u64,
    needed: Authority,
    callback: Callback,
) -> (r: Result<RandomnessRequest, ErrorCode>)
    ensures
        request_made(
            request_check(*slot, *user, *account, *program_id, *queue, *cfg, needed),
            r,
            *user,
            *queue,
            *account,
            *program_id,
            seed,
            callback,
        ),
{
    let a = match slot {
        None => return Err(ErrorCode::AccountNotInitialized),
        Some(a) => *a,
    };
    if !a.is_owned_by(user) {
        return Err(ErrorCode::NotOwner);
    }
    if !verify_record_address(account, user, a.bump, program_id) {
        return Err(ErrorCode::AddressMismatch);
    }
    if !cfg.is_trusted_queue(queue) {
        return Err(ErrorCode::OracleQueueMismatch);
    }
    if a.authority != needed {
        if needed == Authority::Delegated {
            return Err(ErrorCode::NotDelegated);
        } else {
            return Err(ErrorCode::AlreadyDelegated);
        }
    }
    let caller_seed = [seed as u8; 32];
    assert(caller_seed@ =~= seed_bytes(seed));
    Ok(RandomnessRequest { payer: *user, oracle_queue: *queue, callback, caller_seed, account: *account, callback_program: *program_id })
}

fn apply_roll(
    slot: &mut Option<UserAccount>,
    invoker: &Address,
    cfg: &OracleConfig,
    roll: u8,
    needed: Authority,
) -> (r: Result<(), ErrorCode>)
    ensures
        follows(roll_outcome(*old(slot), *invoker, *cfg, roll, needed), *old(slot), *final(slot), r),
{
    if !cfg.is_oracle(invoker) {
        return Err(ErrorCode::UnauthorizedCallback);
    }
    let a = match slot {
        None => return Err(ErrorCode::AccountNotInitialized),
        Some(a) => *a,
    };
    if a.authority != needed {
        if needed == Authority::Delegated {
            return Err(ErrorCode::NotDelegated);
        } else {
            return Err(ErrorCode::AlreadyDelegated);
        }
    }
    *slot = Some(UserAccount { data: roll as u64, committed: roll as u64, ..a });
    Ok(())
}

/// The accounts of a randomness request made while the record is delegated.
#[derive(Clone, Copy, Debug)]
pub struct VrfUpdateCommit {
    /// The signer, who must own the record.
    pub user: Address,
    /// The content of the record's derived address.
    pub user_account: Option<UserAccount>,
    /// The record's derived address.
    pub user_account_address: Address,
    /// This program, which derives the record's address and receives the callback.
    pub program_id: Address,
    /// The queue the caller names.
    pub oracle_queue: Address,
}

impl VrfUpdateCommit {
    /// Asks the oracle for randomness to be delivered to `delegated_update_commit`.
    pub fn request_randomness(&self, cfg: &OracleConfig, seed: u64) -> (r: Result<RandomnessRequest, ErrorCode>)
        ensures
            request_made(
                request_check(
                    self.user_account,
                    self.user,
                    self.user_account_address,
                    self.program_id,
                    self.oracle_queue,
                    *cfg,
                    Authority::Delegated,
                ),
                r,
                self.user,
                self.oracle_queue,
                self.user_account_address,
                self.program_id,
                seed,
                Callback::DelegatedUpdateCommit,
            ),
    {
        issue_request(
            &self.user_account,
            &self.user,
            &self.oracle_queue,
            &self.user_account_address,
            &self.program_id,
            cfg,
            seed,
            Authority::Delegated,
            Callback::DelegatedUpdateCommit,
        )
    }
}

/// The accounts of a randomness request made while the record is held locally.
#[derive(Clone, Copy, Debug)]
pub struct VrfUpdate {
    /// The signer, who must own the record.
    pub user: Address,
    /// The content of the record's derived address.
    pub user_account: Option<UserAccount>,
    /// The record's derived address.
    pub user_account_address: Address,
    /// This program, which derives the record's address and receives the callback.
    pub program_id: Address,
    /// The queue the caller names.
    pub oracle_queue: Address,
}

impl VrfUpdate {
    /// Asks the oracle for randomness to be delivered to `undelegated_update`.
    pub fn request_randomness_undelegated(&self, cfg: &OracleConfig, seed: u64) -> (r: Result<RandomnessRequest, ErrorCode>)
        ensures
            request_made(
                request_check(
                    self.user_account,
                    self.user,
                    self.user_account_address,
                    self.program_id,
                    self.oracle_queue,
                    *cfg,
                    Authority::Local,
                ),
                r,
                self.user,
                self.oracle_queue,
                self.user_account_address,
                self.program_id,
                seed,
                Callback::UndelegatedUpdate,
            ),
    {
        issue_request(
            &self.user_account,
            &self.user,
            &self.oracle_queue,
            &self.user_account_address,
            &self.program_id,
            cfg,
            seed,
            Authority::Local,
            Callback::UndelegatedUpdate,
        )
    }
}

/// The accounts of the oracle's callback for a delegated record.
#[derive(Clone, Copy, Debug)]
pub struct CallBackDelegated {
    /// The identity that signed the callback.
    pub vrf_program_identity: Address,
    /// The content of the record's address.
    pub user_account: Option<UserAccount>,
}

impl CallBackDelegated {
    /// Writes a value in `[1, 6]` drawn from `randomness` and checkpoints it.
    pub fn delegated_update_commit(&mut self, cfg: &OracleConfig, randomness: [u8; 32]) -> (r: Result<(), ErrorCode>)
        ensures
            r is Ok ==> final(self).user_account is Some && DELEGATED_MIN <= final(self).user_account->Some_0.data <= DELEGATED_MAX,
            final(self).vrf_program_identity == old(self).vrf_program_identity,
            follows(
                roll_outcome(
                    old(self).user_account,
                    old(self).vrf_program_identity,
                    *cfg,
                    roll_of(randomness@, DELEGATED_MIN, DELEGATED_MAX),
                    Authority::Delegated,
                ),
                old(self).user_account,
                final(self).user_account,
                r,
            ),
    {
        let roll = random_u8_with_range(&randomness, DELEGATED_MIN, DELEGATED_MAX);
        self.apply_delegated_roll(cfg, roll)
    }

    /// Writes `roll` as the value drawn by the oracle and checkpoints it.
    pub fn apply_delegated_roll(&mut self, cfg: &OracleConfig, roll: u8) -> (r: Result<(), ErrorCode>)
        ensures
            final(self).vrf_program_identity == old(self).vrf_program_identity,
            follows(
                roll_outcome(old(self).user_account, old(self).vrf_program_identity, *cfg, roll, Authority::Delegated),
                old(self).user_account,
                final(self).user_account,
                r,
            ),
    {
        apply_roll(&mut self.user_account, &self.vrf_program_identity, cfg, roll, Authority::Delegated)
    }
}

/// The accounts of the oracle's callback for a locally held record.
#[derive(Clone, Copy, Debug)]
pub struct CallBackUnDelegated {
    /// The identity that signed the callback.
    pub vrf_program_identity: Address,
    /// The content of the record's address.
    pub user_account: Option<UserAccount>,
}

impl CallBackUnDelegated {
    /// Writes a value in `[1, 61]` drawn from `randomness`.
    pub fn undelegated_update(&mut self, cfg: &OracleConfig, randomness: [u8; 32]) -> (r: Result<(), ErrorCode>)
        ensures
            r is Ok ==> final(self).user_account is Some && UNDELEGATED_MIN <= final(self).user_account->Some_0.data <= UNDELEGATED_MAX,
            final(self).vrf_program_identity == old(self).vrf_program_identity,
            follows(
                roll_outcome(
                    old(self).user_account,
                    old(self).vrf_program_identity,
                    *cfg,
                    roll_of(randomness@, UNDELEGATED_MIN, UNDELEGATED_MAX),
                    Authority::Local,
                ),
                old(self).user_account,
                final(self).user_account,
                r,
            ),
    {
        let roll = random_u8_with_range(&randomness, UNDELEGATED_MIN, UNDELEGATED_MAX);
        self.apply_undelegated_roll(cfg, roll)
    }

    /// Writes `roll` as the value drawn by the oracle.
    pub fn apply_undelegated_roll(&mut self, cfg: &OracleConfig, roll: u8) -> (r: Result<(), ErrorCode>)
        ensures
            final(self).vrf_program_identity == old(self).vrf_program_identity,
            follows(
                roll_outcome(old(self).user_account, old(self).vrf_program_identity, *cfg, roll, Authority::Local),
                old(self).user_account,
                final(self).user_account,
                r,
            ),
    {
        apply_roll(&mut self.user_account, &self.vrf_program_identity, cfg, roll, Authority::Local)
    }
}

/// Issues a randomness request for a delegated record.
pub fn request_randomness(ctx: &VrfUpdateCommit, cfg: &OracleConfig, seed: u64) -> (r: Result<RandomnessRequest, ErrorCode>)
    ensures
        request_made(
            request_check(
                    ctx.user_account,
                    ctx.user,
                    ctx.user_account_address,
                    ctx.program_id,
                    ctx.oracle_queue,
                    *cfg,
                    Authority::Delegated,
                ),
            r,
            ctx.user,
            ctx.oracle_queue,
            ctx.user_account_address,
            ctx.program_id,
            seed,
            Callback::DelegatedUpdateCommit,
        ),
{
    ctx.request_randomness(cfg, seed)
}

/// Issues a randomness request for a locally held record.
pub fn request_randomness_undelegated(ctx: &VrfUpdate, cfg: &OracleConfig, seed: u64) -> (r: Result<RandomnessRequest, ErrorCode>)
    ensures
        request_made(
            request_check(
                    ctx.user_account,
                    ctx.user,
                    ctx.user_account_address,
                    ctx.program_id,
                    ctx.oracle_queue,
                    *cfg,
                    Authority::Local,
                ),
            r,
            ctx.user,
            ctx.oracle_queue,
            ctx.user_account_address,
            ctx.program_id,
            seed,
            Callback::UndelegatedUpdate,
        ),
{
    ctx.request_randomness_undelegated(cfg, seed)
}

/// The oracle's callback for a delegated record.
pub fn delegated_update_commit(ctx: &mut CallBackDelegated, cfg: &OracleConfig, randomness: [u8; 32]) -> (r: Result<(), ErrorCode>)
    ensures
        r is Ok ==> final(ctx).user_account is Some && DELEGATED_MIN <= final(ctx).user_account->Some_0.data <= DELEGATED_MAX,
        final(ctx).vrf_program_identity == old(ctx).vrf_program_identity,
        follows(
            roll_outcome(
                old(ctx).user_account,
                old(ctx).vrf_program_identity,
                *cfg,
                roll_of(randomness@, DELEGATED_MIN, DELEGATED_MAX),
                Authority::Delegated,
            ),
            old(ctx).user_account,
            final(ctx).user_account,
            r,
        ),
{
    ctx.delegated_update_commit(cfg, randomness)
}

/// The oracle's callback for a locally held record.
pub fn undelegated_update(ctx: &mut CallBackUnDelegated, cfg: &OracleConfig, randomness: [u8; 32]) -> (r: Result<(), ErrorCode>)
    ensures
        r is Ok ==> final(ctx).user_account is Some && UNDELEGATED_MIN <= final(ctx).user_account->Some_0.data <= UNDELEGATED_MAX,
        final(ctx).vrf_program_identity == old(ctx).vrf_program_identity,
        follows(
            roll_outcome(
                old(ctx).user_account,
                old(ctx).vrf_program_identity,
                *cfg,
                roll_of(randomness@, UNDELEGATED_MIN, UNDELEGATED_MAX),
                Authority::Local,
            ),
            old(ctx).user_account,
            final(ctx).user_account,
            r,
        ),
{
    ctx.undelegated_update(cfg, randomness)
}

} // verus!
