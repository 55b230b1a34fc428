use vstd::prelude::*;
use crate::instructions::{
    close_outcome, delegate_outcome, fresh_record, initialize_outcome, slot_wf, undelegate_outcome,
    update_commit_outcome, update_outcome, Outcome,
};
use crate::oracle::OracleConfig;
use crate::state::{Address, Authority, ErrorCode, UserAccount};
use crate::vrf::{request_check, roll_outcome};

verus! {

/// Initializing an address twice fails the second time with `AlreadyInitialized`,
/// and the record the first call created is what remains.
pub proof fn initialize_is_guarded(slot: Option<UserAccount>, caller: Address, bump: u8, again: Address, bump_again: u8)
    ensures
        slot is None ==> initialize_outcome(slot, caller, bump) == Ok::<Option<UserAccount>, ErrorCode>(Some(fresh_record(caller, bump))),
        slot is Some ==> initialize_outcome(slot, caller, bump) == Err::<Option<UserAccount>, ErrorCode>(ErrorCode::AlreadyInitialized),
        initialize_outcome(Some(fresh_record(caller, bump)), again, bump_again)
            == Err::<Option<UserAccount>, ErrorCode>(ErrorCode::AlreadyInitialized),
{
}

/// Delegating a record that a delegation just succeeded on fails with
/// `AlreadyDelegated`; undelegating a record that was never delegated fails
/// with `NotDelegated`.
pub proof fn delegation_toggles(slot: Option<UserAccount>, caller: Address, bump: u8)
    ensures
        delegate_outcome(slot, caller) is Ok ==> match delegate_outcome(slot, caller) {
            Ok(s) => delegate_outcome(s, caller) == Err::<Option<UserAccount>, ErrorCode>(ErrorCode::AlreadyDelegated),
            Err(_) => true,
        },
        undelegate_outcome(Some(fresh_record(caller, bump)), caller)
            == Err::<Option<UserAccount>, ErrorCode>(ErrorCode::NotDelegated),
{
}

/// A plain update of a delegated record fails, and so does an update-and-commit
/// of a locally held one.
pub proof fn updates_need_their_layer(a: UserAccount, caller: Address, value: u64)
    requires
        a.owner@ == caller@,
    ensures
        a.authority == Authority::Delegated ==> update_outcome(Some(a), caller, value)
            == Err::<Option<UserAccount>, ErrorCode>(ErrorCode::AlreadyDelegated),
        a.authority == Authority::Local ==> update_commit_outcome(Some(a), caller, value)
            == Err::<Option<UserAccount>, ErrorCode>(ErrorCode::NotDelegated),
{
}

/// A callback from any identity but the oracle's fails with
/// `UnauthorizedCallback`, whatever it carries, so the record keeps its value.
pub proof fn callbacks_need_the_oracle(
    slot: Option<UserAccount>,
    invoker: Address,
    cfg: OracleConfig,
    roll: u8,
    needed: Authority,
)
    requires
        invoker@ != cfg.identity@,
    ensures
        roll_outcome(slot, invoker, cfg, roll, needed)
            == Err::<Option<UserAccount>, ErrorCode>(ErrorCode::UnauthorizedCallback),
{
}

/// Once a record is closed its address holds nothing: every instruction but
/// `initialize` fails with `AccountNotInitialized`, and `initialize` succeeds.
pub proof fn closed_address_is_empty(
    slot: Option<UserAccount>,
    owner: Address,
    caller: Address,
    value: u64,
    bump: u8,
    account: Address,
    program_id: Address,
    queue: Address,
    invoker: Address,
    cfg: OracleConfig,
    roll: u8,
    needed: Authority,
)
    requires
        close_outcome(slot, owner) is Ok,
    ensures
        close_outcome(slot, owner) == Ok::<Option<UserAccount>, ErrorCode>(None),
        update_outcome(None, caller, value) == Err::<Option<UserAccount>, ErrorCode>(ErrorCode::AccountNotInitialized),
        update_commit_outcome(None, caller, value) == Err::<Option<UserAccount>, ErrorCode>(ErrorCode::AccountNotInitialized),
        delegate_outcome(None, caller) == Err::<Option<UserAccount>, ErrorCode>(ErrorCode::AccountNotInitialized),
        undelegate_outcome(None, caller) == Err::<Option<UserAccount>, ErrorCode>(ErrorCode::AccountNotInitialized),
        close_outcome(None, caller) == Err::<Option<UserAccount>, ErrorCode>(ErrorCode::AccountNotInitialized),
        request_check(None, caller, account, program_id, queue, cfg, needed) == Err::<(), ErrorCode>(ErrorCode::AccountNotInitialized),
        invoker@ == cfg.identity@ ==> roll_outcome(None, invoker, cfg, roll, needed)
            == Err::<Option<UserAccount>, ErrorCode>(ErrorCode::AccountNotInitialized),
        initialize_outcome(None, caller, bump) is Ok,
{
}

/// Whether an outcome keeps the content of an address well formed.
pub open spec fn keeps_wf(o: Outcome) -> bool {
    match o {
        Ok(s) => slot_wf(s),
        Err(_) => true,
    }
}

/// Every instruction keeps a record well formed: while it is held locally, the
/// base layer's value is its value.
pub proof fn transitions_keep_wf(
    slot: Option<UserAccount>,
    caller: Address,
    value: u64,
    bump: u8,
    invoker: Address,
    cfg: OracleConfig,
    roll: u8,
    needed: Authority,
)
    requires
        slot_wf(slot),
    ensures
        keeps_wf(initialize_outcome(slot, caller, bump)),
        keeps_wf(update_outcome(slot, caller, value)),
        keeps_wf(update_commit_outcome(slot, caller, value)),
        keeps_wf(delegate_outcome(slot, caller)),
        keeps_wf(undelegate_outcome(slot, caller)),
        keeps_wf(close_outcome(slot, caller)),
        keeps_wf(roll_outcome(slot, invoker, cfg, roll, needed)),
{
}

} // verus!
