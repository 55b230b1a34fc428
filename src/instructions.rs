use vstd::prelude::*;
use crate::state::{Address, Authority, ErrorCode, UserAccount};

verus! {

/// What an instruction does to the record at the owner's derived address: the
/// new content of that address, or the error that leaves it untouched.
pub type Outcome = Result<Option<UserAccount>, ErrorCode>;

/// The record a caller may act on: it must exist and belong to the caller.
pub open spec fn owned_record(slot: Option<UserAccount>, caller: Address) -> Result<UserAccount, ErrorCode> {
    match slot {
        None => Err(ErrorCode::AccountNotInitialized),
        Some(a) => if a.owner@ == caller@ {
            Ok(a)
        } else {
            Err(ErrorCode::NotOwner)
        },
    }
}

/// The record after its value is replaced by `value` in both layers.
pub open spec fn with_value(a: UserAccount, value: u64) -> UserAccount {
    UserAccount { data: value, committed: value, ..a }
}

/// A freshly created record.
pub open spec fn fresh_record(owner: Address, bump: u8) -> UserAccount {
    UserAccount { owner, data: 0, bump, authority: Authority::Local, committed: 0 }
}

pub open spec fn initialize_outcome(slot: Option<UserAccount>, caller: Address, bump: u8) -> Outcome {
    match slot {
        Some(_) => Err(ErrorCode::AlreadyInitialized),
        None => Ok(Some(fresh_record(caller, bump))),
    }
}

pub open spec fn update_outcome(slot: Option<UserAccount>, caller: Address, value: u64) -> Outcome {
    match owned_record(slot, caller) {
        Err(e) => Err(e),
        Ok(a) => if a.authority == Authority::Local {
            Ok(Some(with_value(a, value)))
        } else {
            Err(ErrorCode::AlreadyDelegated)
        },
    }
}

pub open spec fn update_commit_outcome(slot: Option<UserAccount>, caller: Address, value: u64) -> Outcome {
    match owned_record(slot, caller) {
        Err(e) => Err(e),
        Ok(a) => if a.authority == Authority::Delegated {
            Ok(Some(with_value(a, value)))
        } else {
            Err(ErrorCode::NotDelegated)
        },
    }
}

pub open spec fn delegate_outcome(slot: Option<UserAccount>, caller: Address) -> Outcome {
    match owned_record(slot, caller) {
        Err(e) => Err(e),
        Ok(a) => if a.authority == Authority::Local {
            Ok(Some(UserAccount { authority: Authority::Delegated, committed: a.data, ..a }))
        } else {
            Err(ErrorCode::AlreadyDelegated)
        },
    }
}

pub open spec fn undelegate_outcome(slot: Option<UserAccount>, caller: Address) -> Outcome {
    match owned_record(slot, caller) {
        Err(e) => Err(e),
        Ok(a) => if a.authority == Authority::Delegated {
            Ok(Some(UserAccount { authority: Authority::Local, data: a.committed, ..a }))
        } else {
            Err(ErrorCode::NotDelegated)
        },
    }
}

pub open spec fn close_outcome(slot: Option<UserAccount>, caller: Address) -> Outcome {
    match owned_record(slot, caller) {
        Err(e) => Err(e),
        Ok(a) => if a.authority == Authority::Local {
            Ok(None)
        } else {
            Err(ErrorCode::AlreadyDelegated)
        },
    }
}

/// `r` and the address's content after the call agree with `outcome`.
pub open spec fn follows(outcome: Outcome, before: Option<UserAccount>, after: Option<UserAccount>, r: Result<(), ErrorCode>) -> bool {
    match outcome {
        Ok(s) => r == Ok::<(), ErrorCode>(()) && after == s,
        Err(e) => r == Err::<(), ErrorCode>(e) && after == before,
    }
}

/// Whether the content of an address is a well-formed record or nothing.
pub open spec fn slot_wf(slot: Option<UserAccount>) -> bool {
    match slot {
        None => true,
        Some(a) => a.wf(),
    }
}

/// Looks up the record `caller` may act on.
fn owned_by(slot: &Option<UserAccount>, caller: &Address) -> (r: Result<UserAccount, ErrorCode>)
    ensures
        r == owned_record(*slot, *caller),
{
    match slot {
        None => Err(ErrorCode::AccountNotInitialized),
        Some(a) => if a.is_owned_by(caller) {
            Ok(*a)
        } else {
            Err(ErrorCode::NotOwner)
        },
    }
}

/// Creates the caller's record, with value 0, held locally.
pub fn initialize(slot: &mut Option<UserAccount>, caller: &Address, bump: u8) -> (r: Result<(), ErrorCode>)
    ensures
        follows(initialize_outcome(*old(slot), *caller, bump), *old(slot), *final(slot), r),
{
    if slot.is_some() {
        return Err(ErrorCode::AlreadyInitialized);
    }
    *slot = Some(UserAccount::new(*caller, bump));
    Ok(())
}

/// Replaces the value of a locally held record.
pub fn update(slot: &mut Option<UserAccount>, caller: &Address, new_data: u64) -> (r: Result<(), ErrorCode>)
    ensures
        follows(update_outcome(*old(slot), *caller, new_data), *old(slot), *final(slot), r),
{
    let a = owned_by(slot, caller)?;
    if a.authority != Authority::Local {
        return Err(ErrorCode::AlreadyDelegated);
    }
    *slot = Some(UserAccount { data: new_data, committed: new_data, ..a });
    Ok(())
}

/// Replaces the value of a delegated record and checkpoints it to the base layer.
pub fn update_commit(slot: &mut Option<UserAccount>, caller: &Address, new_data: u64) -> (r: Result<(), ErrorCode>)
    ensures
        follows(update_commit_outcome(*old(slot), *caller, new_data), *old(slot), *final(slot), r),
{
    let a = owned_by(slot, caller)?;
    if a.authority != Authority::Delegated {
        return Err(ErrorCode::NotDelegated);
    }
    *slot = Some(commit(UserAccount { data: new_data, ..a }));
    Ok(())
}

/// Pushes the ephemeral layer's value to the base layer's checkpoint.
pub(crate) fn commit(a: UserAccount) -> (r: UserAccount)
    ensures
        r == (UserAccount { committed: a.data, ..a }),
{
    UserAccount { committed: a.data, ..a }
}

/// Hands write authority over a locally held record to the ephemeral layer.
pub fn delegate(slot: &mut Option<UserAccount>, caller: &Address) -> (r: Result<(), ErrorCode>)
    ensures
        follows(delegate_outcome(*old(slot), *caller), *old(slot), *final(slot), r),
{
    let a = owned_by(slot, caller)?;
    if a.authority != Authority::Local {
        return Err(ErrorCode::AlreadyDelegated);
    }
    *slot = Some(UserAccount { authority: Authority::Delegated, committed: a.data, ..a });
    Ok(())
}

/// Returns write authority to the base layer, which adopts its last checkpoint.
pub fn undelegate(slot: &mut Option<UserAccount>, caller: &Address) -> (r: Result<(), ErrorCode>)
    ensures
        follows(undelegate_outcome(*old(slot), *caller), *old(slot), *final(slot), r),
{
    let a = owned_by(slot, caller)?;
    if a.authority != Authority::Delegated {
        return Err(ErrorCode::NotDelegated);
    }
    *slot = Some(UserAccount { authority: Authority::Local, data: a.committed, ..a });
    Ok(())
}

/// Removes a locally held record; its address may then be initialized afresh.
pub fn close(slot: &mut Option<UserAccount>, caller: &Address) -> (r: Result<(), ErrorCode>)
    ensures
        follows(close_outcome(*old(slot), *caller), *old(slot), *final(slot), r),
{
    let a = owned_by(slot, caller)?;
    if a.authority != Authority::Local {
        return Err(ErrorCode::AlreadyDelegated);
    }
    *slot = None;
    Ok(())
}

} // verus!
