use er_state_account::{
    close, delegate, delegated_update_commit, initialize, request_randomness,
    request_randomness_undelegated, undelegate, undelegated_update, update, update_commit, Address,
    Authority, CallBackDelegated, CallBackUnDelegated, Callback, ErrorCode, OracleConfig,
    UserAccount, VrfUpdate, VrfUpdateCommit, verify_record_address,
};
use ephemeral_vrf_sdk::Pubkey;

fn addr(b: u8) -> Address {
    Address { bytes: [b; 32] }
}

fn owner() -> Address {
    addr(0xA1)
}

fn program() -> Address {
    addr(0x77)
}

fn derived() -> (Address, u8) {
    let (k, bump) = Pubkey::find_program_address(
        &[b"user", &owner().bytes],
        &Pubkey::new_from_array(program().bytes),
    );
    (Address { bytes: k.to_bytes() }, bump)
}

fn record_address() -> Address {
    derived().0
}

fn init_record() -> Option<UserAccount> {
    let mut slot: Option<UserAccount> = None;
    assert_eq!(initialize(&mut slot, &owner(), derived().1), Ok(()));
    slot
}

fn bytes_ending_in(last: u8) -> [u8; 32] {
    let mut b = [255u8; 32];
    b[31] = last;
    b
}

#[test]
fn initialize_creates_local_zero_record() {
    let slot = init_record().unwrap();
    assert_eq!(slot.owner, owner());
    assert_eq!(slot.data, 0);
    assert_eq!(slot.bump, derived().1);
    assert_eq!(slot.authority, Authority::Local);
}

#[test]
fn second_initialize_fails_and_keeps_record() {
    let mut slot = init_record();
    slot.as_mut().unwrap().data = 5;
    let before = slot;
    assert_eq!(initialize(&mut slot, &owner(), 1), Err(ErrorCode::AlreadyInitialized));
    assert_eq!(slot, before);
}

#[test]
fn update_then_read() {
    let mut slot = init_record();
    assert_eq!(update(&mut slot, &owner(), 42), Ok(()));
    let a = slot.unwrap();
    assert_eq!(a.data, 42);
    assert_eq!(a.authority, Authority::Local);
}

#[test]
fn update_by_stranger_fails() {
    let mut slot = init_record();
    assert_eq!(update(&mut slot, &addr(9), 42), Err(ErrorCode::NotOwner));
    assert_eq!(slot.unwrap().data, 0);
}

#[test]
fn delegate_twice_fails() {
    let mut slot = init_record();
    assert_eq!(delegate(&mut slot, &owner()), Ok(()));
    assert_eq!(slot.unwrap().authority, Authority::Delegated);
    assert_eq!(delegate(&mut slot, &owner()), Err(ErrorCode::AlreadyDelegated));
}

#[test]
fn undelegate_never_delegated_fails() {
    let mut slot = init_record();
    assert_eq!(undelegate(&mut slot, &owner()), Err(ErrorCode::NotDelegated));
}

#[test]
fn update_while_delegated_fails() {
    let mut slot = init_record();
    delegate(&mut slot, &owner()).unwrap();
    assert_eq!(update(&mut slot, &owner(), 3), Err(ErrorCode::AlreadyDelegated));
}

#[test]
fn update_commit_while_local_fails() {
    let mut slot = init_record();
    assert_eq!(update_commit(&mut slot, &owner(), 3), Err(ErrorCode::NotDelegated));
}

#[test]
fn update_commit_then_undelegate() {
    let mut slot = init_record();
    delegate(&mut slot, &owner()).unwrap();
    assert_eq!(update_commit(&mut slot, &owner(), 7), Ok(()));
    assert_eq!(undelegate(&mut slot, &owner()), Ok(()));
    let a = slot.unwrap();
    assert_eq!(a.data, 7);
    assert_eq!(a.authority, Authority::Local);
}

#[test]
fn last_checkpoint_wins() {
    let mut slot = init_record();
    delegate(&mut slot, &owner()).unwrap();
    update_commit(&mut slot, &owner(), 7).unwrap();
    update_commit(&mut slot, &owner(), 11).unwrap();
    undelegate(&mut slot, &owner()).unwrap();
    assert_eq!(slot.unwrap().data, 11);
}

#[test]
fn close_while_delegated_fails() {
    let mut slot = init_record();
    delegate(&mut slot, &owner()).unwrap();
    assert_eq!(close(&mut slot, &owner()), Err(ErrorCode::AlreadyDelegated));
    assert!(slot.is_some());
}

#[test]
fn close_by_stranger_fails() {
    let mut slot = init_record();
    assert_eq!(close(&mut slot, &addr(3)), Err(ErrorCode::NotOwner));
    assert!(slot.is_some());
}

#[test]
fn closed_address_rejects_all_but_initialize() {
    let mut slot = init_record();
    assert_eq!(close(&mut slot, &owner()), Ok(()));
    assert!(slot.is_none());
    let gone = Err(ErrorCode::AccountNotInitialized);
    assert_eq!(update(&mut slot, &owner(), 1), gone);
    assert_eq!(update_commit(&mut slot, &owner(), 1), gone);
    assert_eq!(delegate(&mut slot, &owner()), gone);
    assert_eq!(undelegate(&mut slot, &owner()), gone);
    assert_eq!(close(&mut slot, &owner()), gone);
    let cfg = OracleConfig::sdk_defaults();
    let req = VrfUpdate {
        user: owner(),
        user_account: slot,
        user_account_address: record_address(),
        program_id: program(),
        oracle_queue: cfg.queue,
    };
    assert_eq!(request_randomness_undelegated(&req, &cfg, 1).err(), Some(ErrorCode::AccountNotInitialized));
    let mut cb = CallBackUnDelegated { vrf_program_identity: cfg.identity, user_account: slot };
    assert_eq!(undelegated_update(&mut cb, &cfg, bytes_ending_in(4)), gone);
    assert_eq!(initialize(&mut slot, &owner(), 254), Ok(()));
    assert_eq!(slot.unwrap().data, 0);
}

#[test]
fn sdk_queue_and_identity_differ() {
    let cfg = OracleConfig::sdk_defaults();
    assert_ne!(cfg.queue, cfg.identity);
    assert_ne!(cfg.queue, addr(0));
}

#[test]
fn delegated_randomness_round_trip() {
    let mut slot = init_record();
    delegate(&mut slot, &owner()).unwrap();
    let cfg = OracleConfig::sdk_defaults();
    let ctx = VrfUpdateCommit {
        user: owner(),
        user_account: slot,
        user_account_address: record_address(),
        program_id: program(),
        oracle_queue: cfg.queue,
    };
    let req = request_randomness(&ctx, &cfg, 9).unwrap();
    assert_eq!(req.callback, Callback::DelegatedUpdateCommit);
    assert_eq!(req.caller_seed, [9u8; 32]);
    assert_eq!(req.payer, owner());
    assert_eq!(req.oracle_queue, cfg.queue);
    assert_eq!(req.account, record_address());
    assert_eq!(req.callback_program, program());
    let mut cb = CallBackDelegated { vrf_program_identity: cfg.identity, user_account: slot };
    assert_eq!(delegated_update_commit(&mut cb, &cfg, bytes_ending_in(2)), Ok(()));
    let a = cb.user_account.unwrap();
    assert_eq!(a.data, 3);
    assert_eq!(a.authority, Authority::Delegated);
    let mut slot = cb.user_account;
    undelegate(&mut slot, &owner()).unwrap();
    assert_eq!(slot.unwrap().data, 3);
}

#[test]
fn seed_is_truncated_to_one_byte() {
    let mut slot = init_record();
    delegate(&mut slot, &owner()).unwrap();
    let cfg = OracleConfig::sdk_defaults();
    let ctx = VrfUpdateCommit {
        user: owner(),
        user_account: slot,
        user_account_address: record_address(),
        program_id: program(),
        oracle_queue: cfg.queue,
    };
    let req = ctx.request_randomness(&cfg, 0x1_0203).unwrap();
    assert_eq!(req.caller_seed, [3u8; 32]);
}

#[test]
fn undelegated_randomness_round_trip() {
    let slot = init_record();
    let cfg = OracleConfig::sdk_defaults();
    let ctx = VrfUpdate {
        user: owner(),
        user_account: slot,
        user_account_address: record_address(),
        program_id: program(),
        oracle_queue: cfg.queue,
    };
    let req = ctx.request_randomness_undelegated(&cfg, 300).unwrap();
    assert_eq!(req.callback, Callback::UndelegatedUpdate);
    assert_eq!(req.caller_seed, [44u8; 32]);
    let mut cb = CallBackUnDelegated { vrf_program_identity: cfg.identity, user_account: slot };
    assert_eq!(cb.undelegated_update(&cfg, bytes_ending_in(100)), Ok(()));
    let a = cb.user_account.unwrap();
    assert_eq!(a.data, 40);
    assert_eq!(a.authority, Authority::Local);
}

#[test]
fn request_with_wrong_queue_fails() {
    let mut slot = init_record();
    delegate(&mut slot, &owner()).unwrap();
    let cfg = OracleConfig::sdk_defaults();
    let ctx = VrfUpdateCommit {
        user: owner(),
        user_account: slot,
        user_account_address: record_address(),
        program_id: program(),
        oracle_queue: addr(7),
    };
    assert_eq!(request_randomness(&ctx, &cfg, 9).err(), Some(ErrorCode::OracleQueueMismatch));
}

#[test]
fn request_in_wrong_layer_fails() {
    let slot = init_record();
    let cfg = OracleConfig::sdk_defaults();
    let ctx = VrfUpdateCommit {
        user: owner(),
        user_account: slot,
        user_account_address: record_address(),
        program_id: program(),
        oracle_queue: cfg.queue,
    };
    assert_eq!(request_randomness(&ctx, &cfg, 9).err(), Some(ErrorCode::NotDelegated));
    let mut delegated = slot;
    delegate(&mut delegated, &owner()).unwrap();
    let ctx = VrfUpdate {
        user: owner(),
        user_account: delegated,
        user_account_address: record_address(),
        program_id: program(),
        oracle_queue: cfg.queue,
    };
    assert_eq!(
        request_randomness_undelegated(&ctx, &cfg, 9).err(),
        Some(ErrorCode::AlreadyDelegated)
    );
}

#[test]
fn request_by_stranger_fails() {
    let slot = init_record();
    let cfg = OracleConfig::sdk_defaults();
    let ctx = VrfUpdate {
        user: addr(8),
        user_account: slot,
        user_account_address: record_address(),
        program_id: program(),
        oracle_queue: cfg.queue,
    };
    assert_eq!(request_randomness_undelegated(&ctx, &cfg, 9).err(), Some(ErrorCode::NotOwner));
}

#[test]
fn forged_callback_fails_without_writing() {
    let mut slot = init_record();
    delegate(&mut slot, &owner()).unwrap();
    let cfg = OracleConfig::sdk_defaults();
    let mut cb = CallBackDelegated { vrf_program_identity: owner(), user_account: slot };
    assert_eq!(
        delegated_update_commit(&mut cb, &cfg, bytes_ending_in(2)),
        Err(ErrorCode::UnauthorizedCallback)
    );
    assert_eq!(cb.user_account, slot);
    let local = init_record();
    let mut cb = CallBackUnDelegated { vrf_program_identity: addr(1), user_account: local };
    assert_eq!(cb.apply_undelegated_roll(&cfg, 9), Err(ErrorCode::UnauthorizedCallback));
    assert_eq!(cb.user_account.unwrap().data, 0);
}

#[test]
fn delegated_callback_after_undelegate_fails() {
    let slot = init_record();
    let cfg = OracleConfig::sdk_defaults();
    let mut cb = CallBackDelegated { vrf_program_identity: cfg.identity, user_account: slot };
    assert_eq!(cb.apply_delegated_roll(&cfg, 4), Err(ErrorCode::NotDelegated));
    assert_eq!(cb.user_account, slot);
}

#[test]
fn undelegated_callback_on_delegated_record_fails() {
    let mut slot = init_record();
    delegate(&mut slot, &owner()).unwrap();
    let cfg = OracleConfig::sdk_defaults();
    let mut cb = CallBackUnDelegated { vrf_program_identity: cfg.identity, user_account: slot };
    assert_eq!(undelegated_update(&mut cb, &cfg, bytes_ending_in(100)), Err(ErrorCode::AlreadyDelegated));
}

#[test]
fn callbacks_stay_in_range() {
    let cfg = OracleConfig::sdk_defaults();
    for last in 0..=255u8 {
        let mut slot = init_record();
        delegate(&mut slot, &owner()).unwrap();
        let mut cb = CallBackDelegated { vrf_program_identity: cfg.identity, user_account: slot };
        cb.delegated_update_commit(&cfg, [last; 32]).unwrap();
        let d = cb.user_account.unwrap().data;
        assert!((1..=6).contains(&d));
        let mut cb = CallBackUnDelegated { vrf_program_identity: cfg.identity, user_account: init_record() };
        cb.undelegated_update(&cfg, [last; 32]).unwrap();
        let d = cb.user_account.unwrap().data;
        assert!((1..=61).contains(&d));
    }
}

#[test]
fn record_address_is_derived_from_owner_and_bump() {
    let (a, bump) = derived();
    assert!(verify_record_address(&a, &owner(), bump, &program()));
    assert!(!verify_record_address(&a, &owner(), bump.wrapping_sub(1), &program()));
    assert!(!verify_record_address(&a, &addr(2), bump, &program()));
    assert!(!verify_record_address(&owner(), &owner(), bump, &program()));
}

#[test]
fn request_with_spoofed_record_address_fails() {
    let mut slot = init_record();
    delegate(&mut slot, &owner()).unwrap();
    let cfg = OracleConfig::sdk_defaults();
    let ctx = VrfUpdateCommit {
        user: owner(),
        user_account: slot,
        user_account_address: addr(0x5E),
        program_id: program(),
        oracle_queue: cfg.queue,
    };
    assert_eq!(request_randomness(&ctx, &cfg, 9).err(), Some(ErrorCode::AddressMismatch));
}
