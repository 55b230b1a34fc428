//! A single per-owner record that moves between a durable base layer and a
//! delegated ephemeral layer, updated directly by its owner or through a
//! randomness oracle's callback.

mod instructions;
mod laws;
mod oracle;
mod state;
mod vrf;

pub use instructions::{
    close, close_outcome, delegate, delegate_outcome, follows, fresh_record, initialize,
    initialize_outcome, owned_record, slot_wf, undelegate, undelegate_outcome, update,
    update_commit, update_commit_outcome, update_outcome, with_value, Outcome,
};
pub use laws::{
    callbacks_need_the_oracle, closed_address_is_empty, delegation_toggles, initialize_is_guarded,
    keeps_wf, transitions_keep_wf, updates_need_their_layer,
};
pub use oracle::{program_address, roll_of, OracleConfig};
pub use state::{Address, Authority, ErrorCode, UserAccount};
pub use vrf::{
    delegated_update_commit, is_record_address, request_check, request_made, request_randomness,
    request_randomness_undelegated, roll_outcome, seed_bytes, undelegated_update, user_namespace,
    verify_record_address, CallBackDelegated, CallBackUnDelegated, Callback, RandomnessRequest,
    VrfUpdate, VrfUpdateCommit, DELEGATED_MAX, DELEGATED_MIN, UNDELEGATED_MAX, UNDELEGATED_MIN,
};
