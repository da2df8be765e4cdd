//! A staked-commitment escrow.
//!
//! A participant locks value for a declared duration and task list. Completing
//! the session in time moves the stake into a pending balance, whose payout is
//! decided at claim time by the share of completed tasks; failing or expiring
//! forfeits it to the penalty pool. Every start routes a one percent fee to the
//! incentive pool.
//!
//! The transitions here are pure functions over the participant record and the
//! global ledger: each validates its inputs, updates the records and returns
//! the ordered list of transfers the host must execute. Nothing moves value
//! before every amount has been computed and every check has passed.
//!
//! `session` and `pool` hold the transitions and the model each one is proved
//! against; `laws` states what holds across transitions.

pub mod address;
pub mod laws;
pub mod pool;
pub mod session;
pub mod state;
pub mod transfer;

pub use address::Address;
pub use pool::{
    initialize, withdraw_failure_pool, withdraw_focus_pool, VaultBalances, VaultBumps,
    VaultCreation,
};
pub use session::{
    claim_rewards, complete_focus_session, complete_focus_session_v1, count_completed,
    expire_focus_session, fail_focus_session, start_focus_session, start_focus_session_v1,
    update_task,
};
pub use state::{ErrorCode, GlobalState, Task, UserState};
pub use transfer::{Holding, Transfer};
