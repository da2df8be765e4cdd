use vstd::prelude::*;

use crate::address::Address;

verus! {

/// Smallest stake a session may lock.
pub const MIN_STAKE: u64 = 10_000_000;

/// Longest session that may be declared, in minutes.
pub const MAX_DURATION_MINUTES: u64 = 480;

/// Most tasks a session may carry.
pub const MAX_TASKS: usize = 20;

/// Tolerance on the session window, in minutes: completion may come this much
/// early, expiry only this much late.
pub const GRACE_MINUTES: u64 = 5;

/// The fee routed to the incentive pool is the stake divided by this.
pub const FEE_DIVISOR: u64 = 100;

pub const SECONDS_PER_MINUTE: i64 = 60;

/// One named work item of a session.
#[derive(Clone, Debug)]
pub struct Task {
    pub description: String,
    pub completed: bool,
}

pub struct TaskView {
    pub description: Seq<char>,
    pub completed: bool,
}

impl View for Task {
    type V = TaskView;

    open spec fn view(&self) -> TaskView {
        TaskView { description: self.description@, completed: self.completed }
    }
}

pub open spec fn task_views(tasks: Seq<Task>) -> Seq<TaskView> {
    tasks.map_values(|t: Task| t@)
}

/// Number of completed tasks in a list.
pub open spec fn completed_count(tasks: Seq<TaskView>) -> nat
    decreases tasks.len(),
{
    if tasks.len() == 0 {
        0
    } else {
        completed_count(tasks.drop_last()) + if tasks.last().completed {
            1nat
        } else {
            0nat
        }
    }
}

pub proof fn lemma_completed_count_bound(tasks: Seq<TaskView>)
    ensures
        completed_count(tasks) <= tasks.len(),
    decreases tasks.len(),
{
    if tasks.len() > 0 {
        lemma_completed_count_bound(tasks.drop_last());
    }
}

/// The per-participant session record.
#[derive(Debug)]
pub struct UserState {
    pub user: Address,
    pub is_active: bool,
    pub stake_amount: u64,
    pub start_time: i64,
    pub duration_minutes: u64,
    pub pending_balance: u64,
    pub tasks: Vec<Task>,
}

pub struct UserStateView {
    pub user: Address,
    pub is_active: bool,
    pub stake_amount: u64,
    pub start_time: i64,
    pub duration_minutes: u64,
    pub pending_balance: u64,
    pub tasks: Seq<TaskView>,
}

impl View for UserState {
    type V = UserStateView;

    open spec fn view(&self) -> UserStateView {
        UserStateView {
            user: self.user,
            is_active: self.is_active,
            stake_amount: self.stake_amount,
            start_time: self.start_time,
            duration_minutes: self.duration_minutes,
            pending_balance: self.pending_balance,
            tasks: task_views(self.tasks@),
        }
    }
}

impl UserStateView {
    /// The record invariant: an active session holds a stake within the
    /// declared bounds; an idle one holds none.
    pub open spec fn wf(self) -> bool {
        &&& self.is_active ==> {
            &&& self.stake_amount > 0
            &&& 1 <= self.duration_minutes <= MAX_DURATION_MINUTES
            &&& 1 <= self.tasks.len() <= MAX_TASKS
        }
        &&& !self.is_active ==> self.stake_amount == 0
    }
}

impl UserState {
    /// A fresh, idle record bound to its owner.
    pub fn new(user: Address) -> (r: UserState)
        ensures
            r@ == (UserStateView {
                user,
                is_active: false,
                stake_amount: 0,
                start_time: 0,
                duration_minutes: 0,
                pending_balance: 0,
                tasks: Seq::empty(),
            }),
            r@.wf(),
    {
        let r = UserState {
            user,
            is_active: false,
            stake_amount: 0,
            start_time: 0,
            duration_minutes: 0,
            pending_balance: 0,
            tasks: Vec::new(),
        };
        proof {
            assert(task_views(r.tasks@) =~= Seq::<TaskView>::empty());
        }
        r
    }
}

/// The global ledger: pool accumulators, the withdrawal authority and the
/// derivation proofs of the three vaults.
#[derive(Clone, Copy, Debug)]
pub struct GlobalState {
    pub authority: Address,
    pub focus_pool: u64,
    pub failure_pool: u64,
    pub total_sessions: u64,
    pub vault_bump: u8,
    pub focus_pool_bump: u8,
    pub failure_pool_bump: u8,
}

/// Every way a request can be rejected.
#[derive(Clone, Copy, Debug, PartialEq, Eq, Structural)]
pub enum ErrorCode {
    StakeTooLow,
    InvalidDuration,
    SessionAlreadyActive,
    NoActiveSession,
    SessionNotComplete,
    MathError,
    NoTasksProvided,
    TooManyTasks,
    SessionStillActive,
    InvalidTaskIndex,
    NoPendingBalance,
    Unauthorized,
    TransferFailed,
}

impl ErrorCode {
    /// A human-readable description of the error.
    pub fn message(&self) -> (r: &'static str) {
        match self {
            ErrorCode::StakeTooLow => "Stake amount too low. Minimum 0.01 SOL",
            ErrorCode::InvalidDuration => "Invalid duration. Must be between 1-480 minutes",
            ErrorCode::SessionAlreadyActive => "User already has an active session",
            ErrorCode::NoActiveSession => "No active session found",
            ErrorCode::SessionNotComplete => "Session duration not yet complete",
            ErrorCode::MathError => "Math error during calculation",
            ErrorCode::NoTasksProvided => "No tasks provided",
            ErrorCode::TooManyTasks => "Too many tasks. Maximum 20 tasks",
            ErrorCode::SessionStillActive => "Session is still active",
            ErrorCode::InvalidTaskIndex => "Invalid task index",
            ErrorCode::NoPendingBalance => "No pending balance to claim",
            ErrorCode::Unauthorized => "Caller is not authorized for this operation",
            ErrorCode::TransferFailed => "Transfer would break the vault's reserve",
        }
    }
}

} // verus!
