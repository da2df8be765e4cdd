use vstd::prelude::*;

use crate::address::Address;
use crate::state::{
    completed_count, lemma_completed_count_bound, task_views, ErrorCode, GlobalState, Task,
    TaskView, UserState, UserStateView, FEE_DIVISOR, GRACE_MINUTES, MAX_DURATION_MINUTES,
    MAX_TASKS, MIN_STAKE, SECONDS_PER_MINUTE,
};
use crate::transfer::{Holding, Transfer};

verus! {

/// What a transition does to the participant record and the global ledger,
/// and the transfers it asks for, or the error it rejects the request with.
pub struct Step {
    pub user: UserStateView,
    pub global: GlobalState,
    pub result: Result<Seq<Transfer>, ErrorCode>,
}

/// A rejection leaves both records as they were.
pub open spec fn rejected(user: UserStateView, global: GlobalState, e: ErrorCode) -> Step {
    Step { user, global, result: Err(e) }
}

pub open spec fn accepted(user: UserStateView, global: GlobalState, ts: Seq<Transfer>) -> Step {
    Step { user, global, result: Ok(ts) }
}

/// The transfers an executed transition returned, or its error.
pub open spec fn result_view(r: Result<Vec<Transfer>, ErrorCode>) -> Result<Seq<Transfer>, ErrorCode> {
    match r {
        Ok(ts) => Ok(ts@),
        Err(e) => Err(e),
    }
}

/// The step an executed transition actually took.
pub open spec fn taken(
    user: UserStateView,
    global: GlobalState,
    r: Result<Vec<Transfer>, ErrorCode>,
) -> Step {
    Step { user, global, result: result_view(r) }
}

pub open spec fn transfer(from: Holding, to: Holding, amount: int) -> Transfer {
    Transfer { from, to, amount: amount as u64 }
}

/// Whole minutes between `start` and `now`, truncated toward zero.
pub open spec fn elapsed_minutes(start: i64, now: i64) -> int {
    if now >= start {
        (now - start) / (SECONDS_PER_MINUTE as int)
    } else {
        -((start - now) / (SECONDS_PER_MINUTE as int))
    }
}

/// The time has come for the owner to confirm completion.
pub open spec fn completion_due(u: UserStateView, now: i64) -> bool {
    elapsed_minutes(u.start_time, now) >= u.duration_minutes - GRACE_MINUTES
}

/// The session is past its window and anyone may forfeit it.
pub open spec fn expiry_due(u: UserStateView, now: i64) -> bool {
    elapsed_minutes(u.start_time, now) >= u.duration_minutes + GRACE_MINUTES
}

pub open spec fn fee_of(stake: u64) -> int {
    (stake / FEE_DIVISOR) as int
}

pub open spec fn escrow_of(stake: u64) -> int {
    stake - fee_of(stake)
}

pub open spec fn fits_u64(x: int) -> bool {
    x <= u64::MAX
}

/// The start transition.
pub open spec fn start_step(
    u: UserStateView,
    g: GlobalState,
    caller: Address,
    stake_amount: u64,
    duration_minutes: u64,
    tasks: Seq<TaskView>,
    now: i64,
) -> Step {
    if caller != u.user {
        rejected(u, g, ErrorCode::Unauthorized)
    } else if stake_amount < MIN_STAKE {
        rejected(u, g, ErrorCode::StakeTooLow)
    } else if duration_minutes == 0 || duration_minutes > MAX_DURATION_MINUTES {
        rejected(u, g, ErrorCode::InvalidDuration)
    } else if tasks.len() == 0 {
        rejected(u, g, ErrorCode::NoTasksProvided)
    } else if tasks.len() > MAX_TASKS {
        rejected(u, g, ErrorCode::TooManyTasks)
    } else if u.is_active {
        rejected(u, g, ErrorCode::SessionAlreadyActive)
    } else if !fits_u64(g.focus_pool + fee_of(stake_amount)) || !fits_u64(g.total_sessions + 1) {
        rejected(u, g, ErrorCode::MathError)
    } else {
        accepted(
            UserStateView {
                is_active: true,
                stake_amount: escrow_of(stake_amount) as u64,
                start_time: now,
                duration_minutes,
                tasks,
                ..u
            },
            GlobalState {
                focus_pool: (g.focus_pool + fee_of(stake_amount)) as u64,
                total_sessions: (g.total_sessions + 1) as u64,
                ..g
            },
            seq![
                transfer(Holding::Participant, Holding::IncentivePool, fee_of(stake_amount)),
                transfer(Holding::Participant, Holding::Escrow, escrow_of(stake_amount)),
            ],
        )
    }
}

/// The list of tasks a session gets when the caller names none.
pub open spec fn default_tasks() -> Seq<TaskView> {
    seq![TaskView { description: "Focus Session"@, completed: false }]
}

/// The completion transition: the stake becomes claimable.
pub open spec fn complete_step(u: UserStateView, g: GlobalState, caller: Address, now: i64) -> Step {
    if caller != u.user {
        rejected(u, g, ErrorCode::Unauthorized)
    } else if !u.is_active {
        rejected(u, g, ErrorCode::NoActiveSession)
    } else if !completion_due(u, now) {
        rejected(u, g, ErrorCode::SessionNotComplete)
    } else if !fits_u64(u.pending_balance + u.stake_amount) {
        rejected(u, g, ErrorCode::MathError)
    } else {
        accepted(
            UserStateView {
                is_active: false,
                pending_balance: (u.pending_balance + u.stake_amount) as u64,
                stake_amount: 0,
                ..u
            },
            g,
            Seq::empty(),
        )
    }
}

/// The legacy completion transition: the stake goes straight back.
pub open spec fn complete_v1_step(
    u: UserStateView,
    g: GlobalState,
    caller: Address,
    now: i64,
) -> Step {
    if caller != u.user {
        rejected(u, g, ErrorCode::Unauthorized)
    } else if !u.is_active {
        rejected(u, g, ErrorCode::NoActiveSession)
    } else if !completion_due(u, now) {
        rejected(u, g, ErrorCode::SessionNotComplete)
    } else {
        accepted(
            UserStateView { is_active: false, stake_amount: 0, ..u },
            g,
            seq![transfer(Holding::Escrow, Holding::Participant, u.stake_amount as int)],
        )
    }
}

/// The stake of the active session goes to the penalty pool.
pub open spec fn forfeit(u: UserStateView, g: GlobalState) -> Step {
    if !fits_u64(g.failure_pool + u.stake_amount) {
        rejected(u, g, ErrorCode::MathError)
    } else {
        accepted(
            UserStateView { is_active: false, stake_amount: 0, ..u },
            GlobalState { failure_pool: (g.failure_pool + u.stake_amount) as u64, ..g },
            seq![transfer(Holding::Escrow, Holding::PenaltyPool, u.stake_amount as int)],
        )
    }
}

/// The owner abandons the active session.
pub open spec fn fail_step(u: UserStateView, g: GlobalState, caller: Address) -> Step {
    if caller != u.user {
        rejected(u, g, ErrorCode::Unauthorized)
    } else if !u.is_active {
        rejected(u, g, ErrorCode::NoActiveSession)
    } else {
        forfeit(u, g)
    }
}

/// Anyone collects a session that is past its window.
pub open spec fn expire_step(u: UserStateView, g: GlobalState, now: i64) -> Step {
    if !u.is_active {
        rejected(u, g, ErrorCode::NoActiveSession)
    } else if !expiry_due(u, now) {
        rejected(u, g, ErrorCode::SessionNotComplete)
    } else {
        forfeit(u, g)
    }
}

/// Share of completed tasks, as a whole percentage rounded down.
pub open spec fn refund_percent(tasks: Seq<TaskView>) -> int {
    (completed_count(tasks) as int) * 100 / (tasks.len() as int)
}

/// The part of the pending balance that returns to the participant.
pub open spec fn refund_of(pending: u64, tasks: Seq<TaskView>) -> int {
    pending * refund_percent(tasks) / 100
}

/// The part of the pending balance forfeited to the penalty pool.
pub open spec fn penalty_of(pending: u64, tasks: Seq<TaskView>) -> int {
    pending - refund_of(pending, tasks)
}

/// A transfer of `amount`, left out when it is zero.
pub open spec fn transfer_if_positive(from: Holding, to: Holding, amount: int) -> Seq<Transfer> {
    if amount > 0 {
        seq![transfer(from, to, amount)]
    } else {
        Seq::empty()
    }
}

/// The claim transition: the pending balance is paid out by task completion.
pub open spec fn claim_step(u: UserStateView, g: GlobalState, caller: Address) -> Step {
    let refund = refund_of(u.pending_balance, u.tasks);
    let penalty = penalty_of(u.pending_balance, u.tasks);
    if caller != u.user {
        rejected(u, g, ErrorCode::Unauthorized)
    } else if u.is_active {
        rejected(u, g, ErrorCode::SessionStillActive)
    } else if u.tasks.len() == 0 {
        rejected(u, g, ErrorCode::NoTasksProvided)
    } else if u.pending_balance == 0 {
        rejected(u, g, ErrorCode::NoPendingBalance)
    } else if !fits_u64(g.failure_pool + penalty) {
        rejected(u, g, ErrorCode::MathError)
    } else {
        accepted(
            UserStateView { pending_balance: 0, tasks: Seq::empty(), ..u },
            GlobalState { failure_pool: (g.failure_pool + penalty) as u64, ..g },
            transfer_if_positive(Holding::Escrow, Holding::Participant, refund)
                + transfer_if_positive(Holding::Escrow, Holding::PenaltyPool, penalty),
        )
    }
}

/// Marking a task done or undone between completion and claim. The global
/// ledger takes no part in it.
pub open spec fn update_task_step(
    u: UserStateView,
    caller: Address,
    task_index: u8,
    completed: bool,
) -> (UserStateView, Result<Seq<Transfer>, ErrorCode>) {
    if caller != u.user {
        (u, Err(ErrorCode::Unauthorized))
    } else if u.is_active {
        (u, Err(ErrorCode::SessionStillActive))
    } else if task_index >= u.tasks.len() {
        (u, Err(ErrorCode::InvalidTaskIndex))
    } else {
        (
            UserStateView {
                tasks: u.tasks.update(
                    task_index as int,
                    TaskView { completed, ..u.tasks[task_index as int] },
                ),
                ..u
            },
            Ok(Seq::empty()),
        )
    }
}

/// Whole minutes between `start` and `now`, computed without overflow.
fn minutes_since(start: i64, now: i64) -> (r: i128)
    ensures
        r == elapsed_minutes(start, now),
{
    if now >= start {
        let seconds: i128 = now as i128 - start as i128;
        seconds / (SECONDS_PER_MINUTE as i128)
    } else {
        let seconds: i128 = start as i128 - now as i128;
        -(seconds / (SECONDS_PER_MINUTE as i128))
    }
}

/// Counts the completed tasks of a list.
pub fn count_completed(tasks: &Vec<Task>) -> (r: u64)
    ensures
        r == completed_count(task_views(tasks@)),
{
    let mut count: u64 = 0;
    let mut i: usize = 0;
    while i < tasks.len()
        invariant
            0 <= i <= tasks.len(),
            count == completed_count(task_views(tasks@).take(i as int)),
            count <= i,
        decreases tasks.len() - i,
    {
        proof {
            let views = task_views(tasks@);
            assert(views.take(i + 1).drop_last() =~= views.take(i as int));
        }
        if tasks[i].completed {
            count = count + 1;
        }
        i = i + 1;
    }
    proof {
        assert(task_views(tasks@).take(tasks.len() as int) =~= task_views(tasks@));
    }
    count
}

/// Opens a session: validates the request, splits the stake into the fee and
/// the escrowed part, and binds the session to the record. The transfers
/// come fee first, so the larger escrow transfer is the last to run.
pub fn start_focus_session(
    user_state: &mut UserState,
    global_state: &mut GlobalState,
    user: &Address,
    stake_amount: u64,
    duration_minutes: u64,
    tasks: Vec<Task>,
    now: i64,
) -> (r: Result<Vec<Transfer>, ErrorCode>)
    ensures
        taken(final(user_state)@, *final(global_state), r) == start_step(
            old(user_state)@,
            *old(global_state),
            *user,
            stake_amount,
            duration_minutes,
            task_views(tasks@),
            now,
        ),
{
    if !user.same_as(&user_state.user) {
        return Err(ErrorCode::Unauthorized);
    }
    if stake_amount < MIN_STAKE {
        return Err(ErrorCode::StakeTooLow);
    }
    if duration_minutes == 0 || duration_minutes > MAX_DURATION_MINUTES {
        return Err(ErrorCode::InvalidDuration);
    }
    if tasks.len() == 0 {
        return Err(ErrorCode::NoTasksProvided);
    }
    if tasks.len() > MAX_TASKS {
        return Err(ErrorCode::TooManyTasks);
    }
    if user_state.is_active {
        return Err(ErrorCode::SessionAlreadyActive);
    }
    let fee = stake_amount / FEE_DIVISOR;
    let escrow = stake_amount - fee;
    let focus_pool = match global_state.focus_pool.checked_add(fee) {
        Some(v) => v,
        None => return Err(ErrorCode::MathError),
    };
    let total_sessions = match global_state.total_sessions.checked_add(1) {
        Some(v) => v,
        None => return Err(ErrorCode::MathError),
    };
    global_state.focus_pool = focus_pool;
    global_state.total_sessions = total_sessions;
    user_state.is_active = true;
    user_state.stake_amount = escrow;
    user_state.start_time = now;
    user_state.duration_minutes = duration_minutes;
    user_state.tasks = tasks;
    let transfers = vec![
        Transfer { from: Holding::Participant, to: Holding::IncentivePool, amount: fee },
        Transfer { from: Holding::Participant, to: Holding::Escrow, amount: escrow },
    ];
    proof {
        assert(transfers@ =~= seq![
            transfer(Holding::Participant, Holding::IncentivePool, fee_of(stake_amount)),
            transfer(Holding::Participant, Holding::Escrow, escrow_of(stake_amount)),
        ]);
    }
    Ok(transfers)
}

/// Opens a session with a single default task.
pub fn start_focus_session_v1(
    user_state: &mut UserState,
    global_state: &mut GlobalState,
    user: &Address,
    stake_amount: u64,
    duration_minutes: u64,
    now: i64,
) -> (r: Result<Vec<Transfer>, ErrorCode>)
    ensures
        taken(final(user_state)@, *final(global_state), r) == start_step(
            old(user_state)@,
            *old(global_state),
            *user,
            stake_amount,
            duration_minutes,
            default_tasks(),
            now,
        ),
{
    let default_task = Task { description: "Focus Session".to_string(), completed: false };
    let tasks = vec![default_task];
    proof {
        reveal_strlit("Focus Session");
        assert(task_views(tasks@) =~= default_tasks());
    }
    start_focus_session(user_state, global_state, user, stake_amount, duration_minutes, tasks, now)
}

/// Confirms that the session's time is served: the stake moves into the
/// pending balance, to be paid out at claim time.
pub fn complete_focus_session(
    user_state: &mut UserState,
    global_state: &GlobalState,
    user: &Address,
    now: i64,
) -> (r: Result<Vec<Transfer>, ErrorCode>)
    ensures
        taken(final(user_state)@, *global_state, r) == complete_step(
            old(user_state)@,
            *global_state,
            *user,
            now,
        ),
{
    if !user.same_as(&user_state.user) {
        return Err(ErrorCode::Unauthorized);
    }
    if !user_state.is_active {
        return Err(ErrorCode::NoActiveSession);
    }
    let elapsed = minutes_since(user_state.start_time, now);
    if elapsed < user_state.duration_minutes as i128 - GRACE_MINUTES as i128 {
        return Err(ErrorCode::SessionNotComplete);
    }
    let pending = match user_state.pending_balance.checked_add(user_state.stake_amount) {
        Some(v) => v,
        None => return Err(ErrorCode::MathError),
    };
    user_state.is_active = false;
    user_state.pending_balance = pending;
    user_state.stake_amount = 0;
    let transfers = Vec::new();
    proof {
        assert(transfers@ =~= Seq::<Transfer>::empty());
    }
    Ok(transfers)
}

/// Confirms completion and returns the stake at once.
pub fn complete_focus_session_v1(
    user_state: &mut UserState,
    global_state: &GlobalState,
    user: &Address,
    now: i64,
) -> (r: Result<Vec<Transfer>, ErrorCode>)
    ensures
        taken(final(user_state)@, *global_state, r) == complete_v1_step(
            old(user_state)@,
            *global_state,
            *user,
            now,
        ),
{
    if !user.same_as(&user_state.user) {
        return Err(ErrorCode::Unauthorized);
    }
    if !user_state.is_active {
        return Err(ErrorCode::NoActiveSession);
    }
    let elapsed = minutes_since(user_state.start_time, now);
    if elapsed < user_state.duration_minutes as i128 - GRACE_MINUTES as i128 {
        return Err(ErrorCode::SessionNotComplete);
    }
    let amount = user_state.stake_amount;
    user_state.is_active = false;
    user_state.stake_amount = 0;
    let transfers = vec![Transfer { from: Holding::Escrow, to: Holding::Participant, amount }];
    proof {
        assert(transfers@ =~= seq![transfer(Holding::Escrow, Holding::Participant, amount as int)]);
    }
    Ok(transfers)
}

/// Moves the active stake to the penalty pool.
fn forfeit_stake(user_state: &mut UserState, global_state: &mut GlobalState) -> (r: Result<
    Vec<Transfer>,
    ErrorCode,
>)
    ensures
        taken(final(user_state)@, *final(global_state), r) == forfeit(
            old(user_state)@,
            *old(global_state),
        ),
{
    let amount = user_state.stake_amount;
    let failure_pool = match global_state.failure_pool.checked_add(amount) {
        Some(v) => v,
        None => return Err(ErrorCode::MathError),
    };
    global_state.failure_pool = failure_pool;
    user_state.is_active = false;
    user_state.stake_amount = 0;
    let transfers = vec![Transfer { from: Holding::Escrow, to: Holding::PenaltyPool, amount }];
    proof {
        assert(transfers@ =~= seq![transfer(Holding::Escrow, Holding::PenaltyPool, amount as int)]);
    }
    Ok(transfers)
}

/// The owner abandons the active session and forfeits its stake.
pub fn fail_focus_session(
    user_state: &mut UserState,
    global_state: &mut GlobalState,
    user: &Address,
) -> (r: Result<Vec<Transfer>, ErrorCode>)
    ensures
        taken(final(user_state)@, *final(global_state), r) == fail_step(
            old(user_state)@,
            *old(global_state),
            *user,
        ),
{
    if !user.same_as(&user_state.user) {
        return Err(ErrorCode::Unauthorized);
    }
    if !user_state.is_active {
        return Err(ErrorCode::NoActiveSession);
    }
    forfeit_stake(user_state, global_state)
}

/// Forfeits a session that is past its window; anyone may call it.
pub fn expire_focus_session(
    user_state: &mut UserState,
    global_state: &mut GlobalState,
    now: i64,
) -> (r: Result<Vec<Transfer>, ErrorCode>)
    ensures
        taken(final(user_state)@, *final(global_state), r) == expire_step(
            old(user_state)@,
            *old(global_state),
            now,
        ),
{
    if !user_state.is_active {
        return Err(ErrorCode::NoActiveSession);
    }
    let elapsed = minutes_since(user_state.start_time, now);
    if elapsed < user_state.duration_minutes as i128 + GRACE_MINUTES as i128 {
        return Err(ErrorCode::SessionNotComplete);
    }
    forfeit_stake(user_state, global_state)
}

pub proof fn lemma_refund_bounds(pending: u64, tasks: Seq<TaskView>)
    requires
        tasks.len() > 0,
    ensures
        0 <= refund_percent(tasks) <= 100,
        0 <= refund_of(pending, tasks) <= pending,
{
    let c = completed_count(tasks) as int;
    let n = tasks.len() as int;
    lemma_completed_count_bound(tasks);
    assert(0 <= c * 100 / n <= 100) by (nonlinear_arith)
        requires
            0 <= c <= n,
            n > 0,
    ;
    let p = refund_percent(tasks);
    assert(0 <= pending * p / 100 <= pending) by (nonlinear_arith)
        requires
            0 <= p <= 100,
            pending >= 0,
    ;
}

/// Pays out the pending balance: the share of completed tasks returns to the
/// participant, the rest goes to the penalty pool. Every amount is computed
/// before any transfer is issued, the refund first.
pub fn claim_rewards(
    user_state: &mut UserState,
    global_state: &mut GlobalState,
    user: &Address,
) -> (r: Result<Vec<Transfer>, ErrorCode>)
    ensures
        taken(final(user_state)@, *final(global_state), r) == claim_step(
            old(user_state)@,
            *old(global_state),
            *user,
        ),
{
    if !user.same_as(&user_state.user) {
        return Err(ErrorCode::Unauthorized);
    }
    if user_state.is_active {
        return Err(ErrorCode::SessionStillActive);
    }
    let total = user_state.tasks.len();
    if total == 0 {
        return Err(ErrorCode::NoTasksProvided);
    }
    let pending = user_state.pending_balance;
    if pending == 0 {
        return Err(ErrorCode::NoPendingBalance);
    }
    let completed = count_completed(&user_state.tasks);
    proof {
        lemma_completed_count_bound(task_views(user_state.tasks@));
        lemma_refund_bounds(pending, task_views(user_state.tasks@));
    }
    let percent: u128 = (completed as u128) * 100 / (total as u128);
    let refund_wide: u128 = (pending as u128) * percent / 100;
    let refund = refund_wide as u64;
    let penalty = pending - refund;
    let failure_pool = match global_state.failure_pool.checked_add(penalty) {
        Some(v) => v,
        None => return Err(ErrorCode::MathError),
    };
    let ghost old_tasks = user_state.tasks@;
    let mut transfers: Vec<Transfer> = Vec::new();
    if refund > 0 {
        transfers.push(Transfer { from: Holding::Escrow, to: Holding::Participant, amount: refund });
    }
    if penalty > 0 {
        transfers.push(
            Transfer { from: Holding::Escrow, to: Holding::PenaltyPool, amount: penalty },
        );
    }
    global_state.failure_pool = failure_pool;
    user_state.pending_balance = 0;
    user_state.tasks = Vec::new();
    proof {
        assert(task_views(user_state.tasks@) =~= Seq::<TaskView>::empty());
        assert(transfers@ =~= transfer_if_positive(
            Holding::Escrow,
            Holding::Participant,
            refund_of(pending, task_views(old_tasks)),
        ) + transfer_if_positive(
            Holding::Escrow,
            Holding::PenaltyPool,
            penalty_of(pending, task_views(old_tasks)),
        ));
    }
    Ok(transfers)
}

/// Marks one task done or undone; allowed only while no session runs.
pub fn update_task(user_state: &mut UserState, user: &Address, task_index: u8, completed: bool) -> (r:
    Result<Vec<Transfer>, ErrorCode>)
    ensures
        (final(user_state)@, result_view(r)) == update_task_step(
            old(user_state)@,
            *user,
            task_index,
            completed,
        ),
{
    if !user.same_as(&user_state.user) {
        return Err(ErrorCode::Unauthorized);
    }
    if user_state.is_active {
        return Err(ErrorCode::SessionStillActive);
    }
    let i = task_index as usize;
    if i >= user_state.tasks.len() {
        return Err(ErrorCode::InvalidTaskIndex);
    }
    let ghost old_tasks = user_state.tasks@;
    user_state.tasks[i].completed = completed;
    proof {
        assert(task_views(user_state.tasks@) =~= task_views(old_tasks).update(
            i as int,
            TaskView { completed, ..task_views(old_tasks)[i as int] },
        ));
    }
    let transfers = Vec::new();
    proof {
        assert(transfers@ =~= Seq::<Transfer>::empty());
    }
    Ok(transfers)
}

} // verus!
