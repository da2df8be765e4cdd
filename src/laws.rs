use vstd::prelude::*;

use crate::address::Address;
use crate::pool::{
    initialized_ledger, missing_vaults, withdraw_error, withdraw_failure_step,
    withdraw_focus_step, VaultBalances, VaultBumps, VaultCreation,
};
use crate::session::{
    claim_step, complete_step, complete_v1_step, elapsed_minutes, expire_step, fail_step,
    lemma_refund_bounds, penalty_of, refund_of, rejected, start_step, transfer,
    transfer_if_positive, update_task_step, Step,
};
use crate::state::{ErrorCode, GlobalState, TaskView, UserStateView, GRACE_MINUTES};
use crate::transfer::{deposited, lemma_flows_one, lemma_flows_two, paid_out, Holding, Transfer};

verus! {

/// A request addressed to one participant record (or, for withdrawals, to the
/// pools alone).
pub enum Action {
    Start {
        caller: Address,
        stake_amount: u64,
        duration_minutes: u64,
        tasks: Seq<TaskView>,
        now: i64,
    },
    Complete { caller: Address, now: i64 },
    CompleteV1 { caller: Address, now: i64 },
    Fail { caller: Address },
    Expire { now: i64 },
    Claim { caller: Address },
    UpdateTask { caller: Address, task_index: u8, completed: bool },
    WithdrawFocus { caller: Address, amount: u64, vault_balance: u64, reserve: u64 },
    WithdrawFailure { caller: Address, amount: u64, vault_balance: u64, reserve: u64 },
}

/// An action on the record at index `participant`.
pub struct Event {
    pub participant: int,
    pub action: Action,
}

/// Every participant record together with the global ledger.
pub struct Ledger {
    pub users: Seq<UserStateView>,
    pub global: GlobalState,
}

/// The step that an action takes on one record and the ledger.
pub open spec fn apply(u: UserStateView, g: GlobalState, a: Action) -> Step {
    match a {
        Action::Start { caller, stake_amount, duration_minutes, tasks, now } => start_step(
            u,
            g,
            caller,
            stake_amount,
            duration_minutes,
            tasks,
            now,
        ),
        Action::Complete { caller, now } => complete_step(u, g, caller, now),
        Action::CompleteV1 { caller, now } => complete_v1_step(u, g, caller, now),
        Action::Fail { caller } => fail_step(u, g, caller),
        Action::Expire { now } => expire_step(u, g, now),
        Action::Claim { caller } => claim_step(u, g, caller),
        Action::UpdateTask { caller, task_index, completed } => {
            let (u2, r) = update_task_step(u, caller, task_index, completed);
            Step { user: u2, global: g, result: r }
        },
        Action::WithdrawFocus { caller, amount, vault_balance, reserve } => {
            let (g2, r) = withdraw_focus_step(g, caller, amount, vault_balance, reserve);
            Step { user: u, global: g2, result: r }
        },
        Action::WithdrawFailure { caller, amount, vault_balance, reserve } => {
            let (g2, r) = withdraw_failure_step(g, caller, amount, vault_balance, reserve);
            Step { user: u, global: g2, result: r }
        },
    }
}

/// The transfers a step issues: none when it is rejected.
pub open spec fn issued(s: Step) -> Seq<Transfer> {
    match s.result {
        Ok(ts) => ts,
        Err(_) => Seq::empty(),
    }
}

/// The ledger after `events`, with the value deposited and paid out on the way.
pub open spec fn run(l: Ledger, events: Seq<Event>) -> (Ledger, int, int)
    decreases events.len(),
{
    if events.len() == 0 {
        (l, 0, 0)
    } else {
        let (mid, d, p) = run(l, events.drop_last());
        let e = events.last();
        if 0 <= e.participant < mid.users.len() {
            let s = apply(mid.users[e.participant], mid.global, e.action);
            (
                Ledger { users: mid.users.update(e.participant, s.user), global: s.global },
                d + deposited(issued(s)),
                p + paid_out(issued(s)),
            )
        } else {
            (mid, d, p)
        }
    }
}

/// Value held for one participant.
pub open spec fn user_held(u: UserStateView) -> int {
    u.stake_amount + u.pending_balance
}

/// Value held for all participants.
pub open spec fn users_held(users: Seq<UserStateView>) -> int
    decreases users.len(),
{
    if users.len() == 0 {
        0
    } else {
        users_held(users.drop_last()) + user_held(users.last())
    }
}

/// Value the ledger accounts for: stakes, pending balances and both pools.
pub open spec fn holdings(l: Ledger) -> int {
    users_held(l.users) + l.global.focus_pool + l.global.failure_pool
}

pub open spec fn all_wf(users: Seq<UserStateView>) -> bool {
    forall|i: int| 0 <= i < users.len() ==> (#[trigger] users[i]).wf()
}

/// A withdrawal that goes through takes no more than its pool's accumulator
/// shows; otherwise the accumulator stops at zero and the two drift apart.
pub open spec fn covered(g: GlobalState, a: Action) -> bool {
    match a {
        Action::WithdrawFocus { caller, amount, vault_balance, reserve } => withdraw_error(
            g,
            caller,
            amount,
            vault_balance,
            reserve,
        ) is Some || amount <= g.focus_pool,
        Action::WithdrawFailure { caller, amount, vault_balance, reserve } => withdraw_error(
            g,
            caller,
            amount,
            vault_balance,
            reserve,
        ) is Some || amount <= g.failure_pool,
        _ => true,
    }
}

/// Every withdrawal along `events` is covered by its accumulator.
pub open spec fn withdrawals_covered(l: Ledger, events: Seq<Event>) -> bool
    decreases events.len(),
{
    events.len() == 0 || {
        &&& withdrawals_covered(l, events.drop_last())
        &&& covered(run(l, events.drop_last()).0.global, events.last().action)
    }
}

proof fn lemma_users_held_update(users: Seq<UserStateView>, i: int, v: UserStateView)
    requires
        0 <= i < users.len(),
    ensures
        users_held(users.update(i, v)) == users_held(users) - user_held(users[i]) + user_held(v),
    decreases users.len(),
{
    let n = users.len() as int;
    if i == n - 1 {
        assert(users.update(i, v).drop_last() =~= users.drop_last());
    } else {
        lemma_users_held_update(users.drop_last(), i, v);
        assert(users.update(i, v).drop_last() =~= users.drop_last().update(i, v));
    }
}

proof fn lemma_claim_flows(a: int, b: int)
    requires
        0 <= a <= u64::MAX,
        0 <= b <= u64::MAX,
    ensures
        ({
            let ts = transfer_if_positive(
                Holding::Escrow,
                Holding::Participant,
                a,
            ) + transfer_if_positive(
                Holding::Escrow,
                Holding::PenaltyPool,
                b,
            );
            deposited(ts) == 0 && paid_out(ts) == a
        }),
{
    let ta = transfer(
        Holding::Escrow,
        Holding::Participant,
        a,
    );
    let tb = transfer(
        Holding::Escrow,
        Holding::PenaltyPool,
        b,
    );
    let sa = transfer_if_positive(
        Holding::Escrow,
        Holding::Participant,
        a,
    );
    let sb = transfer_if_positive(
        Holding::Escrow,
        Holding::PenaltyPool,
        b,
    );
    assert(deposited(Seq::<Transfer>::empty()) == 0);
    assert(paid_out(Seq::<Transfer>::empty()) == 0);
    if a > 0 && b > 0 {
        assert(sa + sb =~= seq![ta, tb]);
        lemma_flows_two(ta, tb);
    } else if a > 0 {
        assert(sa + sb =~= seq![ta]);
        lemma_flows_one(ta);
    } else if b > 0 {
        assert(sa + sb =~= seq![tb]);
        lemma_flows_one(tb);
    } else {
        assert(sa + sb =~= Seq::<Transfer>::empty());
    }
}

/// One step keeps the participant's record well formed, and accounts for
/// every unit of value it moves.
pub proof fn lemma_step_conserves(u: UserStateView, g: GlobalState, a: Action)
    requires
        u.wf(),
        covered(g, a),
    ensures
        apply(u, g, a).user.wf(),
        user_held(apply(u, g, a).user) + apply(u, g, a).global.focus_pool + apply(
            u,
            g,
            a,
        ).global.failure_pool + paid_out(issued(apply(u, g, a))) == user_held(u) + g.focus_pool
            + g.failure_pool + deposited(issued(apply(u, g, a))),
{
    let s = apply(u, g, a);
    assert(deposited(Seq::<Transfer>::empty()) == 0);
    assert(paid_out(Seq::<Transfer>::empty()) == 0);
    match a {
        Action::Start { caller, stake_amount, duration_minutes, tasks, now } => {
            if s.result is Ok {
                let fee = stake_amount / 100;
                lemma_flows_two(
                    transfer(
                        Holding::Participant,
                        Holding::IncentivePool,
                        fee as int,
                    ),
                    transfer(
                        Holding::Participant,
                        Holding::Escrow,
                        stake_amount - fee,
                    ),
                );
            }
        },
        Action::CompleteV1 { caller, now } => {
            if s.result is Ok {
                lemma_flows_one(
                    transfer(
                        Holding::Escrow,
                        Holding::Participant,
                        u.stake_amount as int,
                    ),
                );
            }
        },
        Action::Fail { caller } => {
            if s.result is Ok {
                lemma_flows_one(
                    transfer(
                        Holding::Escrow,
                        Holding::PenaltyPool,
                        u.stake_amount as int,
                    ),
                );
            }
        },
        Action::Expire { now } => {
            if s.result is Ok {
                lemma_flows_one(
                    transfer(
                        Holding::Escrow,
                        Holding::PenaltyPool,
                        u.stake_amount as int,
                    ),
                );
            }
        },
        Action::Claim { caller } => {
            if s.result is Ok {
                lemma_refund_bounds(u.pending_balance, u.tasks);
                lemma_claim_flows(
                    refund_of(u.pending_balance, u.tasks),
                    penalty_of(u.pending_balance, u.tasks),
                );
            }
        },
        Action::WithdrawFocus { caller, amount, vault_balance, reserve } => {
            if s.result is Ok {
                lemma_flows_one(
                    transfer(
                        Holding::IncentivePool,
                        Holding::Recipient,
                        amount as int,
                    ),
                );
            }
        },
        Action::WithdrawFailure { caller, amount, vault_balance, reserve } => {
            if s.result is Ok {
                lemma_flows_one(
                    transfer(
                        Holding::PenaltyPool,
                        Holding::Recipient,
                        amount as int,
                    ),
                );
            }
        },
        _ => {},
    }
}

/// Conservation: along any sequence of transitions, the value held in stakes,
/// pending balances and both pools, plus everything paid out, equals what it
/// was at the start plus everything deposited. Records stay well formed on
/// the way. It holds as long as no withdrawal takes more than its pool's
/// accumulator shows, since the accumulator then stops at zero.
pub proof fn conservation(l: Ledger, events: Seq<Event>)
    requires
        all_wf(l.users),
        withdrawals_covered(l, events),
    ensures
        all_wf(run(l, events).0.users),
        run(l, events).0.users.len() == l.users.len(),
        holdings(run(l, events).0) + run(l, events).2 == holdings(l) + run(l, events).1,
    decreases events.len(),
{
    if events.len() > 0 {
        let prefix = events.drop_last();
        conservation(l, prefix);
        let (mid, d, p) = run(l, prefix);
        let e = events.last();
        if 0 <= e.participant < mid.users.len() {
            let i = e.participant;
            let u = mid.users[i];
            lemma_step_conserves(u, mid.global, e.action);
            let s = apply(u, mid.global, e.action);
            lemma_users_held_update(mid.users, i, s.user);
            let users2 = mid.users.update(i, s.user);
            assert forall|j: int| 0 <= j < users2.len() implies (#[trigger] users2[j]).wf() by {
                if j != i {
                    assert(mid.users[j].wf());
                }
            }
        }
    }
}

/// Number of events along `events` that were accepted.
pub open spec fn accepted_count(l: Ledger, events: Seq<Event>) -> nat
    decreases events.len(),
{
    if events.len() == 0 {
        0
    } else {
        let mid = run(l, events.drop_last()).0;
        let e = events.last();
        accepted_count(l, events.drop_last()) + if 0 <= e.participant < mid.users.len() && apply(
            mid.users[e.participant],
            mid.global,
            e.action,
        ).result is Ok {
            1nat
        } else {
            0nat
        }
    }
}

/// Single active session: of any sequence of start requests for one record,
/// at most one is accepted, none if a session was already running; the
/// session counter grows by exactly the number accepted.
pub proof fn single_active_session(l: Ledger, i: int, events: Seq<Event>)
    requires
        0 <= i < l.users.len(),
        forall|k: int|
            0 <= k < events.len() ==> (#[trigger] events[k]).participant == i
                && events[k].action is Start,
    ensures
        accepted_count(l, events) <= if l.users[i].is_active {
            0nat
        } else {
            1nat
        },
        run(l, events).0.users.len() == l.users.len(),
        run(l, events).0.users[i].is_active == (l.users[i].is_active || accepted_count(l, events)
            > 0),
        run(l, events).0.global.total_sessions == l.global.total_sessions + accepted_count(
            l,
            events,
        ),
    decreases events.len(),
{
    if events.len() > 0 {
        let prefix = events.drop_last();
        assert forall|k: int| 0 <= k < prefix.len() implies (#[trigger] prefix[k]).participant == i
            && prefix[k].action is Start by {
            assert(prefix[k] == events[k]);
        }
        single_active_session(l, i, prefix);
        assert(events[events.len() - 1] == events.last());
    }
}

/// Initialization is idempotent: a second call keeps the ledger the first
/// one produced, whatever it is given, and once the vaults the first call
/// asked for are funded it creates none.
pub proof fn initialize_is_idempotent(
    existing: Option<GlobalState>,
    authority: Address,
    bumps: VaultBumps,
    balances: VaultBalances,
    authority2: Address,
    bumps2: VaultBumps,
    balances2: VaultBalances,
)
    requires
        missing_vaults(balances).vault ==> balances2.vault > 0,
        missing_vaults(balances).focus_pool ==> balances2.focus_pool > 0,
        missing_vaults(balances).failure_pool ==> balances2.failure_pool > 0,
        !missing_vaults(balances).vault ==> balances2.vault == balances.vault,
        !missing_vaults(balances).focus_pool ==> balances2.focus_pool == balances.focus_pool,
        !missing_vaults(balances).failure_pool ==> balances2.failure_pool == balances.failure_pool,
    ensures
        initialized_ledger(Some(initialized_ledger(existing, authority, bumps)), authority2, bumps2)
            == initialized_ledger(existing, authority, bumps),
        missing_vaults(balances2) == (VaultCreation {
            vault: false,
            focus_pool: false,
            failure_pool: false,
        }),
{
}

/// Grace window: the owner may confirm completion from `duration - GRACE`
/// elapsed minutes on, and not a minute earlier.
pub proof fn completion_grace_window(u: UserStateView, g: GlobalState, now: i64)
    requires
        u.is_active,
        u.pending_balance + u.stake_amount <= u64::MAX,
    ensures
        elapsed_minutes(u.start_time, now) == u.duration_minutes - GRACE_MINUTES ==> complete_step(
            u,
            g,
            u.user,
            now,
        ).result is Ok,
        elapsed_minutes(u.start_time, now) == u.duration_minutes - GRACE_MINUTES - 1
            ==> complete_step(u, g, u.user, now).result == Err::<Seq<Transfer>, ErrorCode>(
            ErrorCode::SessionNotComplete,
        ),
{
}

/// Expiry strictness: anyone may expire a session from `duration + GRACE`
/// elapsed minutes on, and not a minute earlier.
pub proof fn expiry_strictness(u: UserStateView, g: GlobalState, now: i64)
    requires
        u.is_active,
        g.failure_pool + u.stake_amount <= u64::MAX,
    ensures
        elapsed_minutes(u.start_time, now) == u.duration_minutes + GRACE_MINUTES ==> expire_step(
            u,
            g,
            now,
        ).result is Ok,
        elapsed_minutes(u.start_time, now) == u.duration_minutes + GRACE_MINUTES - 1
            ==> expire_step(u, g, now).result == Err::<Seq<Transfer>, ErrorCode>(
            ErrorCode::SessionNotComplete,
        ),
{
}

/// Tasks are frozen while a session runs: the owner's update is refused with
/// `SessionStillActive` and the record stays as it was.
pub proof fn tasks_frozen_while_active(u: UserStateView, task_index: u8, completed: bool)
    requires
        u.is_active,
    ensures
        update_task_step(u, u.user, task_index, completed) == (
            u,
            Err::<Seq<Transfer>, ErrorCode>(ErrorCode::SessionStillActive),
        ),
{
}

/// Expiry racing the owner: whichever of completion, failure and expiry is
/// applied first, the other finds no active session and changes nothing.
pub proof fn expiry_races_owner(u: UserStateView, g: GlobalState, now: i64, later: i64)
    ensures
        ({
            let s = complete_step(u, g, u.user, now);
            s.result is Ok ==> expire_step(s.user, s.global, later) == rejected(
                s.user,
                s.global,
                ErrorCode::NoActiveSession,
            )
        }),
        ({
            let s = fail_step(u, g, u.user);
            s.result is Ok ==> expire_step(s.user, s.global, later) == rejected(
                s.user,
                s.global,
                ErrorCode::NoActiveSession,
            )
        }),
        ({
            let s = expire_step(u, g, now);
            &&& s.result is Ok ==> complete_step(s.user, s.global, u.user, later)
                == rejected(s.user, s.global, ErrorCode::NoActiveSession)
            &&& s.result is Ok ==> fail_step(s.user, s.global, u.user) == rejected(
                s.user,
                s.global,
                ErrorCode::NoActiveSession,
            )
        }),
{
}

} // verus!
