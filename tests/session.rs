use deepwork::{
    claim_rewards, complete_focus_session, complete_focus_session_v1, count_completed,
    expire_focus_session, fail_focus_session, initialize, start_focus_session,
    start_focus_session_v1, update_task, withdraw_failure_pool, withdraw_focus_pool, Address,
    ErrorCode, GlobalState, Holding, Task, Transfer, UserState, VaultBalances, VaultBumps,
    VaultCreation,
};

fn addr(b: u8) -> Address {
    Address::new([b; 32])
}

fn task(name: &str, completed: bool) -> Task {
    Task { description: name.to_string(), completed }
}

fn ledger() -> GlobalState {
    let (g, _) = initialize(
        None,
        addr(9),
        VaultBumps { vault: 254, focus_pool: 253, failure_pool: 252 },
        VaultBalances { vault: 0, focus_pool: 0, failure_pool: 0 },
    );
    g
}

fn started(stake: u64, duration: u64, tasks: Vec<Task>, now: i64) -> (UserState, GlobalState) {
    let mut u = UserState::new(addr(1));
    let mut g = ledger();
    start_focus_session(&mut u, &mut g, &addr(1), stake, duration, tasks, now).unwrap();
    (u, g)
}

/// A finished session with the given pending balance and task flags.
fn pending(balance: u64, flags: &[bool]) -> UserState {
    let mut u = UserState::new(addr(1));
    u.pending_balance = balance;
    for f in flags {
        u.tasks.push(task("t", *f));
    }
    u
}

fn held(u: &UserState, g: &GlobalState) -> u128 {
    u.stake_amount as u128 + u.pending_balance as u128 + g.focus_pool as u128 + g.failure_pool as u128
}

fn flows(ts: &[Transfer]) -> (u128, u128) {
    let mut d = 0u128;
    let mut p = 0u128;
    for t in ts {
        if t.from == Holding::Participant {
            d += t.amount as u128;
        }
        if t.to == Holding::Participant || t.to == Holding::Recipient {
            p += t.amount as u128;
        }
    }
    (d, p)
}

#[test]
fn fee_split_is_exact() {
    let mut u = UserState::new(addr(1));
    let mut g = ledger();
    let ts = start_focus_session(&mut u, &mut g, &addr(1), 10_000_000, 30, vec![task("T", false)], 0)
        .unwrap();
    assert_eq!(
        ts,
        vec![
            Transfer { from: Holding::Participant, to: Holding::IncentivePool, amount: 100_000 },
            Transfer { from: Holding::Participant, to: Holding::Escrow, amount: 9_900_000 },
        ]
    );
    assert_eq!(u.stake_amount, 9_900_000);
    assert_eq!(g.focus_pool, 100_000);
    assert_eq!(g.total_sessions, 1);
    assert!(u.is_active);
    assert_eq!(u.duration_minutes, 30);
    assert_eq!(u.start_time, 0);
}

#[test]
fn fee_rounds_down() {
    let (u, g) = started(10_000_099, 30, vec![task("T", false)], 0);
    assert_eq!(g.focus_pool, 100_000);
    assert_eq!(u.stake_amount, 9_900_099);
}

#[test]
fn start_keeps_pending_balance() {
    let mut u = pending(500, &[true]);
    let mut g = ledger();
    start_focus_session(&mut u, &mut g, &addr(1), 20_000_000, 60, vec![task("a", false)], 7).unwrap();
    assert_eq!(u.pending_balance, 500);
    assert_eq!(u.stake_amount, 19_800_000);
    assert_eq!(u.tasks.len(), 1);
    assert_eq!(u.tasks[0].description, "a");
}

#[test]
fn start_rejects_low_stake() {
    let mut u = UserState::new(addr(1));
    let mut g = ledger();
    let r = start_focus_session(&mut u, &mut g, &addr(1), 9_999_999, 30, vec![task("T", false)], 0);
    assert_eq!(r, Err(ErrorCode::StakeTooLow));
    assert!(!u.is_active);
    assert_eq!(g.focus_pool, 0);
    assert_eq!(g.total_sessions, 0);
}

#[test]
fn start_rejects_bad_duration() {
    let mut u = UserState::new(addr(1));
    let mut g = ledger();
    let r0 = start_focus_session(&mut u, &mut g, &addr(1), 10_000_000, 0, vec![task("T", false)], 0);
    assert_eq!(r0, Err(ErrorCode::InvalidDuration));
    let r1 = start_focus_session(&mut u, &mut g, &addr(1), 10_000_000, 481, vec![task("T", false)], 0);
    assert_eq!(r1, Err(ErrorCode::InvalidDuration));
    let ok = start_focus_session(&mut u, &mut g, &addr(1), 10_000_000, 480, vec![task("T", false)], 0);
    assert!(ok.is_ok());
}

#[test]
fn start_rejects_task_counts() {
    let mut u = UserState::new(addr(1));
    let mut g = ledger();
    let r0 = start_focus_session(&mut u, &mut g, &addr(1), 10_000_000, 30, vec![], 0);
    assert_eq!(r0, Err(ErrorCode::NoTasksProvided));
    let many: Vec<Task> = (0..21).map(|i| task(&format!("t{}", i), false)).collect();
    let r1 = start_focus_session(&mut u, &mut g, &addr(1), 10_000_000, 30, many, 0);
    assert_eq!(r1, Err(ErrorCode::TooManyTasks));
    let twenty: Vec<Task> = (0..20).map(|i| task(&format!("t{}", i), false)).collect();
    let ok = start_focus_session(&mut u, &mut g, &addr(1), 10_000_000, 30, twenty, 0);
    assert!(ok.is_ok());
    assert_eq!(u.tasks.len(), 20);
}

#[test]
fn start_rejects_other_caller() {
    let mut u = UserState::new(addr(1));
    let mut g = ledger();
    let r = start_focus_session(&mut u, &mut g, &addr(2), 10_000_000, 30, vec![task("T", false)], 0);
    assert_eq!(r, Err(ErrorCode::Unauthorized));
    assert!(!u.is_active);
}

#[test]
fn second_start_is_refused() {
    let (mut u, mut g) = started(10_000_000, 30, vec![task("T", false)], 0);
    let r = start_focus_session(&mut u, &mut g, &addr(1), 50_000_000, 60, vec![task("U", false)], 10);
    assert_eq!(r, Err(ErrorCode::SessionAlreadyActive));
    assert_eq!(g.total_sessions, 1);
    assert_eq!(g.focus_pool, 100_000);
    assert_eq!(u.stake_amount, 9_900_000);
    assert_eq!(u.tasks[0].description, "T");
}

#[test]
fn start_reports_pool_overflow() {
    let mut u = UserState::new(addr(1));
    let mut g = ledger();
    g.focus_pool = u64::MAX - 10;
    let r = start_focus_session(&mut u, &mut g, &addr(1), 10_000_000, 30, vec![task("T", false)], 0);
    assert_eq!(r, Err(ErrorCode::MathError));
    assert!(!u.is_active);
    assert_eq!(g.focus_pool, u64::MAX - 10);
}

#[test]
fn start_v1_uses_default_task() {
    let mut u = UserState::new(addr(1));
    let mut g = ledger();
    start_focus_session_v1(&mut u, &mut g, &addr(1), 10_000_000, 25, 100).unwrap();
    assert_eq!(u.tasks.len(), 1);
    assert_eq!(u.tasks[0].description, "Focus Session");
    assert!(!u.tasks[0].completed);
    assert_eq!(u.stake_amount, 9_900_000);
}

#[test]
fn complete_within_grace_window() {
    let (mut u, g) = started(10_000_000, 30, vec![task("T", false)], 1_000);
    let r = complete_focus_session(&mut u, &g, &addr(1), 1_000 + 25 * 60);
    assert_eq!(r, Ok(vec![]));
    assert!(!u.is_active);
    assert_eq!(u.stake_amount, 0);
    assert_eq!(u.pending_balance, 9_900_000);
}

#[test]
fn complete_before_grace_window_fails() {
    let (mut u, g) = started(10_000_000, 30, vec![task("T", false)], 1_000);
    let r = complete_focus_session(&mut u, &g, &addr(1), 1_000 + 24 * 60);
    assert_eq!(r, Err(ErrorCode::SessionNotComplete));
    let r2 = complete_focus_session(&mut u, &g, &addr(1), 1_000 + 25 * 60 - 1);
    assert_eq!(r2, Err(ErrorCode::SessionNotComplete));
    assert!(u.is_active);
    assert_eq!(u.stake_amount, 9_900_000);
}

#[test]
fn short_session_completes_at_once() {
    let (mut u, g) = started(10_000_000, 3, vec![task("T", false)], 1_000);
    assert_eq!(complete_focus_session(&mut u, &g, &addr(1), 1_000), Ok(vec![]));
}

#[test]
fn elapsed_time_truncates_toward_zero() {
    // A clock 59 seconds behind the start still reads as zero minutes.
    let (mut u, g) = started(10_000_000, 5, vec![task("T", false)], 1_000);
    assert_eq!(complete_focus_session(&mut u, &g, &addr(1), 941), Ok(vec![]));
    let (mut v, g2) = started(10_000_000, 5, vec![task("T", false)], 1_000);
    assert_eq!(
        complete_focus_session(&mut v, &g2, &addr(1), 940),
        Err(ErrorCode::SessionNotComplete)
    );
}

#[test]
fn complete_adds_to_pending() {
    let mut u = pending(700, &[true]);
    let mut g = ledger();
    start_focus_session(&mut u, &mut g, &addr(1), 10_000_000, 30, vec![task("T", false)], 0).unwrap();
    complete_focus_session(&mut u, &g, &addr(1), 30 * 60).unwrap();
    assert_eq!(u.pending_balance, 9_900_700);
}

#[test]
fn complete_reports_pending_overflow() {
    let (mut u, g) = started(10_000_000, 30, vec![task("T", false)], 0);
    u.pending_balance = u64::MAX - 5;
    let r = complete_focus_session(&mut u, &g, &addr(1), 30 * 60);
    assert_eq!(r, Err(ErrorCode::MathError));
    assert!(u.is_active);
}

#[test]
fn complete_without_session_fails() {
    let mut u = UserState::new(addr(1));
    let g = ledger();
    assert_eq!(complete_focus_session(&mut u, &g, &addr(1), 0), Err(ErrorCode::NoActiveSession));
}

#[test]
fn complete_by_stranger_fails() {
    let (mut u, g) = started(10_000_000, 30, vec![task("T", false)], 0);
    assert_eq!(complete_focus_session(&mut u, &g, &addr(3), 3600), Err(ErrorCode::Unauthorized));
    assert!(u.is_active);
}

#[test]
fn complete_v1_returns_stake() {
    let (mut u, g) = started(10_000_000, 30, vec![task("T", false)], 0);
    let r = complete_focus_session_v1(&mut u, &g, &addr(1), 25 * 60).unwrap();
    assert_eq!(
        r,
        vec![Transfer { from: Holding::Escrow, to: Holding::Participant, amount: 9_900_000 }]
    );
    assert!(!u.is_active);
    assert_eq!(u.stake_amount, 0);
    assert_eq!(u.pending_balance, 0);
    let (mut v, g2) = started(10_000_000, 30, vec![task("T", false)], 0);
    assert_eq!(
        complete_focus_session_v1(&mut v, &g2, &addr(1), 24 * 60),
        Err(ErrorCode::SessionNotComplete)
    );
}

#[test]
fn fail_forfeits_stake() {
    let (mut u, mut g) = started(10_000_000, 30, vec![task("T", false)], 0);
    let r = fail_focus_session(&mut u, &mut g, &addr(1)).unwrap();
    assert_eq!(
        r,
        vec![Transfer { from: Holding::Escrow, to: Holding::PenaltyPool, amount: 9_900_000 }]
    );
    assert_eq!(g.failure_pool, 9_900_000);
    assert!(!u.is_active);
    assert_eq!(u.stake_amount, 0);
    assert_eq!(fail_focus_session(&mut u, &mut g, &addr(1)), Err(ErrorCode::NoActiveSession));
}

#[test]
fn fail_by_stranger_fails() {
    let (mut u, mut g) = started(10_000_000, 30, vec![task("T", false)], 0);
    assert_eq!(fail_focus_session(&mut u, &mut g, &addr(4)), Err(ErrorCode::Unauthorized));
    assert_eq!(g.failure_pool, 0);
}

#[test]
fn fail_reports_pool_overflow() {
    let (mut u, mut g) = started(10_000_000, 30, vec![task("T", false)], 0);
    g.failure_pool = u64::MAX;
    assert_eq!(fail_focus_session(&mut u, &mut g, &addr(1)), Err(ErrorCode::MathError));
    assert!(u.is_active);
}

#[test]
fn expire_after_window() {
    let (mut u, mut g) = started(10_000_000, 30, vec![task("T", false)], 0);
    let r = expire_focus_session(&mut u, &mut g, 35 * 60).unwrap();
    assert_eq!(
        r,
        vec![Transfer { from: Holding::Escrow, to: Holding::PenaltyPool, amount: 9_900_000 }]
    );
    assert_eq!(g.failure_pool, 9_900_000);
    assert!(!u.is_active);
}

#[test]
fn expire_inside_window_fails() {
    let (mut u, mut g) = started(10_000_000, 30, vec![task("T", false)], 0);
    assert_eq!(expire_focus_session(&mut u, &mut g, 34 * 60), Err(ErrorCode::SessionNotComplete));
    assert_eq!(
        expire_focus_session(&mut u, &mut g, 35 * 60 - 1),
        Err(ErrorCode::SessionNotComplete)
    );
    assert!(u.is_active);
    assert_eq!(g.failure_pool, 0);
}

#[test]
fn expire_after_completion_fails() {
    let (mut u, mut g) = started(10_000_000, 30, vec![task("T", false)], 0);
    complete_focus_session(&mut u, &g, &addr(1), 40 * 60).unwrap();
    assert_eq!(expire_focus_session(&mut u, &mut g, 40 * 60), Err(ErrorCode::NoActiveSession));
    assert_eq!(u.pending_balance, 9_900_000);
}

#[test]
fn claim_partial_credit() {
    let mut u = pending(1000, &[true, true, true, false]);
    let mut g = ledger();
    let r = claim_rewards(&mut u, &mut g, &addr(1)).unwrap();
    assert_eq!(
        r,
        vec![
            Transfer { from: Holding::Escrow, to: Holding::Participant, amount: 750 },
            Transfer { from: Holding::Escrow, to: Holding::PenaltyPool, amount: 250 },
        ]
    );
    assert_eq!(g.failure_pool, 250);
    assert_eq!(u.pending_balance, 0);
    assert!(u.tasks.is_empty());
}

#[test]
fn claim_nothing_completed() {
    let mut u = pending(1000, &[false, false, false, false]);
    let mut g = ledger();
    let r = claim_rewards(&mut u, &mut g, &addr(1)).unwrap();
    assert_eq!(
        r,
        vec![Transfer { from: Holding::Escrow, to: Holding::PenaltyPool, amount: 1000 }]
    );
    assert_eq!(g.failure_pool, 1000);
}

#[test]
fn claim_everything_completed() {
    let mut u = pending(1000, &[true, true]);
    let mut g = ledger();
    let r = claim_rewards(&mut u, &mut g, &addr(1)).unwrap();
    assert_eq!(
        r,
        vec![Transfer { from: Holding::Escrow, to: Holding::Participant, amount: 1000 }]
    );
    assert_eq!(g.failure_pool, 0);
}

#[test]
fn claim_rounds_twice_down() {
    // One of three: 33 percent, then 33 percent of 1000.
    let mut u = pending(1000, &[true, false, false]);
    let mut g = ledger();
    let r = claim_rewards(&mut u, &mut g, &addr(1)).unwrap();
    assert_eq!(r[0].amount, 330);
    assert_eq!(r[1].amount, 670);
}

#[test]
fn claim_refusals() {
    let (mut u, mut g) = started(10_000_000, 30, vec![task("T", true)], 0);
    assert_eq!(claim_rewards(&mut u, &mut g, &addr(1)), Err(ErrorCode::SessionStillActive));
    let mut empty = pending(1000, &[]);
    assert_eq!(claim_rewards(&mut empty, &mut g, &addr(1)), Err(ErrorCode::NoTasksProvided));
    let mut nothing = pending(0, &[true]);
    assert_eq!(claim_rewards(&mut nothing, &mut g, &addr(1)), Err(ErrorCode::NoPendingBalance));
    let mut other = pending(1000, &[true]);
    assert_eq!(claim_rewards(&mut other, &mut g, &addr(2)), Err(ErrorCode::Unauthorized));
    let mut overflow = pending(1000, &[false]);
    g.failure_pool = u64::MAX - 1;
    assert_eq!(claim_rewards(&mut overflow, &mut g, &addr(1)), Err(ErrorCode::MathError));
    assert_eq!(overflow.pending_balance, 1000);
    assert_eq!(overflow.tasks.len(), 1);
}

#[test]
fn update_task_while_active_fails() {
    let (mut u, _) = started(10_000_000, 30, vec![task("T", false)], 0);
    assert_eq!(update_task(&mut u, &addr(1), 0, true), Err(ErrorCode::SessionStillActive));
    assert!(!u.tasks[0].completed);
}

#[test]
fn update_task_between_completion_and_claim() {
    let (mut u, mut g) = started(10_000_000, 30, vec![task("a", false), task("b", false)], 0);
    complete_focus_session(&mut u, &g, &addr(1), 30 * 60).unwrap();
    assert_eq!(update_task(&mut u, &addr(1), 1, true), Ok(vec![]));
    assert!(!u.tasks[0].completed);
    assert!(u.tasks[1].completed);
    assert_eq!(u.tasks[1].description, "b");
    assert_eq!(update_task(&mut u, &addr(1), 2, true), Err(ErrorCode::InvalidTaskIndex));
    assert_eq!(update_task(&mut u, &addr(5), 0, true), Err(ErrorCode::Unauthorized));
    let r = claim_rewards(&mut u, &mut g, &addr(1)).unwrap();
    assert_eq!(r[0].amount, 4_950_000);
    assert_eq!(r[1].amount, 4_950_000);
}

#[test]
fn count_completed_counts_flags() {
    let ts = vec![task("a", true), task("b", false), task("c", true)];
    assert_eq!(count_completed(&ts), 2);
    assert_eq!(count_completed(&vec![]), 0);
}

#[test]
fn initialize_twice_keeps_ledger() {
    let bumps = VaultBumps { vault: 254, focus_pool: 253, failure_pool: 252 };
    let (g, create) = initialize(
        None,
        addr(9),
        bumps,
        VaultBalances { vault: 0, focus_pool: 0, failure_pool: 0 },
    );
    assert_eq!(create, VaultCreation { vault: true, focus_pool: true, failure_pool: true });
    assert_eq!(g.authority, addr(9));
    assert_eq!(g.total_sessions, 0);
    assert_eq!(g.vault_bump, 254);
    let mut g = g;
    let mut u = UserState::new(addr(1));
    start_focus_session(&mut u, &mut g, &addr(1), 10_000_000, 30, vec![task("T", false)], 0).unwrap();
    let (g2, create2) = initialize(
        Some(g),
        addr(8),
        VaultBumps { vault: 1, focus_pool: 2, failure_pool: 3 },
        VaultBalances { vault: 890_880, focus_pool: 990_880, failure_pool: 890_880 },
    );
    assert_eq!(create2, VaultCreation { vault: false, focus_pool: false, failure_pool: false });
    assert_eq!(g2.total_sessions, 1);
    assert_eq!(g2.focus_pool, 100_000);
    assert_eq!(g2.authority, addr(9));
    assert_eq!(g2.vault_bump, 254);
}

#[test]
fn initialize_creates_only_missing_vaults() {
    let (_, create) = initialize(
        None,
        addr(9),
        VaultBumps { vault: 1, focus_pool: 2, failure_pool: 3 },
        VaultBalances { vault: 5, focus_pool: 0, failure_pool: 7 },
    );
    assert_eq!(create, VaultCreation { vault: false, focus_pool: true, failure_pool: false });
}

#[test]
fn withdraw_focus_pool_respects_reserve() {
    let mut g = ledger();
    g.focus_pool = 100_000;
    let r = withdraw_focus_pool(&mut g, &addr(9), 60_000, 990_880, 890_880).unwrap();
    assert_eq!(
        r,
        vec![Transfer { from: Holding::IncentivePool, to: Holding::Recipient, amount: 60_000 }]
    );
    assert_eq!(g.focus_pool, 40_000);
    assert_eq!(
        withdraw_focus_pool(&mut g, &addr(9), 40_001, 930_880, 890_880),
        Err(ErrorCode::TransferFailed)
    );
    assert_eq!(g.focus_pool, 40_000);
    assert_eq!(
        withdraw_focus_pool(&mut g, &addr(1), 10, 930_880, 890_880),
        Err(ErrorCode::Unauthorized)
    );
}

#[test]
fn withdraw_accumulator_stops_at_zero() {
    let mut g = ledger();
    g.failure_pool = 10;
    let r = withdraw_failure_pool(&mut g, &addr(9), 50, 1_000, 900).unwrap();
    assert_eq!(
        r,
        vec![Transfer { from: Holding::PenaltyPool, to: Holding::Recipient, amount: 50 }]
    );
    assert_eq!(g.failure_pool, 0);
}

#[test]
fn withdraw_below_reserve() {
    let mut g = ledger();
    assert_eq!(withdraw_failure_pool(&mut g, &addr(9), 0, 100, 900), Ok(vec![
        Transfer { from: Holding::PenaltyPool, to: Holding::Recipient, amount: 0 },
    ]));
    assert_eq!(
        withdraw_failure_pool(&mut g, &addr(9), 1, 100, 900),
        Err(ErrorCode::TransferFailed)
    );
    assert_eq!(withdraw_failure_pool(&mut g, &addr(2), 0, 100, 900), Err(ErrorCode::Unauthorized));
}

#[test]
fn value_is_conserved_across_a_cycle() {
    let mut u = UserState::new(addr(1));
    let mut g = ledger();
    let start = held(&u, &g);
    let mut deposited = 0u128;
    let mut paid = 0u128;
    let mut step = |ts: Vec<Transfer>| {
        let (d, p) = flows(&ts);
        deposited += d;
        paid += p;
    };
    step(start_focus_session(&mut u, &mut g, &addr(1), 12_345_678, 60, vec![
        task("a", false),
        task("b", false),
        task("c", false),
    ], 0).unwrap());
    step(complete_focus_session(&mut u, &g, &addr(1), 55 * 60).unwrap());
    step(update_task(&mut u, &addr(1), 0, true).unwrap());
    step(start_focus_session(&mut u, &mut g, &addr(1), 10_000_000, 10, vec![task("d", false)], 4000).unwrap());
    step(fail_focus_session(&mut u, &mut g, &addr(1)).unwrap());
    step(claim_rewards(&mut u, &mut g, &addr(1)).unwrap());
    step(withdraw_failure_pool(&mut g, &addr(9), 1_000, 10_000_000, 0).unwrap());
    step(withdraw_focus_pool(&mut g, &addr(9), 100_000, 10_000_000, 0).unwrap());
    assert_eq!(held(&u, &g) + paid, start + deposited);
    assert_eq!(deposited, 22_345_678);
}

#[test]
fn address_equality() {
    assert!(addr(1) == addr(1));
    assert!(addr(1) != addr(2));
    let mut b = [1u8; 32];
    b[31] = 0;
    assert!(Address::new(b) != addr(1));
    assert!(addr(1).same_as(&addr(1)));
}

#[test]
fn error_messages() {
    assert_eq!(ErrorCode::StakeTooLow.message(), "Stake amount too low. Minimum 0.01 SOL");
    assert_eq!(ErrorCode::NoPendingBalance.message(), "No pending balance to claim");
    assert_eq!(ErrorCode::TooManyTasks.message(), "Too many tasks. Maximum 20 tasks");
}

#[test]
fn expiry_after_failure_finds_nothing() {
    let (mut u, mut g) = started(10_000_000, 30, vec![task("T", false)], 0);
    fail_focus_session(&mut u, &mut g, &addr(1)).unwrap();
    assert_eq!(expire_focus_session(&mut u, &mut g, 99 * 60), Err(ErrorCode::NoActiveSession));
    assert_eq!(g.failure_pool, 9_900_000);
}

#[test]
fn completion_after_expiry_finds_nothing() {
    let (mut u, mut g) = started(10_000_000, 30, vec![task("T", false)], 0);
    expire_focus_session(&mut u, &mut g, 40 * 60).unwrap();
    assert_eq!(
        complete_focus_session(&mut u, &g, &addr(1), 40 * 60),
        Err(ErrorCode::NoActiveSession)
    );
    assert_eq!(u.pending_balance, 0);
}
