use vstd::prelude::*;

use crate::address::Address;
use crate::session::{result_view, transfer};
use crate::state::{ErrorCode, GlobalState};
use crate::transfer::{Holding, Transfer};

verus! {

/// Derivation proofs of the three vaults.
#[derive(Clone, Copy, Debug)]
pub struct VaultBumps {
    pub vault: u8,
    pub focus_pool: u8,
    pub failure_pool: u8,
}

/// Current balances of the three vaults; zero means the vault does not exist.
#[derive(Clone, Copy, Debug)]
pub struct VaultBalances {
    pub vault: u64,
    pub focus_pool: u64,
    pub failure_pool: u64,
}

/// Which vaults the host must create.
#[derive(Clone, Copy, Debug, PartialEq, Eq, Structural)]
pub struct VaultCreation {
    pub vault: bool,
    pub focus_pool: bool,
    pub failure_pool: bool,
}

/// The ledger after initialization: an existing ledger is kept as it is, a
/// missing one starts with empty pools and the given authority.
pub open spec fn initialized_ledger(
    existing: Option<GlobalState>,
    authority: Address,
    bumps: VaultBumps,
) -> GlobalState {
    match existing {
        Some(g) => g,
        None => GlobalState {
            authority,
            focus_pool: 0,
            failure_pool: 0,
            total_sessions: 0,
            vault_bump: bumps.vault,
            focus_pool_bump: bumps.focus_pool,
            failure_pool_bump: bumps.failure_pool,
        },
    }
}

/// A vault is created exactly when it does not exist yet.
pub open spec fn missing_vaults(balances: VaultBalances) -> VaultCreation {
    VaultCreation {
        vault: balances.vault == 0,
        focus_pool: balances.focus_pool == 0,
        failure_pool: balances.failure_pool == 0,
    }
}

/// Sets up the global ledger and names the vaults still to be created.
/// Calling it again on an existing ledger changes nothing and creates no
/// vault that already holds value.
pub fn initialize(
    existing: Option<GlobalState>,
    authority: Address,
    bumps: VaultBumps,
    balances: VaultBalances,
) -> (r: (GlobalState, VaultCreation))
    ensures
        r.0 == initialized_ledger(existing, authority, bumps),
        r.1 == missing_vaults(balances),
{
    let global_state = match existing {
        Some(g) => g,
        None => GlobalState {
            authority,
            focus_pool: 0,
            failure_pool: 0,
            total_sessions: 0,
            vault_bump: bumps.vault,
            focus_pool_bump: bumps.focus_pool,
            failure_pool_bump: bumps.failure_pool,
        },
    };
    let creation = VaultCreation {
        vault: balances.vault == 0,
        focus_pool: balances.focus_pool == 0,
        failure_pool: balances.failure_pool == 0,
    };
    (global_state, creation)
}

/// What a vault can give away without falling under its reserve.
pub open spec fn available(balance: u64, reserve: u64) -> int {
    if balance >= reserve {
        balance - reserve
    } else {
        0
    }
}

/// Subtraction that stops at zero.
pub open spec fn floor_sub(a: u64, b: u64) -> u64 {
    if a >= b {
        (a - b) as u64
    } else {
        0
    }
}

/// The reason a withdrawal is refused, if any.
pub open spec fn withdraw_error(
    g: GlobalState,
    caller: Address,
    amount: u64,
    vault_balance: u64,
    reserve: u64,
) -> Option<ErrorCode> {
    if caller != g.authority {
        Some(ErrorCode::Unauthorized)
    } else if amount > available(vault_balance, reserve) {
        Some(ErrorCode::TransferFailed)
    } else {
        None
    }
}

/// A withdrawal from the incentive pool.
pub open spec fn withdraw_focus_step(
    g: GlobalState,
    caller: Address,
    amount: u64,
    vault_balance: u64,
    reserve: u64,
) -> (GlobalState, Result<Seq<Transfer>, ErrorCode>) {
    match withdraw_error(g, caller, amount, vault_balance, reserve) {
        Some(e) => (g, Err(e)),
        None => (
            GlobalState { focus_pool: floor_sub(g.focus_pool, amount), ..g },
            Ok(seq![transfer(Holding::IncentivePool, Holding::Recipient, amount as int)]),
        ),
    }
}

/// A withdrawal from the penalty pool.
pub open spec fn withdraw_failure_step(
    g: GlobalState,
    caller: Address,
    amount: u64,
    vault_balance: u64,
    reserve: u64,
) -> (GlobalState, Result<Seq<Transfer>, ErrorCode>) {
    match withdraw_error(g, caller, amount, vault_balance, reserve) {
        Some(e) => (g, Err(e)),
        None => (
            GlobalState { failure_pool: floor_sub(g.failure_pool, amount), ..g },
            Ok(seq![transfer(Holding::PenaltyPool, Holding::Recipient, amount as int)]),
        ),
    }
}

/// Checks the authority and the vault's reserve.
fn check_withdrawal(
    global_state: &GlobalState,
    authority: &Address,
    amount: u64,
    vault_balance: u64,
    reserve: u64,
) -> (r: Option<ErrorCode>)
    ensures
        r == withdraw_error(*global_state, *authority, amount, vault_balance, reserve),
{
    if !authority.same_as(&global_state.authority) {
        return Some(ErrorCode::Unauthorized);
    }
    let available = vault_balance.saturating_sub(reserve);
    if amount > available {
        return Some(ErrorCode::TransferFailed);
    }
    None
}

/// The authority moves `amount` out of the incentive pool vault to a
/// recipient. The accumulator drops by `amount`, stopping at zero.
pub fn withdraw_focus_pool(
    global_state: &mut GlobalState,
    authority: &Address,
    amount: u64,
    vault_balance: u64,
    reserve: u64,
) -> (r: Result<Vec<Transfer>, ErrorCode>)
    ensures
        (*final(global_state), result_view(r)) == withdraw_focus_step(
            *old(global_state),
            *authority,
            amount,
            vault_balance,
            reserve,
        ),
{
    if let Some(e) = check_withdrawal(global_state, authority, amount, vault_balance, reserve) {
        return Err(e);
    }
    global_state.focus_pool = global_state.focus_pool.saturating_sub(amount);
    let transfers = vec![Transfer { from: Holding::IncentivePool, to: Holding::Recipient, amount }];
    proof {
        assert(transfers@ =~= seq![
            transfer(Holding::IncentivePool, Holding::Recipient, amount as int),
        ]);
    }
    Ok(transfers)
}

/// The authority moves `amount` out of the penalty pool vault to a
/// recipient. The accumulator drops by `amount`, stopping at zero.
pub fn withdraw_failure_pool(
    global_state: &mut GlobalState,
    authority: &Address,
    amount: u64,
    vault_balance: u64,
    reserve: u64,
) -> (r: Result<Vec<Transfer>, ErrorCode>)
    ensures
        (*final(global_state), result_view(r)) == withdraw_failure_step(
            *old(global_state),
            *authority,
            amount,
            vault_balance,
            reserve,
        ),
{
    if let Some(e) = check_withdrawal(global_state, authority, amount, vault_balance, reserve) {
        return Err(e);
    }
    global_state.failure_pool = global_state.failure_pool.saturating_sub(amount);
    let transfers = vec![Transfer { from: Holding::PenaltyPool, to: Holding::Recipient, amount }];
    proof {
        assert(transfers@ =~= seq![transfer(Holding::PenaltyPool, Holding::Recipient, amount as int)]);
    }
    Ok(transfers)
}

} // verus!
