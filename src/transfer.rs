use vstd::prelude::*;

verus! {

/// The holders between which value moves.
#[derive(Clone, Copy, Debug, PartialEq, Eq, Structural)]
pub enum Holding {
    /// The participant's own external balance.
    Participant,
    /// The vault holding staked and pending value.
    Escrow,
    /// The vault behind the incentive pool accumulator.
    IncentivePool,
    /// The vault behind the penalty pool accumulator.
    PenaltyPool,
    /// The recipient named by the authority on a pool withdrawal.
    Recipient,
}

/// One transfer the host must execute.
#[derive(Clone, Copy, Debug, PartialEq, Eq, Structural)]
pub struct Transfer {
    pub from: Holding,
    pub to: Holding,
    pub amount: u64,
}

pub open spec fn leaves_system(h: Holding) -> bool {
    h is Participant || h is Recipient
}

/// Value that a list of transfers brings in from participants.
pub open spec fn deposited(ts: Seq<Transfer>) -> int
    decreases ts.len(),
{
    if ts.len() == 0 {
        0
    } else {
        deposited(ts.drop_last()) + if ts.last().from is Participant {
            ts.last().amount as int
        } else {
            0
        }
    }
}

/// Value that a list of transfers pays out to participants or recipients.
pub open spec fn paid_out(ts: Seq<Transfer>) -> int
    decreases ts.len(),
{
    if ts.len() == 0 {
        0
    } else {
        paid_out(ts.drop_last()) + if leaves_system(ts.last().to) {
            ts.last().amount as int
        } else {
            0
        }
    }
}

pub proof fn lemma_flows_one(a: Transfer)
    ensures
        deposited(seq![a]) == (if a.from is Participant {
            a.amount as int
        } else {
            0
        }),
        paid_out(seq![a]) == (if leaves_system(a.to) {
            a.amount as int
        } else {
            0
        }),
{
    assert(seq![a].drop_last() =~= Seq::<Transfer>::empty());
    assert(deposited(Seq::<Transfer>::empty()) == 0);
    assert(paid_out(Seq::<Transfer>::empty()) == 0);
}

pub proof fn lemma_flows_two(a: Transfer, b: Transfer)
    ensures
        deposited(seq![a, b]) == (if a.from is Participant {
            a.amount as int
        } else {
            0
        }) + (if b.from is Participant {
            b.amount as int
        } else {
            0
        }),
        paid_out(seq![a, b]) == (if leaves_system(a.to) {
            a.amount as int
        } else {
            0
        }) + (if leaves_system(b.to) {
            b.amount as int
        } else {
            0
        }),
{
    assert(seq![a, b].drop_last() =~= seq![a]);
    lemma_flows_one(a);
}

} // verus!
