use vstd::prelude::*;

use crate::record::{
    entry_size, evidence_bytes, evidence_size, legal_edge, status_of, text_bytes, text_size,
    ArbitrationDecision, Custody, DisputeEvidence, ErrorCode, Escrow, EscrowStatus, Identity,
    Transfer, EVIDENCE_ENTRY_OVERHEAD, VARIABLE_CAPACITY,
};

verus! {

/// The deposit that locks `amount` at creation: buyer's custody to the vault.
pub open spec fn deposit(amount: u64) -> Transfer {
    Transfer { from: Custody::Buyer, to: Custody::Vault, amount }
}

/// The transfers out of the vault that an arbiter's decision calls for. On a
/// split the buyer gets half rounded down and the seller the rest.
pub open spec fn payout(amount: u64, d: ArbitrationDecision) -> Seq<Transfer> {
    match d {
        ArbitrationDecision::ReleaseToSeller => seq![
            Transfer { from: Custody::Vault, to: Custody::Seller, amount },
        ],
        ArbitrationDecision::RefundToBuyer => seq![
            Transfer { from: Custody::Vault, to: Custody::Buyer, amount },
        ],
        ArbitrationDecision::Split => seq![
            Transfer { from: Custody::Vault, to: Custody::Seller, amount: (amount - amount / 2) as u64 },
            Transfer { from: Custody::Vault, to: Custody::Buyer, amount: (amount / 2) as u64 },
        ],
    }
}

/// The transfer that a time-based release makes: the whole amount to the seller.
pub open spec fn release(amount: u64) -> Transfer {
    Transfer { from: Custody::Vault, to: Custody::Seller, amount }
}

/// Why `create_escrow` refuses its inputs, if it does, before any transfer.
pub open spec fn create_error(amount: u64, dispute_window: i64, now: i64, buyer_balance: u64) -> Option<ErrorCode> {
    if amount == 0 {
        Some(ErrorCode::InvalidAmount)
    } else if dispute_window < 0 || now + dispute_window > i64::MAX {
        Some(ErrorCode::InvalidDisputeWindow)
    } else if buyer_balance < amount {
        Some(ErrorCode::InsufficientFunds)
    } else {
        None
    }
}

/// Why `raise_dispute` refuses a request, if it does.
pub open spec fn dispute_error(e: Escrow, caller: Identity, evidence: Seq<char>, now: i64) -> Option<ErrorCode> {
    if caller@ != e.buyer@ && caller@ != e.seller@ {
        Some(ErrorCode::Unauthorized)
    } else if now >= e.dispute_deadline {
        Some(ErrorCode::DisputeWindowClosed)
    } else if e.status.is_terminal() {
        Some(ErrorCode::InvalidStatus)
    } else if e.variable_size() + EVIDENCE_ENTRY_OVERHEAD + text_size(evidence) > VARIABLE_CAPACITY {
        Some(ErrorCode::RecordFull)
    } else {
        None
    }
}

/// Why `ai_arbitrate` refuses a request, if it does, before any transfer.
pub open spec fn arbitrate_error(e: Escrow, caller: Identity, reasoning: Seq<char>) -> Option<ErrorCode> {
    if caller@ != e.ai_arbiter@ {
        Some(ErrorCode::InvalidArbiter)
    } else if e.status != EscrowStatus::Disputed {
        Some(ErrorCode::NotInDispute)
    } else if 8 + text_size(reasoning) + evidence_size(e.dispute_evidence@) > VARIABLE_CAPACITY {
        Some(ErrorCode::RecordFull)
    } else {
        None
    }
}

/// Why `time_release` refuses a request, if it does, before any transfer.
pub open spec fn release_error(e: Escrow, now: i64) -> Option<ErrorCode> {
    if now < e.release_time {
        Some(ErrorCode::TimeLockNotExpired)
    } else if e.status != EscrowStatus::Pending {
        Some(ErrorCode::InvalidStatus)
    } else {
        None
    }
}

/// The parties, the amount and the two deadlines of `b` are those of `a`.
pub open spec fn same_terms(a: Escrow, b: Escrow) -> bool {
    &&& b.buyer == a.buyer
    &&& b.seller == a.seller
    &&& b.ai_arbiter == a.ai_arbiter
    &&& b.amount == a.amount
    &&& b.release_time == a.release_time
    &&& b.dispute_deadline == a.dispute_deadline
}

/// `new` holds every entry of `old`, in its place, and perhaps more after them.
pub open spec fn evidence_extends(old: Seq<DisputeEvidence>, new: Seq<DisputeEvidence>) -> bool {
    &&& old.len() <= new.len()
    &&& forall|i: int| 0 <= i < old.len() ==> new[i] == old[i]
}

/// Asks `transfer` for each of `transfers` in order, stopping at the first
/// refusal; true when every one was made.
fn run_transfers<F: Fn(Transfer) -> bool>(transfers: &Vec<Transfer>, transfer: F) -> (ok: bool)
    requires
        forall|t: Transfer| transfer.requires((t,)),
    ensures
        ok ==> forall|i: int| 0 <= i < transfers@.len() ==> transfer.ensures((transfers@[i],), true),
        !ok ==> exists|i: int| 0 <= i < transfers@.len() && transfer.ensures((transfers@[i],), false),
{
    let mut i: usize = 0;
    while i < transfers.len()
        invariant
            0 <= i <= transfers@.len(),
            forall|t: Transfer| transfer.requires((t,)),
            forall|j: int| 0 <= j < i ==> transfer.ensures((transfers@[j],), true),
        decreases transfers@.len() - i,
    {
        let done = transfer(transfers[i]);
        if !done {
            return false;
        }
        i = i + 1;
    }
    true
}

/// The transfers out of the vault that a decision calls for.
fn payout_transfers(amount: u64, d: ArbitrationDecision) -> (r: Vec<Transfer>)
    ensures
        r@ == payout(amount, d),
{
    let mut r: Vec<Transfer> = Vec::new();
    match d {
        ArbitrationDecision::ReleaseToSeller => {
            r.push(Transfer { from: Custody::Vault, to: Custody::Seller, amount });
        },
        ArbitrationDecision::RefundToBuyer => {
            r.push(Transfer { from: Custody::Vault, to: Custody::Buyer, amount });
        },
        ArbitrationDecision::Split => {
            let half = amount / 2;
            r.push(Transfer { from: Custody::Vault, to: Custody::Seller, amount: amount - half });
            r.push(Transfer { from: Custody::Vault, to: Custody::Buyer, amount: half });
        },
    }
    assert(r@ =~= payout(amount, d));
    r
}

/// The arbiter rules on a disputed escrow: the decision and its reasoning are
/// recorded, the escrow settles in the status the decision implies, and the
/// vault pays out as `payout` says. When a transfer is refused the record is
/// left as it was.
pub fn ai_arbitrate<F: Fn(Transfer) -> bool>(
    escrow: &mut Escrow,
    caller: Identity,
    decision: ArbitrationDecision,
    reasoning: String,
    transfer: F,
) -> (r: Result<Vec<Transfer>, ErrorCode>)
    requires
        old(escrow).wf(),
        forall|t: Transfer| transfer.requires((t,)),
    ensures
        final(escrow).wf(),
        evidence_extends(old(escrow).dispute_evidence@, final(escrow).dispute_evidence@),
        r is Err ==> *final(escrow) == *old(escrow),
        match arbitrate_error(*old(escrow), caller, reasoning@) {
            Some(err) => r == Err::<Vec<Transfer>, ErrorCode>(err),
            None => match r {
                Ok(made) => {
                    &&& made@ == payout(old(escrow).amount, decision)
                    &&& forall|i: int| 0 <= i < made@.len() ==> transfer.ensures((made@[i],), true)
                    &&& same_terms(*old(escrow), *final(escrow))
                    &&& final(escrow).status == status_of(decision)
                    &&& legal_edge(old(escrow).status, final(escrow).status)
                    &&& final(escrow).ai_decision == Some(decision)
                    &&& final(escrow).ai_reasoning == reasoning
                    &&& final(escrow).dispute_evidence == old(escrow).dispute_evidence
                },
                Err(err) => {
                    &&& err == ErrorCode::TransferFailed
                    &&& exists|i: int| 0 <= i < payout(old(escrow).amount, decision).len()
                        && transfer.ensures((payout(old(escrow).amount, decision)[i],), false)
                },
            },
        },
{
    if !caller.same(&escrow.ai_arbiter) {
        return Err(ErrorCode::InvalidArbiter);
    }
    if escrow.status != EscrowStatus::Disputed {
        return Err(ErrorCode::NotInDispute);
    }
    let evidence_used = match evidence_bytes(&escrow.dispute_evidence) {
        Some(n) => n,
        None => {
            return Err(ErrorCode::RecordFull);
        },
    };
    let reasoning_len = text_bytes(&reasoning);
    if reasoning_len > VARIABLE_CAPACITY - 8 - evidence_used {
        return Err(ErrorCode::RecordFull);
    }
    let made = payout_transfers(escrow.amount, decision);
    if !run_transfers(&made, transfer) {
        return Err(ErrorCode::TransferFailed);
    }
    escrow.ai_decision = Some(decision);
    escrow.ai_reasoning = reasoning;
    escrow.status = match decision {
        ArbitrationDecision::ReleaseToSeller => EscrowStatus::ResolvedToSeller,
        ArbitrationDecision::RefundToBuyer => EscrowStatus::ResolvedToBuyer,
        ArbitrationDecision::Split => EscrowStatus::ResolvedSplit,
    };
    Ok(made)
}

/// Opens an escrow: `amount` moves from the buyer's custody into the vault,
/// and the record starts `Pending`, with its dispute window closing at
/// `now + dispute_window`. Nothing is created when the deposit is refused.
pub fn create_escrow<F: Fn(Transfer) -> bool>(
    buyer: Identity,
    seller: Identity,
    ai_arbiter: Identity,
    amount: u64,
    release_time: i64,
    dispute_window: i64,
    now: i64,
    buyer_balance: u64,
    transfer: F,
) -> (r: Result<Escrow, ErrorCode>)
    requires
        forall|t: Transfer| transfer.requires((t,)),
    ensures
        match create_error(amount, dispute_window, now, buyer_balance) {
            Some(err) => r == Err::<Escrow, ErrorCode>(err),
            None => match r {
                Ok(e) => {
                    &&& transfer.ensures((deposit(amount),), true)
                    &&& e.wf()
                    &&& e.buyer == buyer
                    &&& e.seller == seller
                    &&& e.ai_arbiter == ai_arbiter
                    &&& e.amount == amount
                    &&& e.release_time == release_time
                    &&& e.dispute_deadline == now + dispute_window
                    &&& e.status == EscrowStatus::Pending
                    &&& e.ai_decision is None
                    &&& e.ai_reasoning@.len() == 0
                    &&& e.dispute_evidence@.len() == 0
                },
                Err(err) => err == ErrorCode::TransferFailed && transfer.ensures((deposit(amount),), false),
            },
        },
{
    if amount == 0 {
        return Err(ErrorCode::InvalidAmount);
    }
    if dispute_window < 0 || now > i64::MAX - dispute_window {
        return Err(ErrorCode::InvalidDisputeWindow);
    }
    if buyer_balance < amount {
        return Err(ErrorCode::InsufficientFunds);
    }
    if !transfer(Transfer { from: Custody::Buyer, to: Custody::Vault, amount }) {
        return Err(ErrorCode::TransferFailed);
    }
    let e = Escrow {
        buyer,
        seller,
        ai_arbiter,
        amount,
        release_time,
        dispute_deadline: now + dispute_window,
        status: EscrowStatus::Pending,
        ai_decision: None,
        ai_reasoning: String::new(),
        dispute_evidence: Vec::new(),
    };
    proof {
        lemma_empty_text_size();
    }
    Ok(e)
}

/// The empty text takes no bytes.
proof fn lemma_empty_text_size()
    ensures
        text_size(Seq::<char>::empty()) == 0,
{
    reveal_with_fuel(vstd::utf8::encode_utf8, 1);
}

/// A party raises a dispute, or adds to one already raised, before the
/// dispute window closes: the escrow becomes `Disputed` and the evidence,
/// stamped with the caller and `now`, is appended to the record.
pub fn raise_dispute(escrow: &mut Escrow, caller: Identity, evidence: String, now: i64) -> (r: Result<(), ErrorCode>)
    requires
        old(escrow).wf(),
    ensures
        final(escrow).wf(),
        evidence_extends(old(escrow).dispute_evidence@, final(escrow).dispute_evidence@),
        r is Err ==> *final(escrow) == *old(escrow),
        match dispute_error(*old(escrow), caller, evidence@, now) {
            Some(err) => r == Err::<(), ErrorCode>(err),
            None => {
                &&& r is Ok
                &&& same_terms(*old(escrow), *final(escrow))
                &&& final(escrow).status == EscrowStatus::Disputed
                &&& legal_edge(old(escrow).status, final(escrow).status)
                &&& final(escrow).ai_decision == old(escrow).ai_decision
                &&& final(escrow).ai_reasoning == old(escrow).ai_reasoning
                &&& final(escrow).dispute_evidence@ == old(escrow).dispute_evidence@.push(
                    DisputeEvidence { party: caller, evidence, timestamp: now },
                )
            },
        },
{
    if !caller.same(&escrow.buyer) && !caller.same(&escrow.seller) {
        return Err(ErrorCode::Unauthorized);
    }
    if now >= escrow.dispute_deadline {
        return Err(ErrorCode::DisputeWindowClosed);
    }
    if escrow.status.is_settled() {
        return Err(ErrorCode::InvalidStatus);
    }
    let evidence_used = match evidence_bytes(&escrow.dispute_evidence) {
        Some(n) => n,
        None => {
            return Err(ErrorCode::RecordFull);
        },
    };
    let used = 8 + text_bytes(&escrow.ai_reasoning) + evidence_used;
    let room = VARIABLE_CAPACITY - used;
    let needed = text_bytes(&evidence);
    if needed > room || room - needed < EVIDENCE_ENTRY_OVERHEAD {
        return Err(ErrorCode::RecordFull);
    }
    let entry = DisputeEvidence { party: caller, evidence, timestamp: now };
    proof {
        let s = old(escrow).dispute_evidence@;
        assert(s.push(entry).drop_last() =~= s);
        assert(evidence_size(s.push(entry)) == evidence_size(s) + entry_size(entry));
    }
    escrow.dispute_evidence.push(entry);
    escrow.status = EscrowStatus::Disputed;
    Ok(())
}

/// Releases the whole amount to the seller once the time lock has expired,
/// as long as no dispute has been raised: the escrow settles as
/// `ResolvedToSeller` with no decision recorded. When the transfer is refused
/// the record is left as it was.
pub fn time_release<F: Fn(Transfer) -> bool>(escrow: &mut Escrow, now: i64, transfer: F) -> (r: Result<Vec<Transfer>, ErrorCode>)
    requires
        old(escrow).wf(),
        forall|t: Transfer| transfer.requires((t,)),
    ensures
        final(escrow).wf(),
        evidence_extends(old(escrow).dispute_evidence@, final(escrow).dispute_evidence@),
        r is Err ==> *final(escrow) == *old(escrow),
        match release_error(*old(escrow), now) {
            Some(err) => r == Err::<Vec<Transfer>, ErrorCode>(err),
            None => match r {
                Ok(made) => {
                    &&& made@ == seq![release(old(escrow).amount)]
                    &&& transfer.ensures((release(old(escrow).amount),), true)
                    &&& same_terms(*old(escrow), *final(escrow))
                    &&& final(escrow).status == EscrowStatus::ResolvedToSeller
                    &&& legal_edge(old(escrow).status, final(escrow).status)
                    &&& final(escrow).ai_decision == old(escrow).ai_decision
                    &&& final(escrow).ai_reasoning == old(escrow).ai_reasoning
                    &&& final(escrow).dispute_evidence == old(escrow).dispute_evidence
                },
                Err(err) => err == ErrorCode::TransferFailed && transfer.ensures(
                    (release(old(escrow).amount),),
                    false,
                ),
            },
        },
{
    if now < escrow.release_time {
        return Err(ErrorCode::TimeLockNotExpired);
    }
    if escrow.status != EscrowStatus::Pending {
        return Err(ErrorCode::InvalidStatus);
    }
    let t = Transfer { from: Custody::Vault, to: Custody::Seller, amount: escrow.amount };
    if !transfer(t) {
        return Err(ErrorCode::TransferFailed);
    }
    let mut made: Vec<Transfer> = Vec::new();
    made.push(t);
    assert(made@ =~= seq![release(old(escrow).amount)]);
    escrow.status = EscrowStatus::ResolvedToSeller;
    Ok(made)
}

} // verus!
