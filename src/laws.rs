use vstd::prelude::*;

use crate::controller::{arbitrate_error, dispute_error, evidence_extends, release_error};
use crate::record::{legal_edge, DisputeEvidence, ErrorCode, Escrow, EscrowStatus, Identity};

verus! {

/// An unresolved dispute blocks the time-based release: once the release
/// time has come, `time_release` on a disputed escrow fails with
/// `InvalidStatus`.
pub proof fn lemma_dispute_precedence(e: Escrow, now: i64)
    requires
        e.status == EscrowStatus::Disputed,
        now >= e.release_time,
    ensures
        release_error(e, now) == Some(ErrorCode::InvalidStatus),
{
}

/// A settled escrow accepts no further transition: a dispute, a ruling and a
/// time-based release are all refused, whoever asks and whenever, so none of
/// them changes the record or makes a transfer, and no edge of the lifecycle
/// leaves a settled status.
pub proof fn lemma_terminal_immutability(
    e: Escrow,
    caller: Identity,
    evidence: Seq<char>,
    reasoning: Seq<char>,
    now: i64,
)
    requires
        e.status.is_terminal(),
    ensures
        dispute_error(e, caller, evidence, now) is Some,
        arbitrate_error(e, caller, reasoning) is Some,
        release_error(e, now) is Some,
        forall|to: EscrowStatus| !legal_edge(e.status, to),
{
}

/// The evidence list only grows: a list extends itself, and a list extended
/// twice extends the first, so over any run of transitions every entry keeps
/// its content and its place.
pub proof fn lemma_evidence_append_only(
    a: Seq<DisputeEvidence>,
    b: Seq<DisputeEvidence>,
    c: Seq<DisputeEvidence>,
)
    requires
        evidence_extends(a, b),
        evidence_extends(b, c),
    ensures
        evidence_extends(a, a),
        evidence_extends(a, c),
{
    assert forall|i: int| 0 <= i < a.len() implies c[i] == a[i] by {
        assert(c[i] == b[i]);
    }
}

/// The dispute window is closed at its deadline: a party's request made at
/// `dispute_deadline` or later fails with `DisputeWindowClosed`.
pub proof fn lemma_window_closure(e: Escrow, caller: Identity, evidence: Seq<char>, now: i64)
    requires
        caller@ == e.buyer@ || caller@ == e.seller@,
        now >= e.dispute_deadline,
    ensures
        dispute_error(e, caller, evidence, now) == Some(ErrorCode::DisputeWindowClosed),
{
}

} // verus!
