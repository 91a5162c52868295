use vstd::prelude::*;
use vstd::utf8::encode_utf8;

verus! {

/// Bytes that one evidence entry takes in the record besides its text: the
/// party's 32-byte identity, the text's 4-byte length prefix and the 8-byte
/// timestamp.
pub const EVIDENCE_ENTRY_OVERHEAD: usize = 44;

/// Bytes of the record's fixed allocation that the reasoning text and the
/// evidence list share, length prefixes of both included.
pub const VARIABLE_CAPACITY: usize = 1208;

/// An already verified identity: a 32-byte public key.
#[derive(Clone, Copy, Debug)]
pub struct Identity {
    pub bytes: [u8; 32],
}

impl Identity {
    pub fn new(bytes: [u8; 32]) -> (r: Identity)
        ensures
            r.bytes == bytes,
    {
        Identity { bytes }
    }

    /// Whether two identities are the same key.
    pub fn same(&self, other: &Identity) -> (r: bool)
        ensures
            r == (self@ == other@),
    {
        let mut i: usize = 0;
        while i < 32
            invariant
                0 <= i <= 32,
                self@.len() == 32,
                other@.len() == 32,
                forall|j: int| 0 <= j < i ==> self@[j] == other@[j],
            decreases 32 - i,
        {
            if self.bytes[i] != other.bytes[i] {
                return false;
            }
            i = i + 1;
        }
        assert(self@ =~= other@);
        true
    }
}

impl View for Identity {
    type V = Seq<u8>;

    open spec fn view(&self) -> Seq<u8> {
        self.bytes@
    }
}

impl PartialEq for Identity {
    fn eq(&self, other: &Identity) -> (r: bool) {
        self.same(other)
    }
}

impl vstd::std_specs::cmp::PartialEqSpecImpl for Identity {
    open spec fn obeys_eq_spec() -> bool {
        true
    }

    open spec fn eq_spec(&self, other: &Identity) -> bool {
        self@ == other@
    }
}

/// Where an escrow stands in its lifecycle.
#[derive(Clone, Copy, Debug, PartialEq, Eq, Structural)]
pub enum EscrowStatus {
    Pending,
    Disputed,
    ResolvedToSeller,
    ResolvedToBuyer,
    ResolvedSplit,
}

impl EscrowStatus {
    /// A settled status: no transition is accepted from it.
    pub open spec fn is_terminal(self) -> bool {
        ||| self == EscrowStatus::ResolvedToSeller
        ||| self == EscrowStatus::ResolvedToBuyer
        ||| self == EscrowStatus::ResolvedSplit
    }

    /// Whether the status is a settled one.
    pub fn is_settled(&self) -> (r: bool)
        ensures
            r == self.is_terminal(),
    {
        match self {
            EscrowStatus::Pending | EscrowStatus::Disputed => false,
            _ => true,
        }
    }
}

/// The ruling of the arbiter on a dispute.
#[derive(Clone, Copy, Debug, PartialEq, Eq, Structural)]
pub enum ArbitrationDecision {
    ReleaseToSeller,
    RefundToBuyer,
    Split,
}

/// One piece of evidence, appended by a party when raising a dispute.
#[derive(Clone, Debug)]
pub struct DisputeEvidence {
    pub party: Identity,
    pub evidence: String,
    pub timestamp: i64,
}

/// Why a transition was refused.
#[derive(Clone, Copy, Debug, PartialEq, Eq, Structural)]
pub enum ErrorCode {
    InvalidArbiter,
    NotInDispute,
    TimeLockNotExpired,
    Unauthorized,
    DisputeWindowClosed,
    InvalidStatus,
    InvalidAmount,
    InsufficientFunds,
    InvalidDisputeWindow,
    RecordFull,
    TransferFailed,
}

/// A custody account that an escrow moves value between.
#[derive(Clone, Copy, Debug, PartialEq, Eq, Structural)]
pub enum Custody {
    Buyer,
    Seller,
    Vault,
}

/// One movement of value that a transition needs done.
#[derive(Clone, Copy, Debug, PartialEq, Eq, Structural)]
pub struct Transfer {
    pub from: Custody,
    pub to: Custody,
    pub amount: u64,
}

/// The persistent record of one escrow.
#[derive(Clone, Debug)]
pub struct Escrow {
    pub buyer: Identity,
    pub seller: Identity,
    pub ai_arbiter: Identity,
    pub amount: u64,
    pub release_time: i64,
    pub dispute_deadline: i64,
    pub status: EscrowStatus,
    pub ai_decision: Option<ArbitrationDecision>,
    pub ai_reasoning: String,
    pub dispute_evidence: Vec<DisputeEvidence>,
}

/// Bytes that a text takes in UTF-8.
pub open spec fn text_size(s: Seq<char>) -> nat {
    encode_utf8(s).len()
}

/// Bytes that an evidence entry takes in the record.
pub open spec fn entry_size(e: DisputeEvidence) -> nat {
    (EVIDENCE_ENTRY_OVERHEAD + text_size(e.evidence@)) as nat
}

/// Bytes that a list of evidence entries takes, its length prefix left out.
pub open spec fn evidence_size(s: Seq<DisputeEvidence>) -> nat
    decreases s.len(),
{
    if s.len() == 0 {
        0
    } else {
        evidence_size(s.drop_last()) + entry_size(s.last())
    }
}

/// The status that an arbiter's decision settles an escrow in.
pub open spec fn status_of(d: ArbitrationDecision) -> EscrowStatus {
    match d {
        ArbitrationDecision::ReleaseToSeller => EscrowStatus::ResolvedToSeller,
        ArbitrationDecision::RefundToBuyer => EscrowStatus::ResolvedToBuyer,
        ArbitrationDecision::Split => EscrowStatus::ResolvedSplit,
    }
}

/// The edges of the lifecycle: the statuses a successful transition may lead
/// from and to.
pub open spec fn legal_edge(from: EscrowStatus, to: EscrowStatus) -> bool {
    match from {
        EscrowStatus::Pending => to == EscrowStatus::Disputed || to == EscrowStatus::ResolvedToSeller,
        EscrowStatus::Disputed => to != EscrowStatus::Pending,
        _ => false,
    }
}

impl Escrow {
    /// Bytes of the record's fixed allocation; 8 more hold the account's tag.
    pub const SIZE: usize = 32 + 32 + 32 + 8 + 8 + 8 + 1 + 2 + VARIABLE_CAPACITY;

    /// Bytes that the reasoning and the evidence take, with their length
    /// prefixes.
    pub open spec fn variable_size(&self) -> nat {
        (8 + text_size(self.ai_reasoning@) + evidence_size(self.dispute_evidence@)) as nat
    }

    /// The invariant that every transition keeps.
    pub open spec fn wf(&self) -> bool {
        &&& self.amount > 0
        &&& self.variable_size() <= VARIABLE_CAPACITY
        &&& self.ai_decision is None ==> self.ai_reasoning@.len() == 0
        &&& match self.status {
            EscrowStatus::Pending => self.dispute_evidence@.len() == 0 && self.ai_decision is None,
            EscrowStatus::Disputed => self.dispute_evidence@.len() > 0 && self.ai_decision is None,
            EscrowStatus::ResolvedToSeller => match self.ai_decision {
                None => true,
                Some(d) => d == ArbitrationDecision::ReleaseToSeller
                    && self.dispute_evidence@.len() > 0,
            },
            _ => self.ai_decision is Some && status_of(self.ai_decision->0) == self.status
                && self.dispute_evidence@.len() > 0,
        }
    }
}

/// The size of a prefix of the evidence list is at most that of a longer one.
pub proof fn lemma_evidence_size_prefix(s: Seq<DisputeEvidence>, i: int, j: int)
    requires
        0 <= i <= j <= s.len(),
    ensures
        evidence_size(s.take(i)) <= evidence_size(s.take(j)),
    decreases j - i,
{
    if i < j {
        lemma_evidence_size_prefix(s, i, j - 1);
        assert(s.take(j).drop_last() =~= s.take(j - 1));
    }
}

/// Bytes that a text takes in UTF-8.
pub fn text_bytes(s: &String) -> (n: usize)
    ensures
        n == text_size(s@),
{
    s.as_str().as_bytes().len()
}

/// Bytes that the evidence list takes, its length prefix left out, or `None`
/// when that exceeds `VARIABLE_CAPACITY`.
pub fn evidence_bytes(v: &Vec<DisputeEvidence>) -> (n: Option<usize>)
    ensures
        match n {
            Some(k) => k == evidence_size(v@) && k <= VARIABLE_CAPACITY,
            None => evidence_size(v@) > VARIABLE_CAPACITY,
        },
{
    let mut total: usize = 0;
    let mut i: usize = 0;
    assert(v@.take(v@.len() as int) =~= v@);
    while i < v.len()
        invariant
            0 <= i <= v@.len(),
            v@.take(v@.len() as int) == v@,
            total == evidence_size(v@.take(i as int)),
            total <= VARIABLE_CAPACITY,
        decreases v@.len() - i,
    {
        assert(v@.take(i + 1).drop_last() =~= v@.take(i as int));
        let text = text_bytes(&v[i].evidence);
        if text > VARIABLE_CAPACITY - total || VARIABLE_CAPACITY - total - text < EVIDENCE_ENTRY_OVERHEAD {
            proof {
                lemma_evidence_size_prefix(v@, i + 1, v@.len() as int);
            }
            return None;
        }
        total = total + EVIDENCE_ENTRY_OVERHEAD + text;
        i = i + 1;
    }
    Some(total)
}

impl Escrow {
    /// Whether the record meets the invariant, as a record read back from
    /// storage must before any transition is applied to it.
    pub fn is_well_formed(&self) -> (r: bool)
        ensures
            r == self.wf(),
    {
        if self.amount == 0 {
            return false;
        }
        let evidence = match evidence_bytes(&self.dispute_evidence) {
            Some(n) => n,
            None => {
                return false;
            },
        };
        let reasoning = text_bytes(&self.ai_reasoning);
        if reasoning > VARIABLE_CAPACITY - evidence || VARIABLE_CAPACITY - evidence - reasoning < 8 {
            return false;
        }
        let no_reasoning = self.ai_reasoning.as_str().is_empty();
        let has_evidence = self.dispute_evidence.len() > 0;
        match self.ai_decision {
            None => no_reasoning && match self.status {
                EscrowStatus::Pending => !has_evidence,
                EscrowStatus::Disputed => has_evidence,
                EscrowStatus::ResolvedToSeller => true,
                _ => false,
            },
            Some(d) => has_evidence && match (self.status, d) {
                (EscrowStatus::ResolvedToSeller, ArbitrationDecision::ReleaseToSeller) => true,
                (EscrowStatus::ResolvedToBuyer, ArbitrationDecision::RefundToBuyer) => true,
                (EscrowStatus::ResolvedSplit, ArbitrationDecision::Split) => true,
                _ => false,
            },
        }
    }
}

} // verus!
