use vstd::prelude::*;

verus! {

/// What went wrong in a catchup session.
#[derive(Clone, Copy, Debug, PartialEq, Eq, Structural)]
pub enum LedgerErrorKind {
    /// Nothing to catch up, or the peer answered with a message of the wrong kind.
    InvalidState,
    /// Every peer was tried and no reply verified.
    PoolTimeout,
}

#[derive(Clone, Debug)]
pub struct LedgerError {
    pub kind: LedgerErrorKind,
    pub message: String,
}

/// Outcome of a pool request: a reply, or a failure reported by the pool side.
#[derive(Clone, Debug)]
pub enum RequestResult<T> {
    Reply(T),
    Failed(LedgerError),
}

/// The contents of a list of byte strings.
pub open spec fn seqs_of(v: Seq<Vec<u8>>) -> Seq<Seq<u8>> {
    v.map_values(|b: Vec<u8>| b@)
}

/// The leaves of the local replica of the ledger, in order.
#[derive(Debug)]
pub struct MerkleTree {
    leaves: Vec<Vec<u8>>,
}

impl View for MerkleTree {
    type V = Seq<Seq<u8>>;

    closed spec fn view(&self) -> Seq<Seq<u8>> {
        seqs_of(self.leaves@)
    }
}

impl MerkleTree {
    pub fn new() -> (r: MerkleTree)
        ensures
            r@ == Seq::<Seq<u8>>::empty(),
    {
        let r = MerkleTree { leaves: Vec::new() };
        assert(r@ =~= Seq::<Seq<u8>>::empty());
        r
    }

    /// Number of leaves.
    pub fn count(&self) -> (r: usize)
        ensures
            r == self@.len(),
    {
        self.leaves.len()
    }

    /// Appends one transaction as the next leaf.
    pub fn append(&mut self, txn: Vec<u8>)
        requires
            old(self)@.len() < usize::MAX,
        ensures
            final(self)@ == old(self)@.push(txn@),
    {
        self.leaves.push(txn);
        assert(self@ =~= old(self)@.push(txn@));
    }

    /// A copy with the same leaves.
    pub fn duplicate(&self) -> (r: MerkleTree)
        ensures
            r@ == self@,
    {
        let mut leaves: Vec<Vec<u8>> = Vec::new();
        let mut i: usize = 0;
        while i < self.leaves.len()
            invariant
                i <= self.leaves.len(),
                leaves.len() == i,
                forall|j: int| 0 <= j < i ==> #[trigger] leaves[j]@ == self.leaves[j]@,
            decreases self.leaves.len() - i,
        {
            let leaf = self.leaves[i].clone();
            assert(leaf@ =~= self.leaves[i as int]@);
            leaves.push(leaf);
            i = i + 1;
        }
        let r = MerkleTree { leaves };
        assert(r@ =~= self@);
        r
    }
}

/// Request for the transactions `seq_no_start..=seq_no_end` of a ledger.
#[derive(Clone, Copy, Debug, PartialEq, Eq, Structural)]
pub struct CatchupReq {
    pub ledger_id: u64,
    pub seq_no_start: usize,
    pub seq_no_end: usize,
    pub catchup_till: usize,
}

/// A peer's answer to a catchup request: transactions and a consistency proof
/// (hex-encoded hashes) from the requester's height to the target height.
#[derive(Clone, Debug)]
pub struct CatchupRep {
    pub txns: Vec<Vec<u8>>,
    pub cons_proof: Vec<String>,
}

/// Pool messages seen by the catchup engine.
#[derive(Clone, Debug)]
pub enum Message {
    CatchupReq(CatchupReq),
    CatchupRep(CatchupRep),
    /// Any other message, by its operation name.
    Other(String),
}

/// The request that asks for every transaction past the local tree up to `target_mt_size`.
pub open spec fn catchup_req_for(count: nat, target_mt_size: usize) -> CatchupReq {
    CatchupReq {
        ledger_id: 0,
        seq_no_start: (count + 1) as usize,
        seq_no_end: target_mt_size,
        catchup_till: target_mt_size,
    }
}

/// Builds the catchup request for a tree of `n` leaves and a target of `N`
/// leaves; fails with `InvalidState` when `n >= N`.
pub fn build_catchup_req(merkle: &MerkleTree, target_mt_size: usize) -> (r: Result<
    Message,
    LedgerError,
>)
    ensures
        merkle@.len() < target_mt_size <==> r is Ok,
        r is Ok ==> r->Ok_0 == Message::CatchupReq(catchup_req_for(merkle@.len(), target_mt_size)),
        r is Err ==> r->Err_0.kind == LedgerErrorKind::InvalidState && r->Err_0.message@
            == "No transactions to catch up"@,
{
    if merkle.count() >= target_mt_size {
        return Err(
            LedgerError {
                kind: LedgerErrorKind::InvalidState,
                message: String::from_str("No transactions to catch up"),
            },
        );
    }
    let seq_no_start = merkle.count() + 1;
    let seq_no_end = target_mt_size;
    let cr = CatchupReq {
        ledger_id: 0,
        seq_no_start: seq_no_start,
        seq_no_end: seq_no_end,
        catchup_till: target_mt_size,
    };
    Ok(Message::CatchupReq(cr))
}

/// The source tree with `txns` appended in order, built on a copy: the source is untouched.
pub fn extended_tree(source_tree: &MerkleTree, txns: &Vec<Vec<u8>>) -> (r: MerkleTree)
    requires
        source_tree@.len() + txns.len() <= usize::MAX,
    ensures
        r@ == source_tree@ + seqs_of(txns@),
{
    let mut merkle = source_tree.duplicate();
    let mut i: usize = 0;
    while i < txns.len()
        invariant
            i <= txns.len(),
            source_tree@.len() + txns.len() <= usize::MAX,
            merkle@ == source_tree@ + seqs_of(txns@).subrange(0, i as int),
        decreases txns.len() - i,
    {
        let txn = txns[i].clone();
        assert(txn@ =~= txns[i as int]@);
        merkle.append(txn);
        i = i + 1;
        assert(merkle@ =~= source_tree@ + seqs_of(txns@).subrange(0, i as int));
    }
    assert(seqs_of(txns@).subrange(0, i as int) =~= seqs_of(txns@));
    merkle
}

/// Decides on a reply whose consistency proof was checked against
/// `extended_tree(source_tree, &txns)`: the transactions are accepted exactly
/// when the proof was accepted and they bring the tree to `target_mt_size`.
pub fn process_catchup_reply(
    source_tree: &MerkleTree,
    target_mt_size: usize,
    txns: Vec<Vec<u8>>,
    proof_accepted: bool,
) -> (r: Result<Vec<Vec<u8>>, LedgerError>)
    ensures
        r is Ok <==> proof_accepted && source_tree@.len() + txns.len() == target_mt_size,
        r is Ok ==> r->Ok_0 == txns,
        r is Err ==> r->Err_0.kind == LedgerErrorKind::InvalidState,
{
    let n = source_tree.count();
    if !proof_accepted || n > target_mt_size || txns.len() != target_mt_size - n {
        return Err(
            LedgerError {
                kind: LedgerErrorKind::InvalidState,
                message: String::from_str("Consistency proof verification failed"),
            },
        );
    }
    Ok(txns)
}

/// Where a catchup session stands.
#[derive(Debug)]
pub enum CatchupPhase {
    /// A request is out; the next peer message or timeout is awaited.
    AwaitingReply,
    /// A peer's transactions await the verdict on their consistency proof.
    Checking { node_alias: String, txns: Vec<Vec<u8>> },
    /// The session has ended.
    Finished,
}

/// What happened while the session waited.
#[derive(Debug)]
pub enum CatchupEvent {
    Received { node_alias: String, message: Message },
    Timeout { node_alias: String },
    /// Verdict on the consistency proof asked for by `CheckConsistency`.
    ProofChecked { accepted: bool },
    /// No peer is left to ask.
    Exhausted,
}

/// What the driver of the session does next.
#[derive(Debug)]
pub enum CatchupAction {
    /// Send the catchup request to one more peer.
    SendToAny,
    /// Check `cons_proof` on `tree` against the target root and size, and
    /// report the verdict with `ProofChecked`.
    CheckConsistency {
        tree: MerkleTree,
        cons_proof: Vec<String>,
        target_mt_root: Vec<u8>,
        target_mt_size: usize,
    },
    /// Drop the pending timeout of `node_alias` and send to another peer.
    Retry { node_alias: String },
    /// The session is over with this result.
    Finish(RequestResult<Vec<Vec<u8>>>),
}

/// A catchup session: brings a copy of `source` to `target_mt_size` leaves.
/// The source tree itself is never changed.
#[derive(Debug)]
pub struct CatchupSession {
    pub source: MerkleTree,
    pub target_mt_root: Vec<u8>,
    pub target_mt_size: usize,
    pub phase: CatchupPhase,
}

impl CatchupSession {
    /// The source lies below the target, and pending transactions reach it exactly.
    pub open spec fn wf(&self) -> bool {
        &&& self.source@.len() < self.target_mt_size
        &&& self.phase matches CatchupPhase::Checking { txns, .. } ==> self.source@.len()
            + txns.len() == self.target_mt_size
    }

    /// Starts a session and returns the first request to send; fails with
    /// `InvalidState` when the tree already holds `target_mt_size` leaves.
    pub fn start(merkle_tree: MerkleTree, target_mt_root: Vec<u8>, target_mt_size: usize) -> (r:
        Result<(CatchupSession, Message), LedgerError>)
        ensures
            merkle_tree@.len() < target_mt_size <==> r is Ok,
            r is Ok ==> {
                let (s, m) = r->Ok_0;
                &&& s.wf()
                &&& s.source@ == merkle_tree@
                &&& s.target_mt_root == target_mt_root
                &&& s.target_mt_size == target_mt_size
                &&& s.phase is AwaitingReply
                &&& m == Message::CatchupReq(catchup_req_for(merkle_tree@.len(), target_mt_size))
            },
            r is Err ==> r->Err_0.kind == LedgerErrorKind::InvalidState && r->Err_0.message@
                == "No transactions to catch up"@,
    {
        match build_catchup_req(&merkle_tree, target_mt_size) {
            Ok(m) => {
                let s = CatchupSession {
                    source: merkle_tree,
                    target_mt_root,
                    target_mt_size,
                    phase: CatchupPhase::AwaitingReply,
                };
                Ok((s, m))
            },
            Err(e) => Err(e),
        }
    }

    /// Takes one event and says what to do next.
    pub fn on_event(&mut self, event: CatchupEvent) -> (action: CatchupAction)
        requires
            old(self).wf(),
        ensures
            final(self).wf(),
            final(self).source@ == old(self).source@,
            final(self).target_mt_root == old(self).target_mt_root,
            final(self).target_mt_size == old(self).target_mt_size,
            final(self).phase is Finished <==> action is Finish,
            old(self).phase is Finished ==> fails_with(action, LedgerErrorKind::InvalidState),
            // a reply of the right length is handed over for checking on a copy
            old(self).phase is AwaitingReply && event is Received ==> received_reply_step(
                *old(self),
                event,
                action,
                *final(self),
            ),
            old(self).phase is AwaitingReply && event is Timeout ==> action is SendToAny
                && final(self).phase is AwaitingReply,
            !(old(self).phase is Finished) && event is Exhausted ==> fails_with_message(
                action,
                LedgerErrorKind::PoolTimeout,
                "Request timeout"@,
            ),
            // the verdict on a pending reply
            old(self).phase is Checking && event is ProofChecked ==> verdict_step(
                *old(self),
                event,
                action,
                *final(self),
            ),
            old(self).phase is Checking && (event is Received || event is Timeout) ==> fails_with(
                action,
                LedgerErrorKind::InvalidState,
            ),
            old(self).phase is AwaitingReply && event is ProofChecked ==> fails_with(
                action,
                LedgerErrorKind::InvalidState,
            ),
    {
        let mut phase = CatchupPhase::Finished;
        core::mem::swap(&mut phase, &mut self.phase);
        match phase {
            CatchupPhase::Finished => {
                CatchupAction::Finish(RequestResult::Failed(invalid_state("Catchup already finished")))
            },
            CatchupPhase::AwaitingReply => match event {
                CatchupEvent::Received { node_alias, message } => match message {
                    Message::CatchupRep(rep) => {
                        let n = self.source.count();
                        if rep.txns.len() == self.target_mt_size - n {
                            let tree = extended_tree(&self.source, &rep.txns);
                            self.phase = CatchupPhase::Checking { node_alias, txns: rep.txns };
                            CatchupAction::CheckConsistency {
                                tree,
                                cons_proof: rep.cons_proof,
                                target_mt_root: self.target_mt_root.clone(),
                                target_mt_size: self.target_mt_size,
                            }
                        } else {
                            self.phase = CatchupPhase::AwaitingReply;
                            CatchupAction::Retry { node_alias }
                        }
                    },
                    _ => CatchupAction::Finish(
                        RequestResult::Failed(invalid_state("Unexpected response")),
                    ),
                },
                CatchupEvent::Timeout { .. } => {
                    self.phase = CatchupPhase::AwaitingReply;
                    CatchupAction::SendToAny
                },
                CatchupEvent::ProofChecked { .. } => CatchupAction::Finish(
                    RequestResult::Failed(invalid_state("No reply is being checked")),
                ),
                CatchupEvent::Exhausted => CatchupAction::Finish(
                    RequestResult::Failed(
                        LedgerError {
                            kind: LedgerErrorKind::PoolTimeout,
                            message: String::from_str("Request timeout"),
                        },
                    ),
                ),
            },
            CatchupPhase::Checking { node_alias, txns } => match event {
                CatchupEvent::ProofChecked { accepted } => {
                    match process_catchup_reply(&self.source, self.target_mt_size, txns, accepted) {
                        Ok(txns) => CatchupAction::Finish(RequestResult::Reply(txns)),
                        Err(_) => {
                            self.phase = CatchupPhase::AwaitingReply;
                            CatchupAction::Retry { node_alias }
                        },
                    }
                },
                CatchupEvent::Exhausted => CatchupAction::Finish(
                    RequestResult::Failed(
                        LedgerError {
                            kind: LedgerErrorKind::PoolTimeout,
                            message: String::from_str("Request timeout"),
                        },
                    ),
                ),
                _ => CatchupAction::Finish(
                    RequestResult::Failed(invalid_state("A reply is still being checked")),
                ),
            },
        }
    }
}

/// The session ends with a failure of this kind.
pub open spec fn fails_with(action: CatchupAction, kind: LedgerErrorKind) -> bool {
    match action {
        CatchupAction::Finish(RequestResult::Failed(e)) => e.kind == kind,
        _ => false,
    }
}

/// The session ends with a failure of this kind and message.
pub open spec fn fails_with_message(action: CatchupAction, kind: LedgerErrorKind, message: Seq<char>) -> bool {
    match action {
        CatchupAction::Finish(RequestResult::Failed(e)) => e.kind == kind && e.message@ == message,
        _ => false,
    }
}

/// A message received while awaiting a reply: a catchup reply that reaches
/// the target exactly is handed over for checking on a copy of the source
/// with its transactions appended; one of another length is rejected and
/// another peer is asked; any other message ends the session.
pub open spec fn received_reply_step(
    pre: CatchupSession,
    event: CatchupEvent,
    action: CatchupAction,
    post: CatchupSession,
) -> bool {
    match event {
        CatchupEvent::Received { node_alias, message: Message::CatchupRep(rep) } => {
            if pre.source@.len() + rep.txns.len() == pre.target_mt_size {
                &&& action is CheckConsistency
                &&& action->tree@ == pre.source@ + seqs_of(rep.txns@)
                &&& action->cons_proof == rep.cons_proof
                &&& action->target_mt_root@ == pre.target_mt_root@
                &&& action->target_mt_size == pre.target_mt_size
                &&& post.phase == (CatchupPhase::Checking { node_alias: node_alias, txns: rep.txns })
            } else {
                &&& action == (CatchupAction::Retry { node_alias: node_alias })
                &&& post.phase is AwaitingReply
            }
        },
        _ => fails_with_message(action, LedgerErrorKind::InvalidState, "Unexpected response"@),
    }
}

/// The verdict on a pending reply: accepted, its transactions are the result;
/// rejected, nothing is kept and another peer is asked.
pub open spec fn verdict_step(
    pre: CatchupSession,
    event: CatchupEvent,
    action: CatchupAction,
    post: CatchupSession,
) -> bool {
    match (pre.phase, event) {
        (CatchupPhase::Checking { node_alias, txns }, CatchupEvent::ProofChecked { accepted }) => {
            if accepted {
                action == CatchupAction::Finish(RequestResult::Reply(txns))
            } else {
                &&& action == (CatchupAction::Retry { node_alias: node_alias })
                &&& post.phase is AwaitingReply
            }
        },
        _ => false,
    }
}

fn invalid_state(message: &str) -> (r: LedgerError)
    ensures
        r.kind == LedgerErrorKind::InvalidState,
        r.message@ == message@,
{
    LedgerError { kind: LedgerErrorKind::InvalidState, message: String::from_str(message) }
}

/// A catchup that succeeds hands back exactly the `N - n` transactions that
/// were pending, and only on an accepted proof; that proof was asked for on
/// the source tree with those transactions appended (`received_reply_step`).
pub proof fn lemma_successful_catchup(
    pre: CatchupSession,
    event: CatchupEvent,
    action: CatchupAction,
    post: CatchupSession,
)
    requires
        pre.wf(),
        pre.phase is Checking,
        verdict_step(pre, event, action, post),
        action matches CatchupAction::Finish(RequestResult::Reply(_)),
    ensures
        match (pre.phase, event, action) {
            (
                CatchupPhase::Checking { txns, .. },
                CatchupEvent::ProofChecked { accepted },
                CatchupAction::Finish(RequestResult::Reply(out)),
            ) => accepted && out == txns && pre.source@.len() + out.len() == pre.target_mt_size,
            _ => false,
        },
{
}

} // verus!
