//! The log transfer protocol: the results it reports to the replica and the
//! interface that a log transfer protocol implements.

use vstd::prelude::*;

use std::sync::Arc;

use crate::error::Error;
use crate::log_transfer::networking::serialize::LogTransferMessage;
use crate::log_transfer::networking::LogTransferSendNode;
use crate::ordering::{
    SeqNo, decimal, is_numeral, numeral_value, lemma_decimal_reads_back,
    lemma_seq_no_debug_text_closes_at_end, lemma_seq_no_debug_text_injective,
};

pub mod networking;

verus! {

/// The result of processing a message in the log transfer protocol.
pub enum LTResult<D> {
    RunLTP,
    NotNeeded,
    Running,
    Ignored,
    /// The log transfer protocol has reached a point where we can already say which is
    /// the current seq number of the quorum
    InstallSeq(SeqNo),
    /// The log transfer protocol has finished and the ordering protocol should now
    /// be proceeded. The decisions contained must be executed by the application,
    /// in order, to reach the state that corresponds to the decision log.
    /// Holds the first and last sequence numbers of the installed log downloaded
    /// from other replicas, and the decisions that should be executed.
    LTPFinished(SeqNo, SeqNo, Vec<D>),
}

/// Log Transfer protocol timeout result
pub enum LTTimeoutResult {
    RunLTP,
    NotNeeded,
}

/// Log Transfer polling result
pub enum LTPollResult<M, D> {
    ReceiveMsg,
    RePoll,
    /// A stored message (header and payload) that the protocol should process.
    Exec(M),
    LTResult(LTResult<D>),
}

/// The message type of the log transfer protocol whose serialization is `M`.
pub type LogTM<RQ, OP, M> = <M as LogTransferMessage<RQ, OP>>::LogTransferMessage;

/// Log transfer protocol.
/// This protocol is meant to work in tandem with the decision log `DL`, meaning
/// it has to actually "hook" into it and directly use functions from the decision log,
/// for example taking a snapshot of the current log when it wants one, or
/// installing a log that it has received.
/// This level of coupling exists because we need to be able to reference the decision log
/// in order to obtain the current log (cloning it and passing it to this function every time
/// would be extremely expensive) and since this protocol only makes sense when paired with
/// the decision log, we decided that it makes sense for them to be more tightly coupled.
pub trait LogTransferProtocol<RQ, OP, DL>: Send {
    /// The type which implements LogTransferMessage, to be implemented by the developer
    type Serialization: LogTransferMessage<RQ, OP>;

    /// The configuration type the protocol wants to accept
    type Config;

    /// A message of this protocol as it was received: its header and payload.
    type StoredMessage;

    /// A decision of the installed log that the application must execute.
    type Decision;

    /// Request the latest logs from the rest of the replicas
    fn request_latest_log<V>(&mut self, decision_log: &mut DL, view: V) -> Result<(), Error>;

    /// Polling method for the log transfer protocol
    fn poll(&mut self) -> Result<LTPollResult<Self::StoredMessage, Self::Decision>, Error>;

    /// Handle a log transfer protocol message that was received while executing the ordering protocol
    fn handle_off_ctx_message<V>(
        &mut self,
        decision_log: &mut DL,
        view: V,
        message: Self::StoredMessage,
    ) -> Result<(), Error>;

    /// Process a log transfer protocol message, received from other replicas
    fn process_message<V>(
        &mut self,
        decision_log: &mut DL,
        view: V,
        message: Self::StoredMessage,
    ) -> Result<LTResult<Self::Decision>, Error>;
}

/// The complete trait for a log transfer protocol initializer initialization.
pub trait LogTransferProtocolInitializer<RQ, OP, DL, PL, EX, NT>: LogTransferProtocol<
    RQ,
    OP,
    DL,
> {
    /// Creates the protocol from its configuration, the handle `timeout` of
    /// the timeouts module, the node it sends through and the persistent log.
    fn initialize<TH>(config: Self::Config, timeout: TH, node: Arc<NT>, log: PL) -> Result<
        Self,
        Error,
    > where Self: Sized, NT: LogTransferSendNode<RQ, OP, Self::Serialization>;
}

/// If the debug texts of two sequence numbers start two equal texts, they
/// are the same debug text: the first closing parenthesis ends each of them.
proof fn lemma_seq_no_debug_text_prefix(a: SeqNo, b: SeqNo, ra: Seq<char>, rb: Seq<char>)
    requires
        a.debug_text() + ra == b.debug_text() + rb,
    ensures
        a == b,
        ra == rb,
{
    lemma_seq_no_debug_text_closes_at_end(a);
    lemma_seq_no_debug_text_closes_at_end(b);
    let ta = a.debug_text();
    let tb = b.debug_text();
    let x = ta + ra;
    if ta.len() < tb.len() {
        assert(x[ta.len() - 1] == ta[ta.len() - 1]);
        assert(x[ta.len() - 1] == tb[ta.len() - 1]);
        assert(false);
    }
    if tb.len() < ta.len() {
        assert(x[tb.len() - 1] == tb[tb.len() - 1]);
        assert(x[tb.len() - 1] == ta[tb.len() - 1]);
        assert(false);
    }
    assert(ta =~= x.subrange(0, ta.len() as int));
    assert(tb =~= x.subrange(0, ta.len() as int));
    assert(ra =~= x.subrange(ta.len() as int, x.len() as int));
    assert(rb =~= x.subrange(ta.len() as int, x.len() as int));
    lemma_seq_no_debug_text_injective(a, b);
}

/// The debug text of `InstallSeq(seq)` is `LTPInstallSeq(SeqNo(`, then the
/// canonical decimal numeral of `seq`'s value, then `))`.
pub proof fn lemma_install_seq_debug_text<D>(seq: SeqNo)
    ensures
        exists|t: Seq<char>|
            #[trigger] is_numeral(t) && numeral_value(t) == seq.value()
                && LTResult::<D>::InstallSeq(seq).debug_text() == "LTPInstallSeq(SeqNo("@ + t
                + "))"@,
{
    let t = decimal(seq.value());
    lemma_decimal_reads_back(seq.value());
    reveal_strlit("LTPInstallSeq(");
    reveal_strlit(")");
    reveal_strlit("LTPInstallSeq(SeqNo(");
    reveal_strlit("))");
    assert(LTResult::<D>::InstallSeq(seq).debug_text() =~= "LTPInstallSeq(SeqNo("@ + t + "))"@);
}

/// Different sequence numbers to install are shown differently.
pub proof fn lemma_install_seq_debug_text_injective<D>(a: SeqNo, b: SeqNo)
    ensures
        LTResult::<D>::InstallSeq(a).debug_text() == LTResult::<D>::InstallSeq(b).debug_text()
            ==> a == b,
{
    if LTResult::<D>::InstallSeq(a).debug_text() == LTResult::<D>::InstallSeq(b).debug_text() {
        let p = "LTPInstallSeq("@;
        let x = LTResult::<D>::InstallSeq(a).debug_text();
        assert(x == p + (a.debug_text() + ")"@));
        assert(x == p + (b.debug_text() + ")"@));
        assert(a.debug_text() + ")"@ =~= x.subrange(p.len() as int, x.len() as int));
        assert(b.debug_text() + ")"@ =~= x.subrange(p.len() as int, x.len() as int));
        lemma_seq_no_debug_text_prefix(a, b, ")"@, ")"@);
    }
}

/// The debug text of a finished transfer of the log `first`..`last` is
/// `LTPFinished(SeqNo(`, the numeral of `first`, `), SeqNo(`, the numeral of
/// `last`, and `))`, whatever decisions it carries.
pub proof fn lemma_finished_debug_text<D>(first: SeqNo, last: SeqNo, decisions: Vec<D>)
    ensures
        exists|t1: Seq<char>, t2: Seq<char>|
            #[trigger] is_numeral(t1) && #[trigger] is_numeral(t2) && numeral_value(t1)
                == first.value() && numeral_value(t2) == last.value()
                && LTResult::LTPFinished(first, last, decisions).debug_text() == "LTPFinished(SeqNo("@
                + t1 + "), SeqNo("@ + t2 + "))"@,
{
    let t1 = decimal(first.value());
    let t2 = decimal(last.value());
    lemma_decimal_reads_back(first.value());
    lemma_decimal_reads_back(last.value());
    reveal_strlit("LTPFinished(");
    reveal_strlit(", ");
    reveal_strlit(")");
    reveal_strlit("LTPFinished(SeqNo(");
    reveal_strlit("), SeqNo(");
    reveal_strlit("))");
    assert(LTResult::LTPFinished(first, last, decisions).debug_text() =~= "LTPFinished(SeqNo("@ + t1
        + "), SeqNo("@ + t2 + "))"@);
}

/// Two finished transfers of the same log are shown alike, whatever decisions
/// each carries.
pub proof fn lemma_finished_debug_text_ignores_decisions<D>(
    first: SeqNo,
    last: SeqNo,
    decisions1: Vec<D>,
    decisions2: Vec<D>,
)
    ensures
        LTResult::LTPFinished(first, last, decisions1).debug_text() == LTResult::LTPFinished(
            first,
            last,
            decisions2,
        ).debug_text(),
{
}

/// The debug text of a finished transfer determines the first and the last
/// sequence number of the installed log.
pub proof fn lemma_finished_debug_text_injective<D>(
    first1: SeqNo,
    last1: SeqNo,
    decisions1: Vec<D>,
    first2: SeqNo,
    last2: SeqNo,
    decisions2: Vec<D>,
)
    ensures
        LTResult::LTPFinished(first1, last1, decisions1).debug_text() == LTResult::LTPFinished(
            first2,
            last2,
            decisions2,
        ).debug_text() ==> first1 == first2 && last1 == last2,
{
    let x = LTResult::LTPFinished(first1, last1, decisions1).debug_text();
    if x == LTResult::LTPFinished(first2, last2, decisions2).debug_text() {
        let p = "LTPFinished("@;
        let r1 = ", "@ + last1.debug_text() + ")"@;
        let r2 = ", "@ + last2.debug_text() + ")"@;
        assert(x =~= p + (first1.debug_text() + r1));
        assert(x =~= p + (first2.debug_text() + r2));
        assert(first1.debug_text() + r1 =~= x.subrange(p.len() as int, x.len() as int));
        assert(first2.debug_text() + r2 =~= x.subrange(p.len() as int, x.len() as int));
        lemma_seq_no_debug_text_prefix(first1, first2, r1, r2);
        let c = ", "@;
        assert(last1.debug_text() + ")"@ =~= r1.subrange(c.len() as int, r1.len() as int));
        assert(last2.debug_text() + ")"@ =~= r2.subrange(c.len() as int, r2.len() as int));
        lemma_seq_no_debug_text_prefix(last1, last2, ")"@, ")"@);
    }
}

impl<D> LTResult<D> {
    /// The debug text of a result: the variant's name, with the sequence
    /// numbers it carries (the decisions of a finished transfer are not shown).
    pub open spec fn debug_text(&self) -> Seq<char> {
        match self {
            LTResult::RunLTP => "RunLTP"@,
            LTResult::NotNeeded => "NotNeeded"@,
            LTResult::Running => "Running"@,
            LTResult::LTPFinished(first, last, _) =>
                "LTPFinished("@ + first.debug_text() + ", "@ + last.debug_text() + ")"@,
            LTResult::InstallSeq(seq) => "LTPInstallSeq("@ + seq.debug_text() + ")"@,
            LTResult::Ignored => "Ignored Message"@,
        }
    }

    /// The debug text of this result, as its `Debug` output writes it.
    pub fn to_debug_string(&self) -> (s: String)
        ensures
            s@ == self.debug_text(),
    {
        let mut out = String::new();
        match self {
            LTResult::RunLTP => {
                out.append("RunLTP");
            },
            LTResult::NotNeeded => {
                out.append("NotNeeded");
            },
            LTResult::Running => {
                out.append("Running");
            },
            LTResult::LTPFinished(first, last, _) => {
                out.append("LTPFinished(");
                first.push_debug(&mut out);
                out.append(", ");
                last.push_debug(&mut out);
                out.append(")");
            },
            LTResult::InstallSeq(seq) => {
                out.append("LTPInstallSeq(");
                seq.push_debug(&mut out);
                out.append(")");
            },
            LTResult::Ignored => {
                out.append("Ignored Message");
            },
        }
        out
    }
}

} // verus!
