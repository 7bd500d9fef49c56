//! The node loop's state machine: a bootstrap guard that admits only start
//! and stop until the node runs, the dispatch of decoded commands to the
//! ledger engine, correlated balance replies, and the mining tick.
//!
//! The node owns the ledger exclusively; threads that want a mutation or a
//! read hand the loop an encoded request, and only balance reads are
//! answered. Each request carries a correlation id and the reply for a read
//! carries the same id back, so concurrent readers can never receive one
//! another's answer.

use vstd::prelude::*;

use crate::ledger::{lookup, Ledger, LedgerView};
use crate::numeral::{dec_str, u128_to_dec};
use crate::protocol::{decode, decode_spec, is_start, Command, ProtocolError};
use crate::sched::{fire_cond, sched_step, MiningScheduler};

verus! {

/// The bootstrap/shutdown state of the node loop.
#[derive(Clone, Copy, Debug, PartialEq, Eq, Structural)]
pub enum NodeState {
    NotStarted,
    Running,
    Stopped,
}

/// An inbound request: an encoded command plus the id its reply, if any,
/// must carry back.
pub struct Request {
    pub req_id: u64,
    pub payload: Vec<u128>,
}

/// A reply to a balance read, correlated to the request it answers.
pub struct Reply {
    pub req_id: u64,
    pub text: String,
}

/// The textual answer to a balance read.
pub open spec fn balance_reply(bal: Option<u128>, id: u64) -> Seq<char> {
    match bal {
        Some(b) => "balance for account "@ + dec_str(id as nat) + " : "@ + dec_str(b as nat),
        None => "Account does not exist"@,
    }
}

/// The node state and ledger after one command word list is observed.
///
/// While not started, only start and stop are admitted; everything else is
/// an ordering error that leaves the ledger untouched. While running, the
/// known commands are dispatched to the ledger, stop ends the loop, and an
/// unknown or malformed message changes nothing. Stopped is terminal.
pub open spec fn step_state(st: NodeState, lg: LedgerView, w: Seq<u128>) -> (NodeState, LedgerView) {
    match st {
        NodeState::NotStarted => match decode_spec(w) {
            Ok(Command::Start) => (NodeState::Running, LedgerView { running: true, ..lg }),
            Ok(Command::Stop) => (NodeState::Stopped, lg),
            _ => (NodeState::NotStarted, lg),
        },
        NodeState::Running => match decode_spec(w) {
            Ok(Command::Start) => (NodeState::Running, lg),
            Ok(Command::CreateAccount { id, funds }) => (
                NodeState::Running,
                LedgerView { accounts: lg.accounts.push((id, funds)), ..lg },
            ),
            Ok(Command::Transfer { from, to, funds }) => (
                NodeState::Running,
                LedgerView { transfers: lg.transfers.push((from, to, funds)), ..lg },
            ),
            Ok(Command::ReadBalance { .. }) => (NodeState::Running, lg),
            Ok(Command::Stop) => (NodeState::Stopped, LedgerView { running: false, ..lg }),
            Err(_) => (NodeState::Running, lg),
        },
        NodeState::Stopped => (NodeState::Stopped, lg),
    }
}

/// The reply one command produces: exactly the balance reads observed while
/// running are answered, from the ledger as it stands when they arrive.
pub open spec fn step_reply(st: NodeState, lg: LedgerView, w: Seq<u128>) -> Option<Seq<char>> {
    match decode_spec(w) {
        Ok(Command::ReadBalance { id }) => if st is Running {
            Some(balance_reply(lookup(lg.accounts, id), id))
        } else {
            None
        },
        _ => None,
    }
}

/// Formats the answer to a balance read.
pub fn format_balance(bal: Option<u128>, id: u64) -> (s: String)
    ensures
        s@ == balance_reply(bal, id),
{
    match bal {
        Some(b) => {
            let mut s = String::from_str("balance for account ");
            let id_s = u128_to_dec(id as u128);
            s.append(id_s.as_str());
            s.append(" : ");
            let bal_s = u128_to_dec(b);
            s.append(bal_s.as_str());
            proof {
                assert(s@ =~= balance_reply(bal, id));
            }
            s
        },
        None => String::from_str("Account does not exist"),
    }
}

/// The node: its bootstrap state, the ledger engine it exclusively owns,
/// and the mining scheduler.
pub struct Node {
    pub state: NodeState,
    pub ledger: Ledger,
    pub sched: MiningScheduler,
}

impl Node {
    pub open spec fn wf(&self) -> bool {
        self.sched.wf()
    }

    /// A fresh node: not started, over a fresh ledger, mining every
    /// `interval` seconds.
    pub fn new(interval: u64) -> (n: Node)
        requires
            interval >= 1,
        ensures
            n.wf(),
            n.state is NotStarted,
            n.ledger@.accounts =~= Seq::<(u64, u128)>::empty(),
            !n.ledger@.running,
            n.ledger@.transfers =~= Seq::<(u64, u64, u128)>::empty(),
            n.ledger@.mined == 0,
            n.sched.interval == interval,
            n.sched.last_fired_window is None,
    {
        Node { state: NodeState::NotStarted, ledger: Ledger::new(), sched: MiningScheduler::new(interval) }
    }

    /// Observes one request: updates the bootstrap state and the ledger as `step_state`
    /// says, and answers exactly the balance reads admitted while running,
    /// each reply carrying its own request's id. Never panics, whatever the
    /// payload holds.
    pub fn node_step(&mut self, req: &Request) -> (r: Option<Reply>)
        requires
            old(self).wf(),
        ensures
            final(self).wf(),
            final(self).sched == old(self).sched,
            final(self).state == step_state(old(self).state, old(self).ledger@, req.payload@).0,
            final(self).ledger@ == step_state(old(self).state, old(self).ledger@, req.payload@).1,
            (r is Some) == (step_reply(old(self).state, old(self).ledger@, req.payload@) is Some),
            r matches Some(rep) ==> rep.req_id == req.req_id && Some(rep.text@) == step_reply(
                old(self).state,
                old(self).ledger@,
                req.payload@,
            ),
    {
        let cmd = decode(&req.payload);
        match self.state {
            NodeState::NotStarted => {
                match cmd {
                    Ok(Command::Start) => {
                        self.ledger.set_running(true);
                        self.state = NodeState::Running;
                    },
                    Ok(Command::Stop) => {
                        self.state = NodeState::Stopped;
                    },
                    _ => {},
                }
                None
            },
            NodeState::Running => {
                match cmd {
                    Ok(Command::Start) => None,
                    Ok(Command::CreateAccount { id, funds }) => {
                        self.ledger.create_account(id, funds);
                        None
                    },
                    Ok(Command::Transfer { from, to, funds }) => {
                        self.ledger.transfer(from, to, funds);
                        None
                    },
                    Ok(Command::ReadBalance { id }) => {
                        let bal = self.ledger.read_balance(id);
                        Some(Reply { req_id: req.req_id, text: format_balance(bal, id) })
                    },
                    Ok(Command::Stop) => {
                        self.ledger.set_running(false);
                        self.state = NodeState::Stopped;
                        None
                    },
                    Err(_) => None,
                }
            },
            NodeState::Stopped => None,
        }
    }

    /// One evaluation of the mining scheduler: mines exactly when the
    /// scheduler fires, and touches nothing else of the node.
    pub fn mining_tick(&mut self, elapsed: u64) -> (mined: bool)
        requires
            old(self).wf(),
        ensures
            final(self).wf(),
            final(self).state == old(self).state,
            mined == fire_cond(old(self).sched, elapsed),
            final(self).sched == sched_step(old(self).sched, elapsed),
            final(self).ledger@ == if mined {
                LedgerView { mined: old(self).ledger@.mined + 1, ..old(self).ledger@ }
            } else {
                old(self).ledger@
            },
    {
        let fired = self.sched.tick(elapsed);
        if fired {
            self.ledger.mine();
        }
        fired
    }
}

/// The node state and ledger after a whole sequence of command word lists.
pub open spec fn run_state(st: NodeState, lg: LedgerView, cmds: Seq<Seq<u128>>) -> (
    NodeState,
    LedgerView,
)
    decreases cmds.len(),
{
    if cmds.len() == 0 {
        (st, lg)
    } else {
        let next = step_state(st, lg, cmds[0]);
        run_state(next.0, next.1, cmds.drop_first())
    }
}

/// Splitting a run: observing `a + b` is observing `a`, then `b`.
pub proof fn lemma_run_state_concat(st: NodeState, lg: LedgerView, a: Seq<Seq<u128>>, b: Seq<
    Seq<u128>,
>)
    ensures
        run_state(st, lg, a + b) == run_state(
            run_state(st, lg, a).0,
            run_state(st, lg, a).1,
            b,
        ),
    decreases a.len(),
{
    if a.len() == 0 {
        assert(a + b =~= b);
    } else {
        let next = step_state(st, lg, a[0]);
        assert((a + b)[0] == a[0]);
        assert((a + b).drop_first() =~= a.drop_first() + b);
        lemma_run_state_concat(next.0, next.1, a.drop_first(), b);
    }
}

/// While no start command has been observed, nothing reaches the ledger:
/// a node that is not started (or already stopped) leaves the ledger
/// exactly as it was over any sequence of non-start commands, and never
/// enters the running state.
pub proof fn lemma_bootstrap_blocks_before_start(st: NodeState, lg: LedgerView, cmds: Seq<Seq<u128>>)
    requires
        st is NotStarted || st is Stopped,
        forall|i: int| 0 <= i < cmds.len() ==> !is_start(#[trigger] cmds[i]),
    ensures
        run_state(st, lg, cmds).1 == lg,
        !(run_state(st, lg, cmds).0 is Running),
    decreases cmds.len(),
{
    if cmds.len() == 0 {
    } else {
        let next = step_state(st, lg, cmds[0]);
        assert(!is_start(cmds[0]));
        assert(next.1 == lg);
        assert(next.0 is NotStarted || next.0 is Stopped);
        assert(forall|i: int|
            0 <= i < cmds.drop_first().len() ==> !is_start(#[trigger] cmds.drop_first()[i]));
        lemma_bootstrap_blocks_before_start(next.0, next.1, cmds.drop_first());
    }
}

/// The same, for every prefix of the run: at no point along a start-free
/// command sequence has the ledger changed or the node run.
pub proof fn lemma_bootstrap_blocks_every_prefix(lg: LedgerView, cmds: Seq<Seq<u128>>, k: int)
    requires
        0 <= k <= cmds.len(),
        forall|i: int| 0 <= i < cmds.len() ==> !is_start(#[trigger] cmds[i]),
    ensures
        run_state(NodeState::NotStarted, lg, cmds.take(k)).1 == lg,
        !(run_state(NodeState::NotStarted, lg, cmds.take(k)).0 is Running),
{
    assert(forall|i: int| 0 <= i < cmds.take(k).len() ==> !is_start(#[trigger] cmds.take(k)[i]));
    lemma_bootstrap_blocks_before_start(NodeState::NotStarted, lg, cmds.take(k));
}

/// A stop observed while not yet started terminates the node without it
/// ever having run: after the stop the state is stopped, no earlier point
/// of the run was running, and the ledger was never touched.
pub proof fn lemma_stop_before_start_exits_early(lg: LedgerView, cmds: Seq<Seq<u128>>, k: int)
    requires
        0 <= k < cmds.len(),
        decode_spec(cmds[k]) == Ok::<Command, ProtocolError>(Command::Stop),
        forall|i: int| 0 <= i < k ==> !is_start(#[trigger] cmds[i]),
    ensures
        run_state(NodeState::NotStarted, lg, cmds.take(k + 1)).0 is Stopped,
        run_state(NodeState::NotStarted, lg, cmds.take(k + 1)).1 == lg,
        forall|j: int|
            0 <= j <= k ==> !(run_state(NodeState::NotStarted, lg, cmds.take(j)).0 is Running),
{
    assert(forall|i: int| 0 <= i < cmds.take(k).len() ==> !is_start(#[trigger] cmds.take(k)[i]));
    lemma_bootstrap_blocks_before_start(NodeState::NotStarted, lg, cmds.take(k));
    let mid = run_state(NodeState::NotStarted, lg, cmds.take(k));
    assert(cmds.take(k + 1) =~= cmds.take(k) + seq![cmds[k]]);
    lemma_run_state_concat(NodeState::NotStarted, lg, cmds.take(k), seq![cmds[k]]);
    assert(run_state(mid.0, mid.1, seq![cmds[k]]) == run_state(
        step_state(mid.0, mid.1, cmds[k]).0,
        step_state(mid.0, mid.1, cmds[k]).1,
        seq![cmds[k]].drop_first(),
    ));
    assert(seq![cmds[k]].drop_first().len() == 0);
    assert forall|j: int|
        0 <= j <= k implies !(run_state(NodeState::NotStarted, lg, cmds.take(j)).0 is Running) by {
        assert(forall|i: int|
            0 <= i < cmds.take(j).len() ==> !is_start(#[trigger] cmds.take(j)[i]));
        lemma_bootstrap_blocks_before_start(NodeState::NotStarted, lg, cmds.take(j));
    }
}

/// Replies cannot cross between readers: two balance reads observed while
/// running, in either adjacency, are each answered with the balance of
/// their own account in a ledger the other read did not change.
pub proof fn lemma_read_replies_are_paired(lg: LedgerView, wa: Seq<u128>, wb: Seq<u128>, a: u64, b: u64)
    requires
        decode_spec(wa) == Ok::<Command, ProtocolError>(Command::ReadBalance { id: a }),
        decode_spec(wb) == Ok::<Command, ProtocolError>(Command::ReadBalance { id: b }),
    ensures
        step_reply(NodeState::Running, lg, wa) == Some(balance_reply(lookup(lg.accounts, a), a)),
        step_state(NodeState::Running, lg, wa).1 == lg,
        step_reply(NodeState::Running, step_state(NodeState::Running, lg, wa).1, wb) == Some(
            balance_reply(lookup(lg.accounts, b), b),
        ),
{
}

/// An unknown or malformed message observed while running is harmless: the
/// node stays running, the ledger is untouched, and no reply is produced,
/// so later commands are handled as if the message had never arrived.
pub proof fn lemma_unknown_opcode_is_harmless(lg: LedgerView, w: Seq<u128>)
    requires
        decode_spec(w) is Err,
    ensures
        step_state(NodeState::Running, lg, w) == (NodeState::Running, lg),
        step_reply(NodeState::Running, lg, w) is None,
{
}

} // verus!
