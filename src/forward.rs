//! The forwarder: sends one message per record to the event bus, in order,
//! and stops at the first failure. It is a state machine; whoever drives it
//! performs each send and hands back the sink's answer.

use vstd::prelude::*;
use crate::message::{build_message, classify, is_message_for, kind_of, Classification, OutgoingMessage};

verus! {

/// Why a call to an external service failed.
#[derive(Debug, Clone, Copy, PartialEq, Eq, Structural)]
pub enum FailureCause {
    Timeout,
    Rejected,
    Invalid,
    Other,
}

/// A failed call to an external service, passed on unchanged.
#[derive(Debug, PartialEq, Eq)]
pub struct CallError {
    pub cause: FailureCause,
    pub description: String,
}

/// The status code of the response to a gateway request whose message was
/// sent.
pub const OK_STATUS: i64 = 200;

/// What the driver of a forwarder does next.
#[derive(Debug)]
pub enum Action {
    /// Hand these messages to the sink and report its answer.
    Send(Vec<OutgoingMessage>),
    /// The invocation is over, with this result.
    Finish(Result<(), CallError>),
}

/// A forwarder's move, as the contracts speak of it.
pub enum Move {
    /// Send the message for the record at this index.
    SendRecord(nat),
    /// Finish with this result.
    Finish(Result<(), CallError>),
}

/// The move once the first `accepted` records of `n` were accepted.
pub open spec fn move_at(n: nat, accepted: nat) -> Move {
    if accepted < n {
        Move::SendRecord(accepted)
    } else {
        Move::Finish(Ok(()))
    }
}

/// The move once the sink answered `outcome` for record `i` of `n`.
pub open spec fn move_after(n: nat, i: nat, outcome: Result<(), CallError>) -> Move {
    match outcome {
        Ok(_) => move_at(n, i + 1),
        Err(e) => Move::Finish(Err(e)),
    }
}

/// The moves from `m` on, when the sink answers the sends in turn with
/// `outcomes`. The run stops at a finish, or at a send with no answer left.
pub open spec fn moves_from(n: nat, m: Move, outcomes: Seq<Result<(), CallError>>) -> Seq<Move>
    decreases outcomes.len(),
{
    match m {
        Move::Finish(_) => seq![m],
        Move::SendRecord(i) => if outcomes.len() == 0 {
            seq![m]
        } else {
            seq![m] + moves_from(n, move_after(n, i, outcomes[0]), outcomes.drop_first())
        },
    }
}

/// The moves of a forwarder over `n` records, from its start on, when the
/// sink answers the sends in turn with `outcomes`.
pub open spec fn run(n: nat, outcomes: Seq<Result<(), CallError>>) -> Seq<Move> {
    moves_from(n, move_at(n, 0), outcomes)
}

/// A forwarder with no records finishes with success at once, whatever the
/// sink would answer, without sending anything.
pub proof fn lemma_no_records_no_sends(outcomes: Seq<Result<(), CallError>>)
    ensures
        run(0, outcomes) == seq![Move::Finish(Ok(()))],
{
}

/// The sends of record `j` onwards, one per record and in order, when the
/// sink accepts each of them.
proof fn lemma_accepted_from(n: nat, j: nat, outcomes: Seq<Result<(), CallError>>)
    requires
        j <= n,
        outcomes.len() == n - j,
        forall|i: int| 0 <= i < outcomes.len() ==> (#[trigger] outcomes[i]) is Ok,
    ensures
        moves_from(n, move_at(n, j), outcomes) == Seq::new(
            (n - j) as nat,
            |i: int| Move::SendRecord((j + i) as nat),
        ).push(Move::Finish(Ok(()))),
    decreases n - j,
{
    let expected = Seq::new((n - j) as nat, |i: int| Move::SendRecord((j + i) as nat)).push(
        Move::Finish(Ok(())),
    );
    if j < n {
        assert(outcomes[0] is Ok);
        let rest = outcomes.drop_first();
        assert forall|i: int| 0 <= i < rest.len() implies (#[trigger] rest[i]) is Ok by {
            assert(rest[i] == outcomes[i + 1]);
        }
        lemma_accepted_from(n, j + 1, rest);
        assert(move_after(n, j, outcomes[0]) == move_at(n, j + 1));
        assert(moves_from(n, move_at(n, j), outcomes) =~= expected);
    } else {
        assert(moves_from(n, move_at(n, j), outcomes) =~= expected);
    }
}

/// When the sink accepts every send, a forwarder over `n` records sends
/// exactly `n` messages, one per record in delivery order, then finishes
/// with success.
pub proof fn lemma_one_send_per_record(n: nat, outcomes: Seq<Result<(), CallError>>)
    requires
        outcomes.len() == n,
        forall|i: int| 0 <= i < n ==> (#[trigger] outcomes[i]) is Ok,
    ensures
        run(n, outcomes) == Seq::new(n, |i: int| Move::SendRecord(i as nat)).push(
            Move::Finish(Ok(())),
        ),
{
    lemma_accepted_from(n, 0, outcomes);
    assert(Seq::new(n, |i: int| Move::SendRecord((0 + i) as nat)) =~= Seq::new(
        n,
        |i: int| Move::SendRecord(i as nat),
    ));
}

/// The sends of record `j` onwards when the sink accepts the records before
/// `k` and refuses record `k` with `e`.
proof fn lemma_refused_from(
    n: nat,
    j: nat,
    k: nat,
    e: CallError,
    outcomes: Seq<Result<(), CallError>>,
)
    requires
        j <= k < n,
        k - j < outcomes.len(),
        forall|i: int| 0 <= i < k - j ==> (#[trigger] outcomes[i]) is Ok,
        outcomes[k - j] == Err::<(), CallError>(e),
    ensures
        moves_from(n, move_at(n, j), outcomes) == Seq::new(
            (k + 1 - j) as nat,
            |i: int| Move::SendRecord((j + i) as nat),
        ).push(Move::Finish(Err(e))),
    decreases k - j,
{
    let expected = Seq::new((k + 1 - j) as nat, |i: int| Move::SendRecord((j + i) as nat)).push(
        Move::Finish(Err(e)),
    );
    let rest = outcomes.drop_first();
    if j < k {
        assert(outcomes[0] is Ok);
        assert forall|i: int| 0 <= i < k - (j + 1) implies (#[trigger] rest[i]) is Ok by {
            assert(rest[i] == outcomes[i + 1]);
        }
        assert(rest[k - (j + 1)] == outcomes[k - j]);
        lemma_refused_from(n, j + 1, k, e, rest);
        assert(move_after(n, j, outcomes[0]) == move_at(n, j + 1));
        assert(moves_from(n, move_at(n, j), outcomes) =~= expected);
    } else {
        assert(moves_from(n, move_after(n, j, outcomes[0]), rest) == seq![Move::Finish(Err(e))]);
        assert(moves_from(n, move_at(n, j), outcomes) =~= expected);
    }
}

/// When the sink refuses record `k` with `e`, after accepting every record
/// before it, nothing after record `k` is sent and the forwarder finishes
/// with that very failure, whatever would have come after.
pub proof fn lemma_stops_at_first_failure(
    n: nat,
    k: nat,
    e: CallError,
    outcomes: Seq<Result<(), CallError>>,
)
    requires
        k < n,
        k < outcomes.len(),
        forall|i: int| 0 <= i < k ==> (#[trigger] outcomes[i]) is Ok,
        outcomes[k as int] == Err::<(), CallError>(e),
    ensures
        run(n, outcomes) == Seq::new(k + 1, |i: int| Move::SendRecord(i as nat)).push(
            Move::Finish(Err(e)),
        ),
{
    lemma_refused_from(n, 0, k, e, outcomes);
    assert(Seq::new(k + 1, |i: int| Move::SendRecord((0 + i) as nat)) =~= Seq::new(
        k + 1,
        |i: int| Move::SendRecord(i as nat),
    ));
}

/// Where a forwarder stands.
#[derive(Debug, Clone, Copy, PartialEq, Eq, Structural)]
pub enum Phase {
    NotStarted,
    Awaiting,
    Finished,
}

/// Forwards one message per record to the event bus.
pub struct Forwarder {
    source: String,
    event_bus_name: String,
    kinds: Vec<Classification>,
    current: usize,
    phase: Phase,
}

impl Action {
    /// This action performs the move `m` of the forwarder `f`.
    pub open spec fn performs(self, m: Move, f: Forwarder) -> bool {
        match m {
            Move::SendRecord(i) => match self {
                Action::Send(msgs) => {
                    &&& msgs@.len() == 1
                    &&& i < f.kinds().len()
                    &&& is_message_for(msgs@[0], f.source(), f.event_bus_name(), f.kinds()[i as int])
                },
                Action::Finish(_) => false,
            },
            Move::Finish(r) => self == Action::Finish(r),
        }
    }
}

impl Forwarder {
    /// The identity of the producing handler.
    pub closed spec fn source(self) -> Seq<char> {
        self.source@
    }

    /// The event bus that receives the messages.
    pub closed spec fn event_bus_name(self) -> Seq<char> {
        self.event_bus_name@
    }

    /// The classification of each record, in delivery order.
    pub closed spec fn kinds(self) -> Seq<(Seq<char>, Seq<char>)> {
        self.kinds@.map_values(|k: Classification| k@)
    }

    /// The index of the record whose send awaits an answer.
    pub closed spec fn current(self) -> nat {
        self.current as nat
    }

    pub closed spec fn phase(self) -> Phase {
        self.phase
    }

    /// A forwarder over `kinds`, not started yet.
    pub fn new(source: String, event_bus_name: String, kinds: Vec<Classification>) -> (r: Forwarder)
        ensures
            r.source() == source@,
            r.event_bus_name() == event_bus_name@,
            r.kinds() == kinds@.map_values(|k: Classification| k@),
            r.phase() == Phase::NotStarted,
    {
        Forwarder { source, event_bus_name, kinds, current: 0, phase: Phase::NotStarted }
    }

    /// The forwarder of a gateway request: a single record, a greeting from
    /// the api function.
    pub fn for_gateway_request(event_bus_name: String) -> (r: Forwarder)
        ensures
            r.source() == "api-function"@,
            r.event_bus_name() == event_bus_name@,
            r.kinds() == seq![("greeting"@, "api function says hello"@)],
            r.phase() == Phase::NotStarted,
    {
        let kind = Classification {
            detail_type: String::from_str("greeting"),
            message: String::from_str("api function says hello"),
        };
        let r = Forwarder::new(String::from_str("api-function"), event_bus_name, vec![kind]);
        assert(r.kinds() =~= seq![("greeting"@, "api function says hello"@)]);
        r
    }

    /// The forwarder of a change-stream event: one record for each event
    /// name, in delivery order, classified by `kind_of`.
    pub fn for_change_stream(event_bus_name: String, event_names: &Vec<String>) -> (r: Forwarder)
        ensures
            r.source() == "dynamodb-function"@,
            r.event_bus_name() == event_bus_name@,
            r.kinds().len() == event_names@.len(),
            forall|i: int|
                0 <= i < event_names@.len() ==> r.kinds()[i] == kind_of(#[trigger] event_names@[i]@),
            r.phase() == Phase::NotStarted,
    {
        let mut kinds: Vec<Classification> = Vec::new();
        let mut i: usize = 0;
        while i < event_names.len()
            invariant
                i <= event_names@.len(),
                kinds@.len() == i,
                forall|j: int| 0 <= j < i ==> (#[trigger] kinds@[j])@ == kind_of(event_names@[j]@),
            decreases event_names@.len() - i,
        {
            kinds.push(classify(event_names[i].as_str()));
            i = i + 1;
        }
        Forwarder::new(String::from_str("dynamodb-function"), event_bus_name, kinds)
    }

    /// Takes the first move.
    pub fn start(&mut self) -> (r: Action)
        requires
            old(self).phase() == Phase::NotStarted,
        ensures
            r.performs(move_at(old(self).kinds().len(), 0), *final(self)),
            final(self).source() == old(self).source(),
            final(self).event_bus_name() == old(self).event_bus_name(),
            final(self).kinds() == old(self).kinds(),
            final(self).phase() == (if r is Send { Phase::Awaiting } else { Phase::Finished }),
            final(self).current() == 0,
    {
        self.current = 0;
        self.take_move()
    }

    /// Takes the move after the sink answered `outcome` to the send of the
    /// current record.
    pub fn on_outcome(&mut self, outcome: Result<(), CallError>) -> (r: Action)
        requires
            old(self).phase() == Phase::Awaiting,
            old(self).current() < old(self).kinds().len(),
        ensures
            r.performs(
                move_after(old(self).kinds().len(), old(self).current(), outcome),
                *final(self),
            ),
            final(self).source() == old(self).source(),
            final(self).event_bus_name() == old(self).event_bus_name(),
            final(self).kinds() == old(self).kinds(),
            final(self).phase() == (if r is Send { Phase::Awaiting } else { Phase::Finished }),
            r is Send ==> final(self).current() == old(self).current() + 1,
    {
        match outcome {
            Ok(_) => {
                let n = self.kinds.len();
                assert(self.kinds().len() == n);
                self.current = self.current + 1;
                self.take_move()
            },
            Err(e) => {
                self.phase = Phase::Finished;
                Action::Finish(Err(e))
            },
        }
    }

    fn take_move(&mut self) -> (r: Action)
        requires
            old(self).current() <= old(self).kinds().len(),
        ensures
            r.performs(move_at(old(self).kinds().len(), old(self).current()), *final(self)),
            final(self).source() == old(self).source(),
            final(self).event_bus_name() == old(self).event_bus_name(),
            final(self).kinds() == old(self).kinds(),
            final(self).current() == old(self).current(),
            final(self).phase() == (if r is Send { Phase::Awaiting } else { Phase::Finished }),
    {
        if self.current < self.kinds.len() {
            let msg = build_message(
                self.source.as_str(),
                self.event_bus_name.as_str(),
                &self.kinds[self.current],
            );
            self.phase = Phase::Awaiting;
            Action::Send(vec![msg])
        } else {
            self.phase = Phase::Finished;
            Action::Finish(Ok(()))
        }
    }
}

} // verus!
