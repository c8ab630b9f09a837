//! The notification handler: for each notification record, looks up the
//! stored item that the record's `id` attribute names and, when it exists,
//! writes its ending. A missing item ends the invocation with success.

use vstd::prelude::*;
use crate::error::HandlerError;
use crate::forward::CallError;

verus! {

/// The text appended to a notification's message to form an item's ending.
pub open spec fn farewell_suffix() -> Seq<char> {
    ", and the sns function says good bye"@
}

/// One notification record, as the handler reads it.
pub struct NotificationRecord {
    /// The notification's message.
    pub message: String,
    /// The value of the `id` message attribute, if the record has one.
    pub id: Option<String>,
}

impl NotificationRecord {
    pub open spec fn view(&self) -> (Seq<char>, Option<Seq<char>>) {
        (
            self.message@,
            match self.id {
                Some(id) => Some(id@),
                None => None,
            },
        )
    }
}

/// What the driver of the notification handler does next.
#[derive(Debug, PartialEq, Eq)]
pub enum StoreAction {
    /// Look up the item with this id and report whether it exists.
    Lookup(String),
    /// Set the ending of the item with this id.
    Update(String, String),
    /// The invocation is over, with this result.
    Finish(Result<(), HandlerError>),
}

/// The notification handler's move, as the contracts speak of it.
pub enum StoreMove {
    Lookup(Seq<char>),
    Update(Seq<char>, Seq<char>),
    Finish(Result<(), HandlerError>),
}

impl StoreAction {
    pub open spec fn view(&self) -> StoreMove {
        match self {
            StoreAction::Lookup(id) => StoreMove::Lookup(id@),
            StoreAction::Update(id, ending) => StoreMove::Update(id@, ending@),
            StoreAction::Finish(r) => StoreMove::Finish(*r),
        }
    }
}

pub open spec fn is_missing_id(r: Result<(), HandlerError>) -> bool {
    match r {
        Err(HandlerError::MissingKey(k)) => k@ == "id"@,
        _ => false,
    }
}

/// `m` is the move at record `i` of `records`, every earlier record done.
/// A record without an `id` attribute ends the invocation with a
/// missing-key error that names `id`.
pub open spec fn is_store_move_at(
    m: StoreMove,
    records: Seq<(Seq<char>, Option<Seq<char>>)>,
    i: nat,
) -> bool {
    if i >= records.len() {
        m == StoreMove::Finish(Ok(()))
    } else {
        match records[i as int].1 {
            Some(id) => m == StoreMove::Lookup(id),
            None => m is Finish && is_missing_id(m->Finish_0),
        }
    }
}

/// Where the notification handler stands.
#[derive(Debug, Clone, Copy, PartialEq, Eq, Structural)]
pub enum StorePhase {
    NotStarted,
    AwaitingLookup,
    AwaitingUpdate,
    Finished,
}

/// Drives the notification handler over a batch of records.
pub struct EndingWriter {
    records: Vec<NotificationRecord>,
    current: usize,
    phase: StorePhase,
}

impl EndingWriter {
    /// The records, in delivery order.
    pub closed spec fn records(self) -> Seq<(Seq<char>, Option<Seq<char>>)> {
        self.records@.map_values(|r: NotificationRecord| r@)
    }

    /// The index of the record in hand.
    pub closed spec fn current(self) -> nat {
        self.current as nat
    }

    pub closed spec fn phase(self) -> StorePhase {
        self.phase
    }

    pub fn new(records: Vec<NotificationRecord>) -> (r: EndingWriter)
        ensures
            r.records() == records@.map_values(|r: NotificationRecord| r@),
            r.phase() == StorePhase::NotStarted,
    {
        EndingWriter { records, current: 0, phase: StorePhase::NotStarted }
    }

    /// Takes the first move.
    pub fn start(&mut self) -> (r: StoreAction)
        requires
            old(self).phase() == StorePhase::NotStarted,
        ensures
            is_store_move_at(r@, old(self).records(), 0),
            final(self).records() == old(self).records(),
            final(self).current() == 0,
            final(self).phase() == (if r is Lookup {
                StorePhase::AwaitingLookup
            } else {
                StorePhase::Finished
            }),
    {
        self.current = 0;
        self.take_move()
    }

    /// Takes the move after the lookup of the current record's item
    /// answered `found`: with no item the invocation ends with success.
    pub fn on_lookup(&mut self, found: Result<bool, CallError>) -> (r: StoreAction)
        requires
            old(self).phase() == StorePhase::AwaitingLookup,
            old(self).current() < old(self).records().len(),
            old(self).records()[old(self).current() as int].1 is Some,
        ensures
            r@ == (match found {
                Err(e) => StoreMove::Finish(Err(HandlerError::Call(e))),
                Ok(false) => StoreMove::Finish(Ok(())),
                Ok(true) => StoreMove::Update(
                    old(self).records()[old(self).current() as int].1->Some_0,
                    old(self).records()[old(self).current() as int].0 + farewell_suffix(),
                ),
            }),
            final(self).records() == old(self).records(),
            final(self).current() == old(self).current(),
            final(self).phase() == (if r is Update {
                StorePhase::AwaitingUpdate
            } else {
                StorePhase::Finished
            }),
    {
        match found {
            Err(e) => {
                self.phase = StorePhase::Finished;
                StoreAction::Finish(Err(HandlerError::Call(e)))
            },
            Ok(false) => {
                self.phase = StorePhase::Finished;
                StoreAction::Finish(Ok(()))
            },
            Ok(true) => {
                let record = &self.records[self.current];
                let id = match &record.id {
                    Some(id) => id.clone(),
                    None => String::new(),
                };
                let mut ending = record.message.clone();
                ending.append(", and the sns function says good bye");
                self.phase = StorePhase::AwaitingUpdate;
                StoreAction::Update(id, ending)
            },
        }
    }

    /// Takes the move after the update of the current record's item
    /// answered `outcome`.
    pub fn on_update(&mut self, outcome: Result<(), CallError>) -> (r: StoreAction)
        requires
            old(self).phase() == StorePhase::AwaitingUpdate,
            old(self).current() < old(self).records().len(),
        ensures
            match outcome {
                Err(e) => r@ == StoreMove::Finish(Err(HandlerError::Call(e))),
                Ok(_) => is_store_move_at(r@, old(self).records(), old(self).current() + 1),
            },
            final(self).records() == old(self).records(),
            r is Lookup ==> final(self).current() == old(self).current() + 1,
            final(self).phase() == (if r is Lookup {
                StorePhase::AwaitingLookup
            } else {
                StorePhase::Finished
            }),
    {
        match outcome {
            Err(e) => {
                self.phase = StorePhase::Finished;
                StoreAction::Finish(Err(HandlerError::Call(e)))
            },
            Ok(_) => {
                let n = self.records.len();
                assert(self.records().len() == n);
                self.current = self.current + 1;
                self.take_move()
            },
        }
    }

    fn take_move(&mut self) -> (r: StoreAction)
        requires
            old(self).current() <= old(self).records().len(),
        ensures
            is_store_move_at(r@, old(self).records(), old(self).current()),
            final(self).records() == old(self).records(),
            final(self).current() == old(self).current(),
            final(self).phase() == (if r is Lookup {
                StorePhase::AwaitingLookup
            } else {
                StorePhase::Finished
            }),
    {
        if self.current < self.records.len() {
            match &self.records[self.current].id {
                Some(id) => {
                    self.phase = StorePhase::AwaitingLookup;
                    StoreAction::Lookup(id.clone())
                },
                None => {
                    self.phase = StorePhase::Finished;
                    StoreAction::Finish(Err(HandlerError::MissingKey(String::from_str("id"))))
                },
            }
        } else {
            self.phase = StorePhase::Finished;
            StoreAction::Finish(Ok(()))
        }
    }
}

} // verus!
