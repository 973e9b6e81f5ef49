//! The storage engine of the process: where it lies, and who constructs
//! it.
//!
//! The engine is built on first use, from the data directory of that
//! moment, and shared from then on. A later change of the data directory
//! does not move it.

use vstd::prelude::*;
use crate::dirs::{db_file_name, db_path, path_join, CellEvent, CellState, DirectoryCell};

verus! {

/// The place of the one storage engine of the process: empty until the
/// engine is first asked for, bound to the engine's location after that.
pub struct DatastoreSlot {
    location: Option<String>,
}

impl View for DatastoreSlot {
    type V = Option<Seq<char>>;

    closed spec fn view(&self) -> Option<Seq<char>> {
        match self.location {
            Some(location) => Some(location@),
            None => None,
        }
    }
}

/// What a caller has to do to get at the storage engine.
pub enum Access {
    /// Construct the engine at this location, and keep it for everyone.
    Construct(String),
    /// Take a share of the engine that lies at this location.
    Share(String),
}

impl Access {
    /// The location the caller is sent to.
    pub open spec fn location(self) -> Seq<char> {
        match self {
            Access::Construct(location) => location@,
            Access::Share(location) => location@,
        }
    }
}

/// The location of the storage engine for a data directory.
pub open spec fn engine_location(cell: CellState) -> Seq<char> {
    path_join(cell.path, db_file_name(false))
}

impl DatastoreSlot {
    /// The slot of a process that has not asked for its engine yet.
    pub fn new() -> (slot: DatastoreSlot)
        ensures
            slot@ is None,
    {
        DatastoreSlot { location: None }
    }
}

/// Asks for the storage engine. The first call binds the slot to the
/// database file inside the data directory of that moment and tells the
/// caller to construct the engine there; every later call hands out a share
/// of that engine, whatever the cell holds by then.
#[allow(non_snake_case)]
pub fn openDatastore(slot: &mut DatastoreSlot, cell: &DirectoryCell) -> (access: Access)
    ensures
        match old(slot)@ {
            Some(bound) => access matches Access::Share(location) && location@ == bound
                && final(slot)@ == old(slot)@,
            None => access matches Access::Construct(location) && location@ == engine_location(
                cell@,
            ) && final(slot)@ == Some(engine_location(cell@)),
        },
{
    match &slot.location {
        Some(bound) => Access::Share(bound.clone()),
        None => {
            let location = db_path(cell, false).expect("Failed to get db path");
            slot.location = Some(location.clone());
            Access::Construct(location)
        },
    }
}

/// The cell and the slot of one process, and how often its engine was
/// constructed.
pub struct Process {
    pub cell: CellState,
    pub slot: Option<Seq<char>>,
    pub constructions: nat,
}

/// One thing that happens in a process, on whichever thread.
pub enum ProcessEvent {
    /// The data directory was written, or a holder of its lock failed.
    Cell(CellEvent),
    /// The storage engine was asked for.
    Open,
}

impl Process {
    /// A process at its start, with this data directory.
    pub open spec fn start(cell: CellState) -> Process {
        Process { cell: cell, slot: None, constructions: 0 }
    }

    /// The location that asking for the engine leads to in this state.
    pub open spec fn opened(self) -> Seq<char> {
        match self.slot {
            Some(bound) => bound,
            None => engine_location(self.cell),
        }
    }

    /// The process after one event.
    pub open spec fn step(self, event: ProcessEvent) -> Process {
        match event {
            ProcessEvent::Cell(change) => Process {
                cell: self.cell.step(change),
                slot: self.slot,
                constructions: self.constructions,
            },
            ProcessEvent::Open => Process {
                cell: self.cell,
                slot: Some(self.opened()),
                constructions: if self.slot is None {
                    self.constructions + 1
                } else {
                    self.constructions
                },
            },
        }
    }

    /// The process after `events`, in their order.
    pub open spec fn run(self, events: Seq<ProcessEvent>) -> Process
        decreases events.len(),
    {
        if events.len() == 0 {
            self
        } else {
            self.run(events.drop_last()).step(events.last())
        }
    }
}

/// Once the engine has a location nothing that happens later changes it,
/// and the engine is not constructed again.
pub proof fn lemma_location_is_kept(state: Process, events: Seq<ProcessEvent>)
    requires
        state.slot is Some,
    ensures
        state.run(events).slot == state.slot,
        state.run(events).constructions == state.constructions,
    decreases events.len(),
{
    if events.len() > 0 {
        lemma_location_is_kept(state, events.drop_last());
    }
}

/// In the whole life of a process the engine is constructed at most once,
/// and exactly once if it was ever asked for.
pub proof fn lemma_constructed_at_most_once(cell: CellState, events: Seq<ProcessEvent>)
    ensures
        Process::start(cell).run(events).constructions <= 1,
        Process::start(cell).run(events).constructions == 1 <==> Process::start(cell).run(
            events,
        ).slot is Some,
    decreases events.len(),
{
    if events.len() > 0 {
        lemma_constructed_at_most_once(cell, events.drop_last());
    }
}

/// Any two requests for the engine in the life of a process lead to the
/// same location, whatever was written to the data directory between
/// them.
pub proof fn lemma_same_location(
    cell: CellState,
    events: Seq<ProcessEvent>,
    first: int,
    second: int,
)
    requires
        0 <= first <= second < events.len(),
        events[first] == ProcessEvent::Open,
        events[second] == ProcessEvent::Open,
    ensures
        Process::start(cell).run(events.take(first)).opened() == Process::start(cell).run(
            events.take(second),
        ).opened(),
{
    if first < second {
        let start = Process::start(cell);
        let bound = start.run(events.take(first + 1));
        assert(events.take(first + 1).drop_last() =~= events.take(first));
        assert(events.take(first + 1).last() == ProcessEvent::Open);
        assert(bound.slot == Some(start.run(events.take(first)).opened()));
        lemma_run_split(start, events.take(second), first + 1);
        assert(events.take(second).take(first + 1) =~= events.take(first + 1));
        lemma_location_is_kept(bound, events.take(second).skip(first + 1));
    }
}

/// Running a sequence of events is running a first part of it and then
/// the rest.
pub proof fn lemma_run_split(state: Process, events: Seq<ProcessEvent>, at: int)
    requires
        0 <= at <= events.len(),
    ensures
        state.run(events) == state.run(events.take(at)).run(events.skip(at)),
    decreases events.len() - at,
{
    if at == events.len() {
        assert(events.take(at) =~= events);
        assert(events.skip(at) =~= Seq::<ProcessEvent>::empty());
    } else {
        let front = events.drop_last();
        lemma_run_split(state, front, at);
        assert(front.take(at) =~= events.take(at));
        assert(events.skip(at).drop_last() =~= front.skip(at));
        assert(events.skip(at).last() == events.last());
    }
}

} // verus!
