//! The search for a process by name, as a protocol between the locator and
//! its driver: the requests the locator makes, the answers it takes, and the
//! state it is in between them.
//!
//! The candidates are tried in the order the system listed them. Each one is
//! opened with the least access that the queries need, examined by up to
//! three strategies in a fixed order, and released before the next one is
//! touched or the result is given out.

use vstd::prelude::*;
use crate::error::ErrorView;
use crate::handle::{ModuleHandle, ProcessHandle};
use crate::name::{base_name_of, same_name};
use crate::wide::reported_text;

verus! {

/// The number of process identifiers offered to the enumeration; identifiers
/// beyond it are not considered.
pub const MAX_PROCESS_IDS: usize = 1024;

/// The size in bytes of one process identifier in the enumeration's buffer.
pub const PROCESS_ID_BYTES: u32 = 4;

/// The access requested on each process: limited query information and
/// virtual-memory read, nothing more.
pub const PROCESS_QUERY_ACCESS: u32 = 0x1010;

/// The format asked of the image-name query: the native system path.
pub const IMAGE_NAME_NATIVE: u32 = 1;

/// The number of UTF-16 units offered to each path query.
pub const PATH_CAPACITY: usize = 1024;

/// The number of UTF-16 units offered to the module base-name query.
pub const BASE_NAME_CAPACITY: usize = 260;

/// What the driver is to do next.
#[derive(Clone, Copy, Debug, PartialEq, Eq, Structural)]
pub enum Request {
    /// List the identifiers of all processes into a buffer of `capacity`
    /// entries.
    Enumerate { capacity: usize },
    /// Open process `pid` with `access`.
    OpenProcess { pid: u32, access: u32 },
    /// Ask for the full image path of `process` in `format`.
    QueryImageName { process: ProcessHandle, format: u32, capacity: usize },
    /// List the modules of `process` and report the first.
    FirstModule { process: ProcessHandle },
    /// Ask for the full file path of `module`.
    QueryModulePath { process: ProcessHandle, module: ModuleHandle, capacity: usize },
    /// Ask for the short base name of `module`.
    QueryModuleBaseName { process: ProcessHandle, module: ModuleHandle, capacity: usize },
    /// Release `process`.
    Close { process: ProcessHandle },
    /// Nothing: the result is ready.
    Done,
}

impl Request {
    /// The process handle on which this request is made, if it is made on
    /// one.
    pub open spec fn process(self) -> Option<ProcessHandle> {
        match self {
            Request::QueryImageName { process, .. } => Some(process),
            Request::FirstModule { process } => Some(process),
            Request::QueryModulePath { process, .. } => Some(process),
            Request::QueryModuleBaseName { process, .. } => Some(process),
            Request::Close { process } => Some(process),
            _ => None,
        }
    }
}

/// What the system answered, as the driver received it.
#[derive(Clone, Debug, PartialEq, Eq)]
pub enum Event {
    /// The enumeration succeeded: `ids` is its buffer, of which the system
    /// filled `bytes_returned` bytes.
    Enumerated { ids: Vec<u32>, bytes_returned: u32 },
    /// The enumeration failed.
    EnumerationFailed,
    /// The process was opened.
    Opened(ProcessHandle),
    /// The process could not be opened.
    OpenFailed,
    /// The first module of the process.
    Module(ModuleHandle),
    /// The modules could not be listed.
    NoModule,
    /// A text query returned `len`, with `units` holding what it wrote; a
    /// failed query is reported with `len` zero.
    Text { units: Vec<u16>, len: u32 },
    /// The process handle was released.
    Closed,
}

/// An [`Event`] over sequences.
pub enum EventView {
    Enumerated { ids: Seq<u32>, bytes_returned: u32 },
    EnumerationFailed,
    Opened(ProcessHandle),
    OpenFailed,
    Module(ModuleHandle),
    NoModule,
    Text { units: Seq<u16>, len: u32 },
    Closed,
}

impl View for Event {
    type V = EventView;

    open spec fn view(&self) -> EventView {
        match self {
            Event::Enumerated { ids, bytes_returned } => EventView::Enumerated {
                ids: ids@,
                bytes_returned: *bytes_returned,
            },
            Event::EnumerationFailed => EventView::EnumerationFailed,
            Event::Opened(process) => EventView::Opened(*process),
            Event::OpenFailed => EventView::OpenFailed,
            Event::Module(module) => EventView::Module(*module),
            Event::NoModule => EventView::NoModule,
            Event::Text { units, len } => EventView::Text { units: units@, len: *len },
            Event::Closed => EventView::Closed,
        }
    }
}

/// An answer as the search reads it: identifiers cut to those that count,
/// text decoded and judged against the requested name.
#[derive(Clone, Debug, PartialEq, Eq)]
pub enum Reply {
    /// The identifiers to consider, in the system's order.
    Ids(Vec<u32>),
    /// The enumeration failed.
    NoIds,
    /// The process was opened.
    Process(ProcessHandle),
    /// The process could not be opened.
    NoProcess,
    /// The first module of the process.
    Module(ModuleHandle),
    /// The modules could not be listed.
    NoModule,
    /// The query gave `text`; `matches` says whether the name it bears is
    /// the requested one.
    Text { text: String, matches: bool },
    /// The query gave nothing.
    NoText,
    /// The process handle was released.
    Closed,
}

/// A [`Reply`] over sequences.
pub enum ReplyView {
    Ids(Seq<u32>),
    NoIds,
    Process(ProcessHandle),
    NoProcess,
    Module(ModuleHandle),
    NoModule,
    Text { text: Seq<char>, matches: bool },
    NoText,
    Closed,
}

impl View for Reply {
    type V = ReplyView;

    open spec fn view(&self) -> ReplyView {
        match self {
            Reply::Ids(ids) => ReplyView::Ids(ids@),
            Reply::NoIds => ReplyView::NoIds,
            Reply::Process(process) => ReplyView::Process(*process),
            Reply::NoProcess => ReplyView::NoProcess,
            Reply::Module(module) => ReplyView::Module(*module),
            Reply::NoModule => ReplyView::NoModule,
            Reply::Text { text, matches } => ReplyView::Text { text: text@, matches: *matches },
            Reply::NoText => ReplyView::NoText,
            Reply::Closed => ReplyView::Closed,
        }
    }
}

/// Where a search stands. `index` is the position, among the identifiers
/// considered, of the process being examined.
pub enum Phase {
    /// Waiting for the list of identifiers.
    Enumerating,
    /// Waiting for the answer to the open.
    Opening { index: int },
    /// Holding `process`, waiting for its image path.
    ImageName { index: int, process: ProcessHandle },
    /// Holding `process`, waiting for its first module.
    Modules { index: int, process: ProcessHandle },
    /// Holding `process`, waiting for the file path of `module`.
    ModulePath { index: int, process: ProcessHandle, module: ModuleHandle },
    /// Holding `process`, waiting for the base name of `module`.
    ModuleBaseName { index: int, process: ProcessHandle, module: ModuleHandle },
    /// Holding `process`, whose module bears the name, waiting for the file
    /// path of `module` once more.
    ModulePathAgain { index: int, process: ProcessHandle, module: ModuleHandle },
    /// Holding `process`, waiting for its release; `found` is the path to
    /// return, if this process is the one.
    Closing { index: int, process: ProcessHandle, found: Option<Seq<char>> },
    /// Holding nothing; `result` is what the operation returns.
    Finished { result: Result<Seq<char>, ErrorView> },
}

/// The mathematical state of a search.
pub struct LocatorState {
    /// The requested process name.
    pub name: Seq<char>,
    /// The identifiers considered; empty until the enumeration is answered.
    pub ids: Seq<u32>,
    pub phase: Phase,
}

/// The identifiers that an enumeration yields: as many as the system
/// reported to have written, the buffer holds and the ceiling admits.
pub open spec fn considered_ids(ids: Seq<u32>, bytes_returned: u32) -> Seq<u32> {
    let reported = bytes_returned as int / PROCESS_ID_BYTES as int;
    let ceiling = if reported <= MAX_PROCESS_IDS as int {
        reported
    } else {
        MAX_PROCESS_IDS as int
    };
    if ceiling <= ids.len() {
        ids.take(ceiling)
    } else {
        ids
    }
}

/// The first position at or after `from` that holds a process identifier
/// other than zero, or the length of `ids` if there is none.
pub open spec fn next_candidate(ids: Seq<u32>, from: int) -> int
    decreases ids.len() - from,
{
    if from < 0 || from >= ids.len() {
        ids.len() as int
    } else if ids[from] != 0 {
        from
    } else {
        next_candidate(ids, from + 1)
    }
}

/// What [`next_candidate`] denotes.
pub proof fn lemma_next_candidate(ids: Seq<u32>, from: int)
    requires
        0 <= from <= ids.len(),
    ensures
        from <= next_candidate(ids, from) <= ids.len(),
        next_candidate(ids, from) < ids.len() ==> ids[next_candidate(ids, from)] != 0,
        forall|i: int| from <= i < next_candidate(ids, from) ==> ids[i] == 0,
    decreases ids.len() - from,
{
    if from < ids.len() && ids[from] == 0 {
        lemma_next_candidate(ids, from + 1);
    }
}

impl LocatorState {
    /// The state in which the search for `name` begins. Where the platform
    /// lacks the facilities, it has already ended.
    pub open spec fn initial(name: Seq<char>, supported: bool) -> LocatorState {
        LocatorState {
            name,
            ids: Seq::empty(),
            phase: if supported {
                Phase::Enumerating
            } else {
                Phase::Finished { result: Err(ErrorView::UnsupportedPlatform) }
            },
        }
    }

    /// Whether the state is coherent: the process being examined is one of
    /// those considered, and its identifier is not zero.
    pub open spec fn wf(self) -> bool {
        match self.phase {
            Phase::Enumerating => true,
            Phase::Finished { .. } => true,
            Phase::Opening { index } => self.candidate(index),
            Phase::ImageName { index, .. } => self.candidate(index),
            Phase::Modules { index, .. } => self.candidate(index),
            Phase::ModulePath { index, .. } => self.candidate(index),
            Phase::ModuleBaseName { index, .. } => self.candidate(index),
            Phase::ModulePathAgain { index, .. } => self.candidate(index),
            Phase::Closing { index, .. } => self.candidate(index),
        }
    }

    /// Whether `index` is the position of an identifier other than zero.
    pub open spec fn candidate(self, index: int) -> bool {
        0 <= index < self.ids.len() && self.ids[index] != 0
    }

    /// The process handle held in this state, if any.
    pub open spec fn held(self) -> Option<ProcessHandle> {
        match self.phase {
            Phase::ImageName { process, .. } => Some(process),
            Phase::Modules { process, .. } => Some(process),
            Phase::ModulePath { process, .. } => Some(process),
            Phase::ModuleBaseName { process, .. } => Some(process),
            Phase::ModulePathAgain { process, .. } => Some(process),
            Phase::Closing { process, .. } => Some(process),
            _ => None,
        }
    }

    /// The request that this state waits on.
    pub open spec fn pending(self) -> Request {
        match self.phase {
            Phase::Enumerating => Request::Enumerate { capacity: MAX_PROCESS_IDS },
            Phase::Opening { index } => Request::OpenProcess {
                pid: self.ids[index],
                access: PROCESS_QUERY_ACCESS,
            },
            Phase::ImageName { process, .. } => Request::QueryImageName {
                process,
                format: IMAGE_NAME_NATIVE,
                capacity: PATH_CAPACITY,
            },
            Phase::Modules { process, .. } => Request::FirstModule { process },
            Phase::ModulePath { process, module, .. } => Request::QueryModulePath {
                process,
                module,
                capacity: PATH_CAPACITY,
            },
            Phase::ModuleBaseName { process, module, .. } => Request::QueryModuleBaseName {
                process,
                module,
                capacity: BASE_NAME_CAPACITY,
            },
            Phase::ModulePathAgain { process, module, .. } => Request::QueryModulePath {
                process,
                module,
                capacity: PATH_CAPACITY,
            },
            Phase::Closing { process, .. } => Request::Close { process },
            Phase::Finished { .. } => Request::Done,
        }
    }

    /// This state in another phase.
    pub open spec fn at(self, phase: Phase) -> LocatorState {
        LocatorState { name: self.name, ids: self.ids, phase }
    }

    /// The state that turns to the first candidate at or after `from`, or
    /// ends the search without a match if there is none.
    pub open spec fn seek(self, from: int) -> LocatorState {
        let index = next_candidate(self.ids, from);
        if index < self.ids.len() {
            self.at(Phase::Opening { index })
        } else {
            self.at(Phase::Finished { result: Err(ErrorView::NotFound(self.name)) })
        }
    }

    /// The state after `reply`. A reply that does not answer the pending
    /// request changes nothing.
    pub open spec fn advance(self, reply: ReplyView) -> LocatorState {
        match (self.phase, reply) {
            (Phase::Enumerating, ReplyView::Ids(ids)) => (LocatorState {
                name: self.name,
                ids,
                phase: Phase::Enumerating,
            }).seek(0),
            (Phase::Enumerating, ReplyView::NoIds) => self.at(
                Phase::Finished { result: Err(ErrorView::EnumerationFailure) },
            ),
            (Phase::Opening { index }, ReplyView::Process(process)) => self.at(
                Phase::ImageName { index, process },
            ),
            (Phase::Opening { index }, ReplyView::NoProcess) => self.seek(index + 1),
            (Phase::ImageName { index, process }, ReplyView::Text { text, matches }) => {
                if matches {
                    self.at(Phase::Closing { index, process, found: Some(text) })
                } else {
                    self.at(Phase::Modules { index, process })
                }
            },
            (Phase::ImageName { index, process }, ReplyView::NoText) => self.at(
                Phase::Modules { index, process },
            ),
            (Phase::Modules { index, process }, ReplyView::Module(module)) => self.at(
                Phase::ModulePath { index, process, module },
            ),
            (Phase::Modules { index, process }, ReplyView::NoModule) => self.at(
                Phase::Closing { index, process, found: None },
            ),
            (Phase::ModulePath { index, process, module }, ReplyView::Text { text, matches }) => {
                if matches {
                    self.at(Phase::Closing { index, process, found: Some(text) })
                } else {
                    self.at(Phase::ModuleBaseName { index, process, module })
                }
            },
            (Phase::ModulePath { index, process, module }, ReplyView::NoText) => self.at(
                Phase::ModuleBaseName { index, process, module },
            ),
            (Phase::ModuleBaseName { index, process, module }, ReplyView::Text { matches, .. }) => {
                if matches {
                    self.at(Phase::ModulePathAgain { index, process, module })
                } else {
                    self.at(Phase::Closing { index, process, found: None })
                }
            },
            (Phase::ModuleBaseName { index, process, .. }, ReplyView::NoText) => self.at(
                Phase::Closing { index, process, found: None },
            ),
            (Phase::ModulePathAgain { index, process, .. }, ReplyView::Text { text, .. }) => {
                self.at(Phase::Closing { index, process, found: Some(text) })
            },
            (Phase::ModulePathAgain { index, process, .. }, ReplyView::NoText) => self.at(
                Phase::Closing { index, process, found: None },
            ),
            (Phase::Closing { index, found, .. }, ReplyView::Closed) => match found {
                Some(path) => self.at(Phase::Finished { result: Ok(path) }),
                None => self.seek(index + 1),
            },
            _ => self,
        }
    }

    /// Whether `text`, given in answer to the pending request, bears the
    /// requested name: by its base filename where a path was asked for, as
    /// it stands where a base name was asked for. The second path query of
    /// a module is not judged, nor is text that was not asked for.
    pub open spec fn bears_name(self, text: Seq<char>) -> bool {
        match self.phase {
            Phase::ImageName { .. } => same_name(base_name_of(text), self.name),
            Phase::ModulePath { .. } => same_name(base_name_of(text), self.name),
            Phase::ModuleBaseName { .. } => same_name(text, self.name),
            _ => false,
        }
    }

    /// The reply that answered text, or its absence, amounts to.
    pub open spec fn judged(self, text: Option<Seq<char>>) -> ReplyView {
        match text {
            Some(text) => ReplyView::Text { text, matches: self.bears_name(text) },
            None => ReplyView::NoText,
        }
    }

    /// The reply that `event` amounts to in this state.
    pub open spec fn digest(self, event: EventView) -> ReplyView {
        match event {
            EventView::Enumerated { ids, bytes_returned } => ReplyView::Ids(
                considered_ids(ids, bytes_returned),
            ),
            EventView::EnumerationFailed => ReplyView::NoIds,
            EventView::Opened(process) => ReplyView::Process(process),
            EventView::OpenFailed => ReplyView::NoProcess,
            EventView::Module(module) => ReplyView::Module(module),
            EventView::NoModule => ReplyView::NoModule,
            EventView::Text { units, len } => self.judged(reported_text(units, len)),
            EventView::Closed => ReplyView::Closed,
        }
    }

    /// The state after `event`.
    pub open spec fn step(self, event: EventView) -> LocatorState {
        self.advance(self.digest(event))
    }
}

/// Coherence is kept: the initial state is coherent, and so is every state
/// that a reply leads to from a coherent one.
pub proof fn lemma_advance_wf(state: LocatorState, reply: ReplyView)
    requires
        state.wf(),
    ensures
        state.advance(reply).wf(),
{
    match state.phase {
        Phase::Enumerating => {
            if let ReplyView::Ids(ids) = reply {
                lemma_next_candidate(ids, 0);
            }
        },
        Phase::Opening { index } => {
            lemma_next_candidate(state.ids, index + 1);
        },
        Phase::Closing { index, .. } => {
            lemma_next_candidate(state.ids, index + 1);
        },
        _ => {},
    }
}

} // verus!
