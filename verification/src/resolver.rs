//! Resolving a path to its canonical final form: open the file without
//! excluding anyone, ask the system for the final path of the open handle,
//! release the handle, report.

use vstd::prelude::*;
use crate::error::{Error, ErrorView, result_view};
use crate::handle::FileHandle;
use crate::wide::{decode_wide, encode_wide, reported_text, utf16_of};

verus! {

/// The access requested when opening the file: generic read.
pub const FILE_READ_ACCESS: u32 = 0x8000_0000;

/// The sharing requested when opening the file: others may read and write.
pub const FILE_SHARE_READ_WRITE: u32 = 0x3;

/// The disposition requested when opening the file: it must exist already.
pub const FILE_OPEN_EXISTING: u32 = 3;

/// The attributes requested when opening the file: none in particular.
pub const FILE_ATTRIBUTE_NORMAL: u32 = 0x80;

/// The number of UTF-16 units offered to the final-path query.
pub const FINAL_PATH_CAPACITY: usize = 1024;

/// The flags of the final-path query: normalised name, DOS volume name.
pub const FINAL_PATH_FLAGS: u32 = 0;

/// What the driver is to do next.
#[derive(Clone, Copy, Debug, PartialEq, Eq, Structural)]
pub enum Request {
    /// Open the file named by the resolver's wide path.
    Open { access: u32, share: u32, disposition: u32, attributes: u32 },
    /// Ask for the final path of `file` into a buffer of `capacity` units.
    QueryFinalPath { file: FileHandle, capacity: usize, flags: u32 },
    /// Release `file`.
    Close { file: FileHandle },
    /// Nothing: the result is ready.
    Done,
}

/// What the system answered.
#[derive(Clone, Debug, PartialEq, Eq)]
pub enum Event {
    /// The open succeeded.
    Opened(FileHandle),
    /// The open failed; carries the system's description of the error.
    OpenFailed(String),
    /// The final-path query returned `len` with `units` holding what it wrote.
    FinalPath { units: Vec<u16>, len: u32 },
    /// The handle was released.
    Closed,
}

/// An [`Event`] over sequences.
pub enum EventView {
    Opened(FileHandle),
    OpenFailed(Seq<char>),
    FinalPath { units: Seq<u16>, len: u32 },
    Closed,
}

impl View for Event {
    type V = EventView;

    open spec fn view(&self) -> EventView {
        match self {
            Event::Opened(file) => EventView::Opened(*file),
            Event::OpenFailed(reason) => EventView::OpenFailed(reason@),
            Event::FinalPath { units, len } => EventView::FinalPath { units: units@, len: *len },
            Event::Closed => EventView::Closed,
        }
    }
}

/// Where a resolution stands.
pub enum Stage {
    /// Waiting for the answer to the open.
    Opening,
    /// Holding `file`, waiting for its final path.
    Querying { file: FileHandle },
    /// Holding `file`, waiting for its release; `result` is decided.
    Closing { file: FileHandle, result: Result<Seq<char>, ErrorView> },
    /// Holding nothing; `result` is what the operation returns.
    Finished { result: Result<Seq<char>, ErrorView> },
}

/// The mathematical state of a [`PathResolver`].
pub struct ResolverState {
    /// The NUL-terminated UTF-16 form of the path to open.
    pub wide: Seq<u16>,
    pub stage: Stage,
}

/// What the final-path query's answer amounts to.
pub open spec fn final_path_result(units: Seq<u16>, len: u32) -> Result<Seq<char>, ErrorView> {
    match reported_text(units, len) {
        Some(path) => Ok(path),
        None => Err(ErrorView::ResolutionFailure),
    }
}

impl ResolverState {
    /// The state in which the resolution of `path` begins.
    pub open spec fn initial(path: Seq<char>) -> ResolverState {
        ResolverState { wide: utf16_of(path).push(0u16), stage: Stage::Opening }
    }

    /// The request that this state waits on.
    pub open spec fn pending(self) -> Request {
        match self.stage {
            Stage::Opening => Request::Open {
                access: FILE_READ_ACCESS,
                share: FILE_SHARE_READ_WRITE,
                disposition: FILE_OPEN_EXISTING,
                attributes: FILE_ATTRIBUTE_NORMAL,
            },
            Stage::Querying { file } => Request::QueryFinalPath {
                file,
                capacity: FINAL_PATH_CAPACITY,
                flags: FINAL_PATH_FLAGS,
            },
            Stage::Closing { file, .. } => Request::Close { file },
            Stage::Finished { .. } => Request::Done,
        }
    }

    /// The file handle held in this state, if any.
    pub open spec fn held(self) -> Option<FileHandle> {
        match self.stage {
            Stage::Querying { file } => Some(file),
            Stage::Closing { file, .. } => Some(file),
            _ => None,
        }
    }

    /// The state after `event`. An event that does not answer the pending
    /// request changes nothing.
    pub open spec fn step(self, event: EventView) -> ResolverState {
        let stage = match (self.stage, event) {
            (Stage::Opening, EventView::Opened(file)) => Stage::Querying { file },
            (Stage::Opening, EventView::OpenFailed(reason)) => Stage::Finished {
                result: Err(ErrorView::OpenFailure(reason)),
            },
            (Stage::Querying { file }, EventView::FinalPath { units, len }) => Stage::Closing {
                file,
                result: final_path_result(units, len),
            },
            (Stage::Closing { file, result }, EventView::Closed) => Stage::Finished { result },
            (stage, _) => stage,
        };
        ResolverState { wide: self.wide, stage }
    }
}

/// What the system answers in the course of one resolution.
pub struct FileAnswers {
    /// To the open: a handle, or the description of the error.
    pub open: Result<FileHandle, Seq<char>>,
    /// To the final-path query: what the buffer holds afterwards.
    pub units: Seq<u16>,
    /// To the final-path query: the length it returned.
    pub len: u32,
}

impl FileAnswers {
    /// The event with which the system answers `request`.
    pub open spec fn event_for(self, request: Request) -> EventView {
        match request {
            Request::Open { .. } => match self.open {
                Ok(file) => EventView::Opened(file),
                Err(reason) => EventView::OpenFailed(reason),
            },
            Request::QueryFinalPath { .. } => EventView::FinalPath {
                units: self.units,
                len: self.len,
            },
            _ => EventView::Closed,
        }
    }

    /// What the operation returns under these answers.
    pub open spec fn outcome(self) -> Result<Seq<char>, ErrorView> {
        match self.open {
            Err(reason) => Err(ErrorView::OpenFailure(reason)),
            Ok(_) => final_path_result(self.units, self.len),
        }
    }

    /// The requests that the operation makes under these answers: the open
    /// alone when it fails, else the open, the query and the release of the
    /// handle that the open gave.
    pub open spec fn requests(self) -> Seq<Request> {
        let open = Request::Open {
            access: FILE_READ_ACCESS,
            share: FILE_SHARE_READ_WRITE,
            disposition: FILE_OPEN_EXISTING,
            attributes: FILE_ATTRIBUTE_NORMAL,
        };
        match self.open {
            Err(_) => seq![open],
            Ok(file) => seq![
                open,
                Request::QueryFinalPath {
                    file,
                    capacity: FINAL_PATH_CAPACITY,
                    flags: FINAL_PATH_FLAGS,
                },
                Request::Close { file },
            ],
        }
    }
}

impl ResolverState {
    /// The number of requests still to be made, at most.
    pub open spec fn rank(self) -> nat {
        match self.stage {
            Stage::Opening => 3,
            Stage::Querying { .. } => 2,
            Stage::Closing { .. } => 1,
            Stage::Finished { .. } => 0,
        }
    }

    /// The state in which a driver that performs each pending request and
    /// reports the system's answer leaves the resolver.
    pub open spec fn run(self, answers: FileAnswers) -> ResolverState
        decreases self.rank(),
    {
        if self.stage is Finished {
            self
        } else {
            self.step(answers.event_for(self.pending())).run(answers)
        }
    }

    /// The requests that such a driver performs, in order.
    pub open spec fn trace(self, answers: FileAnswers) -> Seq<Request>
        decreases self.rank(),
    {
        if self.stage is Finished {
            Seq::empty()
        } else {
            seq![self.pending()] + self.step(answers.event_for(self.pending())).trace(answers)
        }
    }
}

/// Whatever the system answers, a resolution ends with the outcome that the
/// answers determine, after exactly the requests that they call for. In
/// particular a handle is released if and only if the open gave one, once,
/// and before the result is out; and a failed open is reported as such
/// without any further request.
pub proof fn lemma_resolution(path: Seq<char>, answers: FileAnswers)
    ensures
        ResolverState::initial(path).run(answers) == (ResolverState {
            wide: utf16_of(path).push(0u16),
            stage: Stage::Finished { result: answers.outcome() },
        }),
        ResolverState::initial(path).trace(answers) == answers.requests(),
        ResolverState::initial(path).run(answers).held() is None,
{
    let s0 = ResolverState::initial(path);
    let s1 = s0.step(answers.event_for(s0.pending()));
    assert(s0.run(answers) == s1.run(answers));
    assert(s0.trace(answers) == seq![s0.pending()] + s1.trace(answers));
    match answers.open {
        Err(_) => {
            assert(s1.trace(answers) == Seq::<Request>::empty());
            assert(s0.trace(answers) =~= answers.requests());
        },
        Ok(file) => {
            let s2 = s1.step(answers.event_for(s1.pending()));
            let s3 = s2.step(answers.event_for(s2.pending()));
            assert(s1.run(answers) == s2.run(answers));
            assert(s2.run(answers) == s3.run(answers));
            assert(s1.trace(answers) == seq![s1.pending()] + s2.trace(answers));
            assert(s2.trace(answers) == seq![s2.pending()] + s3.trace(answers));
            assert(s3.trace(answers) == Seq::<Request>::empty());
            assert(s0.trace(answers) =~= answers.requests());
        },
    }
}

enum Progress {
    Opening,
    Querying { file: FileHandle },
    Closing { file: FileHandle, result: Result<String, Error> },
    Finished { result: Result<String, Error> },
}

/// One resolution of a path, from the open to the result.
pub struct PathResolver {
    wide: Vec<u16>,
    progress: Progress,
}

impl View for PathResolver {
    type V = ResolverState;

    closed spec fn view(&self) -> ResolverState {
        ResolverState {
            wide: self.wide@,
            stage: match self.progress {
                Progress::Opening => Stage::Opening,
                Progress::Querying { file } => Stage::Querying { file },
                Progress::Closing { file, result } => Stage::Closing {
                    file,
                    result: result_view(result),
                },
                Progress::Finished { result } => Stage::Finished { result: result_view(result) },
            },
        }
    }
}

impl PathResolver {
    /// Begins the resolution of `path`: the first request is the open.
    pub fn start(path: &str) -> (begun: (PathResolver, Request))
        ensures
            begun.0@ == ResolverState::initial(path@),
            begun.1 == begun.0@.pending(),
    {
        let resolver = PathResolver { wide: encode_wide(path), progress: Progress::Opening };
        let request = resolver.pending();
        (resolver, request)
    }

    /// The path to open, UTF-16 encoded and NUL-terminated.
    pub fn wide_path(&self) -> (wide: &Vec<u16>)
        ensures
            wide@ == self@.wide,
    {
        &self.wide
    }

    /// The request that the resolver waits on.
    pub fn pending(&self) -> (request: Request)
        ensures
            request == self@.pending(),
    {
        match &self.progress {
            Progress::Opening => Request::Open {
                access: FILE_READ_ACCESS,
                share: FILE_SHARE_READ_WRITE,
                disposition: FILE_OPEN_EXISTING,
                attributes: FILE_ATTRIBUTE_NORMAL,
            },
            Progress::Querying { file } => Request::QueryFinalPath {
                file: *file,
                capacity: FINAL_PATH_CAPACITY,
                flags: FINAL_PATH_FLAGS,
            },
            Progress::Closing { file, .. } => Request::Close { file: *file },
            Progress::Finished { .. } => Request::Done,
        }
    }

    /// Takes the system's answer and decides what follows.
    pub fn step(self, event: Event) -> (next: (PathResolver, Request))
        ensures
            next.0@ == self@.step(event@),
            next.1 == next.0@.pending(),
    {
        let PathResolver { wide, progress } = self;
        let progress = match (progress, event) {
            (Progress::Opening, Event::Opened(file)) => Progress::Querying { file },
            (Progress::Opening, Event::OpenFailed(reason)) => Progress::Finished {
                result: Err(Error::OpenFailure(reason)),
            },
            (Progress::Querying { file }, Event::FinalPath { units, len }) => {
                let result = match decode_wide(units.as_slice(), len) {
                    Some(path) => Ok(path),
                    None => Err(Error::ResolutionFailure),
                };
                Progress::Closing { file, result }
            },
            (Progress::Closing { file, result }, Event::Closed) => Progress::Finished { result },
            (progress, _) => progress,
        };
        let resolver = PathResolver { wide, progress };
        let request = resolver.pending();
        (resolver, request)
    }

    /// The result, once the resolver has finished; nothing before.
    pub fn into_result(self) -> (result: Option<Result<String, Error>>)
        ensures
            match self@.stage {
                Stage::Finished { result: expected } => result matches Some(r) && result_view(r)
                    == expected,
                _ => result is None,
            },
    {
        match self.progress {
            Progress::Finished { result } => Some(result),
            _ => None,
        }
    }
}

} // verus!
