//! The executable search for a process by name. The locator holds the state
//! of one search; the driver performs each request against the system and
//! hands the answer back.

use vstd::prelude::*;
use crate::error::{Error, result_view};
use crate::handle::{ModuleHandle, ProcessHandle};
use crate::name::{candidate_name, lowercase_of, to_lowercase};
use crate::protocol::{
    Event, LocatorState, Phase, Reply, Request, BASE_NAME_CAPACITY, IMAGE_NAME_NATIVE,
    MAX_PROCESS_IDS, PATH_CAPACITY, PROCESS_ID_BYTES, PROCESS_QUERY_ACCESS, considered_ids,
    lemma_next_candidate, next_candidate,
};
use crate::wide::decode_wide;

verus! {

enum Progress {
    Enumerating,
    Opening { index: usize },
    ImageName { index: usize, process: ProcessHandle },
    Modules { index: usize, process: ProcessHandle },
    ModulePath { index: usize, process: ProcessHandle, module: ModuleHandle },
    ModuleBaseName { index: usize, process: ProcessHandle, module: ModuleHandle },
    ModulePathAgain { index: usize, process: ProcessHandle, module: ModuleHandle },
    Closing { index: usize, process: ProcessHandle, found: Option<String> },
    Finished { result: Result<String, Error> },
}

impl Progress {
    spec fn phase(self) -> Phase {
        match self {
            Progress::Enumerating => Phase::Enumerating,
            Progress::Opening { index } => Phase::Opening { index: index as int },
            Progress::ImageName { index, process } => Phase::ImageName {
                index: index as int,
                process,
            },
            Progress::Modules { index, process } => Phase::Modules { index: index as int, process },
            Progress::ModulePath { index, process, module } => Phase::ModulePath {
                index: index as int,
                process,
                module,
            },
            Progress::ModuleBaseName { index, process, module } => Phase::ModuleBaseName {
                index: index as int,
                process,
                module,
            },
            Progress::ModulePathAgain { index, process, module } => Phase::ModulePathAgain {
                index: index as int,
                process,
                module,
            },
            Progress::Closing { index, process, found } => Phase::Closing {
                index: index as int,
                process,
                found: match found {
                    Some(path) => Some(path@),
                    None => None,
                },
            },
            Progress::Finished { result } => Phase::Finished { result: result_view(result) },
        }
    }
}

/// Where a reply leads: to another phase, or to the next candidate from a
/// position on.
enum Turn {
    To(Progress),
    Seek(usize),
}

/// One search for a process by name, from the enumeration to the result.
pub struct Locator {
    name: String,
    target: String,
    ids: Vec<u32>,
    progress: Progress,
}

impl View for Locator {
    type V = LocatorState;

    closed spec fn view(&self) -> LocatorState {
        LocatorState { name: self.name@, ids: self.ids@, phase: self.progress.phase() }
    }
}

impl Locator {
    #[verifier::type_invariant]
    spec fn coherent(self) -> bool {
        &&& self@.wf()
        &&& self.target@ == lowercase_of(self.name@)
    }

    /// Begins the search for `name`. On a platform with the facilities the
    /// first request is the enumeration; on any other the search is over at
    /// once, with nothing asked of the system.
    pub fn start(name: &str, supported: bool) -> (begun: (Locator, Request))
        ensures
            begun.0@ == LocatorState::initial(name@, supported),
            begun.1 == begun.0@.pending(),
    {
        let progress = if supported {
            Progress::Enumerating
        } else {
            Progress::Finished { result: Err(Error::UnsupportedPlatform) }
        };
        let locator = Locator {
            name: name.to_owned(),
            target: to_lowercase(name),
            ids: Vec::new(),
            progress,
        };
        let request = locator.pending();
        (locator, request)
    }

    /// The request that the locator waits on.
    pub fn pending(&self) -> (request: Request)
        ensures
            self@.wf(),
            request == self@.pending(),
    {
        proof {
            use_type_invariant(self);
        }
        match &self.progress {
            Progress::Enumerating => Request::Enumerate { capacity: MAX_PROCESS_IDS },
            Progress::Opening { index } => Request::OpenProcess {
                pid: self.ids[*index],
                access: PROCESS_QUERY_ACCESS,
            },
            Progress::ImageName { process, .. } => Request::QueryImageName {
                process: *process,
                format: IMAGE_NAME_NATIVE,
                capacity: PATH_CAPACITY,
            },
            Progress::Modules { process, .. } => Request::FirstModule { process: *process },
            Progress::ModulePath { process, module, .. } => Request::QueryModulePath {
                process: *process,
                module: *module,
                capacity: PATH_CAPACITY,
            },
            Progress::ModuleBaseName { process, module, .. } => Request::QueryModuleBaseName {
                process: *process,
                module: *module,
                capacity: BASE_NAME_CAPACITY,
            },
            Progress::ModulePathAgain { process, module, .. } => Request::QueryModulePath {
                process: *process,
                module: *module,
                capacity: PATH_CAPACITY,
            },
            Progress::Closing { process, .. } => Request::Close { process: *process },
            Progress::Finished { .. } => Request::Done,
        }
    }

    /// Reads the system's answer: cuts the identifiers to those that count,
    /// decodes text and judges it against the requested name.
    pub fn digest(&self, event: Event) -> (reply: Reply)
        ensures
            reply@ == self@.digest(event@),
    {
        match event {
            Event::Enumerated { ids, bytes_returned } => {
                let mut ids = ids;
                let reported = (bytes_returned / PROCESS_ID_BYTES) as usize;
                let ceiling = if reported <= MAX_PROCESS_IDS {
                    reported
                } else {
                    MAX_PROCESS_IDS
                };
                ids.truncate(ceiling);
                Reply::Ids(ids)
            },
            Event::EnumerationFailed => Reply::NoIds,
            Event::Opened(process) => Reply::Process(process),
            Event::OpenFailed => Reply::NoProcess,
            Event::Module(module) => Reply::Module(module),
            Event::NoModule => Reply::NoModule,
            Event::Text { units, len } => match decode_wide(units.as_slice(), len) {
                Some(text) => {
                    let matches = self.bears_name(&text);
                    Reply::Text { text, matches }
                },
                None => Reply::NoText,
            },
            Event::Closed => Reply::Closed,
        }
    }

    /// Whether `text`, given in answer to the pending request, bears the
    /// requested name.
    pub fn bears_name(&self, text: &String) -> (matches: bool)
        ensures
            matches == self@.bears_name(text@),
    {
        proof {
            use_type_invariant(self);
        }
        match &self.progress {
            Progress::ImageName { .. } => candidate_name(text.as_str()) == self.target,
            Progress::ModulePath { .. } => candidate_name(text.as_str()) == self.target,
            Progress::ModuleBaseName { .. } => to_lowercase(text.as_str()) == self.target,
            _ => false,
        }
    }

    /// Takes a reply and decides what follows.
    pub fn advance(self, reply: Reply) -> (next: (Locator, Request))
        ensures
            next.0@ == self@.advance(reply@),
            next.1 == next.0@.pending(),
    {
        proof {
            use_type_invariant(&self);
        }
        let Locator { name, target, mut ids, progress } = self;
        let turn = match (progress, reply) {
            (Progress::Enumerating, Reply::Ids(found)) => {
                ids = found;
                Turn::Seek(0)
            },
            (Progress::Enumerating, Reply::NoIds) => Turn::To(
                Progress::Finished { result: Err(Error::EnumerationFailure) },
            ),
            (Progress::Opening { index }, Reply::Process(process)) => Turn::To(
                Progress::ImageName { index, process },
            ),
            (Progress::Opening { index }, Reply::NoProcess) => {
                assert(index < ids.len());
                Turn::Seek(index + 1)
            },
            (Progress::ImageName { index, process }, Reply::Text { text, matches }) => {
                if matches {
                    Turn::To(Progress::Closing { index, process, found: Some(text) })
                } else {
                    Turn::To(Progress::Modules { index, process })
                }
            },
            (Progress::ImageName { index, process }, Reply::NoText) => Turn::To(
                Progress::Modules { index, process },
            ),
            (Progress::Modules { index, process }, Reply::Module(module)) => Turn::To(
                Progress::ModulePath { index, process, module },
            ),
            (Progress::Modules { index, process }, Reply::NoModule) => Turn::To(
                Progress::Closing { index, process, found: None },
            ),
            (Progress::ModulePath { index, process, module }, Reply::Text { text, matches }) => {
                if matches {
                    Turn::To(Progress::Closing { index, process, found: Some(text) })
                } else {
                    Turn::To(Progress::ModuleBaseName { index, process, module })
                }
            },
            (Progress::ModulePath { index, process, module }, Reply::NoText) => Turn::To(
                Progress::ModuleBaseName { index, process, module },
            ),
            (Progress::ModuleBaseName { index, process, module }, Reply::Text { matches, .. }) => {
                if matches {
                    Turn::To(Progress::ModulePathAgain { index, process, module })
                } else {
                    Turn::To(Progress::Closing { index, process, found: None })
                }
            },
            (Progress::ModuleBaseName { index, process, .. }, Reply::NoText) => Turn::To(
                Progress::Closing { index, process, found: None },
            ),
            (Progress::ModulePathAgain { index, process, .. }, Reply::Text { text, .. }) => {
                Turn::To(Progress::Closing { index, process, found: Some(text) })
            },
            (Progress::ModulePathAgain { index, process, .. }, Reply::NoText) => Turn::To(
                Progress::Closing { index, process, found: None },
            ),
            (Progress::Closing { found: Some(path), .. }, Reply::Closed) => Turn::To(
                Progress::Finished { result: Ok(path) },
            ),
            (Progress::Closing { index, found: None, .. }, Reply::Closed) => {
                assert(index < ids.len());
                Turn::Seek(index + 1)
            },
            (progress, _) => Turn::To(progress),
        };
        let locator = match turn {
            Turn::To(progress) => Locator { name, target, ids, progress },
            Turn::Seek(from) => Locator::seek(name, target, ids, from),
        };
        let request = locator.pending();
        (locator, request)
    }

    /// Takes the system's answer and decides what follows.
    pub fn step(self, event: Event) -> (next: (Locator, Request))
        ensures
            next.0@ == self@.step(event@),
            next.1 == next.0@.pending(),
    {
        let reply = self.digest(event);
        self.advance(reply)
    }

    /// The result, once the search has finished; nothing before.
    pub fn into_result(self) -> (result: Option<Result<String, Error>>)
        ensures
            match self@.phase {
                Phase::Finished { result: expected } => result matches Some(r) && result_view(r)
                    == expected,
                _ => result is None,
            },
    {
        match self.progress {
            Progress::Finished { result } => Some(result),
            _ => None,
        }
    }

    /// Turns to the first candidate at or after `from`, or ends the search.
    fn seek(name: String, target: String, ids: Vec<u32>, from: usize) -> (locator: Locator)
        requires
            from <= ids.len(),
            target@ == lowercase_of(name@),
        ensures
            locator@ == (LocatorState { name: name@, ids: ids@, phase: Phase::Enumerating }).seek(
                from as int,
            ),
    {
        let mut index = from;
        while index < ids.len() && ids[index] == 0
            invariant
                from <= index <= ids.len(),
                next_candidate(ids@, index as int) == next_candidate(ids@, from as int),
            decreases ids.len() - index,
        {
            index = index + 1;
        }
        proof {
            lemma_next_candidate(ids@, index as int);
        }
        if index < ids.len() {
            Locator { name, target, ids, progress: Progress::Opening { index } }
        } else {
            let result = Err(Error::NotFound(name.clone()));
            Locator { name, target, ids, progress: Progress::Finished { result } }
        }
    }
}

} // verus!
