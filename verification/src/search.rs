//! What a search amounts to: for any answers the system may give, the result
//! that the locator reaches and the requests that it makes on the way.

use vstd::prelude::*;
use crate::error::ErrorView;
use crate::handle::{ModuleHandle, ProcessHandle};
use crate::name::{base_name_of, same_name};
use crate::protocol::{
    EventView, LocatorState, Phase, ReplyView, Request, BASE_NAME_CAPACITY, IMAGE_NAME_NATIVE,
    MAX_PROCESS_IDS, PATH_CAPACITY, PROCESS_QUERY_ACCESS, considered_ids, lemma_advance_wf,
    lemma_next_candidate, next_candidate,
};
use crate::wide::reported_text;

verus! {

/// What a text query left behind: the buffer and the length it returned.
pub struct Written {
    pub units: Seq<u16>,
    pub len: u32,
}

impl Written {
    /// The text that the query gave, if it gave any.
    pub open spec fn text(self) -> Option<Seq<char>> {
        reported_text(self.units, self.len)
    }

    /// The event that reports this answer.
    pub open spec fn event(self) -> EventView {
        EventView::Text { units: self.units, len: self.len }
    }
}

/// What the system answers about one process, to each request that may be
/// made of it.
pub struct Probe {
    /// To the open: a handle, or nothing where access is denied.
    pub process: Option<ProcessHandle>,
    /// To the image-name query.
    pub image: Written,
    /// To the listing of modules: the first module, or nothing.
    pub module: Option<ModuleHandle>,
    /// To the first query of the module's file path.
    pub module_file: Written,
    /// To the query of the module's base name.
    pub base_name: Written,
    /// To the second query of the module's file path.
    pub module_file_again: Written,
}

/// The strategy by which a process was recognised.
pub enum Strategy {
    /// Its image path bears the name.
    ImageName,
    /// The file path of its first module bears the name.
    ModulePath,
    /// The base name of its first module is the name.
    ModuleBaseName,
}

/// A process recognised: how, and the path to return for it.
pub struct Hit {
    pub strategy: Strategy,
    pub path: Seq<char>,
}

/// The request that opens process `pid`.
pub open spec fn open_of(pid: u32) -> Request {
    Request::OpenProcess { pid, access: PROCESS_QUERY_ACCESS }
}

impl Probe {
    /// Whether the image path was given and bears `name`.
    pub open spec fn image_matches(self, name: Seq<char>) -> bool {
        self.image.text() matches Some(path) && same_name(base_name_of(path), name)
    }

    /// Whether the module's file path was given and bears `name`.
    pub open spec fn module_file_matches(self, name: Seq<char>) -> bool {
        self.module_file.text() matches Some(path) && same_name(base_name_of(path), name)
    }

    /// Whether the module's base name was given and is `name`.
    pub open spec fn base_name_matches(self, name: Seq<char>) -> bool {
        self.base_name.text() matches Some(base) && same_name(base, name)
    }

    /// Whether this process is the one named `name`, and if so by which
    /// strategy and with which path. The strategies are tried in order; the
    /// module strategies need the module listing to succeed, and the last
    /// one needs its second path query to succeed.
    pub open spec fn hit(self, name: Seq<char>) -> Option<Hit> {
        if self.process is None {
            None
        } else if self.image_matches(name) {
            Some(Hit { strategy: Strategy::ImageName, path: self.image.text()->0 })
        } else if self.module is None {
            None
        } else if self.module_file_matches(name) {
            Some(Hit { strategy: Strategy::ModulePath, path: self.module_file.text()->0 })
        } else if self.base_name_matches(name) && self.module_file_again.text() is Some {
            Some(Hit { strategy: Strategy::ModuleBaseName, path: self.module_file_again.text()->0 })
        } else {
            None
        }
    }

    /// The queries made of this process once `process` is held, in order.
    pub open spec fn queries(self, process: ProcessHandle, name: Seq<char>) -> Seq<Request> {
        let image = seq![
            Request::QueryImageName {
                process,
                format: IMAGE_NAME_NATIVE,
                capacity: PATH_CAPACITY,
            },
        ];
        if self.image_matches(name) {
            image
        } else {
            let listing = image.push(Request::FirstModule { process });
            match self.module {
                None => listing,
                Some(module) => {
                    let path = Request::QueryModulePath {
                        process,
                        module,
                        capacity: PATH_CAPACITY,
                    };
                    let paths = listing.push(path);
                    if self.module_file_matches(name) {
                        paths
                    } else {
                        let names = paths.push(
                            Request::QueryModuleBaseName {
                                process,
                                module,
                                capacity: BASE_NAME_CAPACITY,
                            },
                        );
                        if self.base_name_matches(name) {
                            names.push(path)
                        } else {
                            names
                        }
                    }
                },
            }
        }
    }

    /// The requests made for the process `pid`: the open and, if it gives a
    /// handle, the queries on that handle followed by its release.
    pub open spec fn visit(self, pid: u32, name: Seq<char>) -> Seq<Request> {
        let open = seq![open_of(pid)];
        match self.process {
            None => open,
            Some(process) => open + self.queries(process, name).push(Request::Close { process }),
        }
    }
}

/// What the system answers in the course of one search.
pub struct System {
    /// To the enumeration: the buffer and the number of bytes filled, or
    /// nothing where it fails.
    pub enumeration: Option<(Seq<u32>, u32)>,
    /// About the process at each position among the identifiers considered.
    pub probe: spec_fn(int) -> Probe,
}

impl System {
    /// The identifiers that the search considers.
    pub open spec fn ids(self) -> Seq<u32> {
        match self.enumeration {
            Some((ids, bytes_returned)) => considered_ids(ids, bytes_returned),
            None => Seq::empty(),
        }
    }

    /// The event with which the system answers the pending request of
    /// `state`.
    pub open spec fn event_for(self, state: LocatorState) -> EventView {
        match state.phase {
            Phase::Enumerating => match self.enumeration {
                Some((ids, bytes_returned)) => EventView::Enumerated { ids, bytes_returned },
                None => EventView::EnumerationFailed,
            },
            Phase::Opening { index } => match (self.probe)(index).process {
                Some(process) => EventView::Opened(process),
                None => EventView::OpenFailed,
            },
            Phase::ImageName { index, .. } => (self.probe)(index).image.event(),
            Phase::Modules { index, .. } => match (self.probe)(index).module {
                Some(module) => EventView::Module(module),
                None => EventView::NoModule,
            },
            Phase::ModulePath { index, .. } => (self.probe)(index).module_file.event(),
            Phase::ModuleBaseName { index, .. } => (self.probe)(index).base_name.event(),
            Phase::ModulePathAgain { index, .. } => (self.probe)(index).module_file_again.event(),
            Phase::Closing { .. } => EventView::Closed,
            Phase::Finished { .. } => EventView::Closed,
        }
    }

    /// The first process at or after position `from` that is recognised as
    /// `name`, with its position.
    pub open spec fn first_hit(self, name: Seq<char>, from: int) -> Option<(int, Hit)>
        decreases self.ids().len() - from,
    {
        if from < 0 || from >= self.ids().len() {
            None
        } else if self.ids()[from] != 0 && (self.probe)(from).hit(name) is Some {
            Some((from, (self.probe)(from).hit(name)->0))
        } else {
            self.first_hit(name, from + 1)
        }
    }

    /// The requests made from position `from` on: a visit to each process
    /// whose identifier is not zero, in order, up to and including the
    /// first that is recognised.
    pub open spec fn visits(self, name: Seq<char>, from: int) -> Seq<Request>
        decreases self.ids().len() - from,
    {
        if from < 0 || from >= self.ids().len() {
            Seq::empty()
        } else if self.ids()[from] == 0 {
            self.visits(name, from + 1)
        } else if (self.probe)(from).hit(name) is Some {
            (self.probe)(from).visit(self.ids()[from], name)
        } else {
            (self.probe)(from).visit(self.ids()[from], name) + self.visits(name, from + 1)
        }
    }

    /// What the search for `name` returns under these answers.
    pub open spec fn outcome(self, name: Seq<char>, supported: bool) -> Result<
        Seq<char>,
        ErrorView,
    > {
        if !supported {
            Err(ErrorView::UnsupportedPlatform)
        } else if self.enumeration is None {
            Err(ErrorView::EnumerationFailure)
        } else {
            match self.first_hit(name, 0) {
                Some((_, hit)) => Ok(hit.path),
                None => Err(ErrorView::NotFound(name)),
            }
        }
    }

    /// The requests that the search for `name` makes under these answers.
    pub open spec fn requests(self, name: Seq<char>, supported: bool) -> Seq<Request> {
        if !supported {
            Seq::empty()
        } else {
            let enumerate = seq![Request::Enumerate { capacity: MAX_PROCESS_IDS }];
            if self.enumeration is None {
                enumerate
            } else {
                enumerate + self.visits(name, 0)
            }
        }
    }
}

impl LocatorState {
    /// A bound on the number of requests still to be made.
    pub open spec fn rank(self, system: System) -> int {
        match self.phase {
            Phase::Enumerating => 8 * (system.ids().len() as int) + 9,
            Phase::Opening { index } => 8 * (self.ids.len() - index),
            Phase::ImageName { index, .. } => 8 * (self.ids.len() - index) - 1,
            Phase::Modules { index, .. } => 8 * (self.ids.len() - index) - 2,
            Phase::ModulePath { index, .. } => 8 * (self.ids.len() - index) - 3,
            Phase::ModuleBaseName { index, .. } => 8 * (self.ids.len() - index) - 4,
            Phase::ModulePathAgain { index, .. } => 8 * (self.ids.len() - index) - 5,
            Phase::Closing { index, .. } => 8 * (self.ids.len() - index) - 6,
            Phase::Finished { .. } => 0,
        }
    }

    /// The state in which a driver that performs each pending request and
    /// reports the system's answer leaves the locator.
    pub open spec fn run(self, system: System) -> LocatorState
        decreases self.rank(system),
        when self.wf()
        via Self::run_decreases
    {
        if self.phase is Finished {
            self
        } else {
            self.step(system.event_for(self)).run(system)
        }
    }

    #[via_fn]
    proof fn run_decreases(self, system: System) {
        lemma_step(self, system);
    }

    /// The requests that such a driver performs, in order.
    pub open spec fn trace(self, system: System) -> Seq<Request>
        decreases self.rank(system),
        when self.wf()
        via Self::trace_decreases
    {
        if self.phase is Finished {
            Seq::empty()
        } else {
            seq![self.pending()] + self.step(system.event_for(self)).trace(system)
        }
    }

    #[via_fn]
    proof fn trace_decreases(self, system: System) {
        lemma_step(self, system);
    }
}

/// Each answered request brings the search nearer its end.
pub proof fn lemma_step(state: LocatorState, system: System)
    requires
        state.wf(),
    ensures
        state.step(system.event_for(state)).wf(),
        0 <= state.rank(system),
        !(state.phase is Finished) ==> state.step(system.event_for(state)).rank(system)
            < state.rank(system),
{
    let event = system.event_for(state);
    lemma_advance_wf(state, state.digest(event));
    match state.phase {
        Phase::Enumerating => {
            lemma_next_candidate(system.ids(), 0);
        },
        Phase::Opening { index } => {
            lemma_next_candidate(state.ids, index + 1);
        },
        Phase::Closing { index, .. } => {
            lemma_next_candidate(state.ids, index + 1);
        },
        _ => {},
    }
}

/// One answered request, unfolded from a run and its trace.
proof fn lemma_unfold(state: LocatorState, system: System)
    requires
        state.wf(),
        !(state.phase is Finished),
    ensures
        state.step(system.event_for(state)).wf(),
        state.run(system) == state.step(system.event_for(state)).run(system),
        state.trace(system) == seq![state.pending()] + state.step(system.event_for(state)).trace(
            system,
        ),
{
    lemma_step(state, system);
}

/// A finished search stays as it is and asks nothing more.
proof fn lemma_finished(state: LocatorState, system: System)
    requires
        state.phase is Finished,
    ensures
        state.run(system) == state,
        state.trace(system) == Seq::<Request>::empty(),
{
}

/// The release of a process: it ends the search where the process was
/// recognised, and turns it to the next candidate where not.
proof fn lemma_release(state: LocatorState, system: System)
    requires
        state.wf(),
        state.phase is Closing,
    ensures
        ({
            let release = seq![Request::Close { process: state.phase->Closing_process }];
            let index = state.phase->Closing_index;
            match state.phase->Closing_found {
                Some(path) => {
                    &&& state.run(system) == state.at(Phase::Finished { result: Ok(path) })
                    &&& state.trace(system) == release
                },
                None => {
                    &&& state.run(system) == state.seek(index + 1).run(system)
                    &&& state.trace(system) == release + state.seek(index + 1).trace(system)
                },
            }
        }),
{
    lemma_unfold(state, system);
    let next = state.step(system.event_for(state));
    if state.phase->Closing_found is Some {
        lemma_finished(next, system);
    }
}

/// The visit to one candidate: it makes the requests of the visit, and
/// either ends the search with the path found or leaves it at the next
/// candidate.
proof fn lemma_visit(state: LocatorState, system: System)
    requires
        state.wf(),
        state.phase is Opening,
    ensures
        ({
            let index = state.phase->Opening_index;
            let probe = (system.probe)(index);
            let visit = probe.visit(state.ids[index], state.name);
            match probe.hit(state.name) {
                Some(hit) => {
                    &&& state.run(system) == state.at(Phase::Finished { result: Ok(hit.path) })
                    &&& state.trace(system) == visit
                },
                None => {
                    &&& state.run(system) == state.seek(index + 1).run(system)
                    &&& state.trace(system) == visit + state.seek(index + 1).trace(system)
                },
            }
        }),
{
    let index = state.phase->Opening_index;
    let probe = (system.probe)(index);
    let name = state.name;
    let visit = probe.visit(state.ids[index], name);
    let rest = state.seek(index + 1);
    lemma_unfold(state, system);
    let s1 = state.step(system.event_for(state));
    match probe.process {
        None => {
            assert(s1 == rest);
            assert(state.trace(system) =~= visit + rest.trace(system));
        },
        Some(process) => {
            lemma_unfold(s1, system);
            let s2 = s1.step(system.event_for(s1));
            if probe.image_matches(name) {
                lemma_release(s2, system);
                assert(state.trace(system) =~= visit);
            } else {
                lemma_unfold(s2, system);
                let s3 = s2.step(system.event_for(s2));
                match probe.module {
                    None => {
                        lemma_release(s3, system);
                        assert(s3.seek(index + 1) == rest);
                        assert(state.trace(system) =~= visit + rest.trace(system));
                    },
                    Some(module) => {
                        lemma_unfold(s3, system);
                        let s4 = s3.step(system.event_for(s3));
                        if probe.module_file_matches(name) {
                            lemma_release(s4, system);
                            assert(state.trace(system) =~= visit);
                        } else {
                            lemma_unfold(s4, system);
                            let s5 = s4.step(system.event_for(s4));
                            if probe.base_name_matches(name) {
                                lemma_unfold(s5, system);
                                let s6 = s5.step(system.event_for(s5));
                                lemma_release(s6, system);
                                assert(s6.seek(index + 1) == rest);
                                if probe.module_file_again.text() is Some {
                                    assert(state.trace(system) =~= visit);
                                } else {
                                    assert(state.trace(system) =~= visit + rest.trace(system));
                                }
                            } else {
                                lemma_release(s5, system);
                                assert(s5.seek(index + 1) == rest);
                                assert(state.trace(system) =~= visit + rest.trace(system));
                            }
                        }
                    },
                }
            }
        },
    }
}

/// The search from one position on: it ends with the first process
/// recognised at or after that position, or without a match, having made
/// the visits up to there.
proof fn lemma_from(state: LocatorState, system: System, from: int)
    requires
        state.ids == system.ids(),
        0 <= from <= state.ids.len(),
    ensures
        state.seek(from).run(system) == state.at(
            Phase::Finished {
                result: match system.first_hit(state.name, from) {
                    Some((_, hit)) => Ok(hit.path),
                    None => Err(ErrorView::NotFound(state.name)),
                },
            },
        ),
        state.seek(from).trace(system) == system.visits(state.name, from),
    decreases state.ids.len() - from,
{
    let here = state.seek(from);
    lemma_next_candidate(state.ids, from);
    if from >= state.ids.len() {
        lemma_finished(here, system);
    } else if state.ids[from] == 0 {
        lemma_from(state, system, from + 1);
        assert(here == state.seek(from + 1));
    } else {
        lemma_visit(here, system);
        assert(here.seek(from + 1) == state.seek(from + 1));
        if (system.probe)(from).hit(state.name) is None {
            lemma_from(state, system, from + 1);
        }
    }
}

/// Whatever the system answers, the search for a name ends with the outcome
/// that the answers determine, after exactly the requests that they call
/// for, and holding no handle. Every process whose identifier is not zero is
/// visited in the system's order until one is recognised; each visit
/// releases the handle it obtained before anything else is opened or the
/// result is out.
pub proof fn lemma_search(name: Seq<char>, supported: bool, system: System)
    ensures
        LocatorState::initial(name, supported).run(system).phase == (Phase::Finished {
            result: system.outcome(name, supported),
        }),
        LocatorState::initial(name, supported).trace(system) == system.requests(name, supported),
        LocatorState::initial(name, supported).run(system).held() is None,
{
    let start = LocatorState::initial(name, supported);
    if !supported {
        lemma_finished(start, system);
    } else {
        lemma_unfold(start, system);
        let next = start.step(system.event_for(start));
        match system.enumeration {
            None => {
                lemma_finished(next, system);
                assert(start.trace(system) =~= system.requests(name, supported));
            },
            Some((ids, bytes_returned)) => {
                let listed = LocatorState { name, ids: system.ids(), phase: Phase::Enumerating };
                assert(next == listed.seek(0));
                lemma_from(listed, system, 0);
            },
        }
    }
}

/// On a platform without the facilities the search fails at once, whatever
/// the name, and asks nothing of the system.
pub proof fn lemma_unsupported_platform(name: Seq<char>, system: System)
    ensures
        LocatorState::initial(name, false).pending() == Request::Done,
        LocatorState::initial(name, false).run(system).phase == (Phase::Finished {
            result: Err(ErrorView::UnsupportedPlatform),
        }),
        LocatorState::initial(name, false).trace(system) == Seq::<Request>::empty(),
{
    lemma_search(name, false, system);
}

/// The process that a search settles on is the first, in the system's
/// order, whose identifier is not zero and which is recognised; where it
/// settles on none, no such process is among those considered.
pub proof fn lemma_first_hit(system: System, name: Seq<char>, from: int)
    requires
        0 <= from,
    ensures
        match system.first_hit(name, from) {
            Some((at, hit)) => {
                &&& from <= at < system.ids().len()
                &&& system.ids()[at] != 0
                &&& (system.probe)(at).hit(name) == Some(hit)
                &&& forall|i: int|
                    from <= i < at ==> system.ids()[i] == 0 || (#[trigger] (system.probe)(i)).hit(
                        name,
                    ) is None
            },
            None => forall|i: int|
                from <= i < system.ids().len() ==> system.ids()[i] == 0 || (#[trigger] (
                system.probe)(i)).hit(name) is None,
        },
    decreases system.ids().len() - from,
{
    if from < system.ids().len() && !(system.ids()[from] != 0 && (system.probe)(from).hit(name)
        is Some) {
        lemma_first_hit(system, name, from + 1);
    }
}

impl System {
    /// Whether the search settles on a process recognised by the base name
    /// of its module alone, the path returned for it bearing another name.
    pub open spec fn found_by_base_name_only(self, name: Seq<char>) -> bool {
        self.first_hit(name, 0) matches Some((_, hit)) && hit.strategy is ModuleBaseName
            && !same_name(base_name_of(hit.path), name)
    }
}

/// The path that a search returns bears the requested name but for letter
/// case, unless the process was recognised by the base name of its module
/// alone.
pub proof fn lemma_found_path_bears_name(name: Seq<char>, system: System)
    requires
        system.outcome(name, true) is Ok,
        !system.found_by_base_name_only(name),
    ensures
        same_name(base_name_of(system.outcome(name, true)->Ok_0), name),
{
    lemma_first_hit(system, name, 0);
}

/// A search ends without a match exactly when none of the processes
/// considered is recognised, and then it has opened, or tried to open,
/// every one of them whose identifier is not zero.
pub proof fn lemma_not_found(name: Seq<char>, system: System)
    requires
        system.enumeration is Some,
    ensures
        system.outcome(name, true) == Err::<Seq<char>, ErrorView>(ErrorView::NotFound(name))
            <==> forall|i: int|
            0 <= i < system.ids().len() ==> system.ids()[i] == 0 || (#[trigger] (system.probe)(
                i,
            )).hit(name) is None,
        system.outcome(name, true) is Err ==> forall|i: int|
            0 <= i < system.ids().len() && system.ids()[i] != 0 ==> system.requests(
                name,
                true,
            ).contains(open_of(#[trigger] system.ids()[i])),
{
    lemma_first_hit(system, name, 0);
    if system.outcome(name, true) is Err {
        let requests = system.requests(name, true);
        let visits = system.visits(name, 0);
        assert forall|i: int|
            0 <= i < system.ids().len() && system.ids()[i] != 0 implies requests.contains(
            open_of(#[trigger] system.ids()[i]),
        ) by {
            let open = open_of(system.ids()[i]);
            lemma_visits_open(system, name, 0, i);
            let k = choose|k: int| 0 <= k < visits.len() && visits[k] == open;
            assert(requests[k + 1] == open);
        }
    }
}

/// Where no process from `from` on is recognised, the visits from there on
/// include the open of each process whose identifier is not zero.
proof fn lemma_visits_open(system: System, name: Seq<char>, from: int, at: int)
    requires
        0 <= from <= at < system.ids().len(),
        system.ids()[at] != 0,
        system.first_hit(name, from) is None,
    ensures
        system.visits(name, from).contains(open_of(system.ids()[at])),
    decreases at - from,
{
    let open = open_of(system.ids()[at]);
    if from == at {
        assert(system.visits(name, from)[0] == open);
    } else {
        lemma_visits_open(system, name, from + 1, at);
        let rest = system.visits(name, from + 1);
        let k = choose|k: int| 0 <= k < rest.len() && rest[k] == open;
        if system.ids()[from] != 0 {
            let visit = (system.probe)(from).visit(system.ids()[from], name);
            assert(system.visits(name, from)[visit.len() + k] == open);
        }
    }
}

/// Letter case is of no account: two names that are the same but for case
/// lead to the same process, by the same strategy, with the same path, after
/// the same requests.
pub proof fn lemma_case_insensitive(a: Seq<char>, b: Seq<char>, system: System, supported: bool)
    requires
        same_name(a, b),
    ensures
        system.first_hit(a, 0) == system.first_hit(b, 0),
        system.requests(a, supported) == system.requests(b, supported),
        system.outcome(a, supported) is Ok ==> system.outcome(b, supported) == system.outcome(
            a,
            supported,
        ),
        system.outcome(a, supported) == Err::<Seq<char>, ErrorView>(ErrorView::NotFound(a))
            <==> system.outcome(b, supported) == Err::<Seq<char>, ErrorView>(
            ErrorView::NotFound(b),
        ),
{
    lemma_same_search(a, b, system, 0);
}

/// From any position on, two names that are the same but for case are
/// searched for alike.
proof fn lemma_same_search(a: Seq<char>, b: Seq<char>, system: System, from: int)
    requires
        same_name(a, b),
    ensures
        system.first_hit(a, from) == system.first_hit(b, from),
        system.visits(a, from) == system.visits(b, from),
    decreases system.ids().len() - from,
{
    if 0 <= from < system.ids().len() {
        let probe = (system.probe)(from);
        assert(probe.hit(a) == probe.hit(b));
        assert(probe.visit(system.ids()[from], a) == probe.visit(system.ids()[from], b));
        lemma_same_search(a, b, system, from + 1);
    }
}

/// A handle is held from the answer that gave it to the answer that reports
/// its release, and every request in between is made on it. No second
/// process is opened while one is held, and a finished search holds none.
pub proof fn lemma_handle_lifecycle(state: LocatorState, reply: ReplyView)
    ensures
        match state.held() {
            Some(process) => {
                &&& state.pending().process() == Some(process)
                &&& state.advance(reply).held() == Some(process) || (state.advance(reply).held()
                    is None && state.pending() == (Request::Close { process }) && reply
                    == ReplyView::Closed)
            },
            None => {
                &&& state.pending().process() is None
                &&& state.advance(reply).held() matches Some(process) ==> state.pending()
                    is OpenProcess && reply == ReplyView::Process(process)
            },
        },
        state.phase is Finished ==> state.held() is None,
{
}

} // verus!
