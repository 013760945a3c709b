//! The start-up protocol of the worker, as a state machine.
//!
//! The stages run: resolving the resource directory, checking that the
//! executable exists, spawning it, and waiting for its port on its output.
//! Each stage asks the host for one [`Action`]; the host performs it and hands
//! back the [`Event`] that came of it. The first failure, or the port, ends the
//! run in [`Stage::Finished`].

use vstd::prelude::*;
use crate::error::{StartupError, StartupFailure};
use crate::marker::{scan_line, scan_spec, LineScan};
use crate::text::{join_path, lossy_text, path_join};

verus! {

/// Something the worker's output stream delivers.
#[derive(Debug, PartialEq, Eq)]
pub enum WorkerEvent {
    /// A line on standard output.
    Stdout(Vec<u8>),
    /// A line on standard error; it is log output and is ignored.
    Stderr(Vec<u8>),
    /// An error reported on the worker's error channel.
    Error(String),
    /// The worker ended, with its exit code if it has one.
    Terminated(Option<i32>),
    /// Any other event; ignored.
    Other,
}

/// The mathematical value of a [`WorkerEvent`]; a line on standard output is
/// seen as the text it decodes to.
pub enum WorkerEventModel {
    Stdout(Seq<char>),
    Stderr(Seq<u8>),
    Error(Seq<char>),
    Terminated(Option<i32>),
    Other,
}

impl View for WorkerEvent {
    type V = WorkerEventModel;

    open spec fn view(&self) -> WorkerEventModel {
        match self {
            WorkerEvent::Stdout(b) => WorkerEventModel::Stdout(lossy_text(b@)),
            WorkerEvent::Stderr(b) => WorkerEventModel::Stderr(b@),
            WorkerEvent::Error(s) => WorkerEventModel::Error(s@),
            WorkerEvent::Terminated(c) => WorkerEventModel::Terminated(*c),
            WorkerEvent::Other => WorkerEventModel::Other,
        }
    }
}

/// What came of the action the supervisor asked for.
#[derive(Debug, PartialEq, Eq)]
pub enum Event {
    /// The resource directory, or why it could not be found.
    ResourceDir(Result<String, String>),
    /// Whether the executable exists.
    ExecutableChecked(bool),
    /// Whether the worker could be started, and if not why.
    Spawned(Result<(), String>),
    /// The next event of the worker's output.
    Output(WorkerEvent),
    /// The worker's output stream has ended.
    OutputClosed,
}

/// The mathematical value of an [`Event`].
pub enum EventModel {
    ResourceDir(Result<Seq<char>, Seq<char>>),
    ExecutableChecked(bool),
    Spawned(Result<(), Seq<char>>),
    Output(WorkerEventModel),
    OutputClosed,
}

impl View for Event {
    type V = EventModel;

    open spec fn view(&self) -> EventModel {
        match self {
            Event::ResourceDir(Ok(s)) => EventModel::ResourceDir(Ok(s@)),
            Event::ResourceDir(Err(e)) => EventModel::ResourceDir(Err(e@)),
            Event::ExecutableChecked(b) => EventModel::ExecutableChecked(*b),
            Event::Spawned(Ok(())) => EventModel::Spawned(Ok(())),
            Event::Spawned(Err(e)) => EventModel::Spawned(Err(e@)),
            Event::Output(w) => EventModel::Output(w@),
            Event::OutputClosed => EventModel::OutputClosed,
        }
    }
}

/// The mathematical value of an outcome.
pub open spec fn outcome_view(o: Result<u16, StartupError>) -> Result<u16, StartupFailure> {
    match o {
        Ok(p) => Ok(p),
        Err(e) => Err(e@),
    }
}

/// Where a start-up stands.
#[derive(Debug, PartialEq, Eq)]
pub enum Stage {
    ResolvingPath,
    /// Checking that the executable at this path exists.
    CheckingExistence(String),
    /// Starting the executable at this path.
    Spawning(String),
    AwaitingHandshake,
    /// Done, with the port or the failure.
    Finished(Result<u16, StartupError>),
}

/// The mathematical value of a [`Stage`].
pub enum StageModel {
    ResolvingPath,
    CheckingExistence(Seq<char>),
    Spawning(Seq<char>),
    AwaitingHandshake,
    Finished(Result<u16, StartupFailure>),
}

impl View for Stage {
    type V = StageModel;

    open spec fn view(&self) -> StageModel {
        match self {
            Stage::ResolvingPath => StageModel::ResolvingPath,
            Stage::CheckingExistence(p) => StageModel::CheckingExistence(p@),
            Stage::Spawning(p) => StageModel::Spawning(p@),
            Stage::AwaitingHandshake => StageModel::AwaitingHandshake,
            Stage::Finished(o) => StageModel::Finished(outcome_view(*o)),
        }
    }
}

/// What the supervisor asks the host to do next.
#[derive(Debug, PartialEq, Eq)]
pub enum Action {
    /// Locate the application's resource directory.
    ResolveResourceDir,
    /// Check whether something exists at this path.
    CheckExists(String),
    /// Start this program with these arguments, and watch its output.
    Spawn(String, Vec<String>),
    /// Wait for the next event of the worker's output.
    Receive,
    /// Report this outcome; the start-up is over.
    Finish(Result<u16, StartupError>),
}

/// The mathematical value of an [`Action`].
pub enum ActionModel {
    ResolveResourceDir,
    CheckExists(Seq<char>),
    Spawn(Seq<char>, Seq<Seq<char>>),
    Receive,
    Finish(Result<u16, StartupFailure>),
}

impl View for Action {
    type V = ActionModel;

    open spec fn view(&self) -> ActionModel {
        match self {
            Action::ResolveResourceDir => ActionModel::ResolveResourceDir,
            Action::CheckExists(p) => ActionModel::CheckExists(p@),
            Action::Spawn(p, args) => ActionModel::Spawn(p@, args@.map_values(|a: String| a@)),
            Action::Receive => ActionModel::Receive,
            Action::Finish(o) => ActionModel::Finish(outcome_view(*o)),
        }
    }
}

/// Where the executable lies under a resource directory: the file
/// `shipagent-core` in its directory `backend-dist`.
pub open spec fn executable_path_of(root: Seq<char>) -> Seq<char> {
    path_join(path_join(root, "backend-dist"@), "shipagent-core"@)
}

/// The arguments the worker is started with: serve, on a port the system picks.
pub open spec fn worker_args() -> Seq<Seq<char>> {
    seq!["serve"@, "--port"@, "0"@]
}

/// How one event of the worker's output ends the handshake, if it does.
pub open spec fn react_spec(e: WorkerEventModel) -> Option<Result<u16, StartupFailure>> {
    match e {
        WorkerEventModel::Stdout(text) => match scan_spec(text) {
            LineScan::Log => None,
            LineScan::Marker(Some(port)) => Some(Ok(port)),
            LineScan::Marker(None) => Some(Err(StartupFailure::NoPortReported)),
        },
        WorkerEventModel::Error(m) => Some(Err(StartupFailure::Stream(m))),
        WorkerEventModel::Terminated(c) => Some(Err(StartupFailure::EarlyTermination(c))),
        WorkerEventModel::Stderr(_) => None,
        WorkerEventModel::Other => None,
    }
}

/// The stage after an event. An event that the stage does not wait for
/// leaves it as it is.
pub open spec fn step(s: StageModel, e: EventModel) -> StageModel {
    match (s, e) {
        (StageModel::ResolvingPath, EventModel::ResourceDir(Ok(root))) => StageModel::CheckingExistence(
            executable_path_of(root),
        ),
        (StageModel::ResolvingPath, EventModel::ResourceDir(Err(m))) => StageModel::Finished(
            Err(StartupFailure::ResourceResolution(m)),
        ),
        (StageModel::CheckingExistence(p), EventModel::ExecutableChecked(found)) => if found {
            StageModel::Spawning(p)
        } else {
            StageModel::Finished(Err(StartupFailure::ExecutableNotFound(p)))
        },
        (StageModel::Spawning(_), EventModel::Spawned(Ok(()))) => StageModel::AwaitingHandshake,
        (StageModel::Spawning(_), EventModel::Spawned(Err(m))) => StageModel::Finished(
            Err(StartupFailure::Spawn(m)),
        ),
        (StageModel::AwaitingHandshake, EventModel::Output(w)) => match react_spec(w) {
            Some(o) => StageModel::Finished(o),
            None => StageModel::AwaitingHandshake,
        },
        (StageModel::AwaitingHandshake, EventModel::OutputClosed) => StageModel::Finished(
            Err(StartupFailure::NoPortReported),
        ),
        (s, _) => s,
    }
}

/// The action a stage asks for.
pub open spec fn action_of(s: StageModel) -> ActionModel {
    match s {
        StageModel::ResolvingPath => ActionModel::ResolveResourceDir,
        StageModel::CheckingExistence(p) => ActionModel::CheckExists(p),
        StageModel::Spawning(p) => ActionModel::Spawn(p, worker_args()),
        StageModel::AwaitingHandshake => ActionModel::Receive,
        StageModel::Finished(o) => ActionModel::Finish(o),
    }
}

/// The stage reached from `s` after the events `es`, in order.
pub open spec fn run(s: StageModel, es: Seq<EventModel>) -> StageModel
    decreases es.len(),
{
    if es.len() == 0 {
        s
    } else {
        run(step(s, es[0]), es.drop_first())
    }
}

/// The path of the worker's executable under a resource directory.
pub fn executable_path(root: &str) -> (r: String)
    ensures
        r@ == executable_path_of(root@),
{
    let dir = join_path(root, "backend-dist");
    join_path(dir.as_str(), "shipagent-core")
}

fn worker_arg_strings() -> (r: Vec<String>)
    ensures
        r@.map_values(|a: String| a@) == worker_args(),
{
    let r = vec![String::from_str("serve"), String::from_str("--port"), String::from_str("0")];
    assert(r@.map_values(|a: String| a@) =~= worker_args());
    r
}

fn copy_outcome(o: &Result<u16, StartupError>) -> (r: Result<u16, StartupError>)
    ensures
        outcome_view(r) == outcome_view(*o),
{
    match o {
        Ok(p) => Ok(*p),
        Err(e) => Err(e.duplicate()),
    }
}

/// How one event of the worker's output ends the handshake: `None` while the
/// handshake goes on, else its outcome.
pub fn react(event: &WorkerEvent) -> (r: Option<Result<u16, StartupError>>)
    ensures
        match r {
            None => react_spec(event@) is None,
            Some(o) => react_spec(event@) == Some(outcome_view(o)),
        },
{
    match event {
        WorkerEvent::Stdout(line) => match scan_line(line.as_slice()) {
            LineScan::Log => None,
            LineScan::Marker(Some(port)) => Some(Ok(port)),
            LineScan::Marker(None) => Some(Err(StartupError::NoPortReported)),
        },
        WorkerEvent::Error(m) => Some(Err(StartupError::Stream(m.clone()))),
        WorkerEvent::Terminated(c) => Some(Err(StartupError::EarlyTermination(*c))),
        WorkerEvent::Stderr(_) => None,
        WorkerEvent::Other => None,
    }
}

/// Drives one start-up of the worker.
pub struct Supervisor {
    pub stage: Stage,
}

impl View for Supervisor {
    type V = StageModel;

    open spec fn view(&self) -> StageModel {
        self.stage@
    }
}

impl Supervisor {
    /// A start-up that has not begun: it first asks for the resource directory.
    pub fn new() -> (r: Supervisor)
        ensures
            r@ == StageModel::ResolvingPath,
    {
        Supervisor { stage: Stage::ResolvingPath }
    }

    /// Whether the start-up is over.
    pub fn is_finished(&self) -> (r: bool)
        ensures
            r == (self@ is Finished),
    {
        match self.stage {
            Stage::Finished(_) => true,
            _ => false,
        }
    }

    /// What the host is to do next.
    pub fn action(&self) -> (r: Action)
        ensures
            r@ == action_of(self@),
    {
        match &self.stage {
            Stage::ResolvingPath => Action::ResolveResourceDir,
            Stage::CheckingExistence(p) => Action::CheckExists(p.clone()),
            Stage::Spawning(p) => Action::Spawn(p.clone(), worker_arg_strings()),
            Stage::AwaitingHandshake => Action::Receive,
            Stage::Finished(o) => Action::Finish(copy_outcome(o)),
        }
    }

    /// Takes in what came of the last action.
    pub fn handle(&mut self, event: Event)
        ensures
            final(self)@ == step(old(self)@, event@),
    {
        let mut stage = Stage::AwaitingHandshake;
        std::mem::swap(&mut self.stage, &mut stage);
        let next = match (stage, event) {
            (Stage::ResolvingPath, Event::ResourceDir(Ok(root))) => Stage::CheckingExistence(
                executable_path(root.as_str()),
            ),
            (Stage::ResolvingPath, Event::ResourceDir(Err(m))) => Stage::Finished(
                Err(StartupError::ResourceResolution(m)),
            ),
            (Stage::CheckingExistence(p), Event::ExecutableChecked(found)) => if found {
                Stage::Spawning(p)
            } else {
                Stage::Finished(Err(StartupError::ExecutableNotFound(p)))
            },
            (Stage::Spawning(_), Event::Spawned(Ok(()))) => Stage::AwaitingHandshake,
            (Stage::Spawning(_), Event::Spawned(Err(m))) => Stage::Finished(
                Err(StartupError::Spawn(m)),
            ),
            (Stage::AwaitingHandshake, Event::Output(w)) => match react(&w) {
                Some(o) => Stage::Finished(o),
                None => Stage::AwaitingHandshake,
            },
            (Stage::AwaitingHandshake, Event::OutputClosed) => Stage::Finished(
                Err(StartupError::NoPortReported),
            ),
            (s, _) => s,
        };
        self.stage = next;
    }
}

} // verus!
