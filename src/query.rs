//! The exchange with the service manager, one request and reply at a time.
//!
//! Resolving a process id and inspecting its unit takes four round trips,
//! each built from the reply to the one before: the unit owning the pid, the
//! interfaces of that unit's object, its memory counter through the service
//! or scope interface, and its id through the unit interface. The caller
//! performs each [`Query`] on its bus connection and hands the outcome back
//! to [`advance`] as an [`Answer`].

use crate::focus::{parse_pid, pid_in_output};
use crate::interfaces::{
    first_kind, interface_names, introspected_interfaces, names_view, unit_kind_of, UnitKind,
};
use vstd::prelude::*;

verus! {

/// What is learnt of a unit: its name and its current memory use in bytes.
#[derive(Clone, Debug, PartialEq, Eq)]
pub struct UnitInfo {
    pub id: String,
    pub memory_bytes: u64,
}

/// Why no [`UnitInfo`] came out.
#[derive(Clone, Copy, Debug, PartialEq, Eq, Structural)]
pub enum UnitError {
    /// The window-focus helper could not be started.
    HelperMissing,
    /// The helper's output is not a process id.
    HelperOutputInvalid,
    /// The manager maps the process id to no unit.
    NoOwningUnit,
    /// The unit is neither a service nor a scope.
    UnsupportedUnitType,
    /// The bus failed, or a reply could not be read.
    TransportFailure,
    /// A property of the unit could not be read.
    PropertyReadFailure,
}

/// A request that the caller is to make on the bus.
#[derive(Clone, Debug, PartialEq, Eq)]
pub enum Query {
    /// The manager's `GetUnitByPID` for this process id.
    UnitByPid(u32),
    /// Introspection of the unit object at this path.
    Introspect(String),
    /// `MemoryCurrent` of the unit at `path`, through the interface of `kind`.
    Memory { kind: UnitKind, path: String },
    /// `Id` of the unit at `path`, through the unit interface; the memory
    /// counter has already been read.
    Id { path: String, memory_bytes: u64 },
}

/// The outcome of a [`Query`].
#[derive(Clone, Debug, PartialEq, Eq)]
pub enum Answer {
    /// The object path that `GetUnitByPID` returned.
    Path(String),
    /// The introspection document.
    Xml(String),
    /// The value of `MemoryCurrent`.
    Memory(u64),
    /// The value of `Id`.
    Id(String),
    /// The call failed.
    Failed,
}

/// Where the exchange stands after a reply.
#[derive(Debug, PartialEq, Eq)]
pub enum Step {
    /// Another request is needed.
    Ask(Query),
    /// The exchange is over.
    Finished(Result<UnitInfo, UnitError>),
}

/// The step that an introspection listing `names` leads to for the unit at
/// `path`.
pub open spec fn step_after_interfaces(path: String, names: Seq<Seq<char>>) -> Step {
    match first_kind(names) {
        Some(kind) => Step::Ask(Query::Memory { kind, path }),
        None => Step::Finished(Err(UnitError::UnsupportedUnitType)),
    }
}

/// The step that answer `a` to query `q` leads to. An answer of another shape
/// than the query asks for is a transport failure.
pub open spec fn next_step(q: Query, a: Answer) -> Step {
    match q {
        Query::UnitByPid(_) => match a {
            Answer::Path(path) => Step::Ask(Query::Introspect(path)),
            Answer::Failed => Step::Finished(Err(UnitError::NoOwningUnit)),
            _ => Step::Finished(Err(UnitError::TransportFailure)),
        },
        Query::Introspect(path) => match a {
            Answer::Xml(xml) => match introspected_interfaces(xml@) {
                Some(names) => step_after_interfaces(path, names),
                None => Step::Finished(Err(UnitError::TransportFailure)),
            },
            _ => Step::Finished(Err(UnitError::TransportFailure)),
        },
        Query::Memory { kind: _, path } => match a {
            Answer::Memory(m) => Step::Ask(Query::Id { path, memory_bytes: m }),
            Answer::Failed => Step::Finished(Err(UnitError::PropertyReadFailure)),
            _ => Step::Finished(Err(UnitError::TransportFailure)),
        },
        Query::Id { path: _, memory_bytes } => match a {
            Answer::Id(id) => Step::Finished(Ok(UnitInfo { id, memory_bytes })),
            Answer::Failed => Step::Finished(Err(UnitError::PropertyReadFailure)),
            _ => Step::Finished(Err(UnitError::TransportFailure)),
        },
    }
}

/// The step reached from query `q` by the answers in order; answers after
/// the exchange has finished change nothing.
pub open spec fn run(q: Query, answers: Seq<Answer>) -> Step
    decreases answers.len(),
{
    if answers.len() == 0 {
        Step::Ask(q)
    } else {
        match next_step(q, answers[0]) {
            Step::Ask(q2) => run(q2, answers.drop_first()),
            Step::Finished(r) => Step::Finished(r),
        }
    }
}

/// The first request for process `pid`: the unit that owns it.
pub fn start(pid: u32) -> (r: Step)
    ensures
        r == Step::Ask(Query::UnitByPid(pid)),
{
    Step::Ask(Query::UnitByPid(pid))
}

/// The first step for the output of the window-focus helper: the unit that
/// owns the process id it printed, or an error where it printed none.
pub fn start_from_output(out: &[u8]) -> (r: Step)
    ensures
        r == match pid_in_output(out@) {
            Some(pid) => Step::Ask(Query::UnitByPid(pid)),
            None => Step::Finished(Err(UnitError::HelperOutputInvalid)),
        },
{
    match parse_pid(out) {
        Some(pid) => start(pid),
        None => Step::Finished(Err(UnitError::HelperOutputInvalid)),
    }
}

/// The request that follows the introspection of the unit at `path`, whose
/// object implements `names`: its memory counter through the first service or
/// scope interface listed; with neither, the unit is not supported.
pub fn step_for_interfaces(path: String, names: &Vec<String>) -> (r: Step)
    ensures
        r == step_after_interfaces(path, names_view(names@)),
{
    match unit_kind_of(names) {
        Some(kind) => Step::Ask(Query::Memory { kind, path }),
        None => Step::Finished(Err(UnitError::UnsupportedUnitType)),
    }
}

/// The step that answer `a` to query `q` leads to.
pub fn advance(q: Query, a: Answer) -> (r: Step)
    ensures
        r == next_step(q, a),
{
    match q {
        Query::UnitByPid(_) => match a {
            Answer::Path(path) => Step::Ask(Query::Introspect(path)),
            Answer::Failed => Step::Finished(Err(UnitError::NoOwningUnit)),
            _ => Step::Finished(Err(UnitError::TransportFailure)),
        },
        Query::Introspect(path) => match a {
            Answer::Xml(xml) => match interface_names(xml.as_str()) {
                Some(names) => step_for_interfaces(path, &names),
                None => Step::Finished(Err(UnitError::TransportFailure)),
            },
            _ => Step::Finished(Err(UnitError::TransportFailure)),
        },
        Query::Memory { kind: _, path } => match a {
            Answer::Memory(m) => Step::Ask(Query::Id { path, memory_bytes: m }),
            Answer::Failed => Step::Finished(Err(UnitError::PropertyReadFailure)),
            _ => Step::Finished(Err(UnitError::TransportFailure)),
        },
        Query::Id { path: _, memory_bytes } => match a {
            Answer::Id(id) => Step::Finished(Ok(UnitInfo { id, memory_bytes })),
            Answer::Failed => Step::Finished(Err(UnitError::PropertyReadFailure)),
            _ => Step::Finished(Err(UnitError::TransportFailure)),
        },
    }
}

} // verus!
