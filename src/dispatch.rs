use vstd::prelude::*;

use crate::commands::{
    capability_set, desktop_capabilities, health_check, health_reply, token_texts,
};

verus! {

/// Name under which the front-end invokes `health_check`.
pub const HEALTH_CHECK_NAME: &'static str = "health_check";

/// Name under which the front-end invokes `desktop_capabilities`.
pub const DESKTOP_CAPABILITIES_NAME: &'static str = "desktop_capabilities";

/// The registered operations: the whole surface that the host exposes.
#[derive(Clone, Copy, Debug, PartialEq, Eq, Structural)]
pub enum Command {
    HealthCheck,
    DesktopCapabilities,
}

/// What an operation hands back to the front-end.
#[derive(Debug)]
pub enum Reply {
    Text(String),
    Tokens(Vec<&'static str>),
}

/// Mathematical model of a `Reply`.
pub enum ReplyModel {
    Text(Seq<char>),
    Tokens(Seq<Seq<char>>),
}

impl View for Reply {
    type V = ReplyModel;

    open spec fn view(&self) -> ReplyModel {
        match self {
            Reply::Text(s) => ReplyModel::Text(s@),
            Reply::Tokens(v) => ReplyModel::Tokens(token_texts(v@)),
        }
    }
}

/// Why the host refused an invocation.
#[derive(Clone, Copy, Debug, PartialEq, Eq, Structural)]
pub enum DispatchError {
    /// No operation is registered under the requested name.
    UnknownCommand,
}

/// The operation registered under `name`, if any.
pub open spec fn command_of(name: Seq<char>) -> Option<Command> {
    if name == HEALTH_CHECK_NAME@ {
        Some(Command::HealthCheck)
    } else if name == DESKTOP_CAPABILITIES_NAME@ {
        Some(Command::DesktopCapabilities)
    } else {
        None
    }
}

/// The answer of an operation.
pub open spec fn reply_of(c: Command) -> ReplyModel {
    match c {
        Command::HealthCheck => ReplyModel::Text(health_reply()),
        Command::DesktopCapabilities => ReplyModel::Tokens(capability_set()),
    }
}

/// The outcome of invoking the name `name` through the host.
pub open spec fn outcome_of(name: Seq<char>) -> Result<ReplyModel, DispatchError> {
    match command_of(name) {
        Some(c) => Ok(reply_of(c)),
        None => Err(DispatchError::UnknownCommand),
    }
}

/// Model of a dispatch result.
pub open spec fn outcome_view(r: Result<Reply, DispatchError>) -> Result<ReplyModel, DispatchError> {
    match r {
        Ok(reply) => Ok(reply@),
        Err(e) => Err(e),
    }
}

/// Outcomes of a run of invocations, in the order they were made.
pub open spec fn outcomes_of(names: Seq<Seq<char>>) -> Seq<Result<ReplyModel, DispatchError>> {
    names.map_values(|n: Seq<char>| outcome_of(n))
}

impl Command {
    /// The name under which this operation is registered.
    pub open spec fn spec_name(self) -> Seq<char> {
        match self {
            Command::HealthCheck => HEALTH_CHECK_NAME@,
            Command::DesktopCapabilities => DESKTOP_CAPABILITIES_NAME@,
        }
    }

    /// Looks up the operation registered under `name`; exact match only.
    pub fn from_name(name: &str) -> (r: Option<Command>)
        ensures
            r == command_of(name@),
    {
        let n = name.to_owned();
        if n == HEALTH_CHECK_NAME.to_owned() {
            Some(Command::HealthCheck)
        } else if n == DESKTOP_CAPABILITIES_NAME.to_owned() {
            Some(Command::DesktopCapabilities)
        } else {
            None
        }
    }

    /// The name under which this operation is registered.
    pub fn name(&self) -> (r: &'static str)
        ensures
            r@ == self.spec_name(),
    {
        match self {
            Command::HealthCheck => HEALTH_CHECK_NAME,
            Command::DesktopCapabilities => DESKTOP_CAPABILITIES_NAME,
        }
    }

    /// Runs the operation; no operation can fail.
    pub fn invoke(&self) -> (r: Reply)
        ensures
            r@ == reply_of(*self),
    {
        match self {
            Command::HealthCheck => Reply::Text(health_check()),
            Command::DesktopCapabilities => Reply::Tokens(desktop_capabilities()),
        }
    }
}

/// Routes an invocation by name to the registered operation, as the host's
/// message bridge does. An unregistered name is refused here, before any
/// operation runs.
pub fn dispatch(name: &str) -> (r: Result<Reply, DispatchError>)
    ensures
        outcome_view(r) == outcome_of(name@),
{
    match Command::from_name(name) {
        Some(c) => Ok(c.invoke()),
        None => Err(DispatchError::UnknownCommand),
    }
}

/// The texts of a run of names.
pub open spec fn name_texts(names: Seq<&str>) -> Seq<Seq<char>> {
    names.map_values(|n: &str| n@)
}

/// Dispatches each name in turn and collects the outcomes in order.
pub fn dispatch_each(names: &Vec<&str>) -> (r: Vec<Result<Reply, DispatchError>>)
    ensures
        r@.map_values(|x: Result<Reply, DispatchError>| outcome_view(x)) == outcomes_of(
            name_texts(names@),
        ),
{
    let mut r: Vec<Result<Reply, DispatchError>> = Vec::new();
    let mut i: usize = 0;
    while i < names.len()
        invariant
            i <= names@.len(),
            r@.len() == i,
            forall|k: int| 0 <= k < i ==> outcome_view(#[trigger] r@[k]) == outcome_of(names@[k]@),
        decreases names@.len() - i,
    {
        r.push(dispatch(names[i]));
        i = i + 1;
    }
    assert(r@.map_values(|x: Result<Reply, DispatchError>| outcome_view(x)) =~= outcomes_of(
        name_texts(names@),
    ));
    r
}

/// Each registered operation is reached by its own name, and a name reaches
/// an operation only if it is exactly one of the registered names.
pub proof fn lemma_registered_names_only(name: Seq<char>)
    ensures
        command_of(name) is Some <==> (name == HEALTH_CHECK_NAME@ || name
            == DESKTOP_CAPABILITIES_NAME@),
        outcome_of(name) is Err <==> command_of(name) is None,
        command_of(Command::HealthCheck.spec_name()) == Some(Command::HealthCheck),
        command_of(Command::DesktopCapabilities.spec_name()) == Some(
            Command::DesktopCapabilities,
        ),
{
    reveal_strlit("health_check");
    reveal_strlit("desktop_capabilities");
    assert(HEALTH_CHECK_NAME@[0] != DESKTOP_CAPABILITIES_NAME@[0]);
}

/// Invocations share no state: in any run of invocations the outcome at a
/// position is that of its name alone, and a run made of two runs one after
/// the other gives the outcomes of each, in turn.
pub proof fn lemma_outcomes_ignore_history(a: Seq<Seq<char>>, b: Seq<Seq<char>>)
    ensures
        outcomes_of(a + b) == outcomes_of(a) + outcomes_of(b),
        forall|i: int| 0 <= i < a.len() ==> #[trigger] outcomes_of(a)[i] == outcome_of(a[i]),
        forall|i: int, j: int|
            0 <= i < a.len() && 0 <= j < a.len() && a[i] == a[j] ==> #[trigger] outcomes_of(a)[i]
                == #[trigger] outcomes_of(a)[j],
{
    assert(outcomes_of(a + b) =~= outcomes_of(a) + outcomes_of(b));
}

} // verus!
