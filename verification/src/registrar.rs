//! The start-up handshake that makes the service known to the input
//! framework, as a state machine: the registrar says what the host is to ask
//! of the bus next, the host reports how that went, and the registrar says
//! what follows.
//!
//! The service starts in one of two ways. Started by the framework, it
//! exports a factory and claims its well-known name; a failure there is
//! fatal. Started on its own, it asks the framework's daemon to register the
//! component; a failure there is not fatal, for the daemon may not be
//! running yet.

use crate::address::{daemon_address, factory_address, path_text, DAEMON_PATH, FACTORY_PATH};
use crate::descriptor::{
    component_content, content, create_component_description, thaime_component_record, Content,
    SERVICE_NAME,
};
use crate::factory::IBusEngineFactory;
use vstd::prelude::*;
use zvariant::{ObjectPath, Value};

verus! {

/// The bus name of the input framework's daemon.
pub const DAEMON_SERVICE: &'static str = "org.freedesktop.IBus";

/// The interface of the daemon's object.
pub const DAEMON_INTERFACE: &'static str = "org.freedesktop.IBus";

/// The daemon's method that registers a component.
pub const REGISTER_METHOD: &'static str = "RegisterComponent";

/// What the registrar is waiting for.
#[derive(Clone, Copy, Debug, PartialEq, Eq, Structural)]
pub enum Stage {
    /// The host exports the factory at its well-known address.
    ExportingFactory,
    /// The host claims the service's well-known name.
    ClaimingName,
    /// The host connects to the daemon's object.
    ConnectingDaemon,
    /// The host calls the daemon to register the component.
    RegisteringComponent,
}

/// What the registrar asks the host to do on the bus.
#[derive(Debug, PartialEq)]
pub enum BusRequest {
    /// Export `factory` at `address`.
    ExportFactory { address: ObjectPath<'static>, factory: IBusEngineFactory },
    /// Claim the well-known name `name`.
    ClaimName { name: String },
    /// Connect to the object at `path` of the service `destination`, by its
    /// interface `interface`.
    ConnectDaemon { destination: String, path: ObjectPath<'static>, interface: String },
    /// Call `method` of the daemon's object with `argument`.
    CallDaemon { method: String, argument: Value<'static> },
}

/// A request to the bus as a mathematical value.
pub enum Request {
    ExportFactory { address: Seq<char>, issued: nat },
    ClaimName { name: Seq<char> },
    ConnectDaemon { destination: Seq<char>, path: Seq<char>, interface: Seq<char> },
    CallDaemon { method: Seq<char>, argument: Content },
}

impl View for BusRequest {
    type V = Request;

    open spec fn view(&self) -> Request {
        match self {
            BusRequest::ExportFactory { address, factory } => Request::ExportFactory {
                address: path_text(*address),
                issued: factory@,
            },
            BusRequest::ClaimName { name } => Request::ClaimName { name: name@ },
            BusRequest::ConnectDaemon { destination, path, interface } => Request::ConnectDaemon {
                destination: destination@,
                path: path_text(*path),
                interface: interface@,
            },
            BusRequest::CallDaemon { method, argument } => Request::CallDaemon {
                method: method@,
                argument: content(*argument),
            },
        }
    }
}

/// How the host's request to the bus went.
#[derive(Debug, PartialEq, Eq)]
pub enum BusReply {
    /// The bus did what was asked.
    Done,
    /// The request failed; the reason is given.
    Failed(String),
}

/// A reply of the bus as a mathematical value.
pub enum Reply {
    Done,
    Failed(Seq<char>),
}

impl View for BusReply {
    type V = Reply;

    open spec fn view(&self) -> Reply {
        match self {
            BusReply::Done => Reply::Done,
            BusReply::Failed(reason) => Reply::Failed(reason@),
        }
    }
}

/// How the handshake ended.
#[derive(Debug, PartialEq, Eq)]
pub enum RegistrationOutcome {
    /// The service is known to the framework.
    Registered,
    /// The daemon could not be reached or refused; the service goes on
    /// without being registered.
    Deferred(String),
    /// The service cannot run: its factory could not be exported, or its
    /// name belongs to another process.
    Fatal(String),
}

/// The end of a handshake as a mathematical value.
pub enum Outcome {
    Registered,
    Deferred(Seq<char>),
    Fatal(Seq<char>),
}

impl View for RegistrationOutcome {
    type V = Outcome;

    open spec fn view(&self) -> Outcome {
        match self {
            RegistrationOutcome::Registered => Outcome::Registered,
            RegistrationOutcome::Deferred(reason) => Outcome::Deferred(reason@),
            RegistrationOutcome::Fatal(reason) => Outcome::Fatal(reason@),
        }
    }
}

impl RegistrationOutcome {
    /// Whether the service has to stop.
    pub fn is_fatal(&self) -> (fatal: bool)
        ensures
            fatal == (self@ is Fatal),
    {
        match self {
            RegistrationOutcome::Registered => false,
            RegistrationOutcome::Deferred(_) => false,
            RegistrationOutcome::Fatal(_) => true,
        }
    }
}

/// What follows a reply of the bus, as a mathematical value.
pub enum Step {
    /// The handshake goes on at the given stage.
    Next(Stage),
    /// The handshake is over.
    Finished(Outcome),
}

/// The stage at which the handshake starts: with the export of the factory
/// where the framework started the service, with the connection to the
/// daemon where it did not.
pub open spec fn first_stage(exec_by_ibus: bool) -> Stage {
    if exec_by_ibus {
        Stage::ExportingFactory
    } else {
        Stage::ConnectingDaemon
    }
}

/// What the host is asked to do at a stage.
pub open spec fn request_at(stage: Stage) -> Request {
    match stage {
        Stage::ExportingFactory => Request::ExportFactory { address: FACTORY_PATH@, issued: 0 },
        Stage::ClaimingName => Request::ClaimName { name: SERVICE_NAME@ },
        Stage::ConnectingDaemon => Request::ConnectDaemon {
            destination: DAEMON_SERVICE@,
            path: DAEMON_PATH@,
            interface: DAEMON_INTERFACE@,
        },
        Stage::RegisteringComponent => Request::CallDaemon {
            method: REGISTER_METHOD@,
            argument: component_content(thaime_component_record()),
        },
    }
}

/// What follows the bus's reply at a stage. After a success the handshake
/// goes on to the next request of its mode, or ends as registered after the
/// last. A failure ends it at once: as fatal while the service registers
/// itself, as deferred while it asks the daemon.
pub open spec fn step(stage: Stage, reply: Reply) -> Step {
    match (stage, reply) {
        (Stage::ExportingFactory, Reply::Done) => Step::Next(Stage::ClaimingName),
        (Stage::ExportingFactory, Reply::Failed(reason)) => Step::Finished(Outcome::Fatal(reason)),
        (Stage::ClaimingName, Reply::Done) => Step::Finished(Outcome::Registered),
        (Stage::ClaimingName, Reply::Failed(reason)) => Step::Finished(Outcome::Fatal(reason)),
        (Stage::ConnectingDaemon, Reply::Done) => Step::Next(Stage::RegisteringComponent),
        (Stage::ConnectingDaemon, Reply::Failed(reason)) => Step::Finished(
            Outcome::Deferred(reason),
        ),
        (Stage::RegisteringComponent, Reply::Done) => Step::Finished(Outcome::Registered),
        (Stage::RegisteringComponent, Reply::Failed(reason)) => Step::Finished(
            Outcome::Deferred(reason),
        ),
    }
}

/// How a handshake that stands at `stage` ends when the bus gives the
/// replies in their order; nothing where the replies run out before the end.
pub open spec fn outcome_after(stage: Stage, replies: Seq<Reply>) -> Option<Outcome>
    decreases replies.len(),
{
    if replies.len() == 0 {
        None
    } else {
        match step(stage, replies[0]) {
            Step::Finished(outcome) => Some(outcome),
            Step::Next(next) => outcome_after(next, replies.drop_first()),
        }
    }
}

/// In either mode the handshake is over after two replies at the latest.
pub proof fn lemma_handshake_ends(exec_by_ibus: bool, replies: Seq<Reply>)
    requires
        replies.len() >= 2,
    ensures
        outcome_after(first_stage(exec_by_ibus), replies) is Some,
{
    reveal_with_fuel(outcome_after, 3);
}

/// A service that asks the daemon never ends its handshake as fatal,
/// whatever the bus replies.
pub proof fn lemma_daemon_mode_never_fatal(replies: Seq<Reply>)
    ensures
        !(outcome_after(first_stage(false), replies) matches Some(Outcome::Fatal(_))),
{
    reveal_with_fuel(outcome_after, 3);
}

/// A service that registers itself and cannot claim its name ends its
/// handshake as fatal, with the reason that the bus gave.
pub proof fn lemma_refused_name_is_fatal(reason: Seq<char>)
    ensures
        outcome_after(first_stage(true), seq![Reply::Done, Reply::Failed(reason)]) == Some(
            Outcome::Fatal(reason),
        ),
{
    reveal_with_fuel(outcome_after, 3);
    let replies = seq![Reply::Done, Reply::Failed(reason)];
    assert(replies.drop_first()[0] == Reply::Failed(reason));
}

/// The registrar: it knows at which stage the handshake stands.
#[derive(Debug)]
pub struct Registrar {
    stage: Stage,
}

impl View for Registrar {
    type V = Stage;

    closed spec fn view(&self) -> Stage {
        self.stage
    }
}

/// What the registrar says after a reply of the bus.
#[derive(Debug)]
pub enum Progress {
    /// The handshake goes on: the host performs the request and reports to
    /// the registrar given here.
    Next(Registrar, BusRequest),
    /// The handshake is over.
    Finished(RegistrationOutcome),
}

/// Makes the request of a stage.
fn request_for(stage: Stage) -> (request: BusRequest)
    ensures
        request@ == request_at(stage),
{
    match stage {
        Stage::ExportingFactory => BusRequest::ExportFactory {
            address: factory_address(),
            factory: IBusEngineFactory::new(),
        },
        Stage::ClaimingName => BusRequest::ClaimName { name: SERVICE_NAME.to_owned() },
        Stage::ConnectingDaemon => BusRequest::ConnectDaemon {
            destination: DAEMON_SERVICE.to_owned(),
            path: daemon_address(),
            interface: DAEMON_INTERFACE.to_owned(),
        },
        Stage::RegisteringComponent => BusRequest::CallDaemon {
            method: REGISTER_METHOD.to_owned(),
            argument: create_component_description(),
        },
    }
}

/// Starts the handshake: `exec_by_ibus` says whether the framework started
/// the service. The host performs the request and reports the bus's reply
/// to the registrar.
pub fn register_ibus_component(exec_by_ibus: bool) -> (start: (Registrar, BusRequest))
    ensures
        start.0@ == first_stage(exec_by_ibus),
        start.1@ == request_at(first_stage(exec_by_ibus)),
{
    let stage = if exec_by_ibus {
        Stage::ExportingFactory
    } else {
        Stage::ConnectingDaemon
    };
    (Registrar { stage }, request_for(stage))
}

impl Registrar {
    /// The stage at which the handshake stands.
    pub fn stage(&self) -> (stage: Stage)
        ensures
            stage == self@,
    {
        self.stage
    }

    /// Takes the bus's reply to the request of the current stage and says
    /// what follows: the next request, or the end of the handshake.
    pub fn advance(self, reply: BusReply) -> (progress: Progress)
        ensures
            match progress {
                Progress::Next(registrar, request) => step(self@, reply@) == Step::Next(registrar@)
                    && request@ == request_at(registrar@),
                Progress::Finished(outcome) => step(self@, reply@) == Step::Finished(outcome@),
            },
    {
        match reply {
            BusReply::Done => match self.stage {
                Stage::ExportingFactory => Progress::Next(
                    Registrar { stage: Stage::ClaimingName },
                    request_for(Stage::ClaimingName),
                ),
                Stage::ClaimingName => Progress::Finished(RegistrationOutcome::Registered),
                Stage::ConnectingDaemon => Progress::Next(
                    Registrar { stage: Stage::RegisteringComponent },
                    request_for(Stage::RegisteringComponent),
                ),
                Stage::RegisteringComponent => Progress::Finished(RegistrationOutcome::Registered),
            },
            BusReply::Failed(reason) => match self.stage {
                Stage::ExportingFactory => Progress::Finished(RegistrationOutcome::Fatal(reason)),
                Stage::ClaimingName => Progress::Finished(RegistrationOutcome::Fatal(reason)),
                Stage::ConnectingDaemon => Progress::Finished(
                    RegistrationOutcome::Deferred(reason),
                ),
                Stage::RegisteringComponent => Progress::Finished(
                    RegistrationOutcome::Deferred(reason),
                ),
            },
        }
    }
}

} // verus!
