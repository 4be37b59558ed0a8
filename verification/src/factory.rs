//! The factory: on request it numbers a new engine instance, gives it an
//! address of its own and hands both to the host for export.

use crate::address::{engine_address, engine_path_text, lemma_engine_paths_distinct, path_text};
use crate::engine::ThaiEngine;
use crate::ibus::{IBusThaiEngine, Session};
use crate::text::same_text;
use std::sync::Arc;
use vstd::prelude::*;
use vstd::string::StringExecFns;
use zvariant::ObjectPath;

verus! {

/// The one engine name that the factory serves.
pub const ENGINE_NAME: &'static str = "thaime-rust";

/// The reason given when no number is left for a new engine.
pub const ADDRESSES_EXHAUSTED: &'static str = "engine addresses exhausted";

/// The reason given when the host found another object at the new address.
pub const ADDRESS_IN_USE: &'static str = "address already in use";

/// The source of the numbers that tell engine instances apart. It counts
/// upwards from zero and never hands out a number twice.
#[derive(Debug, PartialEq, Eq)]
pub struct AddressCounter {
    next: u32,
}

impl View for AddressCounter {
    type V = nat;

    /// How many numbers were handed out so far.
    closed spec fn view(&self) -> nat {
        self.next as nat
    }
}

impl AddressCounter {
    /// A counter that has handed out nothing.
    pub fn new() -> (counter: Self)
        ensures
            counter@ == 0,
    {
        AddressCounter { next: 0 }
    }

    /// Hands out the next number, which is the count of those handed out
    /// before; or nothing, once the range of `u32` is used up.
    pub fn allocate(&mut self) -> (id: Option<u32>)
        ensures
            id is Some <==> old(self)@ < u32::MAX,
            id matches Some(n) ==> n == old(self)@ && final(self)@ == old(self)@ + 1,
            id is None ==> final(self)@ == old(self)@,
    {
        if self.next < u32::MAX {
            let id = self.next;
            self.next = id + 1;
            Some(id)
        } else {
            None
        }
    }
}

/// Why the factory could not create an engine.
#[derive(Debug, PartialEq, Eq)]
pub enum FactoryError {
    /// The request named an engine that the factory does not serve.
    UnknownEngine(String),
    /// The new instance could not be exported; the reason is given.
    ExportFailed(String),
}

/// A factory error as a mathematical value.
pub enum FactoryFault {
    UnknownEngine(Seq<char>),
    ExportFailed(Seq<char>),
}

impl View for FactoryError {
    type V = FactoryFault;

    open spec fn view(&self) -> FactoryFault {
        match self {
            FactoryError::UnknownEngine(name) => FactoryFault::UnknownEngine(name@),
            FactoryError::ExportFailed(reason) => FactoryFault::ExportFailed(reason@),
        }
    }
}

impl FactoryFault {
    /// The message that reports the fault to the caller.
    pub open spec fn message(self) -> Seq<char> {
        match self {
            FactoryFault::UnknownEngine(name) => "Unknown engine name: "@ + name,
            FactoryFault::ExportFailed(reason) => "Failed to export engine: "@ + reason,
        }
    }
}

impl FactoryError {
    /// The message that reports the error to the caller.
    pub fn message(&self) -> (text: String)
        ensures
            text@ == self@.message(),
    {
        match self {
            FactoryError::UnknownEngine(name) => {
                let mut text = "Unknown engine name: ".to_owned();
                text.append(name.as_str());
                text
            },
            FactoryError::ExportFailed(reason) => {
                let mut text = "Failed to export engine: ".to_owned();
                text.append(reason.as_str());
                text
            },
        }
    }
}

/// A new engine instance on its way to the bus: the host exports `engine`
/// at `address`.
#[derive(Debug)]
pub struct EngineExport {
    /// The address that the instance was given.
    pub address: ObjectPath<'static>,
    /// The instance.
    pub engine: IBusThaiEngine,
}

/// An engine export as a mathematical value.
pub struct PendingExport {
    /// The text of the address.
    pub address: Seq<char>,
    /// The session of the instance.
    pub engine: Session,
}

impl View for EngineExport {
    type V = PendingExport;

    open spec fn view(&self) -> PendingExport {
        PendingExport { address: path_text(self.address), engine: self.engine@ }
    }
}

/// How the host's attempt to export an instance ended.
#[derive(Debug, PartialEq, Eq)]
pub enum ExportOutcome {
    /// The instance is exported at its address.
    Exported,
    /// Another object already stood at the address; the instance was not
    /// exported.
    AddressInUse,
    /// The transport failed; the instance was not exported.
    Failed(String),
}

/// An export outcome as a mathematical value.
pub enum ExportEvent {
    Exported,
    AddressInUse,
    Failed(Seq<char>),
}

impl View for ExportOutcome {
    type V = ExportEvent;

    open spec fn view(&self) -> ExportEvent {
        match self {
            ExportOutcome::Exported => ExportEvent::Exported,
            ExportOutcome::AddressInUse => ExportEvent::AddressInUse,
            ExportOutcome::Failed(reason) => ExportEvent::Failed(reason@),
        }
    }
}

/// What a request to create an engine named `engine_name` yields on a
/// factory that has numbered `issued` instances: an unknown name is refused;
/// the supported name gets a new instance at the address with the next
/// number, as long as a number is left.
pub open spec fn creation(issued: nat, engine_name: Seq<char>) -> Result<
    PendingExport,
    FactoryFault,
> {
    if engine_name != ENGINE_NAME@ {
        Err(FactoryFault::UnknownEngine(engine_name))
    } else if issued >= u32::MAX {
        Err(FactoryFault::ExportFailed(ADDRESSES_EXHAUSTED@))
    } else {
        Ok(PendingExport { address: engine_path_text(issued), engine: Session::fresh() })
    }
}

/// How many instances the factory has numbered after such a request: one
/// more where the request succeeds, as many as before where it fails.
pub open spec fn issued_after(issued: nat, engine_name: Seq<char>) -> nat {
    if creation(issued, engine_name) is Ok {
        issued + 1
    } else {
        issued
    }
}

/// What the caller of the factory gets once the host has tried to export the
/// instance at `address`: the address where the export succeeded, the
/// failure with its reason where it did not.
pub open spec fn export_result(address: Seq<char>, outcome: ExportEvent) -> Result<
    Seq<char>,
    FactoryFault,
> {
    match outcome {
        ExportEvent::Exported => Ok(address),
        ExportEvent::AddressInUse => Err(FactoryFault::ExportFailed(ADDRESS_IN_USE@)),
        ExportEvent::Failed(reason) => Err(FactoryFault::ExportFailed(reason)),
    }
}

/// The mathematical value of the result of `create_engine`.
pub open spec fn creation_view(result: Result<EngineExport, FactoryError>) -> Result<
    PendingExport,
    FactoryFault,
> {
    match result {
        Ok(export) => Ok(export@),
        Err(error) => Err(error@),
    }
}

/// The mathematical value of the result of `finish_create`.
pub open spec fn address_view(result: Result<ObjectPath<'static>, FactoryError>) -> Result<
    Seq<char>,
    FactoryFault,
> {
    match result {
        Ok(address) => Ok(path_text(address)),
        Err(error) => Err(error@),
    }
}

/// The results of `count` requests for the supported engine, made one after
/// another on a factory that has numbered `issued` instances.
pub open spec fn creations(issued: nat, count: nat) -> Seq<Result<PendingExport, FactoryFault>>
    decreases count,
{
    if count == 0 {
        Seq::empty()
    } else {
        seq![creation(issued, ENGINE_NAME@)] + creations(
            issued_after(issued, ENGINE_NAME@),
            (count - 1) as nat,
        )
    }
}

/// As long as numbers are left, each request in a row gets a new instance at
/// the address with the next number.
pub proof fn lemma_creations_numbered(issued: nat, count: nat)
    requires
        issued + count <= u32::MAX,
    ensures
        creations(issued, count).len() == count,
        forall|i: int|
            0 <= i < count ==> #[trigger] creations(issued, count)[i] == Ok::<
                PendingExport,
                FactoryFault,
            >(
                PendingExport {
                    address: engine_path_text((issued + i) as nat),
                    engine: Session::fresh(),
                },
            ),
    decreases count,
{
    if count > 0 {
        lemma_creations_numbered(issued + 1, (count - 1) as nat);
        let rest = creations(issued + 1, (count - 1) as nat);
        assert forall|i: int| 0 <= i < count implies #[trigger] creations(issued, count)[i] == Ok::<
            PendingExport,
            FactoryFault,
        >(
            PendingExport {
                address: engine_path_text((issued + i) as nat),
                engine: Session::fresh(),
            },
        ) by {
            if i > 0 {
                assert(creations(issued, count)[i] == rest[i - 1]);
            }
        }
    }
}

/// On a new factory, any number of requests for the supported engine that
/// the counter's range allows all succeed; the addresses they get end in
/// 0, 1, 2, ... in the order of the requests, and no two of them are equal.
pub proof fn lemma_addresses_unique_and_ordered(count: nat)
    requires
        count <= u32::MAX,
    ensures
        creations(0, count).len() == count,
        forall|i: int|
            0 <= i < count ==> (#[trigger] creations(0, count)[i] matches Ok(export)
                && export.address == engine_path_text(i as nat)),
        forall|i: int, j: int|
            0 <= i < j < count ==> (#[trigger] creations(0, count)[i] matches Ok(first) && (
            #[trigger] creations(0, count)[j] matches Ok(second) && first.address
                != second.address)),
{
    lemma_creations_numbered(0, count);
    assert forall|i: int, j: int| 0 <= i < j < count implies (#[trigger] creations(0, count)[i]
        matches Ok(first) && (#[trigger] creations(0, count)[j] matches Ok(second) && first.address
        != second.address)) by {
        lemma_engine_paths_distinct(i as nat, j as nat);
    }
}

/// The factory. All it keeps is the counter that numbers the instances; an
/// instance, once created, belongs to whoever exports it.
///
/// A creation takes the factory exclusively, so requests are numbered one
/// at a time, in the order in which they reach it. A host that serves
/// several callers at once keeps the factory behind a lock and holds the
/// lock for `create_engine` alone, not while the instance is exported.
#[derive(Debug, PartialEq, Eq)]
pub struct IBusEngineFactory {
    engine_id_counter: AddressCounter,
}

impl View for IBusEngineFactory {
    type V = nat;

    /// How many instances the factory has numbered so far.
    closed spec fn view(&self) -> nat {
        self.engine_id_counter@
    }
}

impl IBusEngineFactory {
    /// A factory that has numbered no instance yet.
    pub fn new() -> (factory: Self)
        ensures
            factory@ == 0,
    {
        IBusEngineFactory { engine_id_counter: AddressCounter::new() }
    }

    /// Creates an engine instance for the engine named `engine_name`.
    ///
    /// Any name but the supported one is refused with `UnknownEngine`, and
    /// the factory stays as it was. For the supported name the factory takes
    /// the next number, and returns a new instance together with the address
    /// that ends in that number, for the host to export.
    pub fn create_engine(&mut self, engine_name: &str) -> (result: Result<
        EngineExport,
        FactoryError,
    >)
        ensures
            creation_view(result) == creation(old(self)@, engine_name@),
            final(self)@ == issued_after(old(self)@, engine_name@),
            engine_name@ != ENGINE_NAME@ ==> final(self)@ == old(self)@ && creation_view(result)
                == Err::<PendingExport, FactoryFault>(FactoryFault::UnknownEngine(engine_name@)),
    {
        if !same_text(engine_name, ENGINE_NAME) {
            return Err(FactoryError::UnknownEngine(engine_name.to_owned()));
        }
        match self.engine_id_counter.allocate() {
            Some(engine_id) => {
                let address = engine_address(engine_id);
                let engine = IBusThaiEngine::new(Arc::new(ThaiEngine::new()));
                Ok(EngineExport { address, engine })
            },
            None => Err(FactoryError::ExportFailed(ADDRESSES_EXHAUSTED.to_owned())),
        }
    }

    /// Ends a creation once the host has tried to export the instance: the
    /// caller gets the address where the instance is exported, and
    /// `ExportFailed` with the reason where it is not.
    pub fn finish_create(address: ObjectPath<'static>, outcome: ExportOutcome) -> (result: Result<
        ObjectPath<'static>,
        FactoryError,
    >)
        ensures
            address_view(result) == export_result(path_text(address), outcome@),
    {
        match outcome {
            ExportOutcome::Exported => Ok(address),
            ExportOutcome::AddressInUse => Err(
                FactoryError::ExportFailed(ADDRESS_IN_USE.to_owned()),
            ),
            ExportOutcome::Failed(reason) => Err(FactoryError::ExportFailed(reason)),
        }
    }
}

} // verus!
