//! The life of one dynamically loaded handler, as a state machine.
//!
//! Mapping an image, resolving its symbols and calling into it are done by
//! the host. This module decides what the host does next: it is told what
//! came of each piece of work and answers with the next piece. The order it
//! imposes is the point: the version tag is compared before any code of the
//! module runs, the instance is released by the module's own deallocator, and
//! the image is unmapped only after that.

use vstd::prelude::*;
use vstd::slice::slice_to_vec;
use vstd::string::StringSliceAdditionalSpecFns;
use std::path::PathBuf;
use crate::abi::{
    spec_version_matches, symbol_name, version_matches, ENTRYPOINT_SYMBOL, INGOTS_VERSION,
};
use crate::error::Error;

verus! {

/// Where a handle stands in its life.
#[derive(Clone, Copy, Debug, PartialEq, Eq, Structural)]
pub enum Stage {
    /// The image is being mapped.
    Opening,
    /// The image is mapped; its version tag is being read.
    CheckingVersion,
    /// The version agrees; the entry symbol is being resolved.
    ResolvingEntry,
    /// The entry symbol is known; the deallocator symbol is being resolved.
    ResolvingDeallocator,
    /// Both symbols are known; the entry function is running.
    Constructing,
    /// The instance serves requests.
    Loaded,
    /// Unloading was asked for while calls were running; new calls are turned
    /// away and the instance lives until the last call returns.
    Draining,
    /// The deallocator is running on the instance.
    Destroying,
    /// The image is being unmapped.
    Releasing,
    /// Nothing is held any more.
    Closed,
}

/// What the host reports to a handle.
#[derive(Clone, Copy, Debug, PartialEq, Eq, Structural)]
pub enum Event {
    /// The image was mapped.
    ImageOpened,
    /// The image could not be mapped.
    ImageOpenFailed,
    /// The version tag that the image exports, or nothing if it exports none.
    VersionRead(Option<u16>),
    /// The entry symbol was found.
    EntryResolved,
    /// The image has no entry symbol.
    EntryMissing,
    /// The deallocator symbol was found.
    DeallocatorResolved,
    /// The image has no deallocator symbol.
    DeallocatorMissing,
    /// The entry function returned the instance.
    InstanceConstructed,
    /// A request wants to enter the handler.
    CallStarted,
    /// A forwarded request has left the handler.
    CallReturned,
    /// The handle is to be taken out of service.
    UnloadRequested,
    /// The deallocator returned.
    InstanceDestroyed,
    /// The image was unmapped.
    ImageReleased,
}

/// What a handle asks of the host.
#[derive(Clone, Copy, Debug, PartialEq, Eq, Structural)]
pub enum Action {
    /// Map the image at the handle's path.
    OpenImage,
    /// Read the exported version tag.
    ReadVersion,
    /// Resolve the handle's entry symbol.
    ResolveEntry,
    /// Resolve the deallocator symbol.
    ResolveDeallocator,
    /// Call the entry function and keep the instance it returns.
    InvokeEntry,
    /// Pass the request to the instance.
    Forward,
    /// Drop the request: the handle is not in service.
    DropRequest,
    /// Call the deallocator on the instance.
    InvokeDeallocator,
    /// Unmap the image.
    ReleaseImage,
    /// Nothing to do.
    Idle,
}

/// The model of a handle: its stage, the forwarded calls that have not
/// returned, and why loading failed if it did.
pub struct Lifecycle {
    pub stage: Stage,
    pub in_flight: nat,
    pub failure: Option<Error>,
}

/// A handle that has just been created: its image is about to be mapped.
pub open spec fn opening() -> Lifecycle {
    Lifecycle { stage: Stage::Opening, in_flight: 0, failure: None }
}

/// What every reachable handle satisfies: calls run only in an instance that
/// is alive, draining means waiting for some call, and a failed load holds no
/// instance.
pub open spec fn well_formed(s: Lifecycle) -> bool {
    &&& s.in_flight <= usize::MAX
    &&& (s.stage != Stage::Loaded && s.stage != Stage::Draining ==> s.in_flight == 0)
    &&& (s.stage == Stage::Draining ==> s.in_flight > 0)
    &&& (s.failure.is_some() ==> s.stage == Stage::Releasing || s.stage == Stage::Closed)
}

/// The handle after a failed load step: the image, if mapped, goes next.
pub open spec fn failed(s: Lifecycle, stage: Stage, error: Error) -> Lifecycle {
    Lifecycle { stage, in_flight: s.in_flight, failure: Some(error) }
}

/// The handle moved to another stage.
pub open spec fn at(s: Lifecycle, stage: Stage) -> Lifecycle {
    Lifecycle { stage, in_flight: s.in_flight, failure: s.failure }
}

/// The handle with another number of running calls.
pub open spec fn with_calls(s: Lifecycle, in_flight: nat) -> Lifecycle {
    Lifecycle { stage: s.stage, in_flight, failure: s.failure }
}

/// The handle after an event. An event that does not answer what the handle
/// is waiting for leaves it as it was.
pub open spec fn step(s: Lifecycle, e: Event) -> Lifecycle {
    match (s.stage, e) {
        (Stage::Opening, Event::ImageOpened) => at(s, Stage::CheckingVersion),
        (Stage::Opening, Event::ImageOpenFailed) => failed(s, Stage::Closed, Error::ImageOpenError),
        (Stage::CheckingVersion, Event::VersionRead(found)) => if spec_version_matches(
            found,
            INGOTS_VERSION,
        ) {
            at(s, Stage::ResolvingEntry)
        } else {
            failed(s, Stage::Releasing, Error::VersionMismatch)
        },
        (Stage::ResolvingEntry, Event::EntryResolved) => at(s, Stage::ResolvingDeallocator),
        (Stage::ResolvingEntry, Event::EntryMissing) => failed(
            s,
            Stage::Releasing,
            Error::EntrypointNotFound,
        ),
        (Stage::ResolvingDeallocator, Event::DeallocatorResolved) => at(s, Stage::Constructing),
        (Stage::ResolvingDeallocator, Event::DeallocatorMissing) => failed(
            s,
            Stage::Releasing,
            Error::EntrypointNotFound,
        ),
        (Stage::Constructing, Event::InstanceConstructed) => at(s, Stage::Loaded),
        (Stage::Loaded, Event::CallStarted) => if s.in_flight < usize::MAX {
            with_calls(s, s.in_flight + 1)
        } else {
            s
        },
        (Stage::Loaded, Event::CallReturned) => if s.in_flight > 0 {
            with_calls(s, (s.in_flight - 1) as nat)
        } else {
            s
        },
        (Stage::Loaded, Event::UnloadRequested) => if s.in_flight == 0 {
            at(s, Stage::Destroying)
        } else {
            at(s, Stage::Draining)
        },
        (Stage::Draining, Event::CallReturned) => if s.in_flight <= 1 {
            at(with_calls(s, 0), Stage::Destroying)
        } else {
            with_calls(s, (s.in_flight - 1) as nat)
        },
        (Stage::Destroying, Event::InstanceDestroyed) => at(s, Stage::Releasing),
        (Stage::Releasing, Event::ImageReleased) => at(s, Stage::Closed),
        _ => s,
    }
}

/// The work that entering a stage asks of the host.
pub open spec fn work_of(stage: Stage) -> Action {
    match stage {
        Stage::Opening => Action::OpenImage,
        Stage::CheckingVersion => Action::ReadVersion,
        Stage::ResolvingEntry => Action::ResolveEntry,
        Stage::ResolvingDeallocator => Action::ResolveDeallocator,
        Stage::Constructing => Action::InvokeEntry,
        Stage::Destroying => Action::InvokeDeallocator,
        Stage::Releasing => Action::ReleaseImage,
        Stage::Loaded | Stage::Draining | Stage::Closed => Action::Idle,
    }
}

/// What the host is asked to do in answer to an event: forward or drop a
/// request that wants to enter, start the work of a stage just entered, or
/// nothing.
pub open spec fn issued(s: Lifecycle, e: Event) -> Action {
    if e == Event::CallStarted {
        if s.stage == Stage::Loaded && s.in_flight < usize::MAX {
            Action::Forward
        } else {
            Action::DropRequest
        }
    } else if step(s, e).stage != s.stage {
        work_of(step(s, e).stage)
    } else {
        Action::Idle
    }
}

/// The part of a handle that events change.
#[derive(Clone, Copy)]
struct Control {
    stage: Stage,
    in_flight: usize,
    failure: Option<Error>,
}

impl View for Control {
    type V = Lifecycle;

    closed spec fn view(&self) -> Lifecycle {
        Lifecycle { stage: self.stage, in_flight: self.in_flight as nat, failure: self.failure }
    }
}

/// Applies one event to the control state and says what the host does next.
fn transition(c: Control, event: Event) -> (next: (Control, Action))
    requires
        well_formed(c@),
    ensures
        next.0@ == step(c@, event),
        next.1 == issued(c@, event),
        well_formed(next.0@),
{
    let keep = (c, Action::Idle);
    match c.stage {
        Stage::Opening => match event {
            Event::ImageOpened => (
                Control { stage: Stage::CheckingVersion, ..c },
                Action::ReadVersion,
            ),
            Event::ImageOpenFailed => (
                Control { stage: Stage::Closed, failure: Some(Error::ImageOpenError), ..c },
                Action::Idle,
            ),
            Event::CallStarted => (c, Action::DropRequest),
            _ => keep,
        },
        Stage::CheckingVersion => match event {
            Event::VersionRead(found) => if version_matches(found, INGOTS_VERSION) {
                (Control { stage: Stage::ResolvingEntry, ..c }, Action::ResolveEntry)
            } else {
                (
                    Control { stage: Stage::Releasing, failure: Some(Error::VersionMismatch), ..c },
                    Action::ReleaseImage,
                )
            },
            Event::CallStarted => (c, Action::DropRequest),
            _ => keep,
        },
        Stage::ResolvingEntry => match event {
            Event::EntryResolved => (
                Control { stage: Stage::ResolvingDeallocator, ..c },
                Action::ResolveDeallocator,
            ),
            Event::EntryMissing => (
                Control { stage: Stage::Releasing, failure: Some(Error::EntrypointNotFound), ..c },
                Action::ReleaseImage,
            ),
            Event::CallStarted => (c, Action::DropRequest),
            _ => keep,
        },
        Stage::ResolvingDeallocator => match event {
            Event::DeallocatorResolved => (
                Control { stage: Stage::Constructing, ..c },
                Action::InvokeEntry,
            ),
            Event::DeallocatorMissing => (
                Control { stage: Stage::Releasing, failure: Some(Error::EntrypointNotFound), ..c },
                Action::ReleaseImage,
            ),
            Event::CallStarted => (c, Action::DropRequest),
            _ => keep,
        },
        Stage::Constructing => match event {
            Event::InstanceConstructed => (Control { stage: Stage::Loaded, ..c }, Action::Idle),
            Event::CallStarted => (c, Action::DropRequest),
            _ => keep,
        },
        Stage::Loaded => match event {
            Event::CallStarted => if c.in_flight < usize::MAX {
                (Control { in_flight: c.in_flight + 1, ..c }, Action::Forward)
            } else {
                (c, Action::DropRequest)
            },
            Event::CallReturned => if c.in_flight > 0 {
                (Control { in_flight: c.in_flight - 1, ..c }, Action::Idle)
            } else {
                keep
            },
            Event::UnloadRequested => if c.in_flight == 0 {
                (Control { stage: Stage::Destroying, ..c }, Action::InvokeDeallocator)
            } else {
                (Control { stage: Stage::Draining, ..c }, Action::Idle)
            },
            _ => keep,
        },
        Stage::Draining => match event {
            Event::CallReturned => if c.in_flight <= 1 {
                (
                    Control { stage: Stage::Destroying, in_flight: 0, ..c },
                    Action::InvokeDeallocator,
                )
            } else {
                (Control { in_flight: c.in_flight - 1, ..c }, Action::Idle)
            },
            Event::CallStarted => (c, Action::DropRequest),
            _ => keep,
        },
        Stage::Destroying => match event {
            Event::InstanceDestroyed => (
                Control { stage: Stage::Releasing, ..c },
                Action::ReleaseImage,
            ),
            Event::CallStarted => (c, Action::DropRequest),
            _ => keep,
        },
        Stage::Releasing => match event {
            Event::ImageReleased => (Control { stage: Stage::Closed, ..c }, Action::Idle),
            Event::CallStarted => (c, Action::DropRequest),
            _ => keep,
        },
        Stage::Closed => match event {
            Event::CallStarted => (c, Action::DropRequest),
            _ => keep,
        },
    }
}

/// The control record of one dynamically loaded handler: where its image
/// lies, which entry symbol it is constructed by, and where it stands in its
/// life. The image and the instance themselves stay with the host; a handle
/// is never copied, and a reload makes a new one.
pub struct DynamicIngot {
    path: PathBuf,
    symbol: Vec<u8>,
    control: Control,
}

impl View for DynamicIngot {
    type V = Lifecycle;

    closed spec fn view(&self) -> Lifecycle {
        self.control@
    }
}

impl DynamicIngot {
    #[verifier::type_invariant]
    spec fn inv(&self) -> bool {
        well_formed(self.control@)
    }

    /// The path of the image.
    pub closed spec fn spec_path(&self) -> PathBuf {
        self.path
    }

    /// The entry symbol as the linker takes it, NUL included.
    pub closed spec fn spec_symbol(&self) -> Seq<u8> {
        self.symbol@
    }

    /// A handle for the image at `path`, to be constructed by the standard
    /// entry symbol. Nothing is mapped yet: the host is to open the image.
    pub fn open(path: PathBuf) -> (handle: Self)
        ensures
            handle@ == opening(),
            well_formed(handle@),
            handle.spec_path() == path,
            handle.spec_symbol() == ENTRYPOINT_SYMBOL.spec_bytes().push(0u8),
    {
        Self::open_symbol(path, ENTRYPOINT_SYMBOL.as_bytes())
    }

    /// A handle for the image at `path`, to be constructed by the entry
    /// symbol `name`.
    pub fn open_symbol(path: PathBuf, name: &[u8]) -> (handle: Self)
        ensures
            handle@ == opening(),
            well_formed(handle@),
            handle.spec_path() == path,
            handle.spec_symbol() == name@.push(0u8),
    {
        let control = Control { stage: Stage::Opening, in_flight: 0, failure: None };
        DynamicIngot { path, symbol: symbol_name(name), control }
    }

    /// A new handle for the same image and entry symbol, at the start of its
    /// life. This handle is not touched: it serves until it is unloaded.
    pub fn reload(&self) -> (fresh: Self)
        ensures
            fresh@ == opening(),
            well_formed(fresh@),
            fresh.spec_path() == self.spec_path(),
            fresh.spec_symbol() == self.spec_symbol(),
    {
        let symbol: Vec<u8> = slice_to_vec(self.symbol.as_slice());
        let control = Control { stage: Stage::Opening, in_flight: 0, failure: None };
        DynamicIngot { path: self.path.clone(), symbol, control }
    }

    /// The path of the image.
    pub fn path(&self) -> (path: &PathBuf)
        ensures
            *path == self.spec_path(),
    {
        &self.path
    }

    /// The entry symbol, NUL-terminated.
    pub fn symbol(&self) -> (symbol: &[u8])
        ensures
            symbol@ == self.spec_symbol(),
    {
        self.symbol.as_slice()
    }

    /// The stage the handle is in.
    pub fn stage(&self) -> (stage: Stage)
        ensures
            stage == self@.stage,
    {
        self.control.stage
    }

    /// The number of forwarded calls that have not returned.
    pub fn in_flight(&self) -> (n: usize)
        ensures
            n == self@.in_flight,
    {
        self.control.in_flight
    }

    /// Why loading failed, if it did.
    pub fn failure(&self) -> (failure: Option<Error>)
        ensures
            failure == self@.failure,
    {
        self.control.failure
    }

    /// Whether the instance is in service.
    pub fn is_loaded(&self) -> (loaded: bool)
        ensures
            loaded == (self@.stage == Stage::Loaded),
    {
        match self.control.stage {
            Stage::Loaded => true,
            _ => false,
        }
    }

    /// How loading ended: `Ok` while the instance serves, the error once a
    /// failed load has released what it held, and nothing in between or after
    /// an orderly unload.
    pub fn load_result(&self) -> (outcome: Option<Result<(), Error>>)
        ensures
            outcome == spec_load_result(self@),
    {
        match self.control.stage {
            Stage::Loaded => Some(Ok(())),
            Stage::Closed => match self.control.failure {
                Some(e) => Some(Err(e)),
                None => None,
            },
            _ => None,
        }
    }

    /// The work that the handle's stage is waiting for.
    pub fn pending(&self) -> (action: Action)
        ensures
            action == work_of(self@.stage),
    {
        match self.control.stage {
            Stage::Opening => Action::OpenImage,
            Stage::CheckingVersion => Action::ReadVersion,
            Stage::ResolvingEntry => Action::ResolveEntry,
            Stage::ResolvingDeallocator => Action::ResolveDeallocator,
            Stage::Constructing => Action::InvokeEntry,
            Stage::Destroying => Action::InvokeDeallocator,
            Stage::Releasing => Action::ReleaseImage,
            Stage::Loaded => Action::Idle,
            Stage::Draining => Action::Idle,
            Stage::Closed => Action::Idle,
        }
    }

    /// Tells the handle what happened and returns what the host does next.
    /// Path and entry symbol never change.
    pub fn advance(&mut self, event: Event) -> (action: Action)
        ensures
            final(self)@ == step(old(self)@, event),
            action == issued(old(self)@, event),
            well_formed(old(self)@),
            well_formed(final(self)@),
            final(self).spec_path() == old(self).spec_path(),
            final(self).spec_symbol() == old(self).spec_symbol(),
    {
        proof {
            use_type_invariant(&*self);
        }
        let (control, action) = transition(self.control, event);
        self.control = control;
        action
    }

    /// Takes the handle out of service. An idle instance is destroyed at
    /// once; one with calls running drains first, and the deallocator is asked
    /// for when the last call returns. A handle that is not in service stays
    /// as it is.
    pub fn unload(&mut self) -> (action: Action)
        ensures
            final(self)@ == step(old(self)@, Event::UnloadRequested),
            action == issued(old(self)@, Event::UnloadRequested),
            well_formed(final(self)@),
            final(self).spec_path() == old(self).spec_path(),
            final(self).spec_symbol() == old(self).spec_symbol(),
    {
        self.advance(Event::UnloadRequested)
    }
}

/// How loading ended, for a handle in state `s`.
pub open spec fn spec_load_result(s: Lifecycle) -> Option<Result<(), Error>> {
    if s.stage == Stage::Loaded {
        Some(Ok(()))
    } else if s.stage == Stage::Closed && s.failure.is_some() {
        Some(Err(s.failure.unwrap()))
    } else {
        None
    }
}

} // verus!
