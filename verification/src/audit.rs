//! What holds of every life a handle can have, whatever the host reports and
//! in whatever order: the books kept on the work a handle asked for never
//! show an instance freed twice, freed after its image was unmapped, or an
//! image unmapped under a live instance.

use vstd::prelude::*;
use crate::abi::{spec_version_matches, INGOTS_VERSION};
use crate::dynamic::{issued, opening, step, well_formed, Action, Event, Lifecycle, Stage};
use crate::error::Error;

verus! {

/// The handle after a sequence of events, starting from `s`.
pub open spec fn run(s: Lifecycle, events: Seq<Event>) -> Lifecycle
    decreases events.len(),
{
    if events.len() == 0 {
        s
    } else {
        step(run(s, events.drop_last()), events.last())
    }
}

/// The books on one handle: how often an image was mapped for it, how many
/// symbols it had resolved, how often its entry function and its deallocator
/// were asked for, how often the image was unmapped, how many forwarded
/// calls are still running, and whether any of that was ever asked for out
/// of order.
pub struct Ledger {
    pub mapped: nat,
    pub lookups: nat,
    pub entries: nat,
    pub frees: nat,
    pub releases: nat,
    pub calls: nat,
    pub fault: bool,
}

/// The books before anything happened.
pub open spec fn blank() -> Ledger {
    Ledger { mapped: 0, lookups: 0, entries: 0, frees: 0, releases: 0, calls: 0, fault: false }
}

/// The books after the host's report `e` to a handle in state `s`: the
/// report is entered first, then the work that the handle asks for in answer.
/// It is a fault to resolve a symbol without a mapped image, to ask for the
/// entry function without a mapped image or a second time, to forward a call
/// to an instance that is not alive, to ask for the deallocator without a
/// live instance, after the image was unmapped or while a call is running,
/// and to unmap under a live instance or without a mapped image.
pub open spec fn record(l: Ledger, s: Lifecycle, e: Event) -> Ledger {
    let mapped = if s.stage == Stage::Opening && e == Event::ImageOpened {
        l.mapped + 1
    } else {
        l.mapped
    };
    let calls = if e == Event::CallReturned && l.calls > 0 {
        (l.calls - 1) as nat
    } else {
        l.calls
    };
    let held = mapped > l.releases;
    let alive = l.entries > l.frees;
    match issued(s, e) {
        Action::ResolveEntry | Action::ResolveDeallocator => Ledger {
            mapped,
            lookups: l.lookups + 1,
            calls,
            fault: l.fault || !held,
            ..l
        },
        Action::InvokeEntry => Ledger {
            mapped,
            entries: l.entries + 1,
            calls,
            fault: l.fault || !held || l.entries > 0,
            ..l
        },
        Action::Forward => Ledger {
            mapped,
            calls: calls + 1,
            fault: l.fault || !held || !alive,
            ..l
        },
        Action::InvokeDeallocator => Ledger {
            mapped,
            frees: l.frees + 1,
            calls,
            fault: l.fault || !held || !alive || calls > 0,
            ..l
        },
        Action::ReleaseImage => Ledger {
            mapped,
            releases: l.releases + 1,
            calls,
            fault: l.fault || !held || alive,
            ..l
        },
        _ => Ledger { mapped, calls, ..l },
    }
}

/// The books after a sequence of events, for a handle that started in `s`.
pub open spec fn ledger(s: Lifecycle, events: Seq<Event>) -> Ledger
    decreases events.len(),
{
    if events.len() == 0 {
        blank()
    } else {
        record(
            ledger(s, events.drop_last()),
            run(s, events.drop_last()),
            events.last(),
        )
    }
}

/// The books agree with the stage the handle is in.
pub open spec fn balanced(s: Lifecycle, l: Ledger) -> bool {
    &&& well_formed(s)
    &&& !l.fault
    &&& l.calls == s.in_flight
    &&& match s.stage {
        Stage::Opening => l.mapped == 0 && l.lookups == 0 && l.entries == 0 && l.frees == 0
            && l.releases == 0,
        Stage::CheckingVersion => l.mapped == 1 && l.lookups == 0 && l.entries == 0 && l.frees
            == 0 && l.releases == 0,
        Stage::ResolvingEntry => l.mapped == 1 && l.lookups == 1 && l.entries == 0 && l.frees == 0
            && l.releases == 0,
        Stage::ResolvingDeallocator => l.mapped == 1 && l.lookups == 2 && l.entries == 0
            && l.frees == 0 && l.releases == 0,
        Stage::Constructing | Stage::Loaded | Stage::Draining => l.mapped == 1 && l.lookups == 2
            && l.entries == 1 && l.frees == 0 && l.releases == 0,
        Stage::Destroying => l.mapped == 1 && l.lookups == 2 && l.entries == 1 && l.frees == 1
            && l.releases == 0,
        Stage::Releasing => l.mapped == 1 && l.lookups <= 2 && l.releases == 1 && l.frees
            == l.entries && l.entries <= 1,
        Stage::Closed => l.releases == l.mapped && l.mapped <= 1 && l.lookups <= 2 && l.frees
            == l.entries && l.entries <= 1,
    }
    &&& (s.failure.is_some() ==> l.entries == 0)
    &&& (s.failure == Some(Error::ImageOpenError) ==> l.mapped == 0)
    &&& (s.failure == Some(Error::VersionMismatch) ==> l.lookups == 0)
    &&& (s.failure.is_none() && l.entries == 0 ==> s.stage != Stage::Releasing && s.stage
        != Stage::Closed)
}

/// One event keeps balanced books balanced.
pub proof fn law_step_keeps_balance(s: Lifecycle, l: Ledger, e: Event)
    requires
        balanced(s, l),
    ensures
        balanced(step(s, e), record(l, s, e)),
{
}

/// Every life of a handle is orderly. Whatever is reported to a new handle,
/// its books stay balanced: the entry function is asked for at most once and
/// only in a mapped image; the deallocator is asked for at most once, only
/// for a live instance, only while the image is mapped and only when no
/// forwarded call is running; the image is unmapped only after that. A handle
/// in service has been constructed once and not freed; a closed handle has
/// freed what it constructed and unmapped what it mapped.
pub proof fn law_teardown_is_ordered(events: Seq<Event>)
    ensures
        balanced(run(opening(), events), ledger(opening(), events)),
    decreases events.len(),
{
    if events.len() > 0 {
        law_teardown_is_ordered(events.drop_last());
        law_step_keeps_balance(
            run(opening(), events.drop_last()),
            ledger(opening(), events.drop_last()),
            events.last(),
        );
    }
}

/// The deallocator is asked for only when no forwarded call is running: at
/// an unload request that finds the instance idle, or at the return of the
/// last call of an instance that was draining.
pub proof fn law_destroy_waits_for_calls(s: Lifecycle, e: Event)
    requires
        well_formed(s),
        issued(s, e) == Action::InvokeDeallocator,
    ensures
        step(s, e).in_flight == 0,
        step(s, e).stage == Stage::Destroying,
        (s.stage == Stage::Loaded && s.in_flight == 0 && e == Event::UnloadRequested) || (s.stage
            == Stage::Draining && s.in_flight == 1 && e == Event::CallReturned),
{
}

/// A call enters the instance only while the handle is in service: once
/// unloading was asked for, every new request is dropped, and the calls that
/// are running are never cut short.
pub proof fn law_only_loaded_handles_take_calls(s: Lifecycle)
    requires
        well_formed(s),
    ensures
        issued(s, Event::CallStarted) == Action::Forward <==> s.stage == Stage::Loaded
            && s.in_flight < usize::MAX,
        issued(s, Event::CallStarted) != Action::Forward ==> issued(s, Event::CallStarted)
            == Action::DropRequest && step(s, Event::CallStarted) == s,
        s.in_flight > 0 ==> step(s, Event::UnloadRequested).stage != Stage::Destroying && step(
            s,
            Event::UnloadRequested,
        ).in_flight == s.in_flight,
{
}

/// A failed load stays failed, for the same reason: whatever is reported
/// afterwards, the handle only releases its image and never serves.
pub proof fn law_failure_is_final(s: Lifecycle, events: Seq<Event>)
    requires
        well_formed(s),
        s.failure.is_some(),
    ensures
        run(s, events).failure == s.failure,
        run(s, events).stage == Stage::Releasing || run(s, events).stage == Stage::Closed,
        well_formed(run(s, events)),
    decreases events.len(),
{
    if events.len() > 0 {
        law_failure_is_final(s, events.drop_last());
    }
}

/// The books only grow: what was asked for stays asked for.
pub proof fn law_books_only_grow(before: Seq<Event>, after: Seq<Event>)
    ensures
        ledger(opening(), before + after).entries >= ledger(opening(), before).entries,
        ledger(opening(), before + after).frees >= ledger(opening(), before).frees,
        ledger(opening(), before + after).releases >= ledger(opening(), before).releases,
        ledger(opening(), before + after).mapped >= ledger(opening(), before).mapped,
    decreases after.len(),
{
    if after.len() == 0 {
        assert(before + after =~= before);
    } else {
        law_books_only_grow(before, after.drop_last());
        assert((before + after).drop_last() =~= before + after.drop_last());
    }
}

/// A handle that was in service and is closed was destroyed by its
/// deallocator exactly once, while its image was still mapped; the image was
/// unmapped once, afterwards.
pub proof fn law_loaded_handle_is_freed_once(before: Seq<Event>, after: Seq<Event>)
    requires
        run(opening(), before).stage == Stage::Loaded,
        run(opening(), before + after).stage == Stage::Closed,
    ensures
        ledger(opening(), before + after).entries == 1,
        ledger(opening(), before + after).frees == 1,
        ledger(opening(), before + after).releases == 1,
        ledger(opening(), before + after).calls == 0,
        !ledger(opening(), before + after).fault,
{
    law_teardown_is_ordered(before);
    law_teardown_is_ordered(before + after);
    law_books_only_grow(before, after);
}

/// A module whose version tag differs from the host's, or that exports none,
/// is never constructed. Once the tag is read the load has failed with
/// `VersionMismatch` and the image is released; whatever is reported
/// afterwards, the failure stays, the handle never serves, no symbol of the
/// module is resolved and its entry function is never asked for.
pub proof fn law_version_mismatch_never_constructs(
    before: Seq<Event>,
    found: Option<u16>,
    after: Seq<Event>,
)
    requires
        run(opening(), before).stage == Stage::CheckingVersion,
        !spec_version_matches(found, INGOTS_VERSION),
    ensures
        issued(run(opening(), before), Event::VersionRead(found)) == Action::ReleaseImage,
        run(opening(), before.push(Event::VersionRead(found)) + after).failure == Some(
            Error::VersionMismatch,
        ),
        run(opening(), before.push(Event::VersionRead(found)) + after).stage != Stage::Loaded,
        ledger(opening(), before.push(Event::VersionRead(found)) + after).entries == 0,
        ledger(opening(), before.push(Event::VersionRead(found)) + after).lookups == 0,
    decreases after.len(),
{
    let read = before.push(Event::VersionRead(found));
    let all = read + after;
    if after.len() == 0 {
        assert(all =~= read);
        assert(read.drop_last() =~= before);
        law_teardown_is_ordered(before);
        law_teardown_is_ordered(read);
    } else {
        law_version_mismatch_never_constructs(before, found, after.drop_last());
        assert(all.drop_last() =~= read + after.drop_last());
        law_teardown_is_ordered(all.drop_last());
        law_teardown_is_ordered(all);
    }
}

} // verus!
