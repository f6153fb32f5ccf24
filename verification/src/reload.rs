//! Bringing handlers into service and taking them out of it while requests
//! are served: only a handle that is fully loaded is ever bound, a reload
//! swaps the new handle in at once, and the old one lingers until the calls
//! that run in it have returned.

use vstd::prelude::*;
use crate::dynamic::{issued, step, Action, DynamicIngot, Event, Stage};
use crate::engine::{
    bound_at, handles_of_prefix, is_first_bound, is_first_match, law_replace_keeps_routes,
    without_prefix, Binding, IngotEngine,
};

verus! {

/// Handle `after` is `before` once it was asked to unload: same image, same
/// entry symbol, and the life it leads from there.
pub open spec fn retired(before: DynamicIngot, after: DynamicIngot) -> bool {
    &&& after@ == step(before@, Event::UnloadRequested)
    &&& after.spec_path() == before.spec_path()
    &&& after.spec_symbol() == before.spec_symbol()
}

impl IngotEngine<DynamicIngot> {
    /// Binds a handle under `prefix` if it is in service. A handle that is
    /// not, because its load failed or has not finished, is handed back and
    /// the engine stays as it was: no request ever reaches it.
    pub fn publish(&mut self, prefix: String, handle: DynamicIngot) -> (bound: Result<
        (),
        DynamicIngot,
    >)
        ensures
            match bound {
                Ok(_) => handle@.stage == Stage::Loaded
                    && final(self)@ == old(self)@.push((prefix@, handle)),
                Err(returned) => returned == handle && handle@.stage != Stage::Loaded
                    && final(self)@ == old(self)@,
            },
    {
        if handle.is_loaded() {
            self.register(prefix, handle);
            Ok(())
        } else {
            Err(handle)
        }
    }

    /// Puts a freshly loaded handle in the place of the one bound under
    /// `prefix`. From this moment every path that went to the old handle goes
    /// to the new one. The old handle is asked to unload and handed back with
    /// what the host does for it now: call its deallocator if it is idle, or
    /// nothing while calls still run in it. If `fresh` is not in service, or
    /// no binding has the prefix, nothing changes and `fresh` comes back.
    pub fn reload(&mut self, prefix: &str, fresh: DynamicIngot) -> (swapped: Result<
        (DynamicIngot, Action),
        DynamicIngot,
    >)
        ensures
            match swapped {
                Ok((old_handle, action)) => exists|i: int|
                    is_first_bound(old(self)@, prefix@, i) && fresh@.stage == Stage::Loaded
                        && final(self)@ == old(self)@.update(i, (prefix@, fresh)) && retired(
                        old(self)@[i].1,
                        old_handle,
                    ) && action == issued(old(self)@[i].1@, Event::UnloadRequested),
                Err(returned) => returned == fresh && final(self)@ == old(self)@ && (fresh@.stage
                    != Stage::Loaded || forall|j: int| !bound_at(old(self)@, prefix@, j)),
            },
    {
        if !fresh.is_loaded() {
            return Err(fresh);
        }
        match self.replace(prefix, fresh) {
            Ok(previous) => {
                let mut old_handle = previous;
                let action = old_handle.unload();
                Ok((old_handle, action))
            },
            Err(returned) => Err(returned),
        }
    }

    /// Unbinds every handle registered under exactly `prefix` and asks each
    /// to unload. They come back in registration order, each with what the
    /// host does for it now. The other bindings keep their order.
    pub fn retire(&mut self, prefix: &str) -> (gone: Vec<(DynamicIngot, Action)>)
        ensures
            final(self)@ == without_prefix(old(self)@, prefix@),
            gone@.len() == handles_of_prefix(old(self)@, prefix@).len(),
            forall|k: int|
                0 <= k < gone@.len() ==> retired(
                    handles_of_prefix(old(self)@, prefix@)[k],
                    (#[trigger] gone@[k]).0,
                ) && gone@[k].1 == issued(
                    handles_of_prefix(old(self)@, prefix@)[k]@,
                    Event::UnloadRequested,
                ),
    {
        let mut removed = self.unregister(prefix);
        let ghost handles = removed@;
        let mut gone: Vec<(DynamicIngot, Action)> = Vec::new();
        while removed.len() > 0
            invariant
                gone@.len() + removed@.len() == handles.len(),
                removed@ == handles.skip(gone@.len() as int),
                forall|k: int|
                    0 <= k < gone@.len() ==> retired(handles[k], (#[trigger] gone@[k]).0)
                        && gone@[k].1 == issued(handles[k]@, Event::UnloadRequested),
            decreases removed@.len(),
        {
            let mut handle = removed.remove(0);
            let action = handle.unload();
            gone.push((handle, action));
            assert(removed@ =~= handles.skip(gone@.len() as int));
        }
        gone
    }
}

/// A reload moves no route and serves from the new handle at once: every
/// path is served by the binding with the same index as before, and the
/// binding that was reloaded holds the fresh handle, which is in service.
pub proof fn law_reload_serves_from_the_new_handle(
    bindings: Seq<Binding<DynamicIngot>>,
    i: int,
    fresh: DynamicIngot,
    url: Seq<char>,
)
    requires
        0 <= i < bindings.len(),
        fresh@.stage == Stage::Loaded,
        is_first_match(bindings, url, i),
    ensures
        is_first_match(bindings.update(i, (bindings[i].0, fresh)), url, i),
        bindings.update(i, (bindings[i].0, fresh))[i].1 == fresh,
        fresh@.in_flight < usize::MAX ==> issued(fresh@, Event::CallStarted) == Action::Forward,
{
    law_replace_keeps_routes(bindings, i, fresh, url, i);
}

} // verus!
