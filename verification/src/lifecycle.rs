//! A resource whose lifetime follows a state: queued for insertion when the
//! state is entered, queued for removal when it is left.

use crate::payload::fresh_clone;
use crate::requests::Request;
use crate::resource::present_after;
use crate::resource::resource_cleanup_system;
use crate::resource::ResourceHandle;
use bevy::ecs::system::Resource;
use bevy::ecs::world::FromWorld;
use vstd::prelude::*;

verus! {

/// A transition of the bound state.
#[derive(Clone, Copy, Debug, PartialEq, Eq, Structural)]
pub enum Transition {
    /// The state becomes the current one.
    Enter,
    /// The state stops being the current one.
    Exit,
}

/// Where the resource comes from on entry.
#[derive(Clone, Copy, Debug, PartialEq, Eq, Structural)]
pub enum Source {
    /// A clone of a value given when the binding was made.
    Given,
    /// A value built from the world.
    FromWorld,
}

/// The requests that a binding makes on a transition. Leaving removes the
/// resource. Entering with a given value inserts it, which replaces a value
/// that is there. Entering with a world-built value first removes what is
/// there and then builds, so that every entry ends with a freshly built
/// value: building alone would keep an earlier one.
pub open spec fn bound_requests(source: Source, transition: Transition) -> Seq<Request> {
    match transition {
        Transition::Exit => seq![Request::RemoveResource],
        Transition::Enter => match source {
            Source::Given => seq![Request::InsertResource],
            Source::FromWorld => seq![Request::RemoveResource, Request::InitResource],
        },
    }
}

/// The requests that a binding makes over a run of transitions, in order.
pub open spec fn run_requests(source: Source, transitions: Seq<Transition>) -> Seq<Request>
    decreases transitions.len(),
{
    if transitions.len() == 0 {
        Seq::empty()
    } else {
        run_requests(source, transitions.drop_last()) + bound_requests(source, transitions.last())
    }
}

/// What a binding to a given value does on a transition: on entry it queues
/// `fresh_clone(resource)` for insertion, on exit it queues the removal.
pub fn state_resource_given<R: Resource + Clone>(
    handle: &mut ResourceHandle<R>,
    resource: &R,
    transition: Transition,
)
    ensures
        final(handle)@ == old(handle)@ + bound_requests(Source::Given, transition),
{
    match transition {
        Transition::Enter => handle.insert(fresh_clone(resource)),
        Transition::Exit => resource_cleanup_system(handle),
    }
    proof {
        assert(handle@ =~= old(handle)@ + bound_requests(Source::Given, transition));
    }
}

/// What a binding to a world-built value does on a transition: on entry it
/// queues the removal of whatever is there and then the building of the
/// resource, on exit it queues the removal.
pub fn state_resource_from_world<R: Resource + FromWorld>(
    handle: &mut ResourceHandle<R>,
    transition: Transition,
)
    ensures
        final(handle)@ == old(handle)@ + bound_requests(Source::FromWorld, transition),
{
    match transition {
        Transition::Enter => {
            handle.remove();
            handle.init();
        },
        Transition::Exit => resource_cleanup_system(handle),
    }
    proof {
        assert(handle@ =~= old(handle)@ + bound_requests(Source::FromWorld, transition));
    }
}

/// The bound resource exists exactly while the state is active: after any
/// run of transitions it is present if and only if the last of them was an
/// entry, whatever was buffered before and whether it was there at the start.
pub proof fn bound_resource_follows_state(
    source: Source,
    present: bool,
    earlier: Seq<Request>,
    transitions: Seq<Transition>,
)
    requires
        transitions.len() > 0,
    ensures
        present_after(present, earlier + run_requests(source, transitions)) == (transitions.last()
            == Transition::Enter),
{
    let step = bound_requests(source, transitions.last());
    let all = earlier + run_requests(source, transitions);
    assert(all.last() == step.last());
}

/// Entering, leaving and entering again: present, absent, present.
pub proof fn reentry_inserts_again(source: Source, present: bool, earlier: Seq<Request>)
    ensures
        present_after(present, earlier + bound_requests(source, Transition::Enter)),
        !present_after(
            present,
            earlier + bound_requests(source, Transition::Enter) + bound_requests(
                source,
                Transition::Exit,
            ),
        ),
        present_after(
            present,
            earlier + bound_requests(source, Transition::Enter) + bound_requests(
                source,
                Transition::Exit,
            ) + bound_requests(source, Transition::Enter),
        ),
{
    let enter = bound_requests(source, Transition::Enter);
    let exit = bound_requests(source, Transition::Exit);
    assert((earlier + enter).last() == enter.last());
    assert((earlier + enter + exit).last() == exit.last());
    assert((earlier + enter + exit + enter).last() == enter.last());
}

/// A world-built resource is built anew on every entry: the entry's
/// requests end with a removal followed by the building, so the building
/// never meets a value that is there already.
pub proof fn entry_builds_on_an_empty_slot(present: bool, earlier: Seq<Request>)
    ensures
        ({
            let all = earlier + bound_requests(Source::FromWorld, Transition::Enter);
            &&& all.last() == Request::InitResource
            &&& !present_after(present, all.drop_last())
        }),
{
    let enter = bound_requests(Source::FromWorld, Transition::Enter);
    let all = earlier + enter;
    assert(all.last() == enter[1]);
    assert(all.drop_last().last() == enter[0]);
}

} // verus!
