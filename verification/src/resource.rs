//! Inserting, building and removing the singleton resource of a type.

use crate::requests::buffered;
use crate::requests::push_init_resource;
use crate::requests::push_insert_resource;
use crate::requests::push_remove_resource;
use crate::requests::Request;
use bevy::ecs::system::Commands;
use bevy::ecs::system::Resource;
use bevy::ecs::world::FromWorld;
use std::marker::PhantomData;
use vstd::prelude::*;

verus! {

/// Queues changes to the singleton resource of type `R`.
pub struct ResourceHandle<'w, 's, R>(Commands<'w, 's>, PhantomData<R>);

impl<'w, 's, R> View for ResourceHandle<'w, 's, R> {
    type V = Seq<Request>;

    /// The requests buffered so far, oldest first.
    closed spec fn view(&self) -> Seq<Request> {
        buffered(self.0)
    }
}

/// Whether the resource is in the world once `requests` have been applied in
/// order, all of them taken to concern the one resource type, given whether
/// it was there before. Inserting and building leave it present, removing
/// leaves it absent, and requests on entities do not touch it.
pub open spec fn present_after(present: bool, requests: Seq<Request>) -> bool
    decreases requests.len(),
{
    if requests.len() == 0 {
        present
    } else {
        match requests.last() {
            Request::InsertResource => true,
            Request::InitResource => true,
            Request::RemoveResource => false,
            _ => present_after(present, requests.drop_last()),
        }
    }
}

impl<'w, 's, R> ResourceHandle<'w, 's, R> {
    /// A handle that appends to the given buffer.
    pub fn new(commands: Commands<'w, 's>) -> (handle: Self)
        ensures
            handle@ == buffered(commands),
    {
        ResourceHandle(commands, PhantomData)
    }

    /// Hands the buffer back.
    pub fn into_commands(self) -> (commands: Commands<'w, 's>)
        ensures
            buffered(commands) == self@,
    {
        self.0
    }

    /// Queues the removal of the resource. Where it is absent the host does
    /// nothing.
    pub fn remove(&mut self) where R: Resource
        ensures
            final(self)@ == old(self)@.push(Request::RemoveResource),
    {
        push_remove_resource::<R>(&mut self.0);
    }

    /// Queues the building of the resource from the world.
    pub fn init(&mut self) where R: Resource + FromWorld
        ensures
            final(self)@ == old(self)@.push(Request::InitResource),
    {
        push_init_resource::<R>(&mut self.0);
    }

    /// Queues the insertion of `resource`, which replaces an earlier value.
    pub fn insert(&mut self, resource: R) where R: Resource
        ensures
            final(self)@ == old(self)@.push(Request::InsertResource),
    {
        push_insert_resource(&mut self.0, resource);
    }
}

/// Queues the removal of the resource of type `R`, whether it is there or not.
pub fn resource_cleanup_system<R: Resource>(resource: &mut ResourceHandle<R>)
    ensures
        final(resource)@ == old(resource)@.push(Request::RemoveResource),
{
    resource.remove();
}

/// Removing is idempotent: after a removal the resource is absent, and a
/// removal of an absent resource leaves it absent, so a second removal
/// changes nothing.
pub proof fn removal_is_idempotent(present: bool, requests: Seq<Request>)
    ensures
        !present_after(present, requests.push(Request::RemoveResource)),
        !present ==> present_after(present, seq![Request::RemoveResource]) == present,
        present_after(present, requests.push(Request::RemoveResource).push(Request::RemoveResource))
            == present_after(present, requests.push(Request::RemoveResource)),
{
    assert(seq![Request::RemoveResource].last() == Request::RemoveResource);
}

} // verus!
