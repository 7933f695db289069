//! Creating entities that always carry a fixed kind of bundle.
//!
//! A request does not show what it carries. Each facade therefore hands on,
//! untouched, the value that a function of `payload` returns, and that
//! function's contract says what the value is.

use crate::payload::default_alone;
use crate::payload::default_with;
use crate::payload::with_bundle;
use crate::requests::buffered;
use crate::requests::entity_bits;
use crate::requests::push_spawn;
use crate::requests::Request;
use bevy::ecs::bundle::Bundle;
use bevy::ecs::entity::Entity;
use bevy::ecs::system::Commands;
use std::marker::PhantomData;
use vstd::prelude::*;

verus! {

/// Queues the creation of entities that carry a bundle of type `C`.
pub struct EntitySpawner<'w, 's, C>(Commands<'w, 's>, PhantomData<C>);

impl<'w, 's, C> View for EntitySpawner<'w, 's, C> {
    type V = Seq<Request>;

    /// The requests buffered so far, oldest first.
    closed spec fn view(&self) -> Seq<Request> {
        buffered(self.0)
    }
}

impl<'w, 's, C> EntitySpawner<'w, 's, C> {
    /// A spawner that appends to the given buffer.
    pub fn new(commands: Commands<'w, 's>) -> (spawner: Self)
        ensures
            spawner@ == buffered(commands),
    {
        EntitySpawner(commands, PhantomData)
    }

    /// Hands the buffer back.
    pub fn into_commands(self) -> (commands: Commands<'w, 's>)
        ensures
            buffered(commands) == self@,
    {
        self.0
    }

    /// The buffer itself, for requests on an entity that was just queued.
    /// What is appended through it shows in the spawner's view.
    pub fn commands_mut(&mut self) -> (commands: &mut Commands<'w, 's>)
        ensures
            buffered(*commands) == old(self)@,
            final(self)@ == buffered(*final(commands)),
    {
        &mut self.0
    }

    /// Queues one new entity that carries `with_bundle(entity, bundle)`,
    /// that is both values together, and returns its identifier.
    pub fn spawn_with<B: Bundle>(&mut self, entity: C, bundle: B) -> (id: Entity) where C: Bundle
        ensures
            final(self)@ == old(self)@.push(Request::Spawn { entity: entity_bits(id) }),
    {
        push_spawn(&mut self.0, with_bundle(entity, bundle))
    }

    /// Queues one new entity that carries `entity`, and returns its
    /// identifier.
    pub fn spawn(&mut self, entity: C) -> (id: Entity) where C: Bundle
        ensures
            final(self)@ == old(self)@.push(Request::Spawn { entity: entity_bits(id) }),
    {
        push_spawn(&mut self.0, entity)
    }

    /// Queues one new entity that carries `default_with(bundle)`, that is
    /// the default `C` and `bundle` together, and returns its identifier.
    pub fn spawn_default_with<B: Bundle>(&mut self, bundle: B) -> (id: Entity) where
        C: Bundle + Default,
        ensures
            final(self)@ == old(self)@.push(Request::Spawn { entity: entity_bits(id) }),
    {
        push_spawn(&mut self.0, default_with::<C, B>(bundle))
    }

    /// Queues one new entity that carries `default_alone()`, the default
    /// `C`, and returns its identifier.
    pub fn spawn_default(&mut self) -> (id: Entity) where C: Bundle + Default
        ensures
            final(self)@ == old(self)@.push(Request::Spawn { entity: entity_bits(id) }),
    {
        push_spawn(&mut self.0, default_alone::<C>())
    }
}

/// Queues exactly one new entity that carries the default `C`.
pub fn spawn_default_system<C: Bundle + Default>(spawner: &mut EntitySpawner<C>)
    ensures
        exists|bits: u64|
            final(spawner)@ == #[trigger] old(spawner)@.push(Request::Spawn { entity: bits }),
{
    let id = spawner.spawn_default();
    assert(spawner@ == old(spawner)@.push(Request::Spawn { entity: entity_bits(id) }));
}

} // verus!
