//! The host's deferred command buffer, as the library sees it.
//!
//! A `Commands` value is opaque. The contracts speak of it through two names:
//! the sequence of requests it has buffered, and the entity identifiers that
//! the entity table behind it resolves. A `ChildBuilder` is spoken of in the
//! same way: by the requests of the buffer it writes to, and by the children
//! it has collected.

use bevy::ecs::bundle::Bundle;
use bevy::ecs::entity::Entity;
use bevy::ecs::system::Commands;
use bevy::ecs::system::Resource;
use bevy::ecs::world::FromWorld;
use bevy::hierarchy::BuildChildren;
use bevy::hierarchy::ChildBuilder;
use bevy::hierarchy::DespawnRecursiveExt;
use crate::button::spawn_child;
use vstd::prelude::*;

verus! {

#[verifier::external_type_specification]
#[verifier::external_body]
pub struct ExCommands<'w, 's>(Commands<'w, 's>);

#[verifier::external_type_specification]
#[verifier::external_body]
pub struct ExEntity(Entity);

#[verifier::external_type_specification]
#[verifier::external_body]
pub struct ExChildBuilder<'w, 's, 'a>(ChildBuilder<'w, 's, 'a>);

/// One deferred mutation of the world, as a command buffer holds it.
/// Entities stand by their 64-bit identifier.
pub enum Request {
    /// Attach a bundle to an entity reserved for it.
    Spawn { entity: u64 },
    /// Remove the entity, leaving its children in place.
    Despawn { entity: u64 },
    /// Remove the entity together with its whole subtree.
    DespawnRecursive { entity: u64 },
    /// Append the listed entities to the children of `parent`.
    PushChildren { parent: u64, children: Seq<u64> },
    /// Store a given value as the singleton of its type.
    InsertResource,
    /// Build the singleton from the world, unless one is there already.
    InitResource,
    /// Drop the singleton of a type.
    RemoveResource,
}

/// The 64-bit identifier of an entity, as `Entity::to_bits` gives it.
pub uninterp spec fn entity_bits(entity: Entity) -> u64;

/// The requests that a command buffer holds, oldest first.
pub uninterp spec fn buffered(commands: Commands) -> Seq<Request>;

/// Whether the entity table behind the buffer resolves the identifier.
pub uninterp spec fn resolves(commands: Commands, bits: u64) -> bool;

/// The requests held by the command buffer that a child builder writes to,
/// oldest first.
pub uninterp spec fn builder_buffered(builder: ChildBuilder) -> Seq<Request>;

/// The children that a child builder has collected for its parent so far.
pub uninterp spec fn builder_children(builder: ChildBuilder) -> Seq<u64>;

/// What a parent with a single child adds to a buffer: the parent's spawn,
/// the child's spawn, then the request that makes the one the child of the
/// other.
pub open spec fn family_requests(parent: u64, child: u64) -> Seq<Request> {
    seq![
        Request::Spawn { entity: parent },
        Request::Spawn { entity: child },
        Request::PushChildren { parent, children: seq![child] },
    ]
}

/// The identifiers of a list of entities, in the list's order.
pub open spec fn identifiers(entities: Seq<Entity>) -> Seq<u64> {
    entities.map_values(|entity: Entity| entity_bits(entity))
}

/// `Entity::to_bits`: the identifier of the entity.
pub assume_specification[ Entity::to_bits ](entity: Entity) -> (bits: u64)
    ensures
        bits == entity_bits(entity),
;

/// The 64-bit identifier by which the contracts speak of `entity`.
pub fn identifier(entity: Entity) -> (bits: u64)
    ensures
        bits == entity_bits(entity),
{
    entity.to_bits()
}

/// `Commands::get_entity`, reduced to whether it found the entity: a lookup
/// in the entity table behind the buffer. Nothing is buffered.
#[verifier::external_body]
pub(crate) fn resolve_entity(commands: &mut Commands, entity: Entity) -> (found: bool)
    ensures
        found == resolves(*old(commands), entity_bits(entity)),
        buffered(*final(commands)) == buffered(*old(commands)),
        forall|bits: u64| resolves(*final(commands), bits) == resolves(*old(commands), bits),
{
    commands.get_entity(entity).is_some()
}

/// `Commands::entity` followed by `EntityCommands::despawn`: appends one
/// despawn command for the entity and leaves the entity table alone.
/// `Commands::entity` panics on an entity that the table does not resolve,
/// hence the precondition.
#[verifier::external_body]
pub(crate) fn push_despawn(commands: &mut Commands, entity: Entity)
    requires
        resolves(*old(commands), entity_bits(entity)),
    ensures
        buffered(*final(commands)) == buffered(*old(commands)).push(
            Request::Despawn { entity: entity_bits(entity) },
        ),
        forall|bits: u64| resolves(*final(commands), bits) == resolves(*old(commands), bits),
{
    commands.entity(entity).despawn();
}

/// `Commands::entity` followed by `DespawnRecursiveExt::despawn_recursive`:
/// appends one recursive despawn command for the entity and leaves the
/// entity table alone. Same precondition as for a plain despawn.
#[verifier::external_body]
pub(crate) fn push_despawn_recursive(commands: &mut Commands, entity: Entity)
    requires
        resolves(*old(commands), entity_bits(entity)),
    ensures
        buffered(*final(commands)) == buffered(*old(commands)).push(
            Request::DespawnRecursive { entity: entity_bits(entity) },
        ),
        forall|bits: u64| resolves(*final(commands), bits) == resolves(*old(commands), bits),
{
    commands.entity(entity).despawn_recursive();
}

/// `Commands::spawn`, reduced to the new entity's identifier: reserves an
/// entity and appends one command that attaches the bundle to it. (The host
/// gives up only when the 32-bit index space is exhausted.)
#[verifier::external_body]
pub(crate) fn push_spawn<B: Bundle>(commands: &mut Commands, bundle: B) -> (entity: Entity)
    ensures
        buffered(*final(commands)) == buffered(*old(commands)).push(
            Request::Spawn { entity: entity_bits(entity) },
        ),
{
    commands.spawn(bundle).id()
}

/// `ChildBuilder::spawn`, reduced to the new entity's identifier: spawns on
/// the buffer behind the builder and notes the entity as one more child.
#[verifier::external_body]
pub(crate) fn push_child<B: Bundle>(builder: &mut ChildBuilder, bundle: B) -> (child: Entity)
    ensures
        builder_buffered(*final(builder)) == builder_buffered(*old(builder)).push(
            Request::Spawn { entity: entity_bits(child) },
        ),
        builder_children(*final(builder)) == builder_children(*old(builder)).push(
            entity_bits(child),
        ),
{
    builder.spawn(bundle).id()
}

/// `ChildBuilder::spawn` followed by `BuildChildren::with_children`, whose
/// closure spawns the one child through `spawn_child`. The parent is spawned
/// and noted as a child of the builder; `with_children` opens a builder of
/// its own for the parent, runs the closure on it, and appends what that
/// builder collected as one `PushChildren` command. The two entities are
/// reserved one after the other, so they differ.
#[verifier::external_body]
pub(crate) fn push_parent_of_one<P: Bundle, C: Bundle>(
    builder: &mut ChildBuilder,
    parent: P,
    child: C,
) -> (id: Entity)
    ensures
        exists|inner: u64|
            inner != entity_bits(id) && builder_buffered(*final(builder)) == builder_buffered(
                *old(builder),
            ) + #[trigger] family_requests(entity_bits(id), inner),
        builder_children(*final(builder)) == builder_children(*old(builder)).push(entity_bits(id)),
{
    builder.spawn(parent).with_children(|inner| { spawn_child(inner, child); }).id()
}

/// `Commands::insert_resource`: appends one insert command for the value.
#[verifier::external_body]
pub(crate) fn push_insert_resource<R: Resource>(commands: &mut Commands, resource: R)
    ensures
        buffered(*final(commands)) == buffered(*old(commands)).push(Request::InsertResource),
{
    commands.insert_resource(resource);
}

/// `Commands::init_resource`: appends one init command for the type.
#[verifier::external_body]
pub(crate) fn push_init_resource<R: Resource + FromWorld>(commands: &mut Commands)
    ensures
        buffered(*final(commands)) == buffered(*old(commands)).push(Request::InitResource),
{
    commands.init_resource::<R>();
}

/// `Commands::remove_resource`: appends one remove command for the type.
#[verifier::external_body]
pub(crate) fn push_remove_resource<R: Resource>(commands: &mut Commands)
    ensures
        buffered(*final(commands)) == buffered(*old(commands)).push(Request::RemoveResource),
{
    commands.remove_resource::<R>();
}

} // verus!
