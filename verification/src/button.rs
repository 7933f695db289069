//! A button as two entities: a frame that carries a marker, and a label as
//! its only child.

use crate::payload::default_with;
use crate::requests::builder_buffered;
use crate::requests::builder_children;
use crate::requests::entity_bits;
use crate::requests::family_requests;
use crate::requests::push_child;
use crate::requests::push_parent_of_one;
use crate::requests::Request;
use bevy::ecs::bundle::Bundle;
use bevy::ecs::component::Component;
use bevy::ecs::entity::Entity;
use bevy::hierarchy::ChildBuilder;
use vstd::prelude::*;

verus! {

/// Spawns `bundle` as one more child of the builder's parent, and returns
/// the child's identifier.
pub fn spawn_child<B: Bundle>(builder: &mut ChildBuilder, bundle: B) -> (child: Entity)
    ensures
        builder_buffered(*final(builder)) == builder_buffered(*old(builder)).push(
            Request::Spawn { entity: entity_bits(child) },
        ),
        builder_children(*final(builder)) == builder_children(*old(builder)).push(
            entity_bits(child),
        ),
{
    push_child(builder, bundle)
}

/// Spawns a button under the builder's parent: one entity that carries
/// `default_with(frame)`, the default marker `B` together with `frame`, and
/// under it one entity that carries `label`. The button becomes a child of
/// the builder's parent, the label a child of the button, and nothing else
/// is asked for.
///
/// A request does not show what it carries, so the contract cannot say
/// which of the two values sits on the button and which on the label: that
/// rests on the order in which the body hands them on, the marked frame
/// first and the label second.
pub fn spawn_button<B: Component + Default, F: Bundle, L: Bundle>(
    parent: &mut ChildBuilder,
    frame: F,
    label: L,
)
    ensures
        exists|button: u64, text: u64|
            button != text && builder_buffered(*final(parent)) == builder_buffered(*old(parent))
                + #[trigger] family_requests(button, text) && builder_children(*final(parent))
                == builder_children(*old(parent)).push(button),
{
    let id = push_parent_of_one(parent, default_with::<B, F>(frame), label);
    proof {
        let inner = choose|inner: u64|
            inner != entity_bits(id) && builder_buffered(*parent) == builder_buffered(*old(parent))
                + #[trigger] family_requests(entity_bits(id), inner);
        assert(builder_buffered(*parent) == builder_buffered(*old(parent)) + family_requests(
            entity_bits(id),
            inner,
        ));
    }
}

} // verus!
