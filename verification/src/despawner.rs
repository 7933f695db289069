//! Removing entities: one at a time, or every match of a query at once.

use crate::requests::buffered;
use crate::requests::entity_bits;
use crate::requests::identifiers;
use crate::requests::push_despawn;
use crate::requests::push_despawn_recursive;
use crate::requests::resolve_entity;
use crate::requests::resolves;
use crate::requests::Request;
use bevy::ecs::entity::Entity;
use bevy::ecs::system::Commands;
use vstd::prelude::*;

verus! {

/// Queues the removal of entities on the command buffer it holds.
pub struct EntityDespawner<'w, 's>(Commands<'w, 's>);

impl<'w, 's> View for EntityDespawner<'w, 's> {
    type V = Seq<Request>;

    /// The requests buffered so far, oldest first.
    closed spec fn view(&self) -> Seq<Request> {
        buffered(self.0)
    }
}

/// The requests that one cleanup pass over `matched` appends: a recursive
/// despawn for each identifier that `known` accepts, in the order of
/// `matched`.
pub open spec fn cleanup_requests(known: spec_fn(u64) -> bool, matched: Seq<u64>) -> Seq<Request>
    decreases matched.len(),
{
    if matched.len() == 0 {
        Seq::empty()
    } else if known(matched.last()) {
        cleanup_requests(known, matched.drop_last()).push(
            Request::DespawnRecursive { entity: matched.last() },
        )
    } else {
        cleanup_requests(known, matched.drop_last())
    }
}

impl<'w, 's> EntityDespawner<'w, 's> {
    /// Whether the entity table behind the buffer resolves the identifier.
    pub closed spec fn knows(&self, bits: u64) -> bool {
        resolves(self.0, bits)
    }

    /// The predicate `knows`, as a value.
    pub open spec fn known(&self) -> spec_fn(u64) -> bool {
        |bits: u64| self.knows(bits)
    }

    /// A despawner that appends to the given buffer.
    pub fn new(commands: Commands<'w, 's>) -> (despawner: Self)
        ensures
            despawner@ == buffered(commands),
            forall|bits: u64| despawner.knows(bits) == resolves(commands, bits),
    {
        EntityDespawner(commands)
    }

    /// Hands the buffer back.
    pub fn into_commands(self) -> (commands: Commands<'w, 's>)
        ensures
            buffered(commands) == self@,
            forall|bits: u64| resolves(commands, bits) == self.knows(bits),
    {
        self.0
    }

    /// Queues the removal of `entity`; its children stay. An entity that the
    /// host no longer knows is passed over in silence.
    pub fn despawn(&mut self, entity: Entity)
        ensures
            old(self).knows(entity_bits(entity)) ==> final(self)@ == old(self)@.push(
                Request::Despawn { entity: entity_bits(entity) },
            ),
            !old(self).knows(entity_bits(entity)) ==> final(self)@ == old(self)@,
            forall|bits: u64| final(self).knows(bits) == old(self).knows(bits),
    {
        if resolve_entity(&mut self.0, entity) {
            push_despawn(&mut self.0, entity);
        }
    }

    /// Queues the removal of `entity` and of its whole subtree. An entity
    /// that the host no longer knows is passed over in silence.
    pub fn despawn_recursive(&mut self, entity: Entity)
        ensures
            old(self).knows(entity_bits(entity)) ==> final(self)@ == old(self)@.push(
                Request::DespawnRecursive { entity: entity_bits(entity) },
            ),
            !old(self).knows(entity_bits(entity)) ==> final(self)@ == old(self)@,
            forall|bits: u64| final(self).knows(bits) == old(self).knows(bits),
    {
        if resolve_entity(&mut self.0, entity) {
            push_despawn_recursive(&mut self.0, entity);
        }
    }
}

/// One cleanup pass: queues a recursive despawn for every entity of
/// `matched`, the entities that the caller's query gave, in their order.
pub fn entity_cleanup_system(despawner: &mut EntityDespawner, matched: &Vec<Entity>)
    ensures
        final(despawner)@ == old(despawner)@ + cleanup_requests(
            old(despawner).known(),
            identifiers(matched@),
        ),
        forall|bits: u64| final(despawner).knows(bits) == old(despawner).knows(bits),
{
    let ghost ids = identifiers(matched@);
    let ghost known = despawner.known();
    let mut i: usize = 0;
    proof {
        assert(ids.take(0) =~= Seq::<u64>::empty());
        assert(despawner@ =~= despawner@ + cleanup_requests(known, ids.take(0)));
    }
    while i < matched.len()
        invariant
            0 <= i <= matched.len(),
            ids == identifiers(matched@),
            known == old(despawner).known(),
            despawner@ == old(despawner)@ + cleanup_requests(known, ids.take(i as int)),
            forall|bits: u64| despawner.knows(bits) == old(despawner).knows(bits),
        decreases matched.len() - i,
    {
        let entity = matched[i];
        despawner.despawn_recursive(entity);
        proof {
            let head = ids.take(i as int);
            let next = ids.take(i as int + 1);
            assert(next.drop_last() =~= head);
            assert(next.last() == entity_bits(entity));
            assert(known(entity_bits(entity)) == old(despawner).knows(entity_bits(entity)));
            assert(despawner@ =~= old(despawner)@ + cleanup_requests(known, next));
        }
        i = i + 1;
    }
    proof {
        assert(ids.take(i as int) =~= ids);
    }
}

/// Whether `requests` ask for the removal of the entity, alone or together
/// with its subtree.
pub open spec fn removes(requests: Seq<Request>, bits: u64) -> bool {
    requests.contains(Request::Despawn { entity: bits }) || requests.contains(
        Request::DespawnRecursive { entity: bits },
    )
}

/// Every match that the host still knows gets its recursive despawn: the
/// requests of a cleanup pass hold one for each such identifier.
pub proof fn cleanup_reaches_every_match(known: spec_fn(u64) -> bool, matched: Seq<u64>, i: int)
    requires
        0 <= i < matched.len(),
        known(matched[i]),
    ensures
        cleanup_requests(known, matched).contains(Request::DespawnRecursive { entity: matched[i] }),
    decreases matched.len(),
{
    let all = cleanup_requests(known, matched);
    if i == matched.len() - 1 {
        assert(all.last() == Request::DespawnRecursive { entity: matched[i] });
    } else {
        let rest = cleanup_requests(known, matched.drop_last());
        cleanup_reaches_every_match(known, matched.drop_last(), i);
        let at = choose|at: int|
            0 <= at < rest.len() && rest[at] == (Request::DespawnRecursive { entity: matched[i] });
        assert(all[at] == rest[at]);
    }
}

/// A cleanup pass leaves no match out: whatever the buffer held before, with
/// the requests of the pass behind it the buffer asks for the removal of
/// every match that the host knows.
pub proof fn cleanup_leaves_no_match(
    earlier: Seq<Request>,
    known: spec_fn(u64) -> bool,
    matched: Seq<u64>,
    i: int,
)
    requires
        0 <= i < matched.len(),
        known(matched[i]),
    ensures
        removes(earlier + cleanup_requests(known, matched), matched[i]),
{
    let pass = cleanup_requests(known, matched);
    let wanted = Request::DespawnRecursive { entity: matched[i] };
    cleanup_reaches_every_match(known, matched, i);
    let at = choose|at: int| 0 <= at < pass.len() && pass[at] == wanted;
    assert((earlier + pass)[earlier.len() + at] == wanted);
}

/// A cleanup pass asks for nothing else: each of its requests is a recursive
/// despawn of a match that the host knows.
pub proof fn cleanup_requests_only_matches(known: spec_fn(u64) -> bool, matched: Seq<u64>, at: int)
    requires
        0 <= at < cleanup_requests(known, matched).len(),
    ensures
        exists|i: int|
            0 <= i < matched.len() && known(matched[i]) && cleanup_requests(known, matched)[at]
                == (Request::DespawnRecursive { entity: #[trigger] matched[i] }),
    decreases matched.len(),
{
    let all = cleanup_requests(known, matched);
    if matched.len() > 0 {
        let rest = cleanup_requests(known, matched.drop_last());
        if at < rest.len() {
            cleanup_requests_only_matches(known, matched.drop_last(), at);
            let i = choose|i: int|
                0 <= i < matched.drop_last().len() && known(matched.drop_last()[i]) && rest[at] == (
                Request::DespawnRecursive { entity: #[trigger] matched.drop_last()[i] });
            assert(matched[i] == matched.drop_last()[i]);
        } else {
            assert(all[at] == Request::DespawnRecursive { entity: matched[matched.len() - 1] });
        }
    }
}

} // verus!
