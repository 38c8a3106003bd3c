//! Turns the physics engine's collision events into slayer deaths.
use vstd::prelude::*;

verus! {

/// The collision groups a body belongs to.
#[derive(Clone, Copy, Debug, PartialEq, Eq, Structural)]
pub struct CollisionLayers {
    pub slayer: bool,
    pub snake_head: bool,
}

/// A collision between two bodies, given by entity id and groups.
#[derive(Clone, Copy, Debug, PartialEq, Eq, Structural)]
pub struct CollisionEvent {
    /// Whether the contact began (rather than ended).
    pub started: bool,
    pub entity_1: u64,
    pub entity_2: u64,
    pub layers_1: CollisionLayers,
    pub layers_2: CollisionLayers,
}

/// A body of the slayer's group and not of the snake head's.
pub open spec fn slayer_body(l: CollisionLayers) -> bool {
    l.slayer && !l.snake_head
}

/// A body of the snake head's group and not of the slayer's.
pub open spec fn snake_head_body(l: CollisionLayers) -> bool {
    !l.slayer && l.snake_head
}

/// The slayer that a collision kills: the slayer's entity when a slayer
/// begins to touch a snake head, in either order.
pub open spec fn victim_of(e: CollisionEvent) -> Option<u64> {
    if !e.started {
        None
    } else if slayer_body(e.layers_1) && snake_head_body(e.layers_2) {
        Some(e.entity_1)
    } else if slayer_body(e.layers_2) && snake_head_body(e.layers_1) {
        Some(e.entity_2)
    } else {
        None
    }
}

/// The slayers killed by a sequence of collisions, in order.
pub open spec fn victims(es: Seq<CollisionEvent>) -> Seq<u64>
    decreases es.len(),
{
    if es.len() == 0 {
        Seq::empty()
    } else {
        match victim_of(es.last()) {
            Some(id) => victims(es.drop_last()).push(id),
            None => victims(es.drop_last()),
        }
    }
}

pub fn is_slayer(l: CollisionLayers) -> (r: bool)
    ensures
        r == slayer_body(l),
{
    l.slayer && !l.snake_head
}

pub fn is_snake_head(l: CollisionLayers) -> (r: bool)
    ensures
        r == snake_head_body(l),
{
    !l.slayer && l.snake_head
}

/// The slayer killed by one collision, if any.
pub fn slayer_victim(e: &CollisionEvent) -> (r: Option<u64>)
    ensures
        r == victim_of(*e),
{
    if !e.started {
        None
    } else if is_slayer(e.layers_1) && is_snake_head(e.layers_2) {
        Some(e.entity_1)
    } else if is_slayer(e.layers_2) && is_snake_head(e.layers_1) {
        Some(e.entity_2)
    } else {
        None
    }
}

/// The slayers to despawn, one for each collision that kills one, in order;
/// each despawn comes with the chomp sound.
pub fn slayer_death(events: &Vec<CollisionEvent>) -> (r: Vec<u64>)
    ensures
        r@ == victims(events@),
{
    let mut r: Vec<u64> = Vec::new();
    let mut i: usize = 0;
    while i < events.len()
        invariant
            i <= events@.len(),
            r@ == victims(events@.subrange(0, i as int)),
        decreases events.len() - i,
    {
        if let Some(id) = slayer_victim(&events[i]) {
            r.push(id);
        }
        assert(events@.subrange(0, i + 1).drop_last() =~= events@.subrange(0, i as int));
        i = i + 1;
    }
    assert(events@.subrange(0, i as int) =~= events@);
    r
}

/// A started contact kills a slayer exactly when one body is a slayer and
/// the other a snake head; which body comes first does not matter, and two
/// slayers or two snake heads never do.
pub proof fn lemma_slayer_death_classification(e: CollisionEvent)
    requires
        e.started,
    ensures
        victim_of(e).is_some() <==> (slayer_body(e.layers_1) && snake_head_body(e.layers_2))
            || (slayer_body(e.layers_2) && snake_head_body(e.layers_1)),
        victim_of(
            CollisionEvent {
                entity_1: e.entity_2,
                entity_2: e.entity_1,
                layers_1: e.layers_2,
                layers_2: e.layers_1,
                ..e
            },
        ) == victim_of(e),
        slayer_body(e.layers_1) && slayer_body(e.layers_2) ==> victim_of(e).is_none(),
        snake_head_body(e.layers_1) && snake_head_body(e.layers_2) ==> victim_of(e).is_none(),
{
}

} // verus!
