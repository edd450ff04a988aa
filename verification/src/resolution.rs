//! Turning the walkers that touch a direction changer.
//!
//! Every sensor of a direction changer is asked for the colliders that
//! overlap it. A walker that owns one of them and walks the other way is
//! turned, and the body that carries that collider loses its horizontal
//! speed. Its vertical speed stays, so that a walker that falls keeps
//! falling.

use vstd::prelude::*;
use crate::arena::Slot;
use crate::components::{BodyHandle, ColliderHandle, Components, EntityId};
use crate::direction::Direction;
use crate::geometry::Vec2;
use crate::ownership::{lemma_extended_chain, same_colliders};
use crate::physics::{PhysicsAdapter, PhysicsView};
use crate::world::{Entities, World, alive, components_of, turned, with_direction};

verus! {

/// A collider that overlaps the sensor of a direction changer: the direction
/// that the changer asks for, the entity that owns the collider, and the body
/// that carries it.
#[derive(Clone, Copy, Debug)]
pub struct Touch {
    pub direction: Direction,
    pub entity: EntityId,
    pub body: Option<BodyHandle>,
}

/// The touches of one sensor that asks for `d`: one for each collider in
/// `near` that an entity owns, in the order of `near`.
pub open spec fn touches_near(p: PhysicsView, d: Direction, near: Seq<ColliderHandle>) -> Seq<Touch>
    decreases near.len(),
{
    if near.len() == 0 {
        Seq::empty()
    } else {
        let before = touches_near(p, d, near.drop_last());
        match p.entity_of(near.last()) {
            Some(entity) => before.push(
                Touch { direction: d, entity, body: p.body_of(near.last()) },
            ),
            None => before,
        }
    }
}

/// The touches of the sensor of the entity in this slot, if it is a
/// direction changer with a collider.
pub open spec fn touches_of(slot: Slot<Components>, p: PhysicsView) -> Seq<Touch> {
    match slot.value {
        Some(c) => match (c.change_direction, c.collider) {
            (Some(changer), Some(sensor)) => touches_near(
                p,
                changer.direction,
                p.proximity_of(sensor),
            ),
            _ => Seq::empty(),
        },
        None => Seq::empty(),
    }
}

/// The touches of the direction changers among the first `n` slots, in the
/// order of the slots.
pub open spec fn touches(slots: Entities, p: PhysicsView, n: int) -> Seq<Touch>
    decreases n,
{
    if n <= 0 {
        Seq::empty()
    } else {
        touches(slots, p, n - 1) + touches_of(slots[n - 1], p)
    }
}

/// Whether the touch turns a walker: the entity is a walker that walks the
/// other way.
pub open spec fn flips(slots: Entities, t: Touch) -> bool {
    &&& alive(slots, t.entity)
    &&& components_of(slots, t.entity).walker matches Some(w)
    &&& w.direction != t.direction
}

/// The entities after the touches were resolved one after the other.
pub open spec fn turned_by(slots: Entities, ts: Seq<Touch>) -> Entities
    decreases ts.len(),
{
    if ts.len() == 0 {
        slots
    } else {
        with_direction(turned_by(slots, ts.drop_last()), ts.last().entity, ts.last().direction)
    }
}

/// The bodies of the touches that turned a walker, in the order of the
/// touches.
pub open spec fn stopped(slots: Entities, ts: Seq<Touch>) -> Seq<BodyHandle>
    decreases ts.len(),
{
    if ts.len() == 0 {
        Seq::empty()
    } else {
        let before = stopped(slots, ts.drop_last());
        if flips(turned_by(slots, ts.drop_last()), ts.last()) && ts.last().body is Some {
            before.push(ts.last().body->0)
        } else {
            before
        }
    }
}

/// The physics world after the body `b` lost its horizontal speed. A body
/// that is gone changes nothing.
pub open spec fn halted_one(p: PhysicsView, b: BodyHandle) -> PhysicsView {
    if p.has_body(b) {
        p.with_velocity(b, Vec2 { x: 0, y: p.body(b).linear.y }, p.body(b).angular)
    } else {
        p
    }
}

/// The physics world after each of `bodies` lost its horizontal speed.
pub open spec fn halted(p: PhysicsView, bodies: Seq<BodyHandle>) -> PhysicsView
    decreases bodies.len(),
{
    if bodies.len() == 0 {
        p
    } else {
        halted_one(halted(p, bodies.drop_last()), bodies.last())
    }
}

/// The entities after one round of resolution.
pub open spec fn resolved_world(slots: Entities, p: PhysicsView) -> Entities {
    turned_by(slots, touches(slots, p, slots.len() as int))
}

/// The physics world after one round of resolution.
pub open spec fn resolved_physics(slots: Entities, p: PhysicsView) -> PhysicsView {
    halted(p, stopped(slots, touches(slots, p, slots.len() as int)))
}

/// Whether no walker is asked to walk both ways at once: touches of one
/// entity all ask for the same direction.
pub open spec fn agreeing(ts: Seq<Touch>) -> bool {
    forall|i: int, j: int|
        0 <= i < ts.len() && 0 <= j < ts.len() && (#[trigger] ts[i]).entity == (#[trigger] ts[j]).entity
            ==> ts[i].direction == ts[j].direction
}

/// Collects the touches of one sensor.
fn gather_near(physics: &PhysicsAdapter, d: Direction, sensor: ColliderHandle, out: &mut Vec<Touch>)
    ensures
        final(out)@ == old(out)@ + touches_near(physics@, d, physics@.proximity_of(sensor)),
{
    let near = physics.proximity_of(sensor);
    let n = near.len();
    let mut j: usize = 0;
    assert(near@.take(0) =~= Seq::<ColliderHandle>::empty());
    assert(out@ =~= old(out)@ + touches_near(physics@, d, near@.take(0)));
    while j < n
        invariant
            n == near@.len(),
            j <= n,
            out@ == old(out)@ + touches_near(physics@, d, near@.take(j as int)),
        decreases n - j,
    {
        assert(near@.take(j + 1).drop_last() =~= near@.take(j as int));
        match physics.entity_of(near[j]) {
            Some(entity) => {
                out.push(Touch { direction: d, entity, body: physics.body_of(near[j]) });
            },
            None => {},
        }
        assert(out@ =~= old(out)@ + touches_near(physics@, d, near@.take(j + 1)));
        j += 1;
    }
    assert(near@.take(n as int) =~= near@);
}

/// Collects the touches of every direction changer, in the order of the
/// slots.
pub fn gather_touches(world: &World, physics: &PhysicsAdapter) -> (ts: Vec<Touch>)
    ensures
        ts@ == touches(world@, physics@, world@.len() as int),
{
    let mut out: Vec<Touch> = Vec::new();
    let n = world.slot_count();
    let mut i: usize = 0;
    while i < n
        invariant
            n == world@.len(),
            i <= n,
            out@ == touches(world@, physics@, i as int),
        decreases n - i,
    {
        let ghost before = out@;
        match world.entity_at(i) {
            Some((_, c)) => match (c.change_direction, c.collider) {
                (Some(changer), Some(sensor)) => {
                    gather_near(physics, changer.direction, sensor, &mut out);
                },
                _ => {
                    assert(out@ =~= before + Seq::<Touch>::empty());
                },
            },
            None => {
                assert(out@ =~= before + Seq::<Touch>::empty());
            },
        }
        i += 1;
    }
    out
}

/// Resolves the touches one after the other: turns each walker that walks
/// the other way, and returns the bodies to stop.
pub fn turn_walkers(world: &mut World, ts: &Vec<Touch>) -> (bodies: Vec<BodyHandle>)
    ensures
        final(world)@ == turned_by(old(world)@, ts@),
        bodies@ == stopped(old(world)@, ts@),
        same_colliders(old(world)@, final(world)@),
{
    let mut bodies: Vec<BodyHandle> = Vec::new();
    let n = ts.len();
    let mut i: usize = 0;
    assert(ts@.take(0) =~= Seq::<Touch>::empty());
    while i < n
        invariant
            n == ts@.len(),
            i <= n,
            world@ == turned_by(old(world)@, ts@.take(i as int)),
            bodies@ == stopped(old(world)@, ts@.take(i as int)),
            same_colliders(old(world)@, world@),
        decreases n - i,
    {
        assert(ts@.take(i + 1).drop_last() =~= ts@.take(i as int));
        let t = ts[i];
        let walks_other_way = match world.get(t.entity) {
            Some(c) => match c.walker {
                Some(w) => w.direction != t.direction,
                None => false,
            },
            None => false,
        };
        if walks_other_way {
            match t.body {
                Some(b) => {
                    bodies.push(b);
                },
                None => {},
            }
        }
        proof {
            if !walks_other_way {
                lemma_no_flip_no_change(world@, t);
            }
        }
        world.set_direction(t.entity, t.direction);
        i += 1;
    }
    assert(ts@.take(n as int) =~= ts@);
    bodies
}

/// Takes the horizontal speed from each of `bodies`.
pub fn halt_bodies(physics: &mut PhysicsAdapter, bodies: &Vec<BodyHandle>)
    ensures
        final(physics)@ == halted(old(physics)@, bodies@),
        old(physics)@.sound() ==> final(physics)@.sound(),
        old(physics)@.extended_by(final(physics)@),
{
    let n = bodies.len();
    let mut i: usize = 0;
    assert(bodies@.take(0) =~= Seq::<BodyHandle>::empty());
    proof {
        lemma_extended_chain(physics@, physics@, physics@);
    }
    while i < n
        invariant
            n == bodies@.len(),
            i <= n,
            physics@ == halted(old(physics)@, bodies@.take(i as int)),
            old(physics)@.sound() ==> physics@.sound(),
            old(physics)@.extended_by(physics@),
        decreases n - i,
    {
        assert(bodies@.take(i + 1).drop_last() =~= bodies@.take(i as int));
        match physics.velocity_of(bodies[i]) {
            Some(body) => {
                let ghost before = physics@;
                physics.set_velocity(bodies[i], Vec2 { x: 0, y: body.linear.y }, body.angular);
                proof {
                    lemma_extended_chain(old(physics)@, before, physics@);
                }
            },
            None => {},
        }
        i += 1;
    }
    assert(bodies@.take(n as int) =~= bodies@);
}

/// One round of resolution: every walker that touches a direction changer
/// and walks the other way is turned, and loses its horizontal speed.
pub fn resolve_direction_changes(world: &mut World, physics: &mut PhysicsAdapter)
    ensures
        final(world)@ == resolved_world(old(world)@, old(physics)@),
        final(physics)@ == resolved_physics(old(world)@, old(physics)@),
        old(physics)@.sound() ==> final(physics)@.sound(),
        old(physics)@.extended_by(final(physics)@),
        same_colliders(old(world)@, final(world)@),
{
    let ts = gather_touches(world, physics);
    let bodies = turn_walkers(world, &ts);
    halt_bodies(physics, &bodies);
}

/// A touch that turns no walker leaves the entities as they are.
pub proof fn lemma_no_flip_no_change(slots: Entities, t: Touch)
    requires
        !flips(slots, t),
    ensures
        with_direction(slots, t.entity, t.direction) == slots,
{
    if alive(slots, t.entity) {
        let c = components_of(slots, t.entity);
        match c.walker {
            Some(w) => {
                assert(turned(c, t.direction) == c);
            },
            None => {},
        }
        assert(with_direction(slots, t.entity, t.direction) =~= slots);
    }
}

/// Whether two slots hold the same entity but for the direction in which it
/// walks.
pub open spec fn same_but_direction(a: Slot<Components>, b: Slot<Components>) -> bool {
    &&& a.generation == b.generation
    &&& match (a.value, b.value) {
        (None, None) => true,
        (Some(x), Some(y)) => (x.walker is Some <==> y.walker is Some) && (Components {
            walker: None,
            ..x
        }) == (Components { walker: None, ..y }),
        _ => false,
    }
}

/// Resolving touches changes nothing of the entities but the direction of
/// walkers.
pub proof fn lemma_turned_by_keeps(slots: Entities, ts: Seq<Touch>)
    ensures
        turned_by(slots, ts).len() == slots.len(),
        forall|i: int|
            0 <= i < slots.len() ==> same_but_direction(slots[i], #[trigger] turned_by(slots, ts)[i]),
    decreases ts.len(),
{
    if ts.len() > 0 {
        lemma_turned_by_keeps(slots, ts.drop_last());
        let before = turned_by(slots, ts.drop_last());
        let after = turned_by(slots, ts);
        assert forall|i: int| 0 <= i < slots.len() implies same_but_direction(
            slots[i],
            #[trigger] after[i],
        ) by {
            assert(same_but_direction(slots[i], before[i]));
        }
    }
}

/// Taking the horizontal speed from bodies leaves the colliders and the
/// overlaps alone.
pub proof fn lemma_halted_keeps(p: PhysicsView, bodies: Seq<BodyHandle>)
    ensures
        halted(p, bodies).colliders == p.colliders,
        halted(p, bodies).contacts == p.contacts,
    decreases bodies.len(),
{
    if bodies.len() > 0 {
        lemma_halted_keeps(p, bodies.drop_last());
    }
}

/// The touches of a sensor depend on the colliders and the overlaps alone.
proof fn lemma_touches_near_alike(p: PhysicsView, q: PhysicsView, d: Direction, near: Seq<ColliderHandle>)
    requires
        p.colliders == q.colliders,
    ensures
        touches_near(p, d, near) == touches_near(q, d, near),
    decreases near.len(),
{
    if near.len() > 0 {
        lemma_touches_near_alike(p, q, d, near.drop_last());
    }
}

/// The touches stay the same when walkers are turned and bodies change
/// their speed.
pub proof fn lemma_touches_alike(a: Entities, p: PhysicsView, b: Entities, q: PhysicsView, n: int)
    requires
        a.len() == b.len(),
        n <= a.len(),
        forall|i: int| 0 <= i < a.len() ==> same_but_direction(a[i], #[trigger] b[i]),
        p.colliders == q.colliders,
        p.contacts == q.contacts,
    ensures
        touches(a, p, n) == touches(b, q, n),
    decreases n,
{
    if n > 0 {
        lemma_touches_alike(a, p, b, q, n - 1);
        assert(same_but_direction(a[n - 1], b[n - 1]));
        match a[n - 1].value {
            Some(c) => match (c.change_direction, c.collider) {
                (Some(changer), Some(sensor)) => {
                    lemma_touches_near_alike(p, q, changer.direction, p.proximity_of(sensor));
                },
                _ => {},
            },
            None => {},
        }
        assert(touches_of(a[n - 1], p) == touches_of(b[n - 1], q));
    }
}

/// Once the touches are resolved, and no walker was asked to walk both ways,
/// none of them turns a walker any more.
pub proof fn lemma_settles(slots: Entities, ts: Seq<Touch>)
    requires
        agreeing(ts),
    ensures
        forall|i: int| 0 <= i < ts.len() ==> !flips(turned_by(slots, ts), #[trigger] ts[i]),
    decreases ts.len(),
{
    if ts.len() > 0 {
        let head = ts.drop_last();
        let last = ts.last();
        assert forall|i: int, j: int|
            0 <= i < head.len() && 0 <= j < head.len() && (#[trigger] head[i]).entity == (
            #[trigger] head[j]).entity implies head[i].direction == head[j].direction by {
            assert(head[i] == ts[i] && head[j] == ts[j]);
        }
        lemma_settles(slots, head);
        let before = turned_by(slots, head);
        let after = turned_by(slots, ts);
        assert(after == with_direction(before, last.entity, last.direction));
        assert forall|i: int| 0 <= i < ts.len() implies !flips(after, #[trigger] ts[i]) by {
            if i < ts.len() - 1 {
                assert(head[i] == ts[i]);
                assert(!flips(before, head[i]));
                assert(ts[ts.len() - 1] == last);
                if ts[i].entity == last.entity {
                    assert(ts[i].direction == last.direction);
                }
            }
        }
    }
}

/// Where no touch turns a walker, resolving the touches changes nothing and
/// stops no body.
pub proof fn lemma_settled_is_fixed(slots: Entities, ts: Seq<Touch>)
    requires
        forall|i: int| 0 <= i < ts.len() ==> !flips(slots, #[trigger] ts[i]),
    ensures
        turned_by(slots, ts) == slots,
        stopped(slots, ts) == Seq::<BodyHandle>::empty(),
    decreases ts.len(),
{
    if ts.len() > 0 {
        let head = ts.drop_last();
        assert forall|i: int| 0 <= i < head.len() implies !flips(slots, #[trigger] head[i]) by {
            assert(head[i] == ts[i]);
        }
        lemma_settled_is_fixed(slots, head);
        assert(!flips(slots, ts[ts.len() - 1]));
        lemma_no_flip_no_change(slots, ts.last());
    }
}

/// Resolution is idempotent. A second round right after the first, with no
/// overlap begun or ended in between, turns no walker and stops no body:
/// the entities and the physics world stay as the first round left them.
/// This holds as long as no walker touches two direction changers that ask
/// for different directions; such a walker is turned back and forth in
/// every round.
pub proof fn lemma_resolution_idempotent(slots: Entities, p: PhysicsView)
    requires
        agreeing(touches(slots, p, slots.len() as int)),
    ensures
        resolved_world(resolved_world(slots, p), resolved_physics(slots, p)) == resolved_world(
            slots,
            p,
        ),
        resolved_physics(resolved_world(slots, p), resolved_physics(slots, p))
            == resolved_physics(slots, p),
        stopped(
            resolved_world(slots, p),
            touches(
                resolved_world(slots, p),
                resolved_physics(slots, p),
                resolved_world(slots, p).len() as int,
            ),
        ) == Seq::<BodyHandle>::empty(),
{
    let ts = touches(slots, p, slots.len() as int);
    let turned_world = resolved_world(slots, p);
    let halted_physics = resolved_physics(slots, p);
    lemma_turned_by_keeps(slots, ts);
    lemma_halted_keeps(p, stopped(slots, ts));
    lemma_touches_alike(slots, p, turned_world, halted_physics, slots.len() as int);
    assert(touches(turned_world, halted_physics, turned_world.len() as int) == ts);
    lemma_settles(slots, ts);
    lemma_settled_is_fixed(turned_world, ts);
}

} // verus!
