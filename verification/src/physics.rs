//! The physics world as the game sees it.
//!
//! The adapter keeps the record of every collider and rigid body the game
//! asked for, of the entity that owns each collider, and of which colliders
//! touch which sensors. An engine that integrates the bodies reads its
//! requests from here and reports overlaps back.

use vstd::prelude::*;
use crate::arena::{
    Arena, Slot, emptied, holds, is_next, next_handle, value_of, with_value, without,
};
use crate::components::{BodyHandle, ColliderHandle, EntityId};
use crate::geometry::Vec2;

verus! {

/// What a collider does to the bodies that meet it.
#[derive(Clone, Copy, Debug, PartialEq, Eq, Structural)]
pub enum ColliderKind {
    /// Part of the ground: it does not move and nothing passes it.
    Static,
    /// Notices what overlaps it and exerts no force.
    Sensor,
    /// The outline of a rigid body that moves.
    Dynamic,
}

/// A box in the physics world.
#[derive(Clone, Copy, Debug)]
pub struct Collider {
    pub kind: ColliderKind,
    pub position: Vec2,
    pub half_extent: Vec2,
    pub rotation_deg: i32,
    pub density: u32,
    /// The rigid body that carries the box, for a dynamic one.
    pub body: Option<BodyHandle>,
    /// The entity to which the box belongs, once it is attached to one.
    pub owner: Option<EntityId>,
}

/// The velocity asked of a rigid body.
#[derive(Clone, Copy, Debug, PartialEq, Eq, Structural)]
pub struct Body {
    pub linear: Vec2,
    pub angular: i32,
}

/// The overlap of a sensor with another collider.
#[derive(Clone, Copy, Debug, PartialEq, Eq, Structural)]
pub struct Contact {
    pub sensor: ColliderHandle,
    pub other: ColliderHandle,
}

/// The colliders that overlap the sensor `h`, in the order in which the
/// overlaps were reported.
pub open spec fn proximate(contacts: Seq<Contact>, h: ColliderHandle) -> Seq<ColliderHandle>
    decreases contacts.len(),
{
    if contacts.len() == 0 {
        Seq::empty()
    } else {
        let rest = proximate(contacts.drop_last(), h);
        if contacts.last().sensor == h {
            rest.push(contacts.last().other)
        } else {
            rest
        }
    }
}

/// The contacts in which the collider `h` has no part.
pub open spec fn purged(contacts: Seq<Contact>, h: ColliderHandle) -> Seq<Contact>
    decreases contacts.len(),
{
    if contacts.len() == 0 {
        Seq::empty()
    } else {
        let rest = purged(contacts.drop_last(), h);
        if contacts.last().sensor != h && contacts.last().other != h {
            rest.push(contacts.last())
        } else {
            rest
        }
    }
}

/// The contacts other than `c`.
pub open spec fn parted(contacts: Seq<Contact>, c: Contact) -> Seq<Contact>
    decreases contacts.len(),
{
    if contacts.len() == 0 {
        Seq::empty()
    } else {
        let rest = parted(contacts.drop_last(), c);
        if contacts.last() != c {
            rest.push(contacts.last())
        } else {
            rest
        }
    }
}

/// The state of the physics world: its colliders and bodies by slot, and the
/// overlaps in the order in which they were reported.
pub struct PhysicsView {
    pub colliders: Seq<Slot<Collider>>,
    pub bodies: Seq<Slot<Body>>,
    pub contacts: Seq<Contact>,
}

impl PhysicsView {
    /// Whether `h` names a collider of this world.
    pub open spec fn has_collider(self, h: ColliderHandle) -> bool {
        holds(self.colliders, h.handle)
    }

    /// The collider that `h` names.
    pub open spec fn collider(self, h: ColliderHandle) -> Collider
        recommends
            self.has_collider(h),
    {
        value_of(self.colliders, h.handle)
    }

    /// Whether `h` names a body of this world.
    pub open spec fn has_body(self, h: BodyHandle) -> bool {
        holds(self.bodies, h.handle)
    }

    /// The body that `h` names.
    pub open spec fn body(self, h: BodyHandle) -> Body
        recommends
            self.has_body(h),
    {
        value_of(self.bodies, h.handle)
    }

    /// The entity that owns the collider `h`; `None` for a collider that is
    /// gone or was attached to nothing.
    pub open spec fn entity_of(self, h: ColliderHandle) -> Option<EntityId> {
        if self.has_collider(h) {
            self.collider(h).owner
        } else {
            None
        }
    }

    /// The body that carries the collider `h`; `None` for a collider that is
    /// gone or has no body.
    pub open spec fn body_of(self, h: ColliderHandle) -> Option<BodyHandle> {
        if self.has_collider(h) {
            self.collider(h).body
        } else {
            None
        }
    }

    /// The colliders that overlap the sensor `h`.
    pub open spec fn proximity_of(self, h: ColliderHandle) -> Seq<ColliderHandle> {
        proximate(self.contacts, h)
    }

    /// This world with one more collider `c`, under the handle `h`.
    pub open spec fn with_collider(self, h: ColliderHandle, c: Collider) -> PhysicsView {
        PhysicsView { colliders: with_value(self.colliders, h.handle, c), ..self }
    }

    /// This world with one more body `b`, under the handle `h`.
    pub open spec fn with_body(self, h: BodyHandle, b: Body) -> PhysicsView {
        PhysicsView { bodies: with_value(self.bodies, h.handle, b), ..self }
    }

    /// This world after the collider `h` left it, with its body and with
    /// every overlap it had a part in. A handle that names no collider
    /// changes nothing.
    pub open spec fn without_collider(self, h: ColliderHandle) -> PhysicsView {
        if self.has_collider(h) {
            PhysicsView {
                colliders: without(self.colliders, h.handle),
                bodies: match self.collider(h).body {
                    Some(b) => without(self.bodies, b.handle),
                    None => self.bodies,
                },
                contacts: purged(self.contacts, h),
            }
        } else {
            self
        }
    }

    /// This world after the collider `h` was attached to the entity `e`.
    pub open spec fn attached(self, h: ColliderHandle, e: EntityId) -> PhysicsView {
        if self.has_collider(h) {
            self.with_collider(h, Collider { owner: Some(e), ..self.collider(h) })
        } else {
            self
        }
    }

    /// This world after the body `h` was given a velocity.
    pub open spec fn with_velocity(self, h: BodyHandle, linear: Vec2, angular: i32) -> PhysicsView {
        if self.has_body(h) {
            self.with_body(h, Body { linear, angular })
        } else {
            self
        }
    }

    /// This world after the overlap of `sensor` with `other` began. Nothing
    /// changes if one of them is gone or the overlap is known already.
    pub open spec fn with_contact(self, sensor: ColliderHandle, other: ColliderHandle)
        -> PhysicsView {
        let c = Contact { sensor, other };
        if self.has_collider(sensor) && self.has_collider(other) && !self.contacts.contains(c) {
            PhysicsView { contacts: self.contacts.push(c), ..self }
        } else {
            self
        }
    }

    /// This world after the overlap of `sensor` with `other` ended.
    pub open spec fn without_contact(self, sensor: ColliderHandle, other: ColliderHandle)
        -> PhysicsView {
        PhysicsView { contacts: parted(self.contacts, Contact { sensor, other }), ..self }
    }

    /// Whether nothing in this world dangles: every overlap is between two
    /// colliders that exist, every body that a collider names exists, and no
    /// two colliders share a body.
    pub open spec fn sound(self) -> bool {
        &&& forall|i: int|
            0 <= i < self.contacts.len() ==> self.has_collider((#[trigger] self.contacts[i]).sensor)
                && self.has_collider(self.contacts[i].other)
        &&& forall|h: ColliderHandle| #[trigger]
            self.has_collider(h) && self.collider(h).body is Some ==> self.has_body(
                self.collider(h).body->0,
            )
        &&& forall|g: ColliderHandle, h: ColliderHandle|
            #[trigger] self.has_collider(g) && #[trigger] self.has_collider(h) && g != h
                && self.collider(g).body is Some ==> self.collider(g).body != self.collider(h).body
    }

    /// Whether `later` has every collider of this world, each with the owner
    /// it has here, and beyond them only colliders that nobody owns: what
    /// making boxes and bodies, giving velocities and reporting overlaps
    /// lead to.
    pub open spec fn extended_by(self, later: PhysicsView) -> bool {
        &&& forall|h: ColliderHandle| #[trigger]
            self.has_collider(h) ==> later.has_collider(h) && later.collider(h).owner
                == self.collider(h).owner
        &&& forall|h: ColliderHandle| #[trigger]
            later.has_collider(h) && !self.has_collider(h) ==> later.collider(h).owner is None
    }

    /// This world with nothing left in it.
    pub open spec fn cleared(self) -> PhysicsView {
        PhysicsView {
            colliders: emptied(self.colliders),
            bodies: emptied(self.bodies),
            contacts: Seq::empty(),
        }
    }
}

/// A static or sensor box as it is when it was just made: without a body
/// and without an owner.
pub open spec fn plain_box(
    kind: ColliderKind,
    position: Vec2,
    half_extent: Vec2,
    rotation_deg: i32,
) -> Collider {
    Collider { kind, position, half_extent, rotation_deg, density: 0, body: None, owner: None }
}

/// The collider of a rigid body as it is when it was just made.
pub open spec fn dynamic_box(
    position: Vec2,
    half_extent: Vec2,
    rotation_deg: i32,
    density: u32,
    body: BodyHandle,
) -> Collider {
    Collider {
        kind: ColliderKind::Dynamic,
        position,
        half_extent,
        rotation_deg,
        density,
        body: Some(body),
        owner: None,
    }
}

/// A body at rest.
pub open spec fn resting() -> Body {
    Body { linear: Vec2 { x: 0, y: 0 }, angular: 0 }
}

/// The record of the physics world.
pub struct PhysicsAdapter {
    colliders: Arena<Collider>,
    bodies: Arena<Body>,
    contacts: Vec<Contact>,
}

impl View for PhysicsAdapter {
    type V = PhysicsView;

    closed spec fn view(&self) -> PhysicsView {
        PhysicsView {
            colliders: self.colliders@,
            bodies: self.bodies@,
            contacts: self.contacts@,
        }
    }
}

impl PhysicsAdapter {
    /// An empty physics world.
    pub fn new() -> (p: Self)
        ensures
            p@.colliders.len() == 0,
            p@.bodies.len() == 0,
            p@.contacts.len() == 0,
            p@.sound(),
    {
        PhysicsAdapter { colliders: Arena::new(), bodies: Arena::new(), contacts: Vec::new() }
    }

    /// Adds a box of the ground.
    pub fn create_static_box(&mut self, position: Vec2, half_extent: Vec2, rotation_deg: i32) -> (h:
        ColliderHandle)
        ensures
            is_next(old(self)@.colliders, h.handle),
            h.handle == next_handle(old(self)@.colliders),
            final(self)@ == old(self)@.with_collider(
                h,
                plain_box(ColliderKind::Static, position, half_extent, rotation_deg),
            ),
            old(self)@.extended_by(final(self)@),
            old(self)@.sound() ==> final(self)@.sound(),
    {
        let handle = self.colliders.insert(
            Collider {
                kind: ColliderKind::Static,
                position,
                half_extent,
                rotation_deg,
                density: 0,
                body: None,
                owner: None,
            },
        );
        proof {
            if old(self)@.sound() {
                lemma_sound_with_plain_box(
                    old(self)@,
                    ColliderHandle { handle },
                    plain_box(ColliderKind::Static, position, half_extent, rotation_deg),
                );
            }
        }
        ColliderHandle { handle }
    }

    /// Adds a box that notices what overlaps it and exerts no force.
    pub fn create_sensor_box(&mut self, position: Vec2, half_extent: Vec2, rotation_deg: i32) -> (h:
        ColliderHandle)
        ensures
            is_next(old(self)@.colliders, h.handle),
            h.handle == next_handle(old(self)@.colliders),
            final(self)@ == old(self)@.with_collider(
                h,
                plain_box(ColliderKind::Sensor, position, half_extent, rotation_deg),
            ),
            old(self)@.extended_by(final(self)@),
            old(self)@.sound() ==> final(self)@.sound(),
    {
        let handle = self.colliders.insert(
            Collider {
                kind: ColliderKind::Sensor,
                position,
                half_extent,
                rotation_deg,
                density: 0,
                body: None,
                owner: None,
            },
        );
        proof {
            if old(self)@.sound() {
                lemma_sound_with_plain_box(
                    old(self)@,
                    ColliderHandle { handle },
                    plain_box(ColliderKind::Sensor, position, half_extent, rotation_deg),
                );
            }
        }
        ColliderHandle { handle }
    }

    /// Adds a rigid body at rest with a box around it.
    pub fn create_dynamic_box(
        &mut self,
        position: Vec2,
        half_extent: Vec2,
        rotation_deg: i32,
        density: u32,
    ) -> (r: (BodyHandle, ColliderHandle))
        ensures
            is_next(old(self)@.bodies, r.0.handle),
            is_next(old(self)@.colliders, r.1.handle),
            r.0.handle == next_handle(old(self)@.bodies),
            r.1.handle == next_handle(old(self)@.colliders),
            final(self)@ == old(self)@.with_body(r.0, resting()).with_collider(
                r.1,
                dynamic_box(position, half_extent, rotation_deg, density, r.0),
            ),
            old(self)@.extended_by(final(self)@),
            old(self)@.sound() ==> final(self)@.sound(),
    {
        let body = BodyHandle {
            handle: self.bodies.insert(Body { linear: Vec2 { x: 0, y: 0 }, angular: 0 }),
        };
        let handle = self.colliders.insert(
            Collider {
                kind: ColliderKind::Dynamic,
                position,
                half_extent,
                rotation_deg,
                density,
                body: Some(body),
                owner: None,
            },
        );
        proof {
            if old(self)@.sound() {
                lemma_sound_with_dynamic_box(
                    old(self)@,
                    body,
                    resting(),
                    ColliderHandle { handle },
                    dynamic_box(position, half_extent, rotation_deg, density, body),
                );
            }
        }
        (body, ColliderHandle { handle })
    }

    /// The number of slots for colliders, used or not.
    pub fn collider_slots(&self) -> (n: usize)
        ensures
            n == self@.colliders.len(),
    {
        self.colliders.slot_count()
    }

    /// The collider in slot `i` with its handle; `None` for a slot that is
    /// empty or does not exist.
    pub fn collider_at(&self, i: usize) -> (r: Option<(ColliderHandle, Collider)>)
        ensures
            r is Some <==> (i < self@.colliders.len() && self@.colliders[i as int].value is Some),
            r matches Some((h, c)) ==> h.handle.index == i && self@.has_collider(h) && c
                == self@.collider(h),
    {
        match self.colliders.handle_at(i) {
            Some(handle) => match self.colliders.get(handle) {
                Some(c) => Some((ColliderHandle { handle }, *c)),
                None => None,
            },
            None => None,
        }
    }

    /// The collider that `h` names; `None` for a handle that names none.
    pub fn collider(&self, h: ColliderHandle) -> (r: Option<Collider>)
        ensures
            r is Some <==> self@.has_collider(h),
            r matches Some(c) ==> c == self@.collider(h),
    {
        match self.colliders.get(h.handle) {
            Some(c) => Some(*c),
            None => None,
        }
    }

    /// The entity that owns the collider `h`.
    pub fn entity_of(&self, h: ColliderHandle) -> (r: Option<EntityId>)
        ensures
            r == self@.entity_of(h),
    {
        match self.colliders.get(h.handle) {
            Some(c) => c.owner,
            None => None,
        }
    }

    /// The rigid body that carries the collider `h`.
    pub fn body_of(&self, h: ColliderHandle) -> (r: Option<BodyHandle>)
        ensures
            r == self@.body_of(h),
    {
        match self.colliders.get(h.handle) {
            Some(c) => c.body,
            None => None,
        }
    }

    /// The velocity asked of the body `h`; `None` for a handle that names
    /// none.
    pub fn velocity_of(&self, h: BodyHandle) -> (r: Option<Body>)
        ensures
            r is Some <==> self@.has_body(h),
            r matches Some(b) ==> b == self@.body(h),
    {
        match self.bodies.get(h.handle) {
            Some(b) => Some(*b),
            None => None,
        }
    }

    /// Gives the body `h` a velocity. Says whether there was such a body.
    pub fn set_velocity(&mut self, h: BodyHandle, linear: Vec2, angular: i32) -> (done: bool)
        ensures
            done == old(self)@.has_body(h),
            final(self)@ == old(self)@.with_velocity(h, linear, angular),
            old(self)@.extended_by(final(self)@),
            old(self)@.sound() ==> final(self)@.sound(),
    {
        proof {
            if old(self)@.sound() {
                lemma_sound_with_velocity(old(self)@, h, linear, angular);
            }
        }
        self.bodies.set(h.handle, Body { linear, angular })
    }

    /// Records the entity to which the collider `h` belongs. Says whether
    /// there was such a collider.
    pub fn attach(&mut self, h: ColliderHandle, e: EntityId) -> (done: bool)
        ensures
            done == old(self)@.has_collider(h),
            final(self)@ == old(self)@.attached(h, e),
            old(self)@.sound() ==> final(self)@.sound(),
    {
        proof {
            if old(self)@.sound() {
                lemma_sound_attached(old(self)@, h, e);
            }
        }
        let found = match self.colliders.get(h.handle) {
            Some(c) => Some(*c),
            None => None,
        };
        match found {
            Some(c) => {
                self.colliders.set(h.handle, Collider { owner: Some(e), ..c });
                true
            },
            None => false,
        }
    }

    /// The colliders that overlap the sensor `h`, in the order in which the
    /// overlaps were reported.
    pub fn proximity_of(&self, h: ColliderHandle) -> (r: Vec<ColliderHandle>)
        ensures
            r@ == self@.proximity_of(h),
    {
        let mut out: Vec<ColliderHandle> = Vec::new();
        let n = self.contacts.len();
        let mut i: usize = 0;
        assert(self.contacts@.take(0) =~= Seq::<Contact>::empty());
        while i < n
            invariant
                n == self.contacts@.len(),
                i <= n,
                out@ == proximate(self.contacts@.take(i as int), h),
            decreases n - i,
        {
            assert(self.contacts@.take(i + 1).drop_last() =~= self.contacts@.take(i as int));
            if self.contacts[i].sensor == h {
                out.push(self.contacts[i].other);
            }
            i += 1;
        }
        assert(self.contacts@.take(n as int) =~= self.contacts@);
        out
    }

    /// Records that `other` began to overlap `sensor`. Says whether the
    /// overlap was new and both colliders exist.
    pub fn begin_proximity(&mut self, sensor: ColliderHandle, other: ColliderHandle) -> (done: bool)
        ensures
            done == (old(self)@.has_collider(sensor) && old(self)@.has_collider(other)
                && !old(self)@.contacts.contains(Contact { sensor, other })),
            final(self)@ == old(self)@.with_contact(sensor, other),
            old(self)@.extended_by(final(self)@),
            old(self)@.sound() ==> final(self)@.sound(),
    {
        proof {
            if old(self)@.sound() {
                lemma_sound_with_contacts(old(self)@, sensor, other);
            }
        }
        if !self.colliders.contains(sensor.handle) || !self.colliders.contains(other.handle) {
            return false;
        }
        let c = Contact { sensor, other };
        let n = self.contacts.len();
        let mut i: usize = 0;
        while i < n
            invariant
                *self == *old(self),
                n == self.contacts@.len(),
                i <= n,
                c == (Contact { sensor, other }),
                forall|j: int| 0 <= j < i ==> self.contacts@[j] != c,
            decreases n - i,
        {
            if self.contacts[i] == c {
                assert(self.contacts@.contains(c));
                return false;
            }
            i += 1;
        }
        self.contacts.push(c);
        true
    }

    /// Records that `other` overlaps `sensor` no longer.
    pub fn end_proximity(&mut self, sensor: ColliderHandle, other: ColliderHandle)
        ensures
            final(self)@ == old(self)@.without_contact(sensor, other),
            old(self)@.extended_by(final(self)@),
            old(self)@.sound() ==> final(self)@.sound(),
    {
        proof {
            if old(self)@.sound() {
                lemma_sound_with_contacts(old(self)@, sensor, other);
            }
        }
        let c = Contact { sensor, other };
        let mut kept: Vec<Contact> = Vec::new();
        let n = self.contacts.len();
        let mut i: usize = 0;
        assert(self.contacts@.take(0) =~= Seq::<Contact>::empty());
        while i < n
            invariant
                n == self.contacts@.len(),
                i <= n,
                kept@ == parted(self.contacts@.take(i as int), c),
            decreases n - i,
        {
            assert(self.contacts@.take(i + 1).drop_last() =~= self.contacts@.take(i as int));
            if self.contacts[i] != c {
                kept.push(self.contacts[i]);
            }
            i += 1;
        }
        assert(self.contacts@.take(n as int) =~= self.contacts@);
        self.contacts = kept;
    }

    /// Removes the collider `h` at once, with its body and with every
    /// overlap it had a part in. Says whether there was such a collider.
    pub fn remove_collider(&mut self, h: ColliderHandle) -> (done: bool)
        ensures
            done == old(self)@.has_collider(h),
            final(self)@ == old(self)@.without_collider(h),
            old(self)@.sound() ==> final(self)@.sound(),
    {
        proof {
            if old(self)@.sound() {
                lemma_sound_after_removal(old(self)@, h);
            }
        }
        let body = match self.colliders.get(h.handle) {
            Some(c) => c.body,
            None => {
                return false;
            },
        };
        self.colliders.remove(h.handle);
        match body {
            Some(b) => {
                self.bodies.remove(b.handle);
            },
            None => {},
        }
        let mut kept: Vec<Contact> = Vec::new();
        let n = self.contacts.len();
        let mut i: usize = 0;
        assert(self.contacts@.take(0) =~= Seq::<Contact>::empty());
        while i < n
            invariant
                n == self.contacts@.len(),
                i <= n,
                kept@ == purged(self.contacts@.take(i as int), h),
            decreases n - i,
        {
            assert(self.contacts@.take(i + 1).drop_last() =~= self.contacts@.take(i as int));
            if self.contacts[i].sensor != h && self.contacts[i].other != h {
                kept.push(self.contacts[i]);
            }
            i += 1;
        }
        assert(self.contacts@.take(n as int) =~= self.contacts@);
        self.contacts = kept;
        true
    }

    /// Removes everything.
    pub fn clear(&mut self)
        ensures
            final(self)@ == old(self)@.cleared(),
            final(self)@.sound(),
    {
        self.colliders.clear();
        self.bodies.clear();
        self.contacts = Vec::new();
    }
}

/// No overlap that is left after a collider was purged names that collider,
/// and every overlap that is left was there before.
pub proof fn lemma_purged(contacts: Seq<Contact>, h: ColliderHandle)
    ensures
        forall|i: int|
            0 <= i < purged(contacts, h).len() ==> {
                let c = #[trigger] purged(contacts, h)[i];
                c.sensor != h && c.other != h && contacts.contains(c)
            },
        purged(contacts, h).len() <= contacts.len(),
    decreases contacts.len(),
{
    if contacts.len() > 0 {
        lemma_purged(contacts.drop_last(), h);
        let rest = purged(contacts.drop_last(), h);
        assert forall|i: int| 0 <= i < purged(contacts, h).len() implies {
            let c = #[trigger] purged(contacts, h)[i];
            c.sensor != h && c.other != h && contacts.contains(c)
        } by {
            let c = purged(contacts, h)[i];
            if i < rest.len() {
                assert(c == rest[i]);
                assert(contacts.drop_last().contains(c));
                let k = choose|k: int| 0 <= k < contacts.drop_last().len() && contacts.drop_last()[k] == c;
                assert(contacts[k] == c);
            } else {
                assert(c == contacts[contacts.len() - 1]);
            }
        }
    }
}

/// A collider that was removed is gone for good: its handle names nothing,
/// no sensor reports it, it reports nothing, and its body is gone with it.
pub proof fn lemma_removed_collider_leaves_no_trace(p: PhysicsView, h: ColliderHandle)
    requires
        p.has_collider(h),
    ensures
        !p.without_collider(h).has_collider(h),
        p.without_collider(h).entity_of(h) is None,
        p.without_collider(h).body_of(h) is None,
        p.without_collider(h).proximity_of(h).len() == 0,
        forall|s: ColliderHandle| !p.without_collider(h).proximity_of(s).contains(h),
        p.collider(h).body matches Some(b) ==> !p.without_collider(h).has_body(b),
{
    let q = p.without_collider(h);
    lemma_purged(p.contacts, h);
    lemma_proximate_from(q.contacts, h);
    assert forall|s: ColliderHandle| !q.proximity_of(s).contains(h) by {
        lemma_proximate_from(q.contacts, s);
        if q.proximity_of(s).contains(h) {
            let i = choose|i: int| 0 <= i < q.proximity_of(s).len() && q.proximity_of(s)[i] == h;
            let c = Contact { sensor: s, other: q.proximity_of(s)[i] };
            assert(q.contacts.contains(c));
            let k = choose|k: int| 0 <= k < q.contacts.len() && q.contacts[k] == c;
            assert(purged(p.contacts, h)[k].other != h);
        }
    }
    if q.proximity_of(h).len() > 0 {
        let c = Contact { sensor: h, other: q.proximity_of(h)[0] };
        assert(q.contacts.contains(c));
        let k = choose|k: int| 0 <= k < q.contacts.len() && q.contacts[k] == c;
        assert(purged(p.contacts, h)[k].sensor != h);
    }
}

/// Every collider that a sensor reports comes from an overlap on record.
pub proof fn lemma_proximate_from(contacts: Seq<Contact>, h: ColliderHandle)
    ensures
        forall|i: int|
            0 <= i < proximate(contacts, h).len() ==> contacts.contains(
                Contact { sensor: h, other: #[trigger] proximate(contacts, h)[i] },
            ),
    decreases contacts.len(),
{
    if contacts.len() > 0 {
        lemma_proximate_from(contacts.drop_last(), h);
        let rest = proximate(contacts.drop_last(), h);
        assert forall|i: int| 0 <= i < proximate(contacts, h).len() implies contacts.contains(
            Contact { sensor: h, other: #[trigger] proximate(contacts, h)[i] },
        ) by {
            let c = Contact { sensor: h, other: proximate(contacts, h)[i] };
            if i < rest.len() {
                assert(proximate(contacts, h)[i] == rest[i]);
                assert(contacts.drop_last().contains(c));
                let k = choose|k: int| 0 <= k < contacts.drop_last().len() && contacts.drop_last()[k] == c;
                assert(contacts[k] == c);
            } else {
                assert(c == contacts[contacts.len() - 1]);
            }
        }
    }
}

/// A collider stays what it is while others come and go: its handle stays
/// valid and it keeps its place, its size, its body and its owner when
/// another box or body is made, when a body is given a velocity, when
/// overlaps begin or end, and when another collider is removed.
pub proof fn lemma_collider_stays(
    p: PhysicsView,
    h: ColliderHandle,
    new_collider: ColliderHandle,
    made: Collider,
    new_body: BodyHandle,
    body: BodyHandle,
    linear: Vec2,
    angular: i32,
    sensor: ColliderHandle,
    other: ColliderHandle,
    removed: ColliderHandle,
)
    requires
        p.has_collider(h),
        is_next(p.colliders, new_collider.handle),
        is_next(p.bodies, new_body.handle),
        removed != h,
    ensures
        p.with_collider(new_collider, made).has_collider(h),
        p.with_collider(new_collider, made).collider(h) == p.collider(h),
        p.with_body(new_body, resting()).has_collider(h),
        p.with_body(new_body, resting()).collider(h) == p.collider(h),
        p.with_velocity(body, linear, angular).has_collider(h),
        p.with_velocity(body, linear, angular).collider(h) == p.collider(h),
        p.with_contact(sensor, other).has_collider(h),
        p.with_contact(sensor, other).collider(h) == p.collider(h),
        p.without_contact(sensor, other).has_collider(h),
        p.without_contact(sensor, other).collider(h) == p.collider(h),
        p.without_collider(removed).has_collider(h),
        p.without_collider(removed).collider(h) == p.collider(h),
{
}

/// Every overlap that is left after one overlap was taken away was there
/// before.
pub proof fn lemma_parted(contacts: Seq<Contact>, c: Contact)
    ensures
        forall|i: int|
            0 <= i < parted(contacts, c).len() ==> contacts.contains(#[trigger] parted(contacts, c)[i])
                && parted(contacts, c)[i] != c,
    decreases contacts.len(),
{
    if contacts.len() > 0 {
        lemma_parted(contacts.drop_last(), c);
        let rest = parted(contacts.drop_last(), c);
        assert forall|i: int| 0 <= i < parted(contacts, c).len() implies contacts.contains(
            #[trigger] parted(contacts, c)[i],
        ) && parted(contacts, c)[i] != c by {
            let x = parted(contacts, c)[i];
            if i < rest.len() {
                assert(x == rest[i]);
                assert(contacts.drop_last().contains(x));
                let k = choose|k: int| 0 <= k < contacts.drop_last().len() && contacts.drop_last()[k] == x;
                assert(contacts[k] == x);
            } else {
                assert(x == contacts[contacts.len() - 1]);
            }
        }
    }
}

/// A world in which nothing dangles stays so when a box without a body is
/// made.
pub proof fn lemma_sound_with_plain_box(p: PhysicsView, h: ColliderHandle, c: Collider)
    requires
        p.sound(),
        is_next(p.colliders, h.handle),
        c.body is None,
    ensures
        p.with_collider(h, c).sound(),
{
    let q = p.with_collider(h, c);
    assert forall|i: int| 0 <= i < q.contacts.len() implies q.has_collider(
        (#[trigger] q.contacts[i]).sensor,
    ) && q.has_collider(q.contacts[i].other) by {
        assert(p.has_collider(p.contacts[i].sensor) && p.has_collider(p.contacts[i].other));
    }
    assert forall|g: ColliderHandle| #[trigger]
        q.has_collider(g) && q.collider(g).body is Some implies q.has_body(
        q.collider(g).body->0,
    ) by {
        assert(g != h);
        assert(p.has_collider(g));
    }
    assert forall|g: ColliderHandle, k: ColliderHandle|
        #[trigger] q.has_collider(g) && #[trigger] q.has_collider(k) && g != k && q.collider(
            g,
        ).body is Some implies q.collider(g).body != q.collider(k).body by {
        assert(g != h);
        assert(p.has_collider(g));
        if k != h {
            assert(p.has_collider(k));
        }
    }
}

/// A world in which nothing dangles stays so when a rigid body with its
/// box is made.
pub proof fn lemma_sound_with_dynamic_box(
    p: PhysicsView,
    b: BodyHandle,
    body: Body,
    h: ColliderHandle,
    c: Collider,
)
    requires
        p.sound(),
        is_next(p.bodies, b.handle),
        is_next(p.colliders, h.handle),
        c.body == Some(b),
    ensures
        p.with_body(b, body).with_collider(h, c).sound(),
{
    let q = p.with_body(b, body).with_collider(h, c);
    assert(!p.has_body(b));
    assert forall|i: int| 0 <= i < q.contacts.len() implies q.has_collider(
        (#[trigger] q.contacts[i]).sensor,
    ) && q.has_collider(q.contacts[i].other) by {
        assert(p.has_collider(p.contacts[i].sensor) && p.has_collider(p.contacts[i].other));
    }
    assert forall|g: ColliderHandle| #[trigger]
        q.has_collider(g) && q.collider(g).body is Some implies q.has_body(
        q.collider(g).body->0,
    ) by {
        if g != h {
            assert(p.has_collider(g));
            assert(p.has_body(p.collider(g).body->0));
        }
    }
    assert forall|g: ColliderHandle, k: ColliderHandle|
        #[trigger] q.has_collider(g) && #[trigger] q.has_collider(k) && g != k && q.collider(
            g,
        ).body is Some implies q.collider(g).body != q.collider(k).body by {
        if g != h {
            assert(p.has_collider(g));
            assert(p.has_body(p.collider(g).body->0));
        }
        if k != h {
            assert(p.has_collider(k));
            if p.collider(k).body is Some {
                assert(p.has_body(p.collider(k).body->0));
            }
        }
    }
}

/// A world in which nothing dangles stays so when a collider is attached to
/// an entity.
pub proof fn lemma_sound_attached(p: PhysicsView, h: ColliderHandle, e: EntityId)
    requires
        p.sound(),
    ensures
        p.attached(h, e).sound(),
{
    let q = p.attached(h, e);
    assert forall|i: int| 0 <= i < q.contacts.len() implies q.has_collider(
        (#[trigger] q.contacts[i]).sensor,
    ) && q.has_collider(q.contacts[i].other) by {
        assert(p.has_collider(p.contacts[i].sensor) && p.has_collider(p.contacts[i].other));
    }
    assert forall|g: ColliderHandle| #[trigger]
        q.has_collider(g) && q.collider(g).body is Some implies q.has_body(
        q.collider(g).body->0,
    ) by {
        assert(p.has_collider(g));
    }
    assert forall|g: ColliderHandle, k: ColliderHandle|
        #[trigger] q.has_collider(g) && #[trigger] q.has_collider(k) && g != k && q.collider(
            g,
        ).body is Some implies q.collider(g).body != q.collider(k).body by {
        assert(p.has_collider(g) && p.has_collider(k));
    }
}

/// A world in which nothing dangles stays so when a body is given a
/// velocity.
pub proof fn lemma_sound_with_velocity(p: PhysicsView, b: BodyHandle, linear: Vec2, angular: i32)
    requires
        p.sound(),
    ensures
        p.with_velocity(b, linear, angular).sound(),
{
    let q = p.with_velocity(b, linear, angular);
    assert forall|i: int| 0 <= i < q.contacts.len() implies q.has_collider(
        (#[trigger] q.contacts[i]).sensor,
    ) && q.has_collider(q.contacts[i].other) by {
        assert(p.has_collider(p.contacts[i].sensor) && p.has_collider(p.contacts[i].other));
    }
    assert forall|g: ColliderHandle| #[trigger]
        q.has_collider(g) && q.collider(g).body is Some implies q.has_body(
        q.collider(g).body->0,
    ) by {
        assert(p.has_collider(g));
        assert(p.has_body(p.collider(g).body->0));
    }
    assert forall|g: ColliderHandle, k: ColliderHandle|
        #[trigger] q.has_collider(g) && #[trigger] q.has_collider(k) && g != k && q.collider(
            g,
        ).body is Some implies q.collider(g).body != q.collider(k).body by {
        assert(p.has_collider(g) && p.has_collider(k));
    }
}

/// A world in which nothing dangles stays so when overlaps begin and end.
pub proof fn lemma_sound_with_contacts(p: PhysicsView, sensor: ColliderHandle, other: ColliderHandle)
    requires
        p.sound(),
    ensures
        p.with_contact(sensor, other).sound(),
        p.without_contact(sensor, other).sound(),
{
    let q = p.with_contact(sensor, other);
    assert forall|i: int| 0 <= i < q.contacts.len() implies q.has_collider(
        (#[trigger] q.contacts[i]).sensor,
    ) && q.has_collider(q.contacts[i].other) by {
        if i < p.contacts.len() {
            assert(q.contacts[i] == p.contacts[i]);
            assert(p.has_collider(p.contacts[i].sensor) && p.has_collider(p.contacts[i].other));
        }
    }
    assert forall|g: ColliderHandle| #[trigger]
        q.has_collider(g) && q.collider(g).body is Some implies q.has_body(
        q.collider(g).body->0,
    ) by {
        assert(p.has_collider(g));
    }
    assert forall|g: ColliderHandle, k: ColliderHandle|
        #[trigger] q.has_collider(g) && #[trigger] q.has_collider(k) && g != k && q.collider(
            g,
        ).body is Some implies q.collider(g).body != q.collider(k).body by {
        assert(p.has_collider(g) && p.has_collider(k));
    }
    let r = p.without_contact(sensor, other);
    lemma_parted(p.contacts, Contact { sensor, other });
    assert forall|i: int| 0 <= i < r.contacts.len() implies r.has_collider(
        (#[trigger] r.contacts[i]).sensor,
    ) && r.has_collider(r.contacts[i].other) by {
        let x = r.contacts[i];
        assert(x == parted(p.contacts, Contact { sensor, other })[i]);
        assert(p.contacts.contains(x));
        let k = choose|k: int| 0 <= k < p.contacts.len() && p.contacts[k] == x;
        assert(p.has_collider(p.contacts[k].sensor) && p.has_collider(p.contacts[k].other));
    }
    assert forall|g: ColliderHandle| #[trigger]
        r.has_collider(g) && r.collider(g).body is Some implies r.has_body(
        r.collider(g).body->0,
    ) by {
        assert(p.has_collider(g));
    }
    assert forall|g: ColliderHandle, k: ColliderHandle|
        #[trigger] r.has_collider(g) && #[trigger] r.has_collider(k) && g != k && r.collider(
            g,
        ).body is Some implies r.collider(g).body != r.collider(k).body by {
        assert(p.has_collider(g) && p.has_collider(k));
    }
}

/// A world in which nothing dangles stays so when a collider is removed,
/// and when everything is.
pub proof fn lemma_sound_after_removal(p: PhysicsView, h: ColliderHandle)
    requires
        p.sound(),
    ensures
        p.without_collider(h).sound(),
        p.cleared().sound(),
{
    let q = p.without_collider(h);
    if p.has_collider(h) {
        lemma_purged(p.contacts, h);
        assert forall|i: int| 0 <= i < q.contacts.len() implies q.has_collider(
            (#[trigger] q.contacts[i]).sensor,
        ) && q.has_collider(q.contacts[i].other) by {
            let x = q.contacts[i];
            assert(x == purged(p.contacts, h)[i]);
            assert(p.contacts.contains(x));
            let k = choose|k: int| 0 <= k < p.contacts.len() && p.contacts[k] == x;
            assert(p.has_collider(p.contacts[k].sensor) && p.has_collider(p.contacts[k].other));
        }
        assert forall|g: ColliderHandle| #[trigger]
            q.has_collider(g) && q.collider(g).body is Some implies q.has_body(
            q.collider(g).body->0,
        ) by {
            assert(p.has_collider(g));
            assert(g != h);
            assert(p.has_body(p.collider(g).body->0));
            assert(p.collider(g).body != p.collider(h).body);
        }
        assert forall|g: ColliderHandle, k: ColliderHandle|
            #[trigger] q.has_collider(g) && #[trigger] q.has_collider(k) && g != k && q.collider(
                g,
            ).body is Some implies q.collider(g).body != q.collider(k).body by {
            assert(p.has_collider(g) && p.has_collider(k));
        }
    }
}

/// In a world in which nothing dangles a sensor reports only colliders that
/// exist.
pub proof fn lemma_proximity_is_live(p: PhysicsView, h: ColliderHandle)
    requires
        p.sound(),
    ensures
        forall|i: int|
            0 <= i < p.proximity_of(h).len() ==> p.has_collider(#[trigger] p.proximity_of(h)[i]),
{
    lemma_proximate_from(p.contacts, h);
    assert forall|i: int| 0 <= i < p.proximity_of(h).len() implies p.has_collider(
        #[trigger] p.proximity_of(h)[i],
    ) by {
        let c = Contact { sensor: h, other: p.proximity_of(h)[i] };
        assert(p.contacts.contains(c));
        let k = choose|k: int| 0 <= k < p.contacts.len() && p.contacts[k] == c;
        assert(p.has_collider(p.contacts[k].other));
    }
}

} // verus!
