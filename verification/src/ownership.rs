//! Which collider belongs to which entity.
//!
//! The entities and the physics world are tied when they agree on that: the
//! collider that an entity carries exists and names that entity as its
//! owner, and the owner that a collider names lives and carries that
//! collider. Then no entity holds a handle that dangles, and no collider is
//! left behind by an entity that is gone.

use vstd::prelude::*;
use crate::arena::{emptied, is_next, with_value, without};
use crate::components::{ColliderHandle, Components, EntityId};
use crate::physics::PhysicsView;
use crate::world::{Entities, alive, components_of, entity_in, released};

verus! {

/// Whether the entity in slot `i` carries the collider `h`.
pub open spec fn carries(w: Entities, i: int, h: ColliderHandle) -> bool {
    &&& 0 <= i < w.len()
    &&& w[i].value matches Some(c)
    &&& c.collider == Some(h)
}

/// Whether the entities and the physics world agree on which collider
/// belongs to which entity.
pub open spec fn tied(w: Entities, p: PhysicsView) -> bool {
    &&& forall|i: int, h: ColliderHandle| #[trigger]
        carries(w, i, h) ==> p.has_collider(h) && p.collider(h).owner == Some(entity_in(w, i))
    &&& forall|h: ColliderHandle| #[trigger]
        p.has_collider(h) && p.collider(h).owner is Some ==> alive(w, p.collider(h).owner->0)
            && components_of(w, p.collider(h).owner->0).collider == Some(h)
}

/// Whether the same entities live in `a` and in `b`, each with the same
/// collider.
pub open spec fn same_colliders(a: Entities, b: Entities) -> bool {
    &&& a.len() == b.len()
    &&& forall|i: int|
        0 <= i < a.len() ==> (#[trigger] a[i]).generation == b[i].generation && (a[i].value is Some
            <==> b[i].value is Some) && (a[i].value is Some ==> a[i].value->0.collider
            == b[i].value->0.collider)
}

/// What an entity that is about to be created can carry: its collider only
/// if the collider exists and nobody owns it yet.
pub open spec fn attachable(p: PhysicsView, c: Components) -> bool {
    c.collider matches Some(h) && p.has_collider(h) && p.collider(h).owner is None
}

/// The components with which an entity is created: those asked for, without
/// the collider if it cannot be attached.
pub open spec fn admitted(p: PhysicsView, c: Components) -> Components {
    if attachable(p, c) {
        c
    } else {
        Components { collider: None, ..c }
    }
}

/// Entities that change in nothing but what they carry besides their
/// colliders stay tied to the physics world.
pub proof fn lemma_tied_same_colliders(a: Entities, b: Entities, p: PhysicsView)
    requires
        tied(a, p),
        same_colliders(a, b),
        a.len() <= usize::MAX,
    ensures
        tied(b, p),
{
    assert forall|i: int, h: ColliderHandle| #[trigger] carries(b, i, h) implies p.has_collider(h)
        && p.collider(h).owner == Some(entity_in(b, i)) by {
        assert(a[i].generation == b[i].generation);
        assert(carries(a, i, h));
    }
    assert forall|h: ColliderHandle| #[trigger]
        p.has_collider(h) && p.collider(h).owner is Some implies alive(b, p.collider(h).owner->0)
        && components_of(b, p.collider(h).owner->0).collider == Some(h) by {
        let e = p.collider(h).owner->0;
        assert(alive(a, e));
        assert(a[e.handle.index as int].generation == b[e.handle.index as int].generation);
    }
}

/// A physics world that is extended stays tied to the entities.
pub proof fn lemma_tied_extended(w: Entities, p: PhysicsView, q: PhysicsView)
    requires
        tied(w, p),
        p.extended_by(q),
    ensures
        tied(w, q),
{
    assert forall|i: int, h: ColliderHandle| #[trigger] carries(w, i, h) implies q.has_collider(h)
        && q.collider(h).owner == Some(entity_in(w, i)) by {
        assert(p.has_collider(h));
    }
    assert forall|h: ColliderHandle| #[trigger]
        q.has_collider(h) && q.collider(h).owner is Some implies alive(w, q.collider(h).owner->0)
        && components_of(w, q.collider(h).owner->0).collider == Some(h) by {
        if !p.has_collider(h) {
            assert(q.collider(h).owner is None);
        }
        assert(p.has_collider(h));
    }
}

/// Extending is transitive, and a world extends itself.
pub proof fn lemma_extended_chain(p: PhysicsView, q: PhysicsView, r: PhysicsView)
    requires
        p.extended_by(q),
        q.extended_by(r),
    ensures
        p.extended_by(r),
        p.extended_by(p),
{
    assert forall|h: ColliderHandle| #[trigger] p.has_collider(h) implies r.has_collider(h)
        && r.collider(h).owner == p.collider(h).owner by {
        assert(q.has_collider(h));
    }
    assert forall|h: ColliderHandle| #[trigger]
        r.has_collider(h) && !p.has_collider(h) implies r.collider(h).owner is None by {
        if q.has_collider(h) {
            assert(q.collider(h).owner is None);
        }
    }
}

/// When an entity is destroyed and its collider removed with it, the rest
/// stays tied: no entity is left with a collider that is gone, and no
/// collider with an owner that is gone.
pub proof fn lemma_tied_after_destroy(w: Entities, p: PhysicsView, e: EntityId)
    requires
        tied(w, p),
        w.len() <= usize::MAX,
    ensures
        tied(without(w, e.handle), released(p, w, e)),
{
    let v = without(w, e.handle);
    let q = released(p, w, e);
    if alive(w, e) {
        let at = e.handle.index as int;
        assert(entity_in(w, at) == e);
        assert forall|i: int, h: ColliderHandle| #[trigger] carries(v, i, h) implies q.has_collider(
            h,
        ) && q.collider(h).owner == Some(entity_in(v, i)) by {
            assert(i != at);
            assert(carries(w, i, h));
            assert(entity_in(w, i) != e);
            match components_of(w, e).collider {
                Some(own) => {
                    assert(carries(w, at, own));
                    assert(h != own);
                },
                None => {},
            }
        }
        assert forall|h: ColliderHandle| #[trigger]
            q.has_collider(h) && q.collider(h).owner is Some implies alive(
            v,
            q.collider(h).owner->0,
        ) && components_of(v, q.collider(h).owner->0).collider == Some(h) by {
            assert(p.has_collider(h));
            let o = p.collider(h).owner->0;
            assert(alive(w, o));
            match components_of(w, e).collider {
                Some(own) => {
                    assert(h != own);
                },
                None => {},
            }
            assert(o != e);
        }
    }
}

/// When an entity is created and the collider it is admitted with is
/// attached to it, the entities stay tied to the physics world.
pub proof fn lemma_tied_after_create(w: Entities, p: PhysicsView, e: EntityId, c: Components)
    requires
        tied(w, p),
        is_next(w, e.handle),
        w.len() <= usize::MAX,
    ensures
        tied(
            with_value(w, e.handle, admitted(p, c)),
            if attachable(p, c) {
                p.attached(c.collider->0, e)
            } else {
                p
            },
        ),
{
    let v = with_value(w, e.handle, admitted(p, c));
    let q = if attachable(p, c) {
        p.attached(c.collider->0, e)
    } else {
        p
    };
    let at = e.handle.index as int;
    assert(!alive(w, e));
    assert forall|i: int, h: ColliderHandle| #[trigger] carries(v, i, h) implies q.has_collider(h)
        && q.collider(h).owner == Some(entity_in(v, i)) by {
        if i == at {
            assert(entity_in(v, i) == e);
        } else {
            assert(carries(w, i, h));
            assert(p.collider(h).owner is Some);
        }
    }
    assert forall|h: ColliderHandle| #[trigger]
        q.has_collider(h) && q.collider(h).owner is Some implies alive(v, q.collider(h).owner->0)
        && components_of(v, q.collider(h).owner->0).collider == Some(h) by {
        if attachable(p, c) && h == c.collider->0 {
        } else {
            assert(p.has_collider(h));
            let o = p.collider(h).owner->0;
            assert(alive(w, o));
            assert(o.handle.index != at);
        }
    }
}

/// When every entity is destroyed and the physics world is emptied with
/// them, the two agree: no entity is left to carry a collider, and no
/// collider to name an owner.
pub proof fn lemma_tied_when_cleared(w: Entities, p: PhysicsView)
    ensures
        tied(emptied(w), p.cleared()),
{
}

} // verus!
