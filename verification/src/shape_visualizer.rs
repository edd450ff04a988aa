//! The system that asks for a mesh for every shape that has none.
//!
//! The system does not make meshes. It finds the entities that need one,
//! gives each a colour, and hands the list to whoever draws.

use vstd::prelude::*;
use crate::arena::Slot;
use crate::components::{Color, Components, EntityId, Shape};
use crate::ownership::same_colliders;
use crate::world::{Entities, World, entity_in};

verus! {

/// The brightest that a channel of a colour can be.
pub const CHANNEL_MAX: u32 = 255;

/// A mesh to make: for which entity, of which shape, in which colour.
#[derive(Clone, Copy, Debug)]
pub struct MeshRequest {
    pub entity: EntityId,
    pub shape: Shape,
    pub color: Color,
}

/// Whether the entity in the slot has a shape and no mesh yet.
pub open spec fn needs_mesh(slot: Slot<Components>) -> bool {
    slot.value matches Some(c) && c.shape is Some && !c.has_mesh
}

/// The slot after a mesh was asked for, if it needed one.
pub open spec fn meshed_slot(slot: Slot<Components>) -> Slot<Components> {
    if needs_mesh(slot) {
        Slot {
            generation: slot.generation,
            value: Some(Components { has_mesh: true, ..slot.value->0 }),
        }
    } else {
        slot
    }
}

/// The entities after a mesh was asked for wherever one was needed.
pub open spec fn all_meshed(slots: Entities) -> Entities {
    Seq::new(slots.len(), |i: int| meshed_slot(slots[i]))
}

/// The entities among the first `n` slots that need a mesh, each with its
/// shape, in the order of the slots.
pub open spec fn wanting(slots: Entities, n: int) -> Seq<(EntityId, Shape)>
    decreases n,
{
    if n <= 0 {
        Seq::empty()
    } else {
        let before = wanting(slots, n - 1);
        if needs_mesh(slots[n - 1]) {
            before.push((entity_in(slots, n - 1), slots[n - 1].value->0.shape->0))
        } else {
            before
        }
    }
}

/// One channel of a colour: `v`, and no more than the brightest.
pub open spec fn channel(v: u32) -> u8 {
    if v > CHANNEL_MAX {
        CHANNEL_MAX as u8
    } else {
        v as u8
    }
}

/// The opaque colour with these amounts of red, green and blue.
pub open spec fn opaque(rgb: (u32, u32, u32)) -> Color {
    Color { r: channel(rgb.0), g: channel(rgb.1), b: channel(rgb.2), a: CHANNEL_MAX as u8 }
}

/// Draws a colour with `random_color::RandomColor::new().to_rgb_array()`
/// and hands on its red, green and blue. Nothing is claimed of the three
/// numbers: they differ from call to call.
#[verifier::external_body]
fn random_rgb() -> (rgb: (u32, u32, u32)) {
    let c = random_color::RandomColor::new().to_rgb_array();
    (c[0], c[1], c[2])
}

/// The opaque colour with these amounts of red, green and blue.
pub fn color_from_rgb(rgb: (u32, u32, u32)) -> (c: Color)
    ensures
        c == opaque(rgb),
{
    Color {
        r: if rgb.0 > CHANNEL_MAX {
            255
        } else {
            rgb.0 as u8
        },
        g: if rgb.1 > CHANNEL_MAX {
            255
        } else {
            rgb.1 as u8
        },
        b: if rgb.2 > CHANNEL_MAX {
            255
        } else {
            rgb.2 as u8
        },
        a: 255,
    }
}

/// Finds shapes without meshes and asks for meshes for them.
pub struct ShapeVisualizer;

impl Default for ShapeVisualizer {
    fn default() -> (s: Self) {
        ShapeVisualizer
    }
}

impl ShapeVisualizer {
    /// Asks for a mesh for every entity that has a shape and no mesh, in
    /// the order of the slots, each in an opaque colour picked at random,
    /// and notes on the entity that its mesh is on the way.
    pub fn run(&mut self, world: &mut World) -> (requests: Vec<MeshRequest>)
        ensures
            final(world)@ == all_meshed(old(world)@),
            same_colliders(old(world)@, final(world)@),
            requests@.len() == wanting(old(world)@, old(world)@.len() as int).len(),
            forall|k: int|
                0 <= k < requests@.len() ==> {
                    let r = #[trigger] requests@[k];
                    let w = wanting(old(world)@, old(world)@.len() as int)[k];
                    r.entity == w.0 && r.shape == w.1 && r.color.a == CHANNEL_MAX
                },
    {
        let mut requests: Vec<MeshRequest> = Vec::new();
        let n = world.slot_count();
        let mut i: usize = 0;
        while i < n
            invariant
                n == world@.len(),
                n == old(world)@.len(),
                i <= n,
                forall|j: int| 0 <= j < i ==> #[trigger] world@[j] == meshed_slot(old(world)@[j]),
                forall|j: int| i <= j < n ==> #[trigger] world@[j] == old(world)@[j],
                requests@.len() == wanting(old(world)@, i as int).len(),
                forall|k: int|
                    0 <= k < requests@.len() ==> {
                        let r = #[trigger] requests@[k];
                        let w = wanting(old(world)@, i as int)[k];
                        r.entity == w.0 && r.shape == w.1 && r.color.a == CHANNEL_MAX
                    },
            decreases n - i,
        {
            match world.entity_at(i) {
                Some((e, c)) => match c.shape {
                    Some(shape) => {
                        if !c.has_mesh {
                            let color = color_from_rgb(random_rgb());
                            requests.push(MeshRequest { entity: e, shape, color });
                            world.replace(e, Components { has_mesh: true, ..c });
                        }
                    },
                    None => {},
                },
                None => {},
            }
            i += 1;
        }
        assert(world@ =~= all_meshed(old(world)@));
        requests
    }
}

} // verus!
