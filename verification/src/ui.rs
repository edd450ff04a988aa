//! What the game writes on screen.
//!
//! The game never draws. It names the text fields it wants to fill and says
//! what goes into each; whoever owns the widgets carries that out.

use vstd::prelude::*;
use vstd::string::*;
use crate::components::EntityId;
use crate::stats::SpawnStats;
use crate::text::{decimal, one_place, push_decimal, push_one_place};

verus! {

/// A text field of the screen.
#[derive(Clone, Copy, Debug, PartialEq, Eq, Structural)]
pub enum UiSlot {
    Fps,
    Spawned,
    Rate,
    Killed,
    Saved,
    Name,
    Description,
}

impl UiSlot {
    /// The name under which the field is known to the screen.
    pub open spec fn id_text(self) -> Seq<char> {
        match self {
            UiSlot::Fps => seq!['f', 'p', 's'],
            UiSlot::Spawned => seq!['s', 'p', 'a', 'w', 'n', 'e', 'd'],
            UiSlot::Rate => seq!['r', 'a', 't', 'e'],
            UiSlot::Killed => seq!['k', 'i', 'l', 'l', 'e', 'd'],
            UiSlot::Saved => seq!['s', 'a', 'v', 'e', 'd'],
            UiSlot::Name => seq!['n', 'a', 'm', 'e'],
            UiSlot::Description => seq!['d', 'e', 's', 'c', 'r', 'i', 'p', 't', 'i', 'o', 'n'],
        }
    }

    /// The name under which the field is known to the screen.
    pub fn id(self) -> (s: &'static str)
        ensures
            s@ == self.id_text(),
    {
        proof {
            reveal_strlit("fps");
            reveal_strlit("spawned");
            reveal_strlit("rate");
            reveal_strlit("killed");
            reveal_strlit("saved");
            reveal_strlit("name");
            reveal_strlit("description");
        }
        let s = match self {
            UiSlot::Fps => "fps",
            UiSlot::Spawned => "spawned",
            UiSlot::Rate => "rate",
            UiSlot::Killed => "killed",
            UiSlot::Saved => "saved",
            UiSlot::Name => "name",
            UiSlot::Description => "description",
        };
        assert(s@ =~= self.id_text());
        s
    }
}

/// The entity behind each text field, as far as it is known.
#[derive(Clone, Copy, Debug)]
pub struct UiSlots {
    pub fps: Option<EntityId>,
    pub spawned: Option<EntityId>,
    pub rate: Option<EntityId>,
    pub killed: Option<EntityId>,
    pub saved: Option<EntityId>,
    pub name: Option<EntityId>,
    pub description: Option<EntityId>,
}

/// What is known already, or else what was found.
pub open spec fn known_or(known: Option<EntityId>, found: Option<EntityId>) -> Option<EntityId> {
    if known is Some {
        known
    } else {
        found
    }
}

impl UiSlots {
    /// No field is known.
    pub open spec fn unknown() -> UiSlots {
        UiSlots {
            fps: None,
            spawned: None,
            rate: None,
            killed: None,
            saved: None,
            name: None,
            description: None,
        }
    }

    /// No field is known.
    pub fn none() -> (s: UiSlots)
        ensures
            s == Self::unknown(),
    {
        UiSlots {
            fps: None,
            spawned: None,
            rate: None,
            killed: None,
            saved: None,
            name: None,
            description: None,
        }
    }

    /// The entity behind `slot`.
    pub open spec fn spec_get(self, slot: UiSlot) -> Option<EntityId> {
        match slot {
            UiSlot::Fps => self.fps,
            UiSlot::Spawned => self.spawned,
            UiSlot::Rate => self.rate,
            UiSlot::Killed => self.killed,
            UiSlot::Saved => self.saved,
            UiSlot::Name => self.name,
            UiSlot::Description => self.description,
        }
    }

    /// The entity behind `slot`.
    #[verifier::when_used_as_spec(spec_get)]
    pub fn get(self, slot: UiSlot) -> (e: Option<EntityId>)
        ensures
            e == self.spec_get(slot),
    {
        match slot {
            UiSlot::Fps => self.fps,
            UiSlot::Spawned => self.spawned,
            UiSlot::Rate => self.rate,
            UiSlot::Killed => self.killed,
            UiSlot::Saved => self.saved,
            UiSlot::Name => self.name,
            UiSlot::Description => self.description,
        }
    }

    /// These fields, and for each that is not known what `found` holds. A
    /// field that is known is never looked up again.
    pub open spec fn merged(self, found: UiSlots) -> UiSlots {
        UiSlots {
            fps: known_or(self.fps, found.fps),
            spawned: known_or(self.spawned, found.spawned),
            rate: known_or(self.rate, found.rate),
            killed: known_or(self.killed, found.killed),
            saved: known_or(self.saved, found.saved),
            name: known_or(self.name, found.name),
            description: known_or(self.description, found.description),
        }
    }

    /// Takes from `found` each field that is not known yet.
    pub fn merge(&mut self, found: &UiSlots)
        ensures
            *final(self) == old(self).merged(*found),
    {
        if self.fps.is_none() {
            self.fps = found.fps;
        }
        if self.spawned.is_none() {
            self.spawned = found.spawned;
        }
        if self.rate.is_none() {
            self.rate = found.rate;
        }
        if self.killed.is_none() {
            self.killed = found.killed;
        }
        if self.saved.is_none() {
            self.saved = found.saved;
        }
        if self.name.is_none() {
            self.name = found.name;
        }
        if self.description.is_none() {
            self.description = found.description;
        }
    }
}

/// One change to the screen.
#[derive(Debug)]
pub enum UiWrite {
    /// The text field `entity` reads `text`.
    Text { entity: EntityId, text: String },
    /// The widget `entity` is visible.
    Show { entity: EntityId },
    /// The widget `entity` is hidden.
    Hide { entity: EntityId },
}

/// One change to the screen, with its text as a sequence of characters.
pub enum UiChange {
    Text { entity: EntityId, text: Seq<char> },
    Show { entity: EntityId },
    Hide { entity: EntityId },
}

impl View for UiWrite {
    type V = UiChange;

    open spec fn view(&self) -> UiChange {
        match *self {
            UiWrite::Text { entity, text } => UiChange::Text { entity, text: text@ },
            UiWrite::Show { entity } => UiChange::Show { entity },
            UiWrite::Hide { entity } => UiChange::Hide { entity },
        }
    }
}

/// The changes that a list of writes makes.
pub open spec fn changes(writes: Seq<UiWrite>) -> Seq<UiChange> {
    Seq::new(writes.len(), |i: int| writes[i]@)
}

/// Adds one write to a list.
pub fn push_write(out: &mut Vec<UiWrite>, w: UiWrite)
    ensures
        changes(final(out)@) == changes(old(out)@).push(w@),
{
    out.push(w);
    assert(changes(out@) =~= changes(old(out)@).push(w@));
}

/// `FPS: ` and the frames per second with one decimal place.
pub open spec fn fps_text(tenths: u32) -> Seq<char> {
    seq!['F', 'P', 'S', ':', ' '] + one_place(tenths as nat)
}

/// `SPAWN: `, the number of walkers spawned, `/` and the number to spawn.
pub open spec fn spawned_text(stats: SpawnStats) -> Seq<char> {
    seq!['S', 'P', 'A', 'W', 'N', ':', ' '] + decimal(stats.spawned as nat) + seq!['/'] + decimal(
        stats.total as nat,
    )
}

/// `KILLED: ` and the number of walkers killed.
pub open spec fn killed_text(stats: SpawnStats) -> Seq<char> {
    seq!['K', 'I', 'L', 'L', 'E', 'D', ':', ' '] + decimal(stats.killed as nat)
}

/// `SAVED: ` and the number of walkers saved.
pub open spec fn saved_text(stats: SpawnStats) -> Seq<char> {
    seq!['S', 'A', 'V', 'E', 'D', ':', ' '] + decimal(stats.saved as nat)
}

/// `RATE: ` and the spawn rate in percent.
pub open spec fn rate_text(percent: u32) -> Seq<char> {
    seq!['R', 'A', 'T', 'E', ':', ' '] + decimal(percent as nat)
}

/// How fast walkers are spawned, in percent: 100 at the shortest time
/// between two walkers that the settings allow, 0 at the longest, rounded to
/// the nearest whole number, halves away from zero. Below zero it is 0, and
/// above what fits it is the largest number that does. A range of one single
/// time gives 0.
pub open spec fn rate_percent(frequency: u32, min: u32, max: u32) -> int {
    if max > min {
        if frequency >= max {
            0
        } else {
            saturated_ratio(100 * (max - frequency), max - min)
        }
    } else if max < min {
        if frequency <= max {
            0
        } else {
            saturated_ratio(100 * (frequency - max), min - max)
        }
    } else {
        0
    }
}

/// `num / den` rounded to the nearest whole number, halves upwards, and no
/// more than a `u32` holds.
pub open spec fn saturated_ratio(num: int, den: int) -> int {
    let q = (2 * num + den) / (2 * den);
    if q > u32::MAX {
        u32::MAX as int
    } else {
        q
    }
}

/// `num / den` rounded to the nearest whole number.
fn rounded_ratio(num: u64, den: u64) -> (q: u32)
    requires
        den > 0,
        num <= 100 * u32::MAX,
        den <= u32::MAX,
    ensures
        q == saturated_ratio(num as int, den as int),
{
    let q: u64 = (2 * num + den) / (2 * den);
    if q > 4294967295 {
        u32::MAX
    } else {
        q as u32
    }
}

/// How fast walkers are spawned, in percent.
pub fn spawn_rate_percent(frequency: u32, min: u32, max: u32) -> (p: u32)
    ensures
        p == rate_percent(frequency, min, max),
{
    if max > min {
        if frequency >= max {
            0
        } else {
            let num: u64 = 100 * ((max - frequency) as u64);
            rounded_ratio(num, (max - min) as u64)
        }
    } else if max < min {
        if frequency <= max {
            0
        } else {
            let num: u64 = 100 * ((frequency - max) as u64);
            rounded_ratio(num, (min - max) as u64)
        }
    } else {
        0
    }
}

/// The text of the frames-per-second field.
pub fn make_fps_text(tenths: u32) -> (s: String)
    ensures
        s@ == fps_text(tenths),
{
    proof {
        reveal_strlit("FPS: ");
    }
    let mut s = String::from_str("FPS: ");
    assert(s@ =~= seq!['F', 'P', 'S', ':', ' ']);
    push_one_place(&mut s, tenths as u64);
    s
}

/// The text of the field that counts the walkers spawned.
pub fn make_spawned_text(stats: &SpawnStats) -> (s: String)
    ensures
        s@ == spawned_text(*stats),
{
    proof {
        reveal_strlit("SPAWN: ");
        reveal_strlit("/");
    }
    let mut s = String::from_str("SPAWN: ");
    assert(s@ =~= seq!['S', 'P', 'A', 'W', 'N', ':', ' ']);
    push_decimal(&mut s, stats.spawned);
    s.append("/");
    assert("/"@ =~= seq!['/']);
    push_decimal(&mut s, stats.total);
    s
}

/// The text of the field that counts the walkers killed.
pub fn make_killed_text(stats: &SpawnStats) -> (s: String)
    ensures
        s@ == killed_text(*stats),
{
    proof {
        reveal_strlit("KILLED: ");
    }
    let mut s = String::from_str("KILLED: ");
    assert(s@ =~= seq!['K', 'I', 'L', 'L', 'E', 'D', ':', ' ']);
    push_decimal(&mut s, stats.killed);
    s
}

/// The text of the field that counts the walkers saved.
pub fn make_saved_text(stats: &SpawnStats) -> (s: String)
    ensures
        s@ == saved_text(*stats),
{
    proof {
        reveal_strlit("SAVED: ");
    }
    let mut s = String::from_str("SAVED: ");
    assert(s@ =~= seq!['S', 'A', 'V', 'E', 'D', ':', ' ']);
    push_decimal(&mut s, stats.saved);
    s
}

/// The text of the field that shows the spawn rate.
pub fn make_rate_text(percent: u32) -> (s: String)
    ensures
        s@ == rate_text(percent),
{
    proof {
        reveal_strlit("RATE: ");
    }
    let mut s = String::from_str("RATE: ");
    assert(s@ =~= seq!['R', 'A', 'T', 'E', ':', ' ']);
    push_decimal(&mut s, percent as u64);
    s
}

} // verus!
