//! The commands of a tick and the bus that carries them to the systems.
//!
//! The bus is a ring of fixed capacity. Every reader has a cursor of its
//! own and sees each command once, in the order in which they were
//! published. A reader that falls behind by more than the capacity misses
//! the oldest commands, and is not told.

use vstd::prelude::*;
use vstd::arithmetic::div_mod::{lemma_mod_equivalence, lemma_small_mod};

verus! {

/// What the player or the game wants done.
#[derive(Clone, Copy, Debug, PartialEq, Eq, Structural)]
pub enum Command {
    /// Drop a lift on the matriarch.
    DropLift,
    /// Drop a ram on the matriarch.
    DropRam,
    /// Drop a direction changer on the matriarch.
    DropDirectionChanger,
    /// Move the camera in or out, by that many thousandths of full speed.
    Zoom(i32),
}

/// The place of a reader in the stream of commands.
#[derive(Debug)]
pub struct Reader {
    next: u64,
}

impl View for Reader {
    type V = nat;

    /// The number of commands that the reader has behind it.
    closed spec fn view(&self) -> nat {
        self.next as nat
    }
}

/// Where a reader at `cursor` goes on to read: at its cursor, or at the
/// oldest command that the ring still holds if that is later.
pub open spec fn read_start(published: nat, capacity: nat, cursor: nat) -> nat {
    let retained = if published < capacity {
        published
    } else {
        capacity
    };
    let oldest = (published - retained) as nat;
    if cursor > published {
        published
    } else if cursor < oldest {
        oldest
    } else {
        cursor
    }
}

/// What a reader at `cursor` gets: every command published since, but for
/// those that the ring has dropped.
pub open spec fn unread(log: Seq<Command>, capacity: nat, cursor: nat) -> Seq<Command> {
    log.subrange(read_start(log.len(), capacity, cursor) as int, log.len() as int)
}

/// The bus of commands.
pub struct CommandBus {
    ring: Vec<Command>,
    capacity: usize,
    published: u64,
    log: Ghost<Seq<Command>>,
}

impl CommandBus {
    /// Every command that was ever published, the oldest first.
    pub closed spec fn log(&self) -> Seq<Command> {
        self.log@
    }

    /// How many commands the ring holds at most.
    pub closed spec fn capacity(&self) -> nat {
        self.capacity as nat
    }

    /// What holds of every bus: the ring holds the latest commands, each in
    /// the place of its number.
    pub closed spec fn wf(&self) -> bool {
        &&& self.published == self.log@.len()
        &&& self.ring@.len() == if self.published < self.capacity {
            self.published as int
        } else {
            self.capacity as int
        }
        &&& forall|k: int|
            self.published - self.ring@.len() <= k < self.published ==> self.ring@[k % (
            self.capacity as int)] == #[trigger] self.log@[k]
    }

    /// Whether another command can be numbered.
    pub open spec fn has_room(&self) -> bool {
        self.log().len() < u64::MAX
    }

    /// A bus on which nothing was published yet.
    pub fn new(capacity: usize) -> (bus: Self)
        ensures
            bus.wf(),
            bus.capacity() == capacity,
            bus.log() == Seq::<Command>::empty(),
    {
        CommandBus { ring: Vec::new(), capacity, published: 0, log: Ghost(Seq::empty()) }
    }

    /// The number of commands published so far.
    pub fn published(&self) -> (n: u64)
        requires
            self.wf(),
        ensures
            n == self.log().len(),
    {
        self.published
    }

    /// A reader that will see every command published from now on.
    pub fn subscribe(&self) -> (r: Reader)
        requires
            self.wf(),
        ensures
            r@ == self.log().len(),
    {
        Reader { next: self.published }
    }

    /// Publishes `command` to every reader.
    pub fn publish(&mut self, command: Command)
        requires
            old(self).wf(),
            old(self).has_room(),
        ensures
            final(self).wf(),
            final(self).capacity() == old(self).capacity(),
            final(self).log() == old(self).log().push(command),
    {
        let ghost before = self.log@;
        if self.capacity > 0 {
            if self.ring.len() < self.capacity {
                proof {
                    lemma_small_mod(self.published as nat, self.capacity as nat);
                }
                self.ring.push(command);
            } else {
                let at = (self.published % (self.capacity as u64)) as usize;
                self.ring.set(at, command);
            }
        }
        self.published = self.published + 1;
        self.log = Ghost(before.push(command));
        proof {
            let cap = self.capacity as int;
            let end = self.published as int;
            assert forall|k: int| end - self.ring@.len() <= k < end implies self.ring@[k % cap]
                == #[trigger] self.log@[k] by {
                if k < end - 1 {
                    assert(before[k] == self.log@[k]);
                    if old(self).ring@.len() < cap {
                        lemma_small_mod(k as nat, cap as nat);
                    } else {
                        lemma_residues_differ(k, end - 1, cap);
                    }
                } else {
                    if old(self).ring@.len() < cap {
                        lemma_small_mod(k as nat, cap as nat);
                    }
                }
            }
        }
    }

    /// Hands out what `reader` has not seen yet, the oldest first, and moves
    /// its cursor behind the last command.
    pub fn drain(&self, reader: &mut Reader) -> (commands: Vec<Command>)
        requires
            self.wf(),
        ensures
            commands@ == unread(self.log(), self.capacity(), old(reader)@),
            final(reader)@ == self.log().len(),
    {
        let end = self.published;
        let retained: u64 = if end < self.capacity as u64 {
            end
        } else {
            self.capacity as u64
        };
        let oldest = end - retained;
        let start = if reader.next > end {
            end
        } else if reader.next < oldest {
            oldest
        } else {
            reader.next
        };
        let mut out: Vec<Command> = Vec::new();
        let mut k = start;
        while k < end
            invariant
                self.wf(),
                end == self.published,
                retained == self.ring@.len(),
                oldest == end - retained,
                oldest <= start <= k <= end,
                out@ == self.log@.subrange(start as int, k as int),
            decreases end - k,
        {
            assert(self.capacity > 0);
            let at = (k % (self.capacity as u64)) as usize;
            proof {
                if self.ring@.len() < self.capacity {
                    lemma_small_mod(k as nat, self.capacity as nat);
                }
                assert(self.ring@[(k as int) % (self.capacity as int)] == self.log@[k as int]);
            }
            out.push(self.ring[at]);
            assert(out@ =~= self.log@.subrange(start as int, k + 1));
            k += 1;
        }
        reader.next = end;
        out
    }
}

/// The place of a reader that may not have subscribed yet.
pub open spec fn cursor_of(reader: Option<Reader>) -> Option<nat> {
    match reader {
        Some(r) => Some(r@),
        None => None,
    }
}

/// Hands out what the reader of a system has not seen yet.
pub fn drain_with(bus: &CommandBus, reader: &mut Option<Reader>) -> (commands: Vec<Command>)
    requires
        bus.wf(),
        *old(reader) is Some,
    ensures
        commands@ == unread(bus.log(), bus.capacity(), cursor_of(*old(reader))->0),
        cursor_of(*final(reader)) == Some(bus.log().len()),
{
    match reader {
        Some(r) => bus.drain(r),
        None => Vec::new(),
    }
}

/// Two different numbers that lie less than `m` apart leave different
/// remainders.
proof fn lemma_residues_differ(a: int, b: int, m: int)
    requires
        0 < m,
        a < b < a + m,
    ensures
        a % m != b % m,
{
    lemma_mod_equivalence(b, a, m);
    lemma_small_mod((b - a) as nat, m as nat);
}

/// A reader that keeps up sees every command exactly once: what it gets is
/// what was published since it last read, in the same order.
pub proof fn lemma_nothing_missed(log: Seq<Command>, capacity: nat, cursor: nat)
    requires
        cursor <= log.len(),
        log.len() - cursor <= capacity,
    ensures
        unread(log, capacity, cursor) == log.subrange(cursor as int, log.len() as int),
{
}

/// What a reader that keeps up gets in two reads, one after the other, is
/// what it would have got in one: every command once, in the order in which
/// they were published.
pub proof fn lemma_reads_join(earlier: Seq<Command>, log: Seq<Command>, capacity: nat, cursor: nat)
    requires
        cursor <= earlier.len() <= log.len(),
        earlier == log.subrange(0, earlier.len() as int),
        log.len() - cursor <= capacity,
    ensures
        unread(earlier, capacity, cursor) + unread(log, capacity, earlier.len()) == log.subrange(
            cursor as int,
            log.len() as int,
        ),
{
    assert(unread(earlier, capacity, cursor) =~= log.subrange(cursor as int, earlier.len() as int));
    assert(unread(earlier, capacity, cursor) + unread(log, capacity, earlier.len())
        =~= log.subrange(cursor as int, log.len() as int));
}

/// A reader that has read everything gets nothing more until something is
/// published.
pub proof fn lemma_nothing_twice(log: Seq<Command>, capacity: nat)
    ensures
        unread(log, capacity, log.len()).len() == 0,
{
}

/// A reader that fell behind gets the latest commands, as many as the ring
/// holds, and none of the older ones.
pub proof fn lemma_lossy(log: Seq<Command>, capacity: nat, cursor: nat)
    requires
        cursor + capacity < log.len(),
    ensures
        unread(log, capacity, cursor) == log.subrange(log.len() - capacity, log.len() as int),
{
}

} // verus!
