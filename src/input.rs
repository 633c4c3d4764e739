use vstd::prelude::*;
use crate::ports::DeviceIO;

verus! {

/// A cabinet control read through the player input ports.
#[derive(Debug, Clone, Copy, PartialEq, Eq, Structural)]
pub enum Button {
    Coin,
    P2Start,
    P1Start,
    P1Shot,
    P2Shot,
    P1Left,
    P2Left,
    P1Right,
    P2Right,
    Tilt,
}

/// The input port (1 or 2) and bit that a button drives.
pub open spec fn binding(b: Button) -> (u8, u8) {
    match b {
        Button::Coin => (1, 0),
        Button::P2Start => (1, 1),
        Button::P1Start => (1, 2),
        Button::P1Shot => (1, 4),
        Button::P2Shot => (2, 4),
        Button::P1Left => (1, 5),
        Button::P2Left => (2, 5),
        Button::P1Right => (1, 6),
        Button::P2Right => (2, 6),
        Button::Tilt => (2, 2),
    }
}

/// Bits of port 1 that some button drives.
pub const PORT1_BOUND: u8 = 0x77;

/// Bits of port 2 that some button drives.
pub const PORT2_BOUND: u8 = 0x74;

/// Bits of `port` that some button drives.
pub open spec fn bound_mask(port: u8) -> u8 {
    if port == 1 {
        PORT1_BOUND
    } else if port == 2 {
        PORT2_BOUND
    } else {
        0
    }
}

/// The bits of `port` driven by the held buttons.
pub open spec fn pressed_mask(held: Seq<Button>, port: u8) -> u8
    decreases held.len(),
{
    if held.len() == 0 {
        0
    } else {
        let b = binding(held.last());
        let rest = pressed_mask(held.drop_last(), port);
        if b.0 == port {
            rest | (1u8 << b.1)
        } else {
            rest
        }
    }
}

/// An input port byte after a poll: each bound bit set if and only if a held
/// button drives it, each unbound bit as it was.
pub open spec fn polled(prev: u8, port: u8, held: Seq<Button>) -> u8 {
    (prev & !bound_mask(port)) | pressed_mask(held, port)
}

/// The input port and bit that `b` drives.
pub fn button_binding(b: Button) -> (r: (u8, u8))
    ensures
        r == binding(b),
{
    match b {
        Button::Coin => (1, 0),
        Button::P2Start => (1, 1),
        Button::P1Start => (1, 2),
        Button::P1Shot => (1, 4),
        Button::P2Shot => (2, 4),
        Button::P1Left => (1, 5),
        Button::P2Left => (2, 5),
        Button::P1Right => (1, 6),
        Button::P2Right => (2, 6),
        Button::Tilt => (2, 2),
    }
}

/// The mask of the held buttons that drive `port`.
pub fn held_mask(held: &[Button], port: u8) -> (r: u8)
    ensures
        r == pressed_mask(held@, port),
{
    let mut mask: u8 = 0;
    let mut i: usize = 0;
    while i < held.len()
        invariant
            i <= held@.len(),
            mask == pressed_mask(held@.take(i as int), port),
        decreases held@.len() - i,
    {
        let (p, bit) = button_binding(held[i]);
        assert(held@.take(i as int + 1).drop_last() =~= held@.take(i as int));
        if p == port {
            mask = mask | (1u8 << bit);
        }
        i = i + 1;
    }
    assert(held@.take(held@.len() as int) =~= held@);
    mask
}

impl DeviceIO {
    /// Packs the held buttons into input ports 1 and 2; the bits that no
    /// button drives keep their value.
    pub fn handle_joypad(&mut self, held: &[Button])
        ensures
            *final(self) == (DeviceIO {
                inp1: polled(old(self).inp1, 1, held@),
                inp2: polled(old(self).inp2, 2, held@),
                ..*old(self)
            }),
    {
        let m1 = held_mask(held, 1);
        let m2 = held_mask(held, 2);
        self.inp1 = (self.inp1 & !PORT1_BOUND) | m1;
        self.inp2 = (self.inp2 & !PORT2_BOUND) | m2;
    }
}

/// A poll changes no bit of an input port that no button drives.
pub proof fn lemma_unbound_bits_kept(prev: u8, port: u8, held: Seq<Button>)
    requires
        port == 1 || port == 2,
    ensures
        polled(prev, port, held) & !bound_mask(port) == prev & !bound_mask(port),
{
    lemma_pressed_within_bound(held, port);
    let m = bound_mask(port);
    let p = pressed_mask(held, port);
    assert(p & !m == 0u8 ==> ((prev & !m) | p) & !m == prev & !m) by (bit_vector);
}

/// A held button's bit is set after a poll.
pub proof fn lemma_held_bit_set(prev: u8, held: Seq<Button>, j: int)
    requires
        0 <= j < held.len(),
    ensures
        ({
            let (port, bit) = binding(held[j]);
            (polled(prev, port, held) >> bit) & 1u8 == 1u8
        }),
    decreases held.len(),
{
    let (port, bit) = binding(held[j]);
    let m = bound_mask(port);
    if j == held.len() - 1 {
        let rest = pressed_mask(held.drop_last(), port);
        assert(bit < 8);
        assert(bit < 8 ==> ((prev & !m) | (rest | (1u8 << bit))) >> bit & 1u8 == 1u8) by (bit_vector);
    } else {
        lemma_held_bit_set(prev, held.drop_last(), j);
        assert(held.drop_last()[j] == held[j]);
        let rest = pressed_mask(held.drop_last(), port);
        let (lp, lb) = binding(held.last());
        if lp == port {
            assert(((prev & !m) | rest) >> bit & 1u8 == 1u8 ==> ((prev & !m) | (rest | (1u8 << lb))) >> bit & 1u8 == 1u8) by (bit_vector);
        }
    }
}

/// The held buttons of a port drive only its bound bits.
proof fn lemma_pressed_within_bound(held: Seq<Button>, port: u8)
    requires
        port == 1 || port == 2,
    ensures
        pressed_mask(held, port) & !bound_mask(port) == 0u8,
    decreases held.len(),
{
    let m = bound_mask(port);
    if held.len() == 0 {
        assert(0u8 & !m == 0u8) by (bit_vector);
    } else {
        lemma_pressed_within_bound(held.drop_last(), port);
        let rest = pressed_mask(held.drop_last(), port);
        let b = binding(held.last());
        if b.0 == port {
            let bit = b.1;
            assert(pressed_mask(held, port) == rest | (1u8 << bit));
            assert(m == 0x77u8 || m == 0x74u8);
            assert((m == 0x77u8 && (bit == 0 || bit == 1 || bit == 2 || bit == 4 || bit == 5 || bit == 6))
                || (m == 0x74u8 && (bit == 2 || bit == 4 || bit == 5 || bit == 6)));
            assert(rest & !m == 0u8 && ((m == 0x77u8 && (bit == 0 || bit == 1 || bit == 2 || bit == 4 || bit == 5 || bit == 6))
                || (m == 0x74u8 && (bit == 2 || bit == 4 || bit == 5 || bit == 6))) ==> (rest | (1u8 << bit)) & !m == 0u8) by (bit_vector);
        }
    }
}

} // verus!
