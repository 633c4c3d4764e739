use vstd::prelude::*;

verus! {

/// Opcode of the 8080 `IN port` instruction.
pub const OP_IN: u8 = 0xdb;

/// Opcode of the 8080 `OUT port` instruction.
pub const OP_OUT: u8 = 0xd3;

/// A port number that this board does not decode.
#[derive(Debug, Clone, Copy, PartialEq, Eq, Structural)]
pub enum PortError {
    /// An `IN` from a port other than 0 to 3.
    BadRead(u8),
    /// An `OUT` to a port other than 2 to 7.
    BadWrite(u8),
}

/// The board's logical device ports.
#[derive(Debug, Clone, Copy, PartialEq, Eq, Structural)]
pub struct DeviceIO {
    /// Inputs mapped in hardware but never read by the game code.
    pub inp0: u8,
    /// Player inputs, port 1.
    pub inp1: u8,
    /// Player inputs and DIP switches, port 2.
    pub inp2: u8,
    /// Last value read from the shift register.
    pub shft_in: u8,
    /// Shift amount, 0 to 7.
    pub shft_amnt: u8,
    /// Sound latch of bank 1.
    pub sound1: u8,
    /// The 16-bit shift register.
    pub shft_data: u16,
    /// Sound latch of bank 2.
    pub sound2: u8,
    /// Watchdog counter: stored, never consulted.
    pub watchdog: u8,
}

/// The 8-bit window of the shift register selected by the shift amount.
pub open spec fn shift_window(data: u16, amount: u8) -> u8 {
    ((data >> ((8 - amount) as u16)) & 0xff) as u8
}

/// The register after a write to port 4: the new byte on top, the old top below.
pub open spec fn shift_push(data: u16, value: u8) -> u16 {
    ((value as u16) << 8u16) | (data >> 8u16)
}

/// Bit `i` of `v` is set.
pub open spec fn bit_set(v: u8, i: u8) -> bool {
    (v >> i) & 1u8 == 1u8
}

/// Bit `i` goes from 0 in `old` to 1 in `new`.
pub open spec fn rising(old: u8, new: u8, i: u8) -> bool {
    bit_set(new, i) && !bit_set(old, i)
}

/// Number of meaningful bits of a sound bank (bank 1: 4, bank 2: 5).
pub open spec fn bank_bits(bank: u8) -> nat {
    if bank == 1 { 4 } else if bank == 2 { 5 } else { 0 }
}

/// Sample played by bit 0 of a sound bank (bank 1: 0, bank 2: 4).
pub open spec fn bank_base(bank: u8) -> nat {
    if bank == 2 { 4 } else { 0 }
}

/// The samples fired by the rising edges among the low `n` bits, in bit order.
pub open spec fn edge_samples(old: u8, new: u8, base: nat, n: nat) -> Seq<usize>
    decreases n,
{
    if n == 0 {
        Seq::empty()
    } else {
        let prev = edge_samples(old, new, base, (n - 1) as nat);
        if rising(old, new, (n - 1) as u8) {
            prev.push((base + n - 1) as usize)
        } else {
            prev
        }
    }
}

/// The samples fired when `new` is written over the latch value `old` of `bank`.
pub open spec fn bank_samples(old: u8, new: u8, bank: u8) -> Seq<usize> {
    edge_samples(old, new, bank_base(bank), bank_bits(bank))
}

/// The latch of a sound bank.
pub open spec fn latch(io: DeviceIO, bank: u8) -> u8 {
    if bank == 2 { io.sound2 } else { io.sound1 }
}

/// The ports after a sound command is written to `bank`.
pub open spec fn after_sound(io: DeviceIO, data: u8, bank: u8) -> DeviceIO {
    if bank == 1 {
        DeviceIO { sound1: data, ..io }
    } else if bank == 2 {
        DeviceIO { sound2: data, ..io }
    } else {
        io
    }
}

/// Ports that an `IN` can read.
pub open spec fn readable(port: u8) -> bool {
    port <= 3
}

/// Ports that an `OUT` can write.
pub open spec fn writable(port: u8) -> bool {
    2 <= port <= 7
}

/// The value an `IN` from `port` returns.
pub open spec fn read_value(io: DeviceIO, port: u8) -> u8 {
    if port == 0 {
        io.inp0
    } else if port == 1 {
        io.inp1
    } else if port == 2 {
        io.inp2
    } else {
        shift_window(io.shft_data, io.shft_amnt)
    }
}

/// The ports after an `IN` from `port`.
pub open spec fn after_read(io: DeviceIO, port: u8) -> DeviceIO {
    if port == 3 {
        DeviceIO { shft_in: shift_window(io.shft_data, io.shft_amnt), ..io }
    } else {
        io
    }
}

/// The ports after an `OUT` of `value` to `port`.
pub open spec fn after_write(io: DeviceIO, port: u8, value: u8) -> DeviceIO {
    if port == 2 {
        DeviceIO { shft_amnt: value & 7u8, ..io }
    } else if port == 3 {
        after_sound(io, value, 1)
    } else if port == 4 {
        DeviceIO { shft_data: shift_push(io.shft_data, value), ..io }
    } else if port == 5 {
        after_sound(io, value, 2)
    } else if port == 6 {
        DeviceIO { watchdog: value, ..io }
    } else {
        io
    }
}

/// The samples an `OUT` of `value` to `port` fires.
pub open spec fn write_samples(io: DeviceIO, port: u8, value: u8) -> Seq<usize> {
    if port == 3 {
        bank_samples(io.sound1, value, 1)
    } else if port == 5 {
        bank_samples(io.sound2, value, 2)
    } else {
        Seq::empty()
    }
}

impl DeviceIO {
    /// All ports cleared.
    pub open spec fn power_up_state() -> DeviceIO {
        DeviceIO {
            inp0: 0,
            inp1: 0,
            inp2: 0,
            shft_in: 0,
            shft_amnt: 0,
            sound1: 0,
            shft_data: 0,
            sound2: 0,
            watchdog: 0,
        }
    }

    /// The shift amount is in range.
    pub open spec fn wf(&self) -> bool {
        self.shft_amnt < 8
    }

    /// All ports cleared, as at power-up.
    pub fn power_up() -> (r: DeviceIO)
        ensures
            r == DeviceIO::power_up_state(),
            r.wf(),
    {
        DeviceIO {
            inp0: 0,
            inp1: 0,
            inp2: 0,
            shft_in: 0,
            shft_amnt: 0,
            sound1: 0,
            shft_data: 0,
            sound2: 0,
            watchdog: 0,
        }
    }

    /// Reads the shift register through its window and caches the result.
    pub fn read_shift(&mut self) -> (r: u8)
        requires
            old(self).wf(),
        ensures
            r == shift_window(old(self).shft_data, old(self).shft_amnt),
            *final(self) == after_read(*old(self), 3),
    {
        let shift: u16 = (8 - self.shft_amnt) as u16;
        let r = ((self.shft_data >> shift) & 0xff) as u8;
        self.shft_in = r;
        r
    }

    /// The value of an `IN` from `port`.
    pub fn read_port(&mut self, port: u8) -> (r: Result<u8, PortError>)
        requires
            old(self).wf(),
        ensures
            readable(port) ==> r == Ok::<u8, PortError>(read_value(*old(self), port))
                && *final(self) == after_read(*old(self), port),
            !readable(port) ==> r == Err::<u8, PortError>(PortError::BadRead(port))
                && *final(self) == *old(self),
            final(self).wf(),
    {
        match port {
            0 => Ok(self.inp0),
            1 => Ok(self.inp1),
            2 => Ok(self.inp2),
            3 => Ok(self.read_shift()),
            _ => Err(PortError::BadRead(port)),
        }
    }

    /// Stores a sound command in the latch of `bank` (1 or 2) and returns the
    /// samples of its rising edges, in bit order.
    pub fn play_sound(&mut self, data: u8, bank: u8) -> (r: Vec<usize>)
        ensures
            r@ == bank_samples(latch(*old(self), bank), data, bank),
            *final(self) == after_sound(*old(self), data, bank),
    {
        let mut fired: Vec<usize> = Vec::new();
        if bank != 1 && bank != 2 {
            return fired;
        }
        let old_latch: u8 = if bank == 1 { self.sound1 } else { self.sound2 };
        let bits: u8 = if bank == 1 { 4 } else { 5 };
        let base: usize = if bank == 1 { 0 } else { 4 };
        if data != old_latch {
            let mut i: u8 = 0;
            while i < bits
                invariant
                    i <= bits,
                    bits as nat == bank_bits(bank),
                    base as nat == bank_base(bank),
                    fired@ == edge_samples(old_latch, data, base as nat, i as nat),
                decreases bits - i,
            {
                let up = (data >> i) & 1 == 1 && !((old_latch >> i) & 1 == 1);
                if up {
                    fired.push(base + i as usize);
                }
                assert(up == rising(old_latch, data, i));
                i = i + 1;
            }
        } else {
            proof {
                lemma_no_edges_on_equal(data, base as nat, bits as nat);
            }
        }
        if bank == 1 {
            self.sound1 = data;
        } else {
            self.sound2 = data;
        }
        fired
    }

    /// Applies an `OUT` of `value` to `port` and returns the samples it fires.
    pub fn write_port(&mut self, port: u8, value: u8) -> (r: Result<Vec<usize>, PortError>)
        requires
            old(self).wf(),
        ensures
            writable(port) ==> r is Ok && r->Ok_0@ == write_samples(*old(self), port, value)
                && *final(self) == after_write(*old(self), port, value),
            !writable(port) ==> r == Err::<Vec<usize>, PortError>(PortError::BadWrite(port))
                && *final(self) == *old(self),
            final(self).wf(),
    {
        match port {
            2 => {
                self.shft_amnt = value & 0x7;
                assert(value & 7u8 < 8) by (bit_vector);
                Ok(Vec::new())
            },
            3 => Ok(self.play_sound(value, 1)),
            4 => {
                self.shft_data = (value as u16) << 8 | self.shft_data >> 8;
                Ok(Vec::new())
            },
            5 => Ok(self.play_sound(value, 2)),
            6 => {
                self.watchdog = value;
                Ok(Vec::new())
            },
            7 => Ok(Vec::new()),
            _ => Err(PortError::BadWrite(port)),
        }
    }
}

/// Writing a latch's own value fires nothing.
pub proof fn lemma_no_edges_on_equal(v: u8, base: nat, n: nat)
    requires
        n <= 8,
    ensures
        edge_samples(v, v, base, n) == Seq::<usize>::empty(),
    decreases n,
{
    if n > 0 {
        lemma_no_edges_on_equal(v, base, (n - 1) as nat);
    }
}

/// With a shift amount of 0 the window is the register's high byte, the most
/// recently written one; with 7 it is its low 8 bits shifted by 1.
pub proof fn lemma_shift_window_bounds(data: u16)
    ensures
        shift_window(data, 0) == (data >> 8u16) as u8,
        shift_window(data, 7) == ((data >> 1u16) & 0xffu16) as u8,
{
    assert(((data >> 8u16) & 0xffu16) as u8 == (data >> 8u16) as u8) by (bit_vector);
}

/// After two writes to port 4, of `v1` and then `v2`, the register holds `v2`
/// over `v1`, whatever it held before; so two writes of one value give `v`
/// over `v`.
pub proof fn lemma_shift_two_writes(io: DeviceIO, v1: u8, v2: u8)
    ensures
        after_write(after_write(io, 4, v1), 4, v2).shft_data == ((v2 as u16) << 8u16) | (v1 as u16),
        after_write(after_write(io, 4, v1), 4, v1).shft_data == ((v1 as u16) << 8u16) | (v1 as u16),
{
    let d = io.shft_data;
    assert(shift_push(shift_push(d, v1), v2) == ((v2 as u16) << 8u16) | (v1 as u16)) by (bit_vector);
    assert(shift_push(shift_push(d, v1), v1) == ((v1 as u16) << 8u16) | (v1 as u16)) by (bit_vector);
}

/// Writing the same sound command twice in a row fires samples only on the
/// first write: the second finds the latch already holding it.
pub proof fn lemma_repeat_sound_silent(io: DeviceIO, data: u8, bank: u8)
    requires
        bank == 1 || bank == 2,
    ensures
        latch(after_sound(io, data, bank), bank) == data,
        bank_samples(latch(after_sound(io, data, bank), bank), data, bank) == Seq::<usize>::empty(),
{
    lemma_no_edges_on_equal(data, bank_base(bank), bank_bits(bank));
}

/// The samples of a write are exactly those of the rising bits, each once and
/// in bit order: a falling or steady bit fires nothing.
pub proof fn lemma_edge_samples_members(old: u8, new: u8, base: nat, n: nat)
    requires
        n <= 8,
        base <= 8,
    ensures
        forall|j: int|
            0 <= j < edge_samples(old, new, base, n).len() ==> {
                let k = #[trigger] edge_samples(old, new, base, n)[j];
                &&& base <= k < base + n
                &&& rising(old, new, (k - base) as u8)
            },
        forall|j: int, l: int|
            0 <= j < l < edge_samples(old, new, base, n).len() ==> #[trigger] edge_samples(
                old,
                new,
                base,
                n,
            )[j] < #[trigger] edge_samples(old, new, base, n)[l],
        forall|i: nat|
            i < n && rising(old, new, i as u8) ==> #[trigger] edge_samples(old, new, base, n).contains(
                (base + i) as usize,
            ),
    decreases n,
{
    if n > 0 {
        lemma_edge_samples_members(old, new, base, (n - 1) as nat);
        let prev = edge_samples(old, new, base, (n - 1) as nat);
        let cur = edge_samples(old, new, base, n);
        assert forall|i: nat| i < n && rising(old, new, i as u8) implies #[trigger] cur.contains(
            (base + i) as usize,
        ) by {
            if i < n - 1 {
                assert(prev.contains((base + i) as usize));
                let w = choose|w: int| 0 <= w < prev.len() && prev[w] == (base + i) as usize;
                assert(cur[w] == prev[w]);
            } else {
                assert(cur[cur.len() - 1] == (base + i) as usize);
            }
        }
    }
}

/// Toggling a bit of a sound bank from 1 to 0 and back to 1 fires its sample
/// on the rising write only.
pub proof fn lemma_sound_edge_only(a: u8, b: u8, c: u8, bank: u8, i: u8)
    requires
        bank == 1 || bank == 2,
        (i as nat) < bank_bits(bank),
        bit_set(a, i),
        !bit_set(b, i),
        bit_set(c, i),
    ensures
        !bank_samples(a, b, bank).contains((bank_base(bank) + i) as usize),
        bank_samples(b, c, bank).contains((bank_base(bank) + i) as usize),
{
    let base = bank_base(bank);
    let n = bank_bits(bank);
    lemma_edge_samples_members(a, b, base, n);
    lemma_edge_samples_members(b, c, base, n);
    assert(bank_samples(b, c, bank).contains((base + (i as nat)) as usize));
}

/// Writes to the watchdog (port 6) and to port 7 leave the shift register and
/// the sound latches as they were.
pub proof fn lemma_watchdog_isolation(io: DeviceIO, port: u8, value: u8)
    requires
        port == 6 || port == 7,
    ensures
        after_write(io, port, value).shft_data == io.shft_data,
        after_write(io, port, value).shft_amnt == io.shft_amnt,
        after_write(io, port, value).sound1 == io.sound1,
        after_write(io, port, value).sound2 == io.sound2,
        write_samples(io, port, value) == Seq::<usize>::empty(),
{
}

} // verus!
