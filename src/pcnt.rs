//! Channel configuration of the pulse counter: the counting actions of each
//! channel, packed into its unit's configuration register, and the routing of
//! its control and edge inputs through the signal matrix.
//!
//! A channel is fixed by its type to one unit and one of that unit's two
//! channels, so two handles for the same register fields cannot be built from
//! distinct types.
use vstd::prelude::*;
use crate::guard::{ClockControl, Peripheral, PeripheralGuard};

verus! {

/// Action on the count while the control signal is at a given level.
#[derive(Clone, Copy, Debug, PartialEq, Eq, Structural)]
pub enum CtrlMode {
    /// Count as the edge mode says.
    Keep,
    /// Count the opposite way.
    Reverse,
    /// Do not count.
    Disable,
}

impl CtrlMode {
    pub open spec fn value(self) -> u32 {
        match self {
            CtrlMode::Keep => 0,
            CtrlMode::Reverse => 1,
            CtrlMode::Disable => 2,
        }
    }

    pub fn bits(&self) -> (r: u32)
        ensures
            r == self.value(),
    {
        match self {
            CtrlMode::Keep => 0,
            CtrlMode::Reverse => 1,
            CtrlMode::Disable => 2,
        }
    }
}

/// Action on the count at an edge of the input signal.
#[derive(Clone, Copy, Debug, PartialEq, Eq, Structural)]
pub enum EdgeMode {
    Hold,
    Increment,
    Decrement,
}

impl EdgeMode {
    pub open spec fn value(self) -> u32 {
        match self {
            EdgeMode::Hold => 0,
            EdgeMode::Increment => 1,
            EdgeMode::Decrement => 2,
        }
    }

    pub fn bits(&self) -> (r: u32)
        ensures
            r == self.value(),
    {
        match self {
            EdgeMode::Hold => 0,
            EdgeMode::Increment => 1,
            EdgeMode::Decrement => 2,
        }
    }
}

/// The two-bit field of `w` at bit `off`.
pub open spec fn field(w: u32, off: u32) -> u32 {
    (w >> off) & 3u32
}

/// `w` with its two-bit field at bit `off` set to `v`.
pub open spec fn with_field(w: u32, off: u32, v: u32) -> u32 {
    (w & !(3u32 << off)) | (v << off)
}

/// Setting two adjacent fields, at `off` and `off + 2`, stores both values and
/// keeps every bit outside the four.
pub proof fn lemma_two_fields(w: u32, off: u32, v1: u32, v2: u32)
    requires
        off <= 28,
        v1 < 4,
        v2 < 4,
    ensures
        ({
            let r = with_field(with_field(w, off, v1), (off + 2) as u32, v2);
            &&& field(r, off) == v1
            &&& field(r, (off + 2) as u32) == v2
            &&& r & !(15u32 << off) == w & !(15u32 << off)
        }),
{
    let o2 = (off + 2) as u32;
    assert({
        let r1 = (w & !(3u32 << off)) | (v1 << off);
        let r = (r1 & !(3u32 << o2)) | (v2 << o2);
        &&& (r >> off) & 3u32 == v1
        &&& (r >> o2) & 3u32 == v2
        &&& r & !(15u32 << off) == w & !(15u32 << off)
    }) by (bit_vector)
        requires
            off <= 28,
            o2 == off + 2,
            v1 < 4,
            v2 < 4,
    ;
}

/// Bit of the negative-edge field of channel `num` in the configuration word.
pub open spec fn neg_mode_offset(num: int) -> u32 {
    (16 + 8 * num) as u32
}

/// Bit of the positive-edge field of channel `num`.
pub open spec fn pos_mode_offset(num: int) -> u32 {
    (18 + 8 * num) as u32
}

/// Bit of the control-high field of channel `num`.
pub open spec fn hctrl_mode_offset(num: int) -> u32 {
    (20 + 8 * num) as u32
}

/// Bit of the control-low field of channel `num`.
pub open spec fn lctrl_mode_offset(num: int) -> u32 {
    (22 + 8 * num) as u32
}

/// Configuration registers of the pulse counter, one per unit.
pub struct PcntRegisters {
    pub conf0: Vec<u32>,
}

/// Where a matrix input takes its level from.
#[derive(Clone, Copy, Debug, PartialEq, Eq, Structural)]
pub enum InputSource {
    /// A GPIO pin, by number.
    Pin(u8),
    /// Constant high level.
    High,
    /// Constant low level.
    Low,
}

/// One routing of the signal matrix: a peripheral input slot and its source.
#[derive(Clone, Copy, Debug, PartialEq, Eq, Structural)]
pub struct Connection {
    pub signal: u16,
    pub source: InputSource,
}

/// The signal matrix: the routings made so far and the input buffer enable of
/// each pin.
pub struct SignalMatrix {
    pub connections: Vec<Connection>,
    pub input_enable: Vec<bool>,
}

impl SignalMatrix {
    /// Whether `source` names a pin of this matrix (or a constant level).
    pub open spec fn has_source(&self, source: InputSource) -> bool {
        match source {
            InputSource::Pin(p) => p < self.input_enable@.len(),
            _ => true,
        }
    }
}

/// The input enables after a source has its input buffer switched on.
pub open spec fn enabled_for(enables: Seq<bool>, source: InputSource) -> Seq<bool> {
    match source {
        InputSource::Pin(p) => enables.update(p as int, true),
        _ => enables,
    }
}

/// The chip variant's matrix slots of the pulse counter: `ctrl[2 * unit + num]`
/// and `edge[2 * unit + num]` are the control and edge input ids of channel `num`
/// of `unit`, and `input_signal_max` the largest id the matrix routes.
pub struct SignalTable {
    pub ctrl: Vec<u16>,
    pub edge: Vec<u16>,
    pub input_signal_max: u16,
}

impl SignalTable {
    /// Whether the table holds both slots of channel `num` of `unit`.
    pub open spec fn has_channel(&self, unit: int, num: int) -> bool {
        &&& 0 <= num < 2
        &&& 2 * unit + num < self.ctrl@.len()
        &&& 2 * unit + num < self.edge@.len()
    }
}

/// One channel of a pulse counter unit. It keeps the counter's clock gate open
/// while it lives.
pub struct Channel<const UNIT: usize, const NUM: usize> {
    guard: PeripheralGuard,
    // The channels of a unit share its registers, so a channel stays on the
    // thread that made it.
    not_send: core::marker::PhantomData<std::rc::Rc<()>>,
}

impl<const UNIT: usize, const NUM: usize> Channel<UNIT, NUM> {
    pub closed spec fn wf(&self) -> bool {
        self.guard.spec_peripheral() == Peripheral::Pcnt
    }

    /// Takes a guard of the pulse counter for this channel.
    pub fn new(clocks: &mut ClockControl) -> (r: Self)
        requires
            old(clocks).wf(),
            old(clocks).count(Peripheral::Pcnt) < usize::MAX,
        ensures
            r.wf(),
            final(clocks).wf(),
            final(clocks).gates_follow_counts(),
            final(clocks).count(Peripheral::Pcnt) == old(clocks).count(Peripheral::Pcnt) + 1,
            final(clocks).enabled(Peripheral::Pcnt),
            final(clocks).count(Peripheral::Aes) == old(clocks).count(Peripheral::Aes),
            final(clocks).enabled(Peripheral::Aes) == old(clocks).enabled(Peripheral::Aes),
    {
        Channel { guard: clocks.acquire(Peripheral::Pcnt), not_send: core::marker::PhantomData }
    }

    /// Gives up the channel and releases its guard.
    pub fn free(self, clocks: &mut ClockControl)
        requires
            self.wf(),
            old(clocks).wf(),
        ensures
            final(clocks).wf(),
            final(clocks).gates_follow_counts(),
            old(clocks).count(Peripheral::Pcnt) > 0 ==> final(clocks).count(Peripheral::Pcnt)
                == old(clocks).count(Peripheral::Pcnt) - 1,
            final(clocks).enabled(Peripheral::Pcnt) == (final(clocks).count(Peripheral::Pcnt) > 0),
            final(clocks).count(Peripheral::Aes) == old(clocks).count(Peripheral::Aes),
    {
        let Channel { guard, not_send: _ } = self;
        clocks.release(guard);
    }

    /// Configures how the channel behaves by the level of the control signal:
    /// `low` while it is low, `high` while it is high.
    pub fn set_ctrl_mode(&self, regs: &mut PcntRegisters, low: CtrlMode, high: CtrlMode)
        requires
            NUM < 2,
            UNIT < old(regs).conf0@.len(),
        ensures
            final(regs).conf0@ == old(regs).conf0@.update(
                UNIT as int,
                with_field(
                    with_field(old(regs).conf0@[UNIT as int], hctrl_mode_offset(NUM as int), high.value()),
                    lctrl_mode_offset(NUM as int),
                    low.value(),
                ),
            ),
            field(final(regs).conf0@[UNIT as int], hctrl_mode_offset(NUM as int)) == high.value(),
            field(final(regs).conf0@[UNIT as int], lctrl_mode_offset(NUM as int)) == low.value(),
            final(regs).conf0@[UNIT as int] & !(15u32 << hctrl_mode_offset(NUM as int))
                == old(regs).conf0@[UNIT as int] & !(15u32 << hctrl_mode_offset(NUM as int)),
    {
        let w = regs.conf0[UNIT];
        let h: u32 = 20 + 8 * (NUM as u32);
        let l: u32 = 22 + 8 * (NUM as u32);
        let w = (w & !(3u32 << h)) | (high.bits() << h);
        let w = (w & !(3u32 << l)) | (low.bits() << l);
        proof {
            lemma_two_fields(regs.conf0@[UNIT as int], h, high.value(), low.value());
        }
        regs.conf0.set(UNIT, w);
    }

    /// Configures what the channel does to the count on a falling edge
    /// (`neg_edge`) and on a rising edge (`pos_edge`) of the input signal.
    pub fn set_input_mode(
        &self,
        regs: &mut PcntRegisters,
        neg_edge: EdgeMode,
        pos_edge: EdgeMode,
    )
        requires
            NUM < 2,
            UNIT < old(regs).conf0@.len(),
        ensures
            final(regs).conf0@ == old(regs).conf0@.update(
                UNIT as int,
                with_field(
                    with_field(old(regs).conf0@[UNIT as int], neg_mode_offset(NUM as int), neg_edge.value()),
                    pos_mode_offset(NUM as int),
                    pos_edge.value(),
                ),
            ),
            field(final(regs).conf0@[UNIT as int], neg_mode_offset(NUM as int)) == neg_edge.value(),
            field(final(regs).conf0@[UNIT as int], pos_mode_offset(NUM as int)) == pos_edge.value(),
            final(regs).conf0@[UNIT as int] & !(15u32 << neg_mode_offset(NUM as int))
                == old(regs).conf0@[UNIT as int] & !(15u32 << neg_mode_offset(NUM as int)),
    {
        let w = regs.conf0[UNIT];
        let n: u32 = 16 + 8 * (NUM as u32);
        let p: u32 = 18 + 8 * (NUM as u32);
        let w = (w & !(3u32 << n)) | (neg_edge.bits() << n);
        let w = (w & !(3u32 << p)) | (pos_edge.bits() << p);
        proof {
            lemma_two_fields(regs.conf0@[UNIT as int], n, neg_edge.value(), pos_edge.value());
        }
        regs.conf0.set(UNIT, w);
    }

    /// Routes `source` to this channel's control input.
    pub fn set_ctrl_signal(
        &self,
        table: &SignalTable,
        matrix: &mut SignalMatrix,
        source: InputSource,
    ) -> (r: &Self)
        requires
            table.has_channel(UNIT as int, NUM as int),
            old(matrix).has_source(source),
        ensures
            r == self,
            routed(
                *old(matrix),
                *final(matrix),
                table.ctrl@[2 * UNIT + NUM],
                table.input_signal_max,
                source,
            ),
    {
        let slots = table.ctrl.len();
        assert(2 * UNIT + NUM < slots);
        let signal = table.ctrl[UNIT * 2 + NUM];
        route(matrix, signal, table.input_signal_max, source);
        self
    }

    /// Routes `source` to this channel's edge input.
    pub fn set_edge_signal(
        &self,
        table: &SignalTable,
        matrix: &mut SignalMatrix,
        source: InputSource,
    ) -> (r: &Self)
        requires
            table.has_channel(UNIT as int, NUM as int),
            old(matrix).has_source(source),
        ensures
            r == self,
            routed(
                *old(matrix),
                *final(matrix),
                table.edge@[2 * UNIT + NUM],
                table.input_signal_max,
                source,
            ),
    {
        let slots = table.edge.len();
        assert(2 * UNIT + NUM < slots);
        let signal = table.edge[UNIT * 2 + NUM];
        route(matrix, signal, table.input_signal_max, source);
        self
    }
}

/// The matrix `after` routing input `signal` to `source` from `before`: a slot
/// that the matrix has gains one connection and the source its input buffer;
/// a slot beyond `max` leaves the matrix as it was.
pub open spec fn routed(
    before: SignalMatrix,
    after: SignalMatrix,
    signal: u16,
    max: u16,
    source: InputSource,
) -> bool {
    if signal <= max {
        &&& after.connections@ == before.connections@.push(Connection { signal, source })
        &&& after.input_enable@ == enabled_for(before.input_enable@, source)
    } else {
        &&& after.connections@ == before.connections@
        &&& after.input_enable@ == before.input_enable@
    }
}

fn route(matrix: &mut SignalMatrix, signal: u16, max: u16, source: InputSource)
    requires
        old(matrix).has_source(source),
    ensures
        routed(*old(matrix), *final(matrix), signal, max, source),
{
    if signal <= max {
        match source {
            InputSource::Pin(p) => {
                matrix.input_enable.set(p as usize, true);
            },
            _ => {},
        }
        matrix.connections.push(Connection { signal, source });
    }
}

} // verus!
