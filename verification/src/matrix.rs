//! The charlieplex matrix driver: the two mood-indexed scan tables, the
//! playback sequence they expand to, and the charlieplexing invariant.
//!
//! Eleven LEDs hang off two 16-bit GPIO ports; a frame lights one LED (or a
//! back-to-back pair) by driving exactly one pin pair and leaving every other
//! matrix pin in the non-driving input state. The library produces the write
//! sequence as data — each element names a port, a register (output data or
//! direction) and the full mask to store — and the caller applies the writes
//! to the hardware registers in order.
//!
//! The matrix pins, by output-register bit: port 0 bits 3, 4, 11, 12, 13 and
//! 15, and port 2 bits 4, 5, 6, 12 and 13. Each frame below names the LED
//! grid cells it lights and uses the masks of those pins.

use crate::mood::Mood;
use vstd::prelude::*;

verus! {

/// The two GPIO ports the LED matrix hangs off.
#[derive(Clone, Copy, PartialEq, Eq, Structural, Debug)]
pub enum PortId {
    Port0,
    Port2,
}

/// Which register of a port a write goes to: the output-data register
/// (driven logic levels) or the direction register (which pins drive at
/// all).
#[derive(Clone, Copy, PartialEq, Eq, Structural, Debug)]
pub enum RegKind {
    Output,
    Direction,
}

/// One register store: the full 16-bit value `mask` replaces the named
/// register's contents.
#[derive(Clone, Copy, PartialEq, Eq, Structural, Debug)]
pub struct RegWrite {
    pub port: PortId,
    pub reg: RegKind,
    pub mask: u16,
}

/// One phase of the charlieplex scan: the ordered register writes that
/// light one LED position (or two sharing a pin pair) and then release the
/// pins again.
#[derive(PartialEq, Eq, Debug)]
pub struct Frame {
    pub writes: Vec<RegWrite>,
}

impl View for Frame {
    type V = Seq<RegWrite>;

    open spec fn view(&self) -> Seq<RegWrite> {
        self.writes@
    }
}

/// The direction registers of the two ports: the only state the
/// charlieplexing invariant is about, since a pin can only drive (and so
/// only short an LED) while its direction bit is set.
pub struct DirPins {
    pub dir0: u16,
    pub dir2: u16,
}

/// Both ports fully non-driving: every matrix pin is an input.
pub open spec fn idle() -> DirPins {
    DirPins { dir0: 0, dir2: 0 }
}

/// The direction state after one register write. Output-data writes do not
/// change which pins drive; a direction write replaces its port's register.
pub open spec fn apply_write(s: DirPins, w: RegWrite) -> DirPins {
    match w.reg {
        RegKind::Output => s,
        RegKind::Direction => match w.port {
            PortId::Port0 => DirPins { dir0: w.mask, ..s },
            PortId::Port2 => DirPins { dir2: w.mask, ..s },
        },
    }
}

/// The direction state after a sequence of register writes.
pub open spec fn apply_writes(s: DirPins, ws: Seq<RegWrite>) -> DirPins
    decreases ws.len(),
{
    if ws.len() == 0 {
        s
    } else {
        apply_writes(apply_write(s, ws[0]), ws.skip(1))
    }
}

/// Number of set bits in a nonnegative integer.
pub open spec fn popcount(x: int) -> int
    decreases x,
{
    if x <= 0 {
        0
    } else {
        x % 2 + popcount(x / 2)
    }
}

/// How many pins across both ports are configured as outputs.
pub open spec fn driven_pins(s: DirPins) -> int {
    popcount(s.dir0 as int) + popcount(s.dir2 as int)
}

/// After every single write of the sequence, starting from `s`, at most two
/// pins — one LED's pin pair — are configured as outputs.
pub open spec fn writes_stay_safe(s: DirPins, ws: Seq<RegWrite>) -> bool
    decreases ws.len(),
{
    ws.len() == 0 || {
        let s2 = apply_write(s, ws[0]);
        driven_pins(s2) <= 2 && writes_stay_safe(s2, ws.skip(1))
    }
}

/// A frame is safe when, replayed with all pins initially non-driving, it
/// never has more than one pin pair driving and it returns every pin to
/// non-driving before the next frame.
pub open spec fn frame_safe(ws: Seq<RegWrite>) -> bool {
    writes_stay_safe(idle(), ws) && apply_writes(idle(), ws) == idle()
}

/// Grid cells 15 and 16: port 0 pins 12 and 3 drive in one polarity, then
/// the other, then both pins are released.
pub open spec fn frame_15_16() -> Seq<RegWrite> {
    seq![
        RegWrite { port: PortId::Port0, reg: RegKind::Output, mask: 0x1000 },
        RegWrite { port: PortId::Port0, reg: RegKind::Direction, mask: 0x1008 },
        RegWrite { port: PortId::Port0, reg: RegKind::Output, mask: 0x0008 },
        RegWrite { port: PortId::Port0, reg: RegKind::Direction, mask: 0 },
    ]
}

/// Grid cells 17 and 28: port 2 pins 4 and 6, both polarities.
pub open spec fn frame_17_28() -> Seq<RegWrite> {
    seq![
        RegWrite { port: PortId::Port2, reg: RegKind::Output, mask: 0x0010 },
        RegWrite { port: PortId::Port2, reg: RegKind::Direction, mask: 0x0050 },
        RegWrite { port: PortId::Port2, reg: RegKind::Output, mask: 0x0040 },
        RegWrite { port: PortId::Port2, reg: RegKind::Direction, mask: 0 },
    ]
}

/// Grid cells 21 and 22: port 2 pins 4 and 5, both polarities.
pub open spec fn frame_21_22() -> Seq<RegWrite> {
    seq![
        RegWrite { port: PortId::Port2, reg: RegKind::Output, mask: 0x0010 },
        RegWrite { port: PortId::Port2, reg: RegKind::Direction, mask: 0x0030 },
        RegWrite { port: PortId::Port2, reg: RegKind::Output, mask: 0x0020 },
        RegWrite { port: PortId::Port2, reg: RegKind::Direction, mask: 0 },
    ]
}

/// Grid cells 33 and 34: port 0 pins 12 and 15, both polarities.
pub open spec fn frame_33_34() -> Seq<RegWrite> {
    seq![
        RegWrite { port: PortId::Port0, reg: RegKind::Output, mask: 0x1000 },
        RegWrite { port: PortId::Port0, reg: RegKind::Direction, mask: 0x9000 },
        RegWrite { port: PortId::Port0, reg: RegKind::Output, mask: 0x8000 },
        RegWrite { port: PortId::Port0, reg: RegKind::Direction, mask: 0 },
    ]
}

/// The smile-only mouth LED at grid cell 63: port 2 pin 6 drives high
/// against port 0 pin 11.
pub open spec fn frame_63() -> Seq<RegWrite> {
    seq![
        RegWrite { port: PortId::Port2, reg: RegKind::Output, mask: 0x0040 },
        RegWrite { port: PortId::Port0, reg: RegKind::Output, mask: 0 },
        RegWrite { port: PortId::Port2, reg: RegKind::Direction, mask: 0x0040 },
        RegWrite { port: PortId::Port0, reg: RegKind::Direction, mask: 0x0800 },
        RegWrite { port: PortId::Port2, reg: RegKind::Direction, mask: 0 },
        RegWrite { port: PortId::Port0, reg: RegKind::Direction, mask: 0 },
    ]
}

/// The frown-only mouth LED at grid cell 87: port 0 pin 4 drives high
/// against port 2 pin 13.
pub open spec fn frame_87() -> Seq<RegWrite> {
    seq![
        RegWrite { port: PortId::Port0, reg: RegKind::Output, mask: 0x0010 },
        RegWrite { port: PortId::Port2, reg: RegKind::Output, mask: 0 },
        RegWrite { port: PortId::Port0, reg: RegKind::Direction, mask: 0x0010 },
        RegWrite { port: PortId::Port2, reg: RegKind::Direction, mask: 0x2000 },
        RegWrite { port: PortId::Port2, reg: RegKind::Direction, mask: 0 },
        RegWrite { port: PortId::Port0, reg: RegKind::Direction, mask: 0 },
    ]
}

/// The mouth-corner LED at grid cell 76, shared by both expressions: port 2
/// pin 13 drives high against port 0 pin 12.
pub open spec fn frame_76() -> Seq<RegWrite> {
    seq![
        RegWrite { port: PortId::Port2, reg: RegKind::Output, mask: 0x2000 },
        RegWrite { port: PortId::Port0, reg: RegKind::Output, mask: 0 },
        RegWrite { port: PortId::Port2, reg: RegKind::Direction, mask: 0x2000 },
        RegWrite { port: PortId::Port0, reg: RegKind::Direction, mask: 0x1000 },
        RegWrite { port: PortId::Port2, reg: RegKind::Direction, mask: 0 },
        RegWrite { port: PortId::Port0, reg: RegKind::Direction, mask: 0 },
    ]
}

/// Grid cells 77 and 78, shared by both expressions: port 2 pin 13 against
/// port 0 pin 13, lit in one polarity and then the other before both pins
/// are released.
pub open spec fn frame_77_78() -> Seq<RegWrite> {
    seq![
        RegWrite { port: PortId::Port2, reg: RegKind::Output, mask: 0x2000 },
        RegWrite { port: PortId::Port0, reg: RegKind::Output, mask: 0 },
        RegWrite { port: PortId::Port2, reg: RegKind::Direction, mask: 0x2000 },
        RegWrite { port: PortId::Port0, reg: RegKind::Direction, mask: 0x2000 },
        RegWrite { port: PortId::Port2, reg: RegKind::Output, mask: 0 },
        RegWrite { port: PortId::Port0, reg: RegKind::Output, mask: 0x2000 },
        RegWrite { port: PortId::Port2, reg: RegKind::Direction, mask: 0 },
        RegWrite { port: PortId::Port0, reg: RegKind::Direction, mask: 0 },
    ]
}

/// Grid cells 79 and 80, shared by both expressions: port 2 pins 6 and 13,
/// both polarities.
pub open spec fn frame_79_80() -> Seq<RegWrite> {
    seq![
        RegWrite { port: PortId::Port2, reg: RegKind::Output, mask: 0x0040 },
        RegWrite { port: PortId::Port2, reg: RegKind::Direction, mask: 0x2040 },
        RegWrite { port: PortId::Port2, reg: RegKind::Output, mask: 0x2000 },
        RegWrite { port: PortId::Port2, reg: RegKind::Direction, mask: 0 },
    ]
}

/// The mouth-corner LED at grid cell 81, shared by both expressions: port 0
/// pin 3 drives high against port 2 pin 13.
pub open spec fn frame_81() -> Seq<RegWrite> {
    seq![
        RegWrite { port: PortId::Port0, reg: RegKind::Output, mask: 0x0008 },
        RegWrite { port: PortId::Port2, reg: RegKind::Output, mask: 0 },
        RegWrite { port: PortId::Port2, reg: RegKind::Direction, mask: 0x2000 },
        RegWrite { port: PortId::Port0, reg: RegKind::Direction, mask: 0x0008 },
        RegWrite { port: PortId::Port2, reg: RegKind::Direction, mask: 0 },
        RegWrite { port: PortId::Port0, reg: RegKind::Direction, mask: 0 },
    ]
}

/// The smile-only LED at grid cell 70: port 0 pin 11 drives high against
/// port 0 pin 15, one polarity only.
pub open spec fn frame_70() -> Seq<RegWrite> {
    seq![
        RegWrite { port: PortId::Port0, reg: RegKind::Output, mask: 0x0800 },
        RegWrite { port: PortId::Port0, reg: RegKind::Direction, mask: 0x8800 },
        RegWrite { port: PortId::Port0, reg: RegKind::Direction, mask: 0 },
    ]
}

/// The frown-only lower-lip LED at grid cell 94: port 2 pin 12 drives high
/// against port 0 pin 12.
pub open spec fn frame_94() -> Seq<RegWrite> {
    seq![
        RegWrite { port: PortId::Port0, reg: RegKind::Output, mask: 0 },
        RegWrite { port: PortId::Port2, reg: RegKind::Output, mask: 0x1000 },
        RegWrite { port: PortId::Port0, reg: RegKind::Direction, mask: 0x1000 },
        RegWrite { port: PortId::Port2, reg: RegKind::Direction, mask: 0x1000 },
        RegWrite { port: PortId::Port2, reg: RegKind::Direction, mask: 0 },
        RegWrite { port: PortId::Port0, reg: RegKind::Direction, mask: 0 },
    ]
}

/// The ordered scan cycle for a mood: the frames shared by both expressions
/// (the eyes and the mouth corners) with the two mouth-curve frames that
/// distinguish the smile from the frown. Frame order and every mask follow
/// the board's LED grid wiring.
pub open spec fn cycle_spec(m: Mood) -> Seq<Seq<RegWrite>> {
    seq![
        frame_15_16(),
        frame_17_28(),
        frame_21_22(),
        frame_33_34(),
        if m is Happy {
            frame_63()
        } else {
            frame_87()
        },
        frame_76(),
        frame_77_78(),
        frame_79_80(),
        frame_81(),
        if m is Happy {
            frame_70()
        } else {
            frame_94()
        },
    ]
}

/// The writes that precede every replay: both output-data registers are
/// cleared so no stale level is driven when a direction bit is first set.
pub open spec fn clear_writes() -> Seq<RegWrite> {
    seq![
        RegWrite { port: PortId::Port0, reg: RegKind::Output, mask: 0 },
        RegWrite { port: PortId::Port2, reg: RegKind::Output, mask: 0 },
    ]
}

/// A sequence of frames flattened into one write sequence, in order.
pub open spec fn flat(frames: Seq<Seq<RegWrite>>) -> Seq<RegWrite>
    decreases frames.len(),
{
    if frames.len() == 0 {
        Seq::empty()
    } else {
        frames[0] + flat(frames.skip(1))
    }
}

/// One full scan cycle of a mood as a flat write sequence.
pub open spec fn cycle_writes(m: Mood) -> Seq<RegWrite> {
    flat(cycle_spec(m))
}

/// `n` scan cycles of a mood, back to back.
pub open spec fn repeat_cycles(m: Mood, n: nat) -> Seq<RegWrite>
    decreases n,
{
    if n == 0 {
        Seq::empty()
    } else {
        cycle_writes(m) + repeat_cycles(m, (n - 1) as nat)
    }
}

/// Everything one render call writes: the output-register clears, then the
/// mood's scan cycle replayed `n` times.
pub open spec fn render_spec(m: Mood, n: nat) -> Seq<RegWrite> {
    clear_writes() + repeat_cycles(m, n)
}

/// Applying a concatenation is applying the parts in order.
proof fn lemma_apply_writes_concat(s: DirPins, a: Seq<RegWrite>, b: Seq<RegWrite>)
    ensures
        apply_writes(s, a + b) == apply_writes(apply_writes(s, a), b),
    decreases a.len(),
{
    if a.len() == 0 {
        assert(a + b =~= b);
    } else {
        assert((a + b).skip(1) =~= a.skip(1) + b);
        lemma_apply_writes_concat(apply_write(s, a[0]), a.skip(1), b);
    }
}

/// A concatenation stays safe when the first part stays safe from `s` and
/// the second stays safe from where the first part leaves the pins.
proof fn lemma_writes_stay_safe_concat(s: DirPins, a: Seq<RegWrite>, b: Seq<RegWrite>)
    requires
        writes_stay_safe(s, a),
        writes_stay_safe(apply_writes(s, a), b),
    ensures
        writes_stay_safe(s, a + b),
    decreases a.len(),
{
    if a.len() == 0 {
        assert(a + b =~= b);
    } else {
        assert((a + b).skip(1) =~= a.skip(1) + b);
        lemma_writes_stay_safe_concat(apply_write(s, a[0]), a.skip(1), b);
    }
}

/// Every frame of either mood's scan cycle is safe on its own: started with
/// all pins non-driving, it never has more than one pin pair configured as
/// output, and it leaves all pins non-driving for the next frame.
#[verifier::rlimit(60)]
pub proof fn lemma_cycle_frames_safe(m: Mood)
    ensures
        forall|i: int| 0 <= i < cycle_spec(m).len() ==> frame_safe(#[trigger] cycle_spec(m)[i]),
{
    reveal_with_fuel(popcount, 18);
    reveal_with_fuel(apply_writes, 10);
    reveal_with_fuel(writes_stay_safe, 10);
    assert(frame_safe(frame_15_16()));
    assert(frame_safe(frame_17_28()));
    assert(frame_safe(frame_21_22()));
    assert(frame_safe(frame_33_34()));
    assert(frame_safe(frame_63()));
    assert(frame_safe(frame_87()));
    assert(frame_safe(frame_76()));
    assert(frame_safe(frame_77_78()));
    assert(frame_safe(frame_79_80()));
    assert(frame_safe(frame_81()));
    assert(frame_safe(frame_70()));
    assert(frame_safe(frame_94()));
}

/// Flattening safe frames gives a safe write sequence that ends with all
/// pins non-driving.
proof fn lemma_flat_safe(frames: Seq<Seq<RegWrite>>)
    requires
        forall|i: int| 0 <= i < frames.len() ==> frame_safe(#[trigger] frames[i]),
    ensures
        writes_stay_safe(idle(), flat(frames)),
        apply_writes(idle(), flat(frames)) == idle(),
    decreases frames.len(),
{
    if frames.len() > 0 {
        assert(frame_safe(frames[0]));
        assert(forall|i: int|
            0 <= i < frames.skip(1).len() ==> frame_safe(#[trigger] frames.skip(1)[i]));
        lemma_flat_safe(frames.skip(1));
        lemma_apply_writes_concat(idle(), frames[0], flat(frames.skip(1)));
        lemma_writes_stay_safe_concat(idle(), frames[0], flat(frames.skip(1)));
    }
}

/// Any number of scan cycles stays safe and ends with all pins non-driving;
/// in particular the pins are non-driving at every cycle boundary.
proof fn lemma_repeat_cycles_safe(m: Mood, n: nat)
    ensures
        writes_stay_safe(idle(), repeat_cycles(m, n)),
        apply_writes(idle(), repeat_cycles(m, n)) == idle(),
    decreases n,
{
    lemma_cycle_frames_safe(m);
    lemma_flat_safe(cycle_spec(m));
    if n > 0 {
        lemma_repeat_cycles_safe(m, (n - 1) as nat);
        lemma_apply_writes_concat(idle(), cycle_writes(m), repeat_cycles(m, (n - 1) as nat));
        lemma_writes_stay_safe_concat(idle(), cycle_writes(m), repeat_cycles(m, (n - 1) as nat));
    }
}

/// The charlieplexing invariant over a whole render: starting with every
/// matrix pin non-driving, after each single register write of the render
/// sequence — the clears followed by any number of scan cycles — at most
/// one pin pair across both ports is configured as output, and the render
/// ends with every pin back in the non-driving state.
pub proof fn lemma_render_safe(m: Mood, n: nat)
    ensures
        writes_stay_safe(idle(), render_spec(m, n)),
        apply_writes(idle(), render_spec(m, n)) == idle(),
{
    reveal_with_fuel(popcount, 2);
    reveal_with_fuel(apply_writes, 4);
    reveal_with_fuel(writes_stay_safe, 4);
    assert(frame_safe(clear_writes()));
    lemma_repeat_cycles_safe(m, n);
    lemma_apply_writes_concat(idle(), clear_writes(), repeat_cycles(m, n));
    lemma_writes_stay_safe_concat(idle(), clear_writes(), repeat_cycles(m, n));
}

/// Flattening one more frame appends its writes.
proof fn lemma_flat_push(frames: Seq<Seq<RegWrite>>, f: Seq<RegWrite>)
    ensures
        flat(frames.push(f)) == flat(frames) + f,
    decreases frames.len(),
{
    if frames.len() == 0 {
        assert(frames.push(f).skip(1) =~= Seq::<Seq<RegWrite>>::empty());
        assert(flat(frames.push(f)) == f + flat(Seq::<Seq<RegWrite>>::empty()));
        assert(f + Seq::<RegWrite>::empty() =~= f);
        assert(flat(frames) + f =~= f);
    } else {
        assert(frames.push(f).skip(1) =~= frames.skip(1).push(f));
        lemma_flat_push(frames.skip(1), f);
        assert(frames[0] + (flat(frames.skip(1)) + f) =~= (frames[0] + flat(frames.skip(1))) + f);
    }
}

/// One more repetition appends one more cycle.
proof fn lemma_repeat_cycles_snoc(m: Mood, n: nat)
    ensures
        repeat_cycles(m, n + 1) == repeat_cycles(m, n) + cycle_writes(m),
    decreases n,
{
    if n == 0 {
        assert(repeat_cycles(m, 1) =~= repeat_cycles(m, 0) + cycle_writes(m));
    } else {
        lemma_repeat_cycles_snoc(m, (n - 1) as nat);
        assert(cycle_writes(m) + (repeat_cycles(m, (n - 1) as nat) + cycle_writes(m)) =~= (
        cycle_writes(m) + repeat_cycles(m, (n - 1) as nat)) + cycle_writes(m));
    }
}

/// Rendering is deterministic: the write sequence is a pure function of the
/// mood and the repeat count, so replays with no intervening mood change
/// produce identical register write sequences.
pub proof fn lemma_render_deterministic(
    first: Seq<RegWrite>,
    second: Seq<RegWrite>,
    m: Mood,
    n: nat,
)
    requires
        first == render_spec(m, n),
        second == render_spec(m, n),
    ensures
        first == second,
{
}

/// How many times one render call replays the scan cycle: long enough to be
/// visually perceptible, short enough that the outer loop still gets back to
/// the clock regularly.
pub const SCAN_REPEATS: usize = 999;

/// Build one register write.
fn wr(port: PortId, reg: RegKind, mask: u16) -> (w: RegWrite)
    ensures
        w == (RegWrite { port, reg, mask }),
{
    RegWrite { port, reg, mask }
}

/// Append all of `src` to `dst`, in order.
fn append_writes(dst: &mut Vec<RegWrite>, src: &Vec<RegWrite>)
    ensures
        final(dst)@ == old(dst)@ + src@,
{
    let ghost dst0 = dst@;
    assert(dst0 + src@.take(0) =~= dst0);
    let mut j: usize = 0;
    while j < src.len()
        invariant
            j <= src@.len(),
            dst@ == dst0 + src@.take(j as int),
        decreases src@.len() - j,
    {
        dst.push(src[j]);
        assert(dst0 + src@.take(j as int) + src@.take(j + 1).skip(j as int) =~= dst0 + src@.take(
        j + 1));
        j = j + 1;
    }
    assert(dst0 + src@.take(src@.len() as int) =~= dst0 + src@);
}

/// Build the frame for grid cells 15 and 16.
fn build_frame_15_16() -> (f: Frame)
    ensures
        f@ == frame_15_16(),
{
    let mut v: Vec<RegWrite> = Vec::new();
    v.push(wr(PortId::Port0, RegKind::Output, 0x1000));
    v.push(wr(PortId::Port0, RegKind::Direction, 0x1008));
    v.push(wr(PortId::Port0, RegKind::Output, 0x0008));
    v.push(wr(PortId::Port0, RegKind::Direction, 0));
    proof {
        assert(v@ =~= frame_15_16());
    }
    Frame { writes: v }
}

/// Build the frame for grid cells 17 and 28.
fn build_frame_17_28() -> (f: Frame)
    ensures
        f@ == frame_17_28(),
{
    let mut v: Vec<RegWrite> = Vec::new();
    v.push(wr(PortId::Port2, RegKind::Output, 0x0010));
    v.push(wr(PortId::Port2, RegKind::Direction, 0x0050));
    v.push(wr(PortId::Port2, RegKind::Output, 0x0040));
    v.push(wr(PortId::Port2, RegKind::Direction, 0));
    proof {
        assert(v@ =~= frame_17_28());
    }
    Frame { writes: v }
}

/// Build the frame for grid cells 21 and 22.
fn build_frame_21_22() -> (f: Frame)
    ensures
        f@ == frame_21_22(),
{
    let mut v: Vec<RegWrite> = Vec::new();
    v.push(wr(PortId::Port2, RegKind::Output, 0x0010));
    v.push(wr(PortId::Port2, RegKind::Direction, 0x0030));
    v.push(wr(PortId::Port2, RegKind::Output, 0x0020));
    v.push(wr(PortId::Port2, RegKind::Direction, 0));
    proof {
        assert(v@ =~= frame_21_22());
    }
    Frame { writes: v }
}

/// Build the frame for grid cells 33 and 34.
fn build_frame_33_34() -> (f: Frame)
    ensures
        f@ == frame_33_34(),
{
    let mut v: Vec<RegWrite> = Vec::new();
    v.push(wr(PortId::Port0, RegKind::Output, 0x1000));
    v.push(wr(PortId::Port0, RegKind::Direction, 0x9000));
    v.push(wr(PortId::Port0, RegKind::Output, 0x8000));
    v.push(wr(PortId::Port0, RegKind::Direction, 0));
    proof {
        assert(v@ =~= frame_33_34());
    }
    Frame { writes: v }
}

/// Build the smile's mouth-curve frame at grid cell 63.
fn build_frame_63() -> (f: Frame)
    ensures
        f@ == frame_63(),
{
    let mut v: Vec<RegWrite> = Vec::new();
    v.push(wr(PortId::Port2, RegKind::Output, 0x0040));
    v.push(wr(PortId::Port0, RegKind::Output, 0));
    v.push(wr(PortId::Port2, RegKind::Direction, 0x0040));
    v.push(wr(PortId::Port0, RegKind::Direction, 0x0800));
    v.push(wr(PortId::Port2, RegKind::Direction, 0));
    v.push(wr(PortId::Port0, RegKind::Direction, 0));
    proof {
        assert(v@ =~= frame_63());
    }
    Frame { writes: v }
}

/// Build the frown's mouth-curve frame at grid cell 87.
fn build_frame_87() -> (f: Frame)
    ensures
        f@ == frame_87(),
{
    let mut v: Vec<RegWrite> = Vec::new();
    v.push(wr(PortId::Port0, RegKind::Output, 0x0010));
    v.push(wr(PortId::Port2, RegKind::Output, 0));
    v.push(wr(PortId::Port0, RegKind::Direction, 0x0010));
    v.push(wr(PortId::Port2, RegKind::Direction, 0x2000));
    v.push(wr(PortId::Port2, RegKind::Direction, 0));
    v.push(wr(PortId::Port0, RegKind::Direction, 0));
    proof {
        assert(v@ =~= frame_87());
    }
    Frame { writes: v }
}

/// Build the frame for grid cell 76.
fn build_frame_76() -> (f: Frame)
    ensures
        f@ == frame_76(),
{
    let mut v: Vec<RegWrite> = Vec::new();
    v.push(wr(PortId::Port2, RegKind::Output, 0x2000));
    v.push(wr(PortId::Port0, RegKind::Output, 0));
    v.push(wr(PortId::Port2, RegKind::Direction, 0x2000));
    v.push(wr(PortId::Port0, RegKind::Direction, 0x1000));
    v.push(wr(PortId::Port2, RegKind::Direction, 0));
    v.push(wr(PortId::Port0, RegKind::Direction, 0));
    proof {
        assert(v@ =~= frame_76());
    }
    Frame { writes: v }
}

/// Build the frame for grid cells 77 and 78.
fn build_frame_77_78() -> (f: Frame)
    ensures
        f@ == frame_77_78(),
{
    let mut v: Vec<RegWrite> = Vec::new();
    v.push(wr(PortId::Port2, RegKind::Output, 0x2000));
    v.push(wr(PortId::Port0, RegKind::Output, 0));
    v.push(wr(PortId::Port2, RegKind::Direction, 0x2000));
    v.push(wr(PortId::Port0, RegKind::Direction, 0x2000));
    v.push(wr(PortId::Port2, RegKind::Output, 0));
    v.push(wr(PortId::Port0, RegKind::Output, 0x2000));
    v.push(wr(PortId::Port2, RegKind::Direction, 0));
    v.push(wr(PortId::Port0, RegKind::Direction, 0));
    proof {
        assert(v@ =~= frame_77_78());
    }
    Frame { writes: v }
}

/// Build the frame for grid cells 79 and 80.
fn build_frame_79_80() -> (f: Frame)
    ensures
        f@ == frame_79_80(),
{
    let mut v: Vec<RegWrite> = Vec::new();
    v.push(wr(PortId::Port2, RegKind::Output, 0x0040));
    v.push(wr(PortId::Port2, RegKind::Direction, 0x2040));
    v.push(wr(PortId::Port2, RegKind::Output, 0x2000));
    v.push(wr(PortId::Port2, RegKind::Direction, 0));
    proof {
        assert(v@ =~= frame_79_80());
    }
    Frame { writes: v }
}

/// Build the frame for grid cell 81.
fn build_frame_81() -> (f: Frame)
    ensures
        f@ == frame_81(),
{
    let mut v: Vec<RegWrite> = Vec::new();
    v.push(wr(PortId::Port0, RegKind::Output, 0x0008));
    v.push(wr(PortId::Port2, RegKind::Output, 0));
    v.push(wr(PortId::Port2, RegKind::Direction, 0x2000));
    v.push(wr(PortId::Port0, RegKind::Direction, 0x0008));
    v.push(wr(PortId::Port2, RegKind::Direction, 0));
    v.push(wr(PortId::Port0, RegKind::Direction, 0));
    proof {
        assert(v@ =~= frame_81());
    }
    Frame { writes: v }
}

/// Build the smile-only frame at grid cell 70.
fn build_frame_70() -> (f: Frame)
    ensures
        f@ == frame_70(),
{
    let mut v: Vec<RegWrite> = Vec::new();
    v.push(wr(PortId::Port0, RegKind::Output, 0x0800));
    v.push(wr(PortId::Port0, RegKind::Direction, 0x8800));
    v.push(wr(PortId::Port0, RegKind::Direction, 0));
    proof {
        assert(v@ =~= frame_70());
    }
    Frame { writes: v }
}

/// Build the frown-only frame at grid cell 94.
fn build_frame_94() -> (f: Frame)
    ensures
        f@ == frame_94(),
{
    let mut v: Vec<RegWrite> = Vec::new();
    v.push(wr(PortId::Port0, RegKind::Output, 0));
    v.push(wr(PortId::Port2, RegKind::Output, 0x1000));
    v.push(wr(PortId::Port0, RegKind::Direction, 0x1000));
    v.push(wr(PortId::Port2, RegKind::Direction, 0x1000));
    v.push(wr(PortId::Port2, RegKind::Direction, 0));
    v.push(wr(PortId::Port0, RegKind::Direction, 0));
    proof {
        assert(v@ =~= frame_94());
    }
    Frame { writes: v }
}

/// The scan table for a mood: the ten frames of one cycle, in replay order.
pub fn scan_cycle(mood: Mood) -> (frames: Vec<Frame>)
    ensures
        frames@.len() == cycle_spec(mood).len(),
        forall|i: int| 0 <= i < frames@.len() ==> (#[trigger] frames@[i])@ == cycle_spec(mood)[i],
{
    let mut frames: Vec<Frame> = Vec::new();
    frames.push(build_frame_15_16());
    frames.push(build_frame_17_28());
    frames.push(build_frame_21_22());
    frames.push(build_frame_33_34());
    frames.push(
        match mood {
            Mood::Happy => build_frame_63(),
            Mood::Sad => build_frame_87(),
        },
    );
    frames.push(build_frame_76());
    frames.push(build_frame_77_78());
    frames.push(build_frame_79_80());
    frames.push(build_frame_81());
    frames.push(
        match mood {
            Mood::Happy => build_frame_70(),
            Mood::Sad => build_frame_94(),
        },
    );
    frames
}

/// One full scan cycle of a mood, flattened into its write sequence.
pub fn cycle_writes_vec(mood: Mood) -> (v: Vec<RegWrite>)
    ensures
        v@ == cycle_writes(mood),
{
    let frames = scan_cycle(mood);
    let mut v: Vec<RegWrite> = Vec::new();
    assert(v@ =~= flat(cycle_spec(mood).take(0)));
    let mut i: usize = 0;
    while i < frames.len()
        invariant
            i <= frames@.len(),
            frames@.len() == cycle_spec(mood).len(),
            forall|k: int|
                0 <= k < frames@.len() ==> (#[trigger] frames@[k])@ == cycle_spec(mood)[k],
            v@ == flat(cycle_spec(mood).take(i as int)),
        decreases frames@.len() - i,
    {
        append_writes(&mut v, &frames[i].writes);
        proof {
            assert(cycle_spec(mood).take(i + 1) =~= cycle_spec(mood).take(i as int).push(
            cycle_spec(mood)[i as int]));
            lemma_flat_push(cycle_spec(mood).take(i as int), cycle_spec(mood)[i as int]);
        }
        i = i + 1;
    }
    proof {
        assert(cycle_spec(mood).take(cycle_spec(mood).len() as int) =~= cycle_spec(mood));
    }
    v
}

/// Everything one render call writes, as data: the output-register clears
/// followed by `repeats` replays of the mood's scan cycle. Applying these
/// writes to the two ports, in order, is one render.
pub fn render_writes(mood: Mood, repeats: usize) -> (ws: Vec<RegWrite>)
    ensures
        ws@ == render_spec(mood, repeats as nat),
{
    let cycle = cycle_writes_vec(mood);
    let mut ws: Vec<RegWrite> = Vec::new();
    ws.push(wr(PortId::Port0, RegKind::Output, 0));
    ws.push(wr(PortId::Port2, RegKind::Output, 0));
    assert(ws@ =~= clear_writes() + repeat_cycles(mood, 0));
    let mut r: usize = 0;
    while r < repeats
        invariant
            r <= repeats,
            cycle@ == cycle_writes(mood),
            ws@ == clear_writes() + repeat_cycles(mood, r as nat),
        decreases repeats - r,
    {
        append_writes(&mut ws, &cycle);
        proof {
            lemma_repeat_cycles_snoc(mood, r as nat);
            assert(clear_writes() + repeat_cycles(mood, r as nat) + cycle_writes(mood) =~= clear_writes()
                + repeat_cycles(mood, (r + 1) as nat));
        }
        r = r + 1;
    }
    ws
}

} // verus!
