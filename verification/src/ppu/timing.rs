//! The frame as a closed cycle: what runs of ticks do to the counter of
//! scanlines and dots, to the vertical blank and to the interrupt.

use crate::bits::lemma_with_bits;
use crate::ppu::model::{PpuState, FRAME_SCANLINES, SCANLINE_DOTS, VBLANK_SCANLINE};
use crate::ppu::registers::status::PPUSTATUS;
use vstd::prelude::*;

verus! {

/// Dots in one frame.
pub open spec fn frame_dots() -> int {
    SCANLINE_DOTS as int * FRAME_SCANLINES as int
}

/// The dot of the frame on which the vertical blank starts.
pub open spec fn vblank_dot() -> int {
    SCANLINE_DOTS as int * VBLANK_SCANLINE as int
}

/// The dots of a run of ticks, added up.
pub open spec fn total(ticks: Seq<nat>) -> nat
    decreases ticks.len(),
{
    if ticks.len() == 0 {
        0
    } else {
        ticks[0] + total(ticks.drop_first())
    }
}

/// No tick of the run is longer than a scanline.
pub open spec fn within_scanline(ticks: Seq<nat>) -> bool {
    forall|i: int| 0 <= i < ticks.len() ==> #[trigger] ticks[i] <= SCANLINE_DOTS
}

impl PpuState {
    /// The state after a run of ticks.
    pub open spec fn tick_all(self, ticks: Seq<nat>) -> PpuState
        decreases ticks.len(),
    {
        if ticks.len() == 0 {
            self
        } else {
            self.tick(ticks[0]).0.tick_all(ticks.drop_first())
        }
    }

    /// A tick of `n` dots finds no interrupt pending and leaves one.
    pub open spec fn nmi_raised_by(self, n: nat) -> bool {
        self.nmi_interrupt is None && self.tick(n).0.nmi_interrupt is Some
    }

    /// How many ticks of the run find no interrupt pending and leave one.
    pub open spec fn nmi_raises(self, ticks: Seq<nat>) -> nat
        decreases ticks.len(),
    {
        if ticks.len() == 0 {
            0
        } else {
            (if self.nmi_raised_by(ticks[0]) {
                1nat
            } else {
                0nat
            }) + self.tick(ticks[0]).0.nmi_raises(ticks.drop_first())
        }
    }

    /// Neither the vertical blank nor the interrupt is on.
    pub open spec fn blank_over(self) -> bool {
        !self.status.in_vblank() && self.nmi_interrupt is None
    }
}

/// A tick of at most a scanline moves the dot of the frame on by its length,
/// starting over at the end of the frame, and keeps the state well-formed.
pub proof fn lemma_tick_moves_dot(s: PpuState, n: nat)
    requires
        s.wf(),
        n <= SCANLINE_DOTS,
    ensures
        s.tick(n).0.wf(),
        0 <= s.dot() < frame_dots(),
        s.tick(n).0.dot() == (if s.dot() + n >= frame_dots() {
            s.dot() + n - frame_dots()
        } else {
            s.dot() + n
        }),
        s.tick(n).1 == (s.dot() + n >= frame_dots()),
        s.tick(n).0.controller == s.controller,
{
}

/// What a tick does to the vertical blank and the interrupt once they are
/// off: they stay off until scanline 241 is entered, and leaving scanline 261
/// switches them off.
proof fn lemma_tick_blank(s: PpuState, n: nat)
    requires
        s.wf(),
        n <= SCANLINE_DOTS,
    ensures
        s.tick(n).1 ==> s.tick(n).0.blank_over(),
        s.blank_over() && s.tick(n).0.scanline < VBLANK_SCANLINE ==> s.tick(n).0.blank_over(),
{
    lemma_with_bits(s.status.bits, PPUSTATUS::VBLANK_STARTED, PPUSTATUS::SPRITE_ZERO_HIT);
    let entered = s.status.with(PPUSTATUS::VBLANK_STARTED, true).with(
        PPUSTATUS::SPRITE_ZERO_HIT,
        false,
    );
    lemma_with_bits(entered.bits, PPUSTATUS::VBLANK_STARTED, PPUSTATUS::SPRITE_ZERO_HIT);
    let left = s.status.with(PPUSTATUS::SPRITE_ZERO_HIT, false);
    lemma_with_bits(left.bits, PPUSTATUS::VBLANK_STARTED, PPUSTATUS::SPRITE_ZERO_HIT);
}

proof fn lemma_travel(s: PpuState, ticks: Seq<nat>, wrapped: bool)
    requires
        s.wf(),
        within_scanline(ticks),
        wrapped && s.scanline < VBLANK_SCANLINE ==> s.blank_over(),
    ensures
        s.tick_all(ticks).wf(),
        s.tick_all(ticks).dot() == (s.dot() + total(ticks)) % frame_dots(),
        (wrapped || s.dot() + total(ticks) >= frame_dots()) && s.tick_all(ticks).scanline
            < VBLANK_SCANLINE ==> s.tick_all(ticks).blank_over(),
    decreases ticks.len(),
{
    if ticks.len() > 0 {
        let n = ticks[0];
        let rest = ticks.drop_first();
        let s1 = s.tick(n).0;
        lemma_tick_moves_dot(s, n);
        lemma_tick_blank(s, n);
        assert forall|i: int| 0 <= i < rest.len() implies #[trigger] rest[i] <= SCANLINE_DOTS by {
            assert(rest[i] == ticks[i + 1]);
        }
        lemma_travel(s1, rest, wrapped || s.dot() + n >= frame_dots());
        let f = frame_dots();
        let d = s.dot() + total(ticks);
        assert((d - f) % f == d % f) by (nonlinear_arith)
            requires
                f > 0,
        ;
    } else {
        lemma_tick_moves_dot(s, 0);
        let f = frame_dots();
        let d = s.dot();
        assert(d % f == d) by (nonlinear_arith)
            requires
                0 <= d < f,
        ;
    }
}

/// A frame is a closed cycle.
///
/// Take a well-formed state outside the vertical blank and a run of ticks,
/// none longer than a scanline, that add up to one frame or to several. The
/// run brings scanline and dot back to where they were, and leaves the
/// vertical-blank bit clear and no interrupt pending. From the start of the
/// frame, where both are zero, it leads back to the start of the frame.
pub proof fn law_frame_is_closed(s: PpuState, ticks: Seq<nat>, frames: nat)
    requires
        s.wf(),
        s.scanline < VBLANK_SCANLINE,
        within_scanline(ticks),
        frames >= 1,
        total(ticks) == frames * frame_dots(),
    ensures
        s.tick_all(ticks).scanline == s.scanline,
        s.tick_all(ticks).cycles == s.cycles,
        !s.tick_all(ticks).status.in_vblank(),
        s.tick_all(ticks).nmi_interrupt is None,
{
    lemma_travel(s, ticks, false);
    let e = s.tick_all(ticks);
    assert((s.dot() + frames * frame_dots()) % frame_dots() == s.dot()) by (nonlinear_arith)
        requires
            0 <= s.dot() < frame_dots(),
            frame_dots() > 0,
    ;
    assert(s.dot() + total(ticks) >= frame_dots()) by (nonlinear_arith)
        requires
            frames >= 1,
            total(ticks) == frames * frame_dots(),
            0 <= s.dot(),
            frame_dots() > 0,
    ;
}

/// A run of `count` ticks of `dots` dots each.
pub open spec fn repeated(dots: nat, count: nat) -> Seq<nat> {
    Seq::new(count, |i: int| dots)
}

proof fn lemma_repeated(dots: nat, count: nat)
    ensures
        total(repeated(dots, count)) == dots * count,
        dots <= SCANLINE_DOTS ==> within_scanline(repeated(dots, count)),
    decreases count,
{
    if count > 0 {
        assert(repeated(dots, count).drop_first() =~= repeated(dots, (count - 1) as nat));
        lemma_repeated(dots, (count - 1) as nat);
        assert(dots * count == dots + dots * (count - 1)) by (nonlinear_arith);
        assert(repeated(dots, count)[0] == dots);
    } else {
        assert(dots * count == 0) by (nonlinear_arith)
            requires
                count == 0,
        ;
    }
}

/// Ticks of three dots, as the processor's cycles give them, close the
/// cycle after three frames.
///
/// A frame has 341 times 262 dots, which three does not divide: no run of
/// such ticks adds up to one frame. As many ticks as a frame has dots add up
/// to three frames, and bring a well-formed state outside the vertical blank
/// back to its scanline and dot, with the vertical-blank bit clear and no
/// interrupt pending.
pub proof fn law_ticks_of_three_close_three_frames(s: PpuState)
    requires
        s.wf(),
        s.scanline < VBLANK_SCANLINE,
    ensures
        s.tick_all(repeated(3, frame_dots() as nat)).scanline == s.scanline,
        s.tick_all(repeated(3, frame_dots() as nat)).cycles == s.cycles,
        !s.tick_all(repeated(3, frame_dots() as nat)).status.in_vblank(),
        s.tick_all(repeated(3, frame_dots() as nat)).nmi_interrupt is None,
{
    lemma_repeated(3, frame_dots() as nat);
    law_frame_is_closed(s, repeated(3, frame_dots() as nat), 3);
}

/// The interrupt rises on entering scanline 241 and nowhere else.
///
/// A tick of at most a scanline finds no interrupt pending and leaves one if
/// and only if none was pending, the control register asks for the interrupt,
/// and the tick leads from scanline 240 into scanline 241. A tick never
/// raises it while the control register does not ask for it.
pub proof fn law_nmi_rises_entering_vblank(s: PpuState, n: nat)
    requires
        s.wf(),
        n <= SCANLINE_DOTS,
    ensures
        s.nmi_raised_by(n) <==> s.nmi_interrupt is None && s.controller.nmi_enabled()
            && s.scanline + 1 == VBLANK_SCANLINE && s.cycles + n >= SCANLINE_DOTS,
        !s.controller.nmi_enabled() && s.tick(n).0.nmi_interrupt is Some
            ==> s.nmi_interrupt is Some,
{
}

proof fn lemma_raises(s: PpuState, ticks: Seq<nat>)
    requires
        s.wf(),
        within_scanline(ticks),
        total(ticks) <= frame_dots(),
    ensures
        s.nmi_raises(ticks) == (if !s.controller.nmi_enabled() {
            0nat
        } else {
            (if s.dot() < vblank_dot() && s.dot() + total(ticks) >= vblank_dot()
                && s.nmi_interrupt is None {
                1nat
            } else {
                0nat
            }) + (if s.dot() >= vblank_dot() && s.dot() + total(ticks) >= vblank_dot()
                + frame_dots() {
                1nat
            } else {
                0nat
            })
        }),
    decreases ticks.len(),
{
    if ticks.len() > 0 {
        let n = ticks[0];
        let rest = ticks.drop_first();
        let s1 = s.tick(n).0;
        lemma_tick_moves_dot(s, n);
        law_nmi_rises_entering_vblank(s, n);
        assert forall|i: int| 0 <= i < rest.len() implies #[trigger] rest[i] <= SCANLINE_DOTS by {
            assert(rest[i] == ticks[i + 1]);
        }
        lemma_raises(s1, rest);
    }
}

/// The interrupt rises exactly once per frame.
///
/// Take a well-formed state with no interrupt pending and a run of ticks,
/// none longer than a scanline, that add up to one frame. Where the control
/// register asks for the interrupt, exactly one tick of the run raises it;
/// where it does not, none does.
pub proof fn law_one_nmi_per_frame(s: PpuState, ticks: Seq<nat>)
    requires
        s.wf(),
        s.nmi_interrupt is None,
        within_scanline(ticks),
        total(ticks) == frame_dots(),
    ensures
        s.nmi_raises(ticks) == (if s.controller.nmi_enabled() {
            1nat
        } else {
            0nat
        }),
{
    lemma_raises(s, ticks);
    lemma_tick_moves_dot(s, 0);
}

} // verus!
