//! The picture processor dot by dot: one step, and runs of steps.

use crate::board::{Cart, CartView};
use crate::ppu::{Ppu, PpuRegs, PpuView, LAST_DOT, PRE_RENDER_LINE};
use vstd::prelude::*;

verus! {

impl PpuView {
    /// The picture processor one dot later: the counters move on, the flags
    /// of the dot arrived at are set or cleared, with rendering on the
    /// background pipeline does its work and, on dot 257, the sprites of the
    /// next line are prepared, and the pixel of the dot is drawn.
    #[verifier::opaque]
    pub open spec fn stepped(self, cart: CartView) -> (PpuView, CartView) {
        let arrived = PpuView { regs: self.regs.moved_on().flagged(), ..self };
        let r = arrived.regs;
        if r.on_render_line() && r.rendering() && r.dot >= 1 {
            let piped = arrived.piped(cart);
            let p = PpuView { regs: piped.0, ..arrived };
            if r.dot == 257 {
                let prepared = p.sprites_prepared(piped.1);
                (prepared.0.drawn(), prepared.1)
            } else {
                (p.drawn(), piped.1)
            }
        } else {
            (arrived.drawn(), cart)
        }
    }

    /// The picture processor `n` dots later.
    pub open spec fn run(self, cart: CartView, n: nat) -> (PpuView, CartView)
        decreases n,
    {
        if n == 0 {
            (self, cart)
        } else {
            let next = self.stepped(cart);
            next.0.run(next.1, (n - 1) as nat)
        }
    }

    /// The picture processor once the processor has taken the interrupt
    /// request, if there was one.
    pub open spec fn acknowledged(self) -> PpuView {
        PpuView { regs: PpuRegs { nmi_edge: false, ..self.regs }, ..self }
    }
}

impl Ppu {
    /// Advances the picture processor by one dot.
    pub fn step(&mut self, cart: &mut Cart)
        requires
            old(self)@.wf(),
            old(cart)@.wf(),
        ensures
            final(self)@ == old(self)@.stepped(old(cart)@).0,
            final(cart)@ == old(self)@.stepped(old(cart)@).1,
            final(self)@.wf(),
            final(cart)@.wf(),
    {
        proof {
            reveal(PpuView::stepped);
        }
        self.regs = self.regs.move_on().flag();
        let r = self.regs;
        if (r.scanline < 240 || r.scanline == PRE_RENDER_LINE) && r.is_rendering() && r.dot >= 1 {
            self.pipe(cart);
            if r.dot == 257 {
                self.prepare_sprites(cart);
            }
        }
        self.draw();
    }

    /// Advances the picture processor by `dots` dots. Reports whether it
    /// asks for the non-maskable interrupt, which it then regards as taken,
    /// and whether the board asks for an interrupt.
    pub fn tick(&mut self, cart: &mut Cart, dots: u16) -> (out: (bool, bool))
        requires
            old(self)@.wf(),
            old(cart)@.wf(),
        ensures
            final(self)@ == old(self)@.run(old(cart)@, dots as nat).0.acknowledged(),
            final(cart)@ == old(self)@.run(old(cart)@, dots as nat).1,
            out.0 == old(self)@.run(old(cart)@, dots as nat).0.regs.nmi_edge,
            out.1 == final(cart)@.mapper.irq(),
            final(self)@.regs.dots == old(self)@.regs.dots.wrapping_add(dots as u64),
            final(self)@.wf(),
            final(cart)@.wf(),
    {
        let mut i: u16 = 0;
        while i < dots
            invariant
                i <= dots,
                self@.wf(),
                cart@.wf(),
                self@.run(cart@, (dots - i) as nat) == old(self)@.run(old(cart)@, dots as nat),
                self@.regs.dots == old(self)@.regs.dots.wrapping_add(i as u64),
            decreases dots - i,
        {
            proof {
                lemma_step_counts(self@, cart@);
            }
            self.step(cart);
            i = i + 1;
        }
        let nmi = self.regs.nmi_edge;
        self.regs.nmi_edge = false;
        (nmi, cart.irq_pending())
    }
}

/// What a run of dots brought.
#[derive(Clone, Copy, PartialEq, Eq, Structural, Debug)]
pub struct Caught {
    /// The picture processor raised the non-maskable interrupt.
    pub nmi: bool,
    /// The board holds the interrupt line.
    pub irq: bool,
    /// The run dropped the dot by which an odd frame is shorter.
    pub skipped: bool,
    /// The run finished the last visible scanline.
    pub frame: bool,
}

impl PpuView {
    /// The picture processor once the console has taken note of its
    /// interrupt request and of a dropped dot.
    pub open spec fn settled(self) -> PpuView {
        PpuView { regs: PpuRegs { nmi_edge: false, extra_cycle: false, ..self.regs }, ..self }
    }

    /// What a run of `n` dots brings.
    pub open spec fn caught(self, cart: CartView, n: nat) -> Caught {
        let end = self.run(cart, n);
        Caught {
            nmi: end.0.regs.nmi_edge,
            irq: end.1.mapper.irq(),
            skipped: end.0.regs.extra_cycle,
            frame: self.regs.scanline < 240 && end.0.regs.scanline >= 240,
        }
    }
}

impl Ppu {
    /// Advances the picture processor by `dots` dots and takes note of
    /// what that brought.
    pub fn catch_up(&mut self, cart: &mut Cart, dots: u16) -> (out: Caught)
        requires
            old(self)@.wf(),
            old(cart)@.wf(),
        ensures
            final(self)@ == old(self)@.run(old(cart)@, dots as nat).0.settled(),
            final(cart)@ == old(self)@.run(old(cart)@, dots as nat).1,
            out == old(self)@.caught(old(cart)@, dots as nat),
            final(self)@.regs.dots == old(self)@.regs.dots.wrapping_add(dots as u64),
            final(self)@.wf(),
            final(cart)@.wf(),
    {
        let before = self.regs.scanline;
        let (nmi, irq) = self.tick(cart, dots);
        let skipped = self.regs.extra_cycle;
        self.regs.extra_cycle = false;
        Caught { nmi, irq, skipped, frame: before < 240 && self.regs.scanline >= 240 }
    }
}

/// A step counts one dot.
pub proof fn lemma_step_counts(ppu: PpuView, cart: CartView)
    ensures
        ppu.stepped(cart).0.regs.dots == ppu.regs.dots.wrapping_add(1),
{
    reveal(PpuView::stepped);
    let arrived = PpuView { regs: ppu.regs.moved_on().flagged(), ..ppu };
    assert(arrived.regs.dots == ppu.regs.dots.wrapping_add(1));
    let piped = arrived.piped(cart);
    assert(piped.0.dots == arrived.regs.dots);
    let p = PpuView { regs: piped.0, ..arrived };
    assert(p.sprites_prepared(piped.1).0.regs.dots == arrived.regs.dots);
}

/// A run of `a + b` dots is a run of `a` dots and then one of `b`.
pub proof fn lemma_run_split(ppu: PpuView, cart: CartView, a: nat, b: nat)
    ensures
        ppu.run(cart, a + b) == ppu.run(cart, a).0.run(ppu.run(cart, a).1, b),
    decreases a,
{
    if a > 0 {
        let next = ppu.stepped(cart);
        lemma_run_split(next.0, next.1, (a - 1) as nat, b);
        assert(((a + b) - 1) as nat == (a - 1) as nat + b);
    }
}

/// An odd frame is one dot shorter exactly when rendering is on as the
/// pre-render line ends: at dot 338 of that line the next dot is 340 if the
/// frame is odd and a layer is shown, and 339 otherwise.
pub proof fn lemma_odd_frame_skip(r: PpuRegs)
    requires
        r.wf(),
        r.scanline == PRE_RENDER_LINE,
        r.dot == 338,
    ensures
        r.odd_frame ==> (r.moved_on().dot == 340 <==> r.rendering()),
        r.odd_frame ==> (r.moved_on().extra_cycle && !r.extra_cycle ==> r.rendering()),
        !r.odd_frame ==> r.moved_on().dot == 339,
        r.moved_on().dot == 339 || r.moved_on().dot == 340,
{
}

/// Apart from that one dot, every dot is followed by the next of its line,
/// and the last dot of a line by dot 0 of the next line.
pub proof fn lemma_dots_follow(r: PpuRegs)
    requires
        r.wf(),
        !r.skips_dot(),
    ensures
        r.dot < LAST_DOT ==> r.moved_on().dot == r.dot + 1 && r.moved_on().scanline == r.scanline,
        r.dot == LAST_DOT ==> r.moved_on().dot == 0 && r.moved_on().scanline == (r.scanline + 1)
            % 262,
{
}

/// On line 240 nothing happens but the passing of dots.
pub proof fn lemma_idle_line(ppu: PpuView, cart: CartView, k: nat)
    requires
        ppu.wf(),
        ppu.regs.scanline == 240,
        ppu.regs.dot + k <= LAST_DOT,
    ensures
        ppu.run(cart, k).1 == cart,
        ppu.run(cart, k).0 == (PpuView {
            regs: PpuRegs {
                dot: (ppu.regs.dot + k) as u16,
                dots: ppu.run(cart, k).0.regs.dots,
                ..ppu.regs
            },
            ..ppu
        }),
    decreases k,
{
    reveal(PpuView::stepped);
    if k > 0 {
        let next = ppu.stepped(cart);
        lemma_idle_line(next.0, next.1, (k - 1) as nat);
    }
}

/// From the start of line 240, 342 dots later vertical blank is set, and the
/// interrupt is requested if `$2000` enables it. No dot before the last of
/// them sets either.
pub proof fn lemma_vblank_begins(ppu: PpuView, cart: CartView)
    requires
        ppu.wf(),
        ppu.regs.scanline == 240,
        ppu.regs.dot == 0,
    ensures
        ppu.run(cart, 342).0.regs.vblank,
        ppu.run(cart, 342).0.regs.nmi_edge == (ppu.regs.nmi_edge || ppu.regs.nmi_enabled()),
        ppu.run(cart, 342).0.regs.scanline == 241,
        ppu.run(cart, 342).0.regs.dot == 1,
        ppu.run(cart, 341).0.regs.vblank == ppu.regs.vblank,
        ppu.run(cart, 341).0.regs.nmi_edge == ppu.regs.nmi_edge,
{
    reveal(PpuView::stepped);
    lemma_idle_line(ppu, cart, 340);
    let end = ppu.run(cart, 340);
    lemma_run_split(ppu, cart, 340, 1);
    lemma_run_split(ppu, cart, 340, 2);
    let first = end.0.stepped(end.1);
    assert(end.0.run(end.1, 1) == first) by {
        reveal_with_fuel(PpuView::run, 2);
    }
    let second = first.0.stepped(first.1);
    assert(end.0.run(end.1, 2) == second) by {
        reveal_with_fuel(PpuView::run, 3);
    }
}

} // verus!
