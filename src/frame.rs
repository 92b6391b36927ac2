//! What a frame keeps between `run` and `paint`, and the painter steps that
//! `paint` hands out.
//!
//! The state is generic over what it only carries: `S` is a clipped draw
//! shape, `D` the image data of a texture upload, `P` the pixel density.

use vstd::prelude::*;

use crate::texture::{TexId, TextureDelta, TextureDeltaView};

verus! {

/// The largest texture side the GUI context may ask the painter for.
pub const MAX_TEXTURE_SIDE: usize = 2048;

/// The two phases of a frame cycle.
#[derive(Clone, Copy, Debug, PartialEq, Eq, Structural)]
pub enum Phase {
    /// Since construction or the last `paint`: nothing is pending.
    Collecting,
    /// Since a `run`: a frame waits to be painted.
    ReadyToPaint,
}

/// A feature the GUI asked for that this backend ignores.
#[derive(Clone, Copy, Debug, PartialEq, Eq, Structural)]
pub enum Warning {
    /// The GUI produced output for more than one viewport; only the first
    /// one was acted upon.
    MultipleViewports,
    /// The GUI asked for a screenshot; none is taken.
    ScreenshotUnsupported,
}

/// What one pass of the GUI context produced for painting.
pub struct FrameOutput<S, D, P> {
    pub shapes: Vec<S>,
    pub pixels_per_point: P,
    pub textures_delta: TextureDelta<D>,
}

pub struct FrameOutputView<S, D, P> {
    pub shapes: Seq<S>,
    pub pixels_per_point: P,
    pub textures_delta: TextureDeltaView<D>,
}

impl<S, D, P> View for FrameOutput<S, D, P> {
    type V = FrameOutputView<S, D, P>;

    open spec fn view(&self) -> FrameOutputView<S, D, P> {
        FrameOutputView {
            shapes: self.shapes@,
            pixels_per_point: self.pixels_per_point,
            textures_delta: self.textures_delta@,
        }
    }
}

/// One instruction for the painter.
pub enum PaintStep<S, D, P> {
    /// Upload or update the texture `id`.
    Upload(TexId, D),
    /// Tessellate the shapes at the pixel density and rasterize them.
    Draw(Vec<S>, P),
    /// Release the texture `id`.
    Free(TexId),
}

pub enum PaintStepView<S, D, P> {
    Upload(TexId, D),
    Draw(Seq<S>, P),
    Free(TexId),
}

impl<S, D, P> View for PaintStep<S, D, P> {
    type V = PaintStepView<S, D, P>;

    open spec fn view(&self) -> PaintStepView<S, D, P> {
        match self {
            PaintStep::Upload(id, d) => PaintStepView::Upload(*id, *d),
            PaintStep::Draw(shapes, p) => PaintStepView::Draw(shapes@, *p),
            PaintStep::Free(id) => PaintStepView::Free(*id),
        }
    }
}

impl<S, D, P> PaintStepView<S, D, P> {
    /// Uploads come first, the draw second, frees last.
    pub open spec fn rank(self) -> int {
        match self {
            PaintStepView::Upload(..) => 0,
            PaintStepView::Draw(..) => 1,
            PaintStepView::Free(..) => 2,
        }
    }
}

pub open spec fn steps_view<S, D, P>(steps: Seq<PaintStep<S, D, P>>) -> Seq<
    PaintStepView<S, D, P>,
> {
    steps.map_values(|s: PaintStep<S, D, P>| s@)
}

pub open spec fn upload_steps<S, D, P>(set: Seq<(TexId, D)>) -> Seq<PaintStepView<S, D, P>> {
    set.map_values(|e: (TexId, D)| PaintStepView::Upload(e.0, e.1))
}

pub open spec fn free_steps<S, D, P>(free: Seq<TexId>) -> Seq<PaintStepView<S, D, P>> {
    free.map_values(|id: TexId| PaintStepView::Free(id))
}

/// No step of a later kind comes before one of an earlier kind, and there is
/// at most one draw.
pub open spec fn steps_in_order<S, D, P>(steps: Seq<PaintStepView<S, D, P>>) -> bool {
    &&& forall|i: int, j: int|
        0 <= i < j < steps.len() ==> #[trigger] steps[i].rank() <= #[trigger] steps[j].rank()
    &&& forall|i: int, j: int|
        #![trigger steps[i], steps[j]]
        0 <= i < j < steps.len() && steps[i] is Draw ==> !(steps[j] is Draw)
}

/// The mathematical content of a [`FrameState`].
pub struct FrameView<S, D, P> {
    pub shapes: Seq<S>,
    pub pixels_per_point: P,
    pub textures_delta: TextureDeltaView<D>,
    pub phase: Phase,
    pub warnings: Seq<Warning>,
}

impl<S, D, P> FrameView<S, D, P> {
    /// While collecting, no shapes and no texture changes are pending.
    pub open spec fn wf(self) -> bool {
        self.phase == Phase::Collecting ==> self.shapes.len() == 0
            && self.textures_delta.is_empty()
    }

    pub open spec fn initial(pixels_per_point: P) -> Self {
        FrameView {
            shapes: Seq::empty(),
            pixels_per_point,
            textures_delta: TextureDeltaView::empty(),
            phase: Phase::Collecting,
            warnings: Seq::empty(),
        }
    }

    /// The state after `run` stored `out`, having seen `viewport_count`
    /// viewport outputs: shapes and density are replaced, texture changes
    /// accumulate.
    pub open spec fn after_run(self, out: FrameOutputView<S, D, P>, viewport_count: nat) -> Self {
        FrameView {
            shapes: out.shapes,
            pixels_per_point: out.pixels_per_point,
            textures_delta: self.textures_delta.concat(out.textures_delta),
            phase: Phase::ReadyToPaint,
            warnings: if viewport_count > 1 {
                self.warnings.push(Warning::MultipleViewports)
            } else {
                self.warnings
            },
        }
    }

    pub open spec fn after_screenshot_request(self, requested: bool) -> Self {
        FrameView {
            warnings: if requested {
                self.warnings.push(Warning::ScreenshotUnsupported)
            } else {
                self.warnings
            },
            ..self
        }
    }

    /// What `paint` hands to the painter: nothing while collecting; else
    /// every upload, then one draw, then every free.
    pub open spec fn paint_steps(self) -> Seq<PaintStepView<S, D, P>> {
        match self.phase {
            Phase::Collecting => Seq::empty(),
            Phase::ReadyToPaint => upload_steps(self.textures_delta.set).push(
                PaintStepView::Draw(self.shapes, self.pixels_per_point),
            ) + free_steps(self.textures_delta.free),
        }
    }

    /// The state after `paint`: what was pending is consumed.
    pub open spec fn after_paint(self) -> Self {
        match self.phase {
            Phase::Collecting => self,
            Phase::ReadyToPaint => FrameView {
                shapes: Seq::empty(),
                textures_delta: TextureDeltaView::empty(),
                phase: Phase::Collecting,
                ..self
            },
        }
    }

    pub open spec fn after_take_warnings(self) -> Self {
        FrameView { warnings: Seq::empty(), ..self }
    }
}

/// The pending frame of a GUI backend.
pub struct FrameState<S, D, P> {
    shapes: Vec<S>,
    pixels_per_point: P,
    textures_delta: TextureDelta<D>,
    phase: Phase,
    warnings: Vec<Warning>,
}

impl<S, D, P> View for FrameState<S, D, P> {
    type V = FrameView<S, D, P>;

    closed spec fn view(&self) -> FrameView<S, D, P> {
        FrameView {
            shapes: self.shapes@,
            pixels_per_point: self.pixels_per_point,
            textures_delta: self.textures_delta@,
            phase: self.phase,
            warnings: self.warnings@,
        }
    }
}

impl<S, D, P: Copy> FrameState<S, D, P> {
    /// A state with nothing pending, drawing at `pixels_per_point` until a
    /// `run` says otherwise.
    pub fn new(pixels_per_point: P) -> (r: Self)
        ensures
            r@ == FrameView::<S, D, P>::initial(pixels_per_point),
    {
        FrameState {
            shapes: Vec::new(),
            pixels_per_point,
            textures_delta: TextureDelta::new(),
            phase: Phase::Collecting,
            warnings: Vec::new(),
        }
    }

    /// Stores the output of a GUI pass and picks the viewport output to act
    /// upon: the first one. More than one is reported as a warning.
    pub fn run<V>(&mut self, output: FrameOutput<S, D, P>, viewports: Vec<V>) -> (processed:
        Option<V>)
        ensures
            final(self)@ == old(self)@.after_run(output@, viewports@.len()),
            processed == (if viewports@.len() > 0 {
                Some(viewports@[0])
            } else {
                None::<V>
            }),
    {
        let FrameOutput { shapes, pixels_per_point, textures_delta } = output;
        let mut viewports = viewports;
        if viewports.len() > 1 {
            self.warnings.push(Warning::MultipleViewports);
        }
        self.shapes = shapes;
        self.pixels_per_point = pixels_per_point;
        self.textures_delta.append(textures_delta);
        self.phase = Phase::ReadyToPaint;
        if viewports.len() > 0 {
            Some(viewports.remove(0))
        } else {
            None
        }
    }

    /// Records whether acting on a viewport's commands asked for a
    /// screenshot, which this backend does not take.
    pub fn report_screenshot_request(&mut self, requested: bool)
        ensures
            final(self)@ == old(self)@.after_screenshot_request(requested),
    {
        if requested {
            self.warnings.push(Warning::ScreenshotUnsupported);
        }
    }

    /// Hands out the warnings recorded so far, oldest first, and forgets them.
    pub fn take_warnings(&mut self) -> (r: Vec<Warning>)
        ensures
            r@ == old(self)@.warnings,
            final(self)@ == old(self)@.after_take_warnings(),
    {
        let mut r: Vec<Warning> = Vec::new();
        std::mem::swap(&mut r, &mut self.warnings);
        r
    }

    /// Consumes the pending frame and returns the painter steps for it:
    /// every pending upload, then the draw of the stored shapes at the
    /// stored density, then every pending free. Without a pending frame
    /// there is nothing to do.
    pub fn paint(&mut self) -> (steps: Vec<PaintStep<S, D, P>>)
        ensures
            steps_view(steps@) == old(self)@.paint_steps(),
            steps@.len() == old(self)@.paint_steps().len(),
            final(self)@ == old(self)@.after_paint(),
            steps_in_order(steps_view(steps@)),
    {
        proof {
            crate::laws::lemma_paint_steps_in_order(self@);
        }
        if self.phase == Phase::Collecting {
            return Vec::new();
        }
        let ghost pending = self@;
        let mut shapes: Vec<S> = Vec::new();
        std::mem::swap(&mut shapes, &mut self.shapes);
        let mut delta: TextureDelta<D> = TextureDelta::new();
        std::mem::swap(&mut delta, &mut self.textures_delta);
        self.phase = Phase::Collecting;
        let TextureDelta { set: mut set, free } = delta;

        let mut steps: Vec<PaintStep<S, D, P>> = Vec::new();
        let ghost set0 = set@;
        let ghost mut done: int = 0;
        while set.len() > 0
            invariant
                0 <= done <= set0.len(),
                set@ == set0.subrange(done, set0.len() as int),
                steps_view(steps@) == upload_steps::<S, D, P>(set0.subrange(0, done)),
            decreases set@.len(),
        {
            let (id, image) = set.remove(0);
            let ghost before = steps@;
            steps.push(PaintStep::Upload(id, image));
            proof {
                assert(set0[done] == (id, image));
                assert(steps_view(steps@) =~= steps_view(before).push(
                    PaintStepView::Upload(id, image),
                ));
                done = done + 1;
                assert(set@ =~= set0.subrange(done, set0.len() as int));
                assert(steps_view(steps@) =~= upload_steps::<S, D, P>(set0.subrange(0, done)));
            }
        }
        proof {
            assert(set0.subrange(0, done) =~= set0);
        }
        steps.push(PaintStep::Draw(shapes, self.pixels_per_point));
        let ghost drawn = steps_view(steps@);
        assert(drawn =~= upload_steps::<S, D, P>(pending.textures_delta.set).push(
            PaintStepView::Draw(pending.shapes, pending.pixels_per_point),
        ));
        let mut i: usize = 0;
        while i < free.len()
            invariant
                i <= free@.len(),
                free@ == pending.textures_delta.free,
                steps_view(steps@) == drawn + free_steps::<S, D, P>(free@.subrange(0, i as int)),
            decreases free@.len() - i,
        {
            let ghost before = steps@;
            steps.push(PaintStep::Free(free[i]));
            assert(steps_view(steps@) =~= steps_view(before).push(
                PaintStepView::Free(free@[i as int]),
            ));
            i = i + 1;
            assert(steps_view(steps@) =~= drawn + free_steps::<S, D, P>(
                free@.subrange(0, i as int),
            ));
        }
        assert(free@.subrange(0, i as int) =~= free@);
        assert(self@ =~= pending.after_paint());
        steps
    }

    /// The pixel density the next draw will use.
    pub fn pixels_per_point(&self) -> (r: P)
        ensures
            r == self@.pixels_per_point,
    {
        self.pixels_per_point
    }

    pub fn phase(&self) -> (r: Phase)
        ensures
            r == self@.phase,
    {
        self.phase
    }

    /// The identifiers of the textures waiting to be uploaded, in order.
    pub fn pending_uploads(&self) -> (r: Vec<TexId>)
        ensures
            r@ == self@.textures_delta.set_ids(),
    {
        self.textures_delta.set_ids()
    }

    /// The identifiers of the textures waiting to be freed, in order.
    pub fn pending_frees(&self) -> (r: Vec<TexId>)
        ensures
            r@ == self@.textures_delta.free,
    {
        self.textures_delta.free_ids()
    }

    /// The number of shapes waiting to be drawn.
    pub fn pending_shape_count(&self) -> (r: usize)
        ensures
            r == self@.shapes.len(),
    {
        self.shapes.len()
    }
}

} // verus!
