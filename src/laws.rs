//! Properties of a frame cycle that relate several calls.

use vstd::prelude::*;

use crate::frame::{
    free_steps, steps_in_order, upload_steps, FrameOutputView, FrameView, PaintStepView, Phase,
    Warning,
};

verus! {

/// The steps of any single `paint` are in order: every upload comes before
/// the draw and every free after it, and there is at most one draw.
pub proof fn lemma_paint_steps_in_order<S, D, P>(s: FrameView<S, D, P>)
    ensures
        steps_in_order(s.paint_steps()),
{
    let steps = s.paint_steps();
    if s.phase == Phase::ReadyToPaint {
        let u = upload_steps::<S, D, P>(s.textures_delta.set);
        let f = free_steps::<S, D, P>(s.textures_delta.free);
        assert forall|i: int| 0 <= i < steps.len() implies #[trigger] steps[i].rank() == (if i
            < u.len() {
            0int
        } else if i == u.len() {
            1int
        } else {
            2int
        }) by {
            if i < u.len() {
                assert(steps[i] == u[i]);
            } else if i > u.len() {
                assert(steps[i] == f[i - u.len() - 1]);
            }
        }
    }
}

/// Two `run`s before a `paint`: the painted frame is the second one alone,
/// its shapes drawn at its pixel density, whatever the first one held.
pub proof fn lemma_frame_overwrite<S, D, P>(
    s: FrameView<S, D, P>,
    a: FrameOutputView<S, D, P>,
    na: nat,
    b: FrameOutputView<S, D, P>,
    nb: nat,
)
    ensures
        ({
            let t = s.after_run(a, na).after_run(b, nb);
            let steps = t.paint_steps();
            &&& t.shapes == b.shapes
            &&& t.pixels_per_point == b.pixels_per_point
            &&& steps.contains(PaintStepView::<S, D, P>::Draw(b.shapes, b.pixels_per_point))
            &&& forall|i: int|
                0 <= i < steps.len() && (#[trigger] steps[i]) is Draw ==> steps[i]
                    == PaintStepView::<S, D, P>::Draw(b.shapes, b.pixels_per_point)
        }),
{
    let t = s.after_run(a, na).after_run(b, nb);
    let steps = t.paint_steps();
    let u = upload_steps::<S, D, P>(t.textures_delta.set);
    let f = free_steps::<S, D, P>(t.textures_delta.free);
    assert(steps[u.len() as int] == PaintStepView::<S, D, P>::Draw(b.shapes, b.pixels_per_point));
    assert forall|i: int| 0 <= i < steps.len() && (#[trigger] steps[i]) is Draw implies steps[i]
        == PaintStepView::<S, D, P>::Draw(b.shapes, b.pixels_per_point) by {
        if i < u.len() {
            assert(steps[i] == u[i]);
        } else if i > u.len() {
            assert(steps[i] == f[i - u.len() - 1]);
        }
    }
}

/// Texture changes of `run`s without a `paint` between them accumulate:
/// uploads and frees are each the ordered concatenation of what every `run`
/// brought, and after a `paint` only what came since is pending.
pub proof fn lemma_texture_merge<S, D, P>(
    s: FrameView<S, D, P>,
    a: FrameOutputView<S, D, P>,
    na: nat,
    b: FrameOutputView<S, D, P>,
    nb: nat,
)
    ensures
        ({
            let t = s.after_run(a, na).after_run(b, nb);
            &&& t.textures_delta.set == s.textures_delta.set + a.textures_delta.set
                + b.textures_delta.set
            &&& t.textures_delta.free == s.textures_delta.free + a.textures_delta.free
                + b.textures_delta.free
            &&& s.wf() && s.phase == Phase::Collecting ==> t.textures_delta
                == a.textures_delta.concat(b.textures_delta)
        }),
{
    if s.wf() && s.phase == Phase::Collecting {
        assert(s.textures_delta.set + a.textures_delta.set =~= a.textures_delta.set);
        assert(s.textures_delta.free + a.textures_delta.free =~= a.textures_delta.free);
    }
}

/// A `paint` with no `run` since construction or since the last `paint`
/// hands the painter nothing and leaves the state as it was.
pub proof fn lemma_paint_without_run_is_noop<S, D, P>(s: FrameView<S, D, P>, p: P)
    ensures
        FrameView::<S, D, P>::initial(p).paint_steps().len() == 0,
        FrameView::<S, D, P>::initial(p).after_paint() == FrameView::<S, D, P>::initial(p),
        s.after_paint().paint_steps().len() == 0,
        s.after_paint().after_paint() == s.after_paint(),
{
}

/// Every state reached by the operations keeps nothing pending while
/// collecting.
pub proof fn lemma_wf_preserved<S, D, P>(
    s: FrameView<S, D, P>,
    out: FrameOutputView<S, D, P>,
    n: nat,
    requested: bool,
    p: P,
)
    requires
        s.wf(),
    ensures
        FrameView::<S, D, P>::initial(p).wf(),
        s.after_run(out, n).wf(),
        s.after_screenshot_request(requested).wf(),
        s.after_paint().wf(),
        s.after_take_warnings().wf(),
{
}

/// A screenshot request is reported as a warning and changes nothing that
/// `paint` hands out.
pub proof fn lemma_screenshot_degrades<S, D, P>(s: FrameView<S, D, P>, requested: bool)
    ensures
        ({
            let t = s.after_screenshot_request(requested);
            &&& t.paint_steps() == s.paint_steps()
            &&& t.after_paint().paint_steps() == s.after_paint().paint_steps()
            &&& requested ==> t.warnings.last() == Warning::ScreenshotUnsupported
            &&& !requested ==> t.warnings == s.warnings
        }),
{
}

/// With two or more viewport outputs a warning is recorded; with fewer none.
pub proof fn lemma_multiple_viewports_warned<S, D, P>(
    s: FrameView<S, D, P>,
    out: FrameOutputView<S, D, P>,
    n: nat,
)
    ensures
        n > 1 ==> s.after_run(out, n).warnings == s.warnings.push(Warning::MultipleViewports),
        n <= 1 ==> s.after_run(out, n).warnings == s.warnings,
{
}

} // verus!
