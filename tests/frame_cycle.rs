use egui_glutin_gl::frame::{
    FrameOutput, FrameState, PaintStep, Phase, Warning, MAX_TEXTURE_SIDE,
};
use egui_glutin_gl::texture::{TexId, TextureDelta};

type State = FrameState<&'static str, String, f32>;

fn output(
    shapes: Vec<&'static str>,
    pixels_per_point: f32,
    set: Vec<(TexId, String)>,
    free: Vec<TexId>,
) -> FrameOutput<&'static str, String, f32> {
    FrameOutput { shapes, pixels_per_point, textures_delta: TextureDelta { set, free } }
}

/// A painter that remembers what it was told, in order.
#[derive(Default)]
struct RecordingPainter {
    log: Vec<String>,
    uploaded: Vec<TexId>,
    draws: Vec<(Vec<&'static str>, f32)>,
}

impl RecordingPainter {
    fn apply(&mut self, steps: Vec<PaintStep<&'static str, String, f32>>) {
        for step in steps {
            match step {
                PaintStep::Upload(id, image) => {
                    self.log.push(format!("upload {:?} {}", id, image));
                    if !self.uploaded.contains(&id) {
                        self.uploaded.push(id);
                    }
                }
                PaintStep::Draw(shapes, ppp) => {
                    self.log.push(format!("draw {}", shapes.len()));
                    self.draws.push((shapes, ppp));
                }
                PaintStep::Free(id) => {
                    self.log.push(format!("free {:?}", id));
                    self.uploaded.retain(|u| *u != id);
                }
            }
        }
    }
}

#[test]
fn construction_keeps_scale_factor() {
    let state = State::new(1.5);
    assert_eq!(state.pixels_per_point(), 1.5);
    assert_eq!(state.phase(), Phase::Collecting);
    assert_eq!(state.pending_shape_count(), 0);
    assert!(state.pending_uploads().is_empty());
}

#[test]
fn first_run_without_override_draws_at_scale_factor() {
    let mut state = State::new(1.5);
    let none: Option<u8> = state.run(output(vec!["a"], 1.5, vec![], vec![]), vec![]);
    assert!(none.is_none());
    let mut painter = RecordingPainter::default();
    painter.apply(state.paint());
    assert_eq!(painter.draws, vec![(vec!["a"], 1.5)]);
}

#[test]
fn new_texture_is_uploaded_and_stays() {
    let t1 = TexId::Managed(1);
    let mut state = State::new(1.0);
    state.run::<()>(output(vec!["label"], 1.0, vec![(t1, "font atlas".to_string())], vec![]), vec![()]);
    assert_eq!(state.pending_uploads(), vec![t1]);
    assert_eq!(state.phase(), Phase::ReadyToPaint);

    let mut painter = RecordingPainter::default();
    painter.apply(state.paint());
    assert_eq!(painter.uploaded, vec![t1]);
    assert!(!painter.log.iter().any(|l| l.starts_with("free")));
    assert_eq!(state.phase(), Phase::Collecting);
    assert!(state.pending_uploads().is_empty());
}

#[test]
fn second_run_overwrites_pending_frame() {
    let mut state = State::new(1.0);
    state.run::<()>(output(vec!["a1", "a2"], 1.0, vec![], vec![]), vec![]);
    state.run::<()>(output(vec!["b1"], 2.0, vec![], vec![]), vec![]);
    assert_eq!(state.pixels_per_point(), 2.0);
    assert_eq!(state.pending_shape_count(), 1);

    let mut painter = RecordingPainter::default();
    painter.apply(state.paint());
    assert_eq!(painter.draws, vec![(vec!["b1"], 2.0)]);
}

#[test]
fn texture_deltas_merge_in_order() {
    let (t1, t2, t3, u7) = (TexId::Managed(1), TexId::Managed(2), TexId::Managed(3), TexId::User(7));
    let mut state = State::new(1.0);
    state.run::<()>(output(vec![], 1.0, vec![(t1, "one".into()), (t2, "two".into())], vec![u7]), vec![]);
    state.run::<()>(output(vec![], 1.0, vec![(t3, "three".into()), (t1, "one again".into())], vec![t2]), vec![]);
    assert_eq!(state.pending_uploads(), vec![t1, t2, t3, t1]);
    assert_eq!(state.pending_frees(), vec![u7, t2]);

    let mut painter = RecordingPainter::default();
    painter.apply(state.paint());
    assert_eq!(
        painter.log,
        vec![
            "upload Managed(1) one",
            "upload Managed(2) two",
            "upload Managed(3) three",
            "upload Managed(1) one again",
            "draw 0",
            "free User(7)",
            "free Managed(2)",
        ]
    );
}

#[test]
fn paint_uploads_before_draw_and_frees_after() {
    let mut state = State::new(1.0);
    state.run::<()>(
        output(vec!["s"], 1.0, vec![(TexId::User(4), "img".into())], vec![TexId::User(4)]),
        vec![],
    );
    let steps = state.paint();
    let kinds: Vec<u8> = steps
        .iter()
        .map(|s| match s {
            PaintStep::Upload(..) => 0,
            PaintStep::Draw(..) => 1,
            PaintStep::Free(..) => 2,
        })
        .collect();
    assert_eq!(kinds, vec![0, 1, 2]);
}

#[test]
fn paint_without_run_is_noop() {
    let mut state = State::new(1.25);
    assert!(state.paint().is_empty());
    assert_eq!(state.phase(), Phase::Collecting);
    assert_eq!(state.pixels_per_point(), 1.25);

    state.run::<()>(output(vec!["x"], 1.0, vec![(TexId::Managed(0), "font".into())], vec![]), vec![]);
    assert_eq!(state.paint().len(), 2);
    assert!(state.paint().is_empty());
    assert!(state.paint().is_empty());
}

#[test]
fn multiple_viewports_take_first_and_warn() {
    let mut state = State::new(1.0);
    let processed = state.run(output(vec![], 1.0, vec![], vec![]), vec!["root", "child", "other"]);
    assert_eq!(processed, Some("root"));
    assert_eq!(state.take_warnings(), vec![Warning::MultipleViewports]);
    assert!(state.take_warnings().is_empty());
    assert_eq!(state.paint().len(), 1);
}

#[test]
fn single_viewport_gives_no_warning() {
    let mut state = State::new(1.0);
    let processed = state.run(output(vec![], 1.0, vec![], vec![]), vec![10u32]);
    assert_eq!(processed, Some(10));
    assert!(state.take_warnings().is_empty());
}

#[test]
fn screenshot_request_warns_and_frame_completes() {
    let mut state = State::new(1.0);
    state.run(output(vec!["s"], 1.0, vec![], vec![]), vec![1u8]);
    state.report_screenshot_request(true);
    state.report_screenshot_request(false);
    let mut painter = RecordingPainter::default();
    painter.apply(state.paint());
    assert_eq!(painter.draws, vec![(vec!["s"], 1.0)]);
    assert_eq!(state.take_warnings(), vec![Warning::ScreenshotUnsupported]);
}

#[test]
fn warnings_keep_their_order() {
    let mut state = State::new(1.0);
    state.run(output(vec![], 1.0, vec![], vec![]), vec![1u8, 2u8]);
    state.report_screenshot_request(true);
    assert_eq!(
        state.take_warnings(),
        vec![Warning::MultipleViewports, Warning::ScreenshotUnsupported]
    );
}

#[test]
fn texture_delta_append_and_emptiness() {
    let mut d: TextureDelta<u8> = TextureDelta::new();
    assert!(d.is_empty());
    d.append(TextureDelta { set: vec![(TexId::User(1), 9)], free: vec![] });
    d.append(TextureDelta { set: vec![(TexId::User(2), 8)], free: vec![TexId::User(1)] });
    assert!(!d.is_empty());
    assert_eq!(d.set_ids(), vec![TexId::User(1), TexId::User(2)]);
    assert_eq!(d.free_ids(), vec![TexId::User(1)]);
    assert_eq!(d.set, vec![(TexId::User(1), 9), (TexId::User(2), 8)]);
}

#[test]
fn texture_side_cap() {
    assert_eq!(MAX_TEXTURE_SIDE, 2048);
}
