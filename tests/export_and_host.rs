use shady::export::{
    encode_frame, export_settings, frame_delay, rgba_len, ExportError, FrameRequest,
};
use shady::offscreen::{OffscreenRender, RenderOp, RenderOutcome, RenderPhase, Targets};
use shady::program::{BuildError, CompileFailure};
use shady::source::Mode;
use shady::workbench::{ExportStart, Preview, Progress, Status, Workbench};

fn bench_with_program() -> Workbench<u32> {
    let mut w: Workbench<u32> = Workbench::new("o = vec4(1.0);".to_string());
    assert_eq!(w.install(Ok(7)), None);
    w
}

fn start(w: &mut Workbench<u32>) {
    match w.request_export() {
        ExportStart::Open(settings) => w.begin_export(7, settings),
        other => panic!("export did not open: {:?}", other),
    }
}

fn failure() -> CompileFailure {
    CompileFailure {
        first_mode: Mode::Tweet,
        first: BuildError::Link { log: "one".to_string() },
        second: BuildError::Link { log: "two".to_string() },
    }
}

#[test]
fn export_settings_are_fixed() {
    let s = export_settings();
    assert_eq!((s.width, s.height, s.fps, s.frame_count), (512, 512, 30, 90));
}

#[test]
fn frame_delay_is_truncated_centiseconds() {
    assert_eq!(frame_delay(30), 3);
    assert_eq!(frame_delay(7), 14);
    assert_eq!(frame_delay(1), 100);
    assert_eq!(frame_delay(200), 0);
}

#[test]
fn rgba_len_counts_four_bytes_per_pixel() {
    assert_eq!(rgba_len(512, 512), Some(1_048_576));
    assert_eq!(rgba_len(0, 9), Some(0));
    assert_eq!(rgba_len(65535, 65535), Some(65535usize * 65535 * 4));
}

#[test]
fn encode_frame_reduces_to_a_palette() {
    let req = FrameRequest { index: 0, fps: 30, width: 2, height: 2, delay: 3 };
    let red = [255u8, 0, 0, 255];
    let blue = [0u8, 0, 255, 255];
    let mut rgba = Vec::new();
    for px in [red, blue, blue, red] {
        rgba.extend_from_slice(&px);
    }
    let f = encode_frame(&req, rgba).unwrap();
    assert_eq!((f.width, f.height, f.delay), (2, 2, 3));
    assert_eq!(f.indices.len(), 4);
    assert_eq!(f.palette.len(), 6);
    assert_eq!(f.transparent, None);
    assert_eq!(f.indices[0], f.indices[3]);
    assert_eq!(f.indices[1], f.indices[2]);
    assert_ne!(f.indices[0], f.indices[1]);
    let i = f.indices[0] as usize * 3;
    assert_eq!(&f.palette[i..i + 3], &[255, 0, 0]);
}

#[test]
fn encode_frame_marks_transparent_pixels() {
    let req = FrameRequest { index: 0, fps: 30, width: 2, height: 1, delay: 3 };
    let f = encode_frame(&req, vec![10, 20, 30, 0, 10, 20, 30, 255]).unwrap();
    assert!(f.transparent.is_some());
    assert_eq!(f.transparent, Some(f.indices[0]));
}

#[test]
fn encode_frame_rejects_wrong_pixel_count() {
    let req = FrameRequest { index: 0, fps: 30, width: 2, height: 2, delay: 3 };
    assert!(matches!(encode_frame(&req, vec![0; 15]), Err(ExportError::PixelCount)));
    assert!(matches!(encode_frame(&req, vec![0; 20]), Err(ExportError::PixelCount)));
}

#[test]
fn export_error_messages() {
    let cases = [
        (ExportError::CreateFramebuffer("a".to_string()), "Failed to create framebuffer: a"),
        (ExportError::CreateTexture("b".to_string()), "Failed to create texture: b"),
        (ExportError::FramebufferIncomplete, "Framebuffer is not complete"),
        (ExportError::PixelCount, "Pixel data does not match the frame size"),
        (ExportError::WriteFrame("c".to_string()), "Failed to write GIF frame: c"),
        (ExportError::CreateFile("d".to_string()), "Failed to create GIF file: d"),
        (ExportError::CreateEncoder("e".to_string()), "Failed to create GIF encoder: e"),
        (ExportError::SetRepeat("f".to_string()), "Failed to set GIF repeat: f"),
    ];
    for (e, text) in cases {
        assert_eq!(e.message(), text);
    }
}

#[test]
fn new_bench_needs_a_build() {
    let w: Workbench<u32> = Workbench::new("x".to_string());
    assert!(w.needs_recompile);
    assert_eq!(w.status(), Status::Ready);
    assert_eq!(w.preview(), Preview::Blank);
}

#[test]
fn install_hands_back_the_previous_program() {
    let mut w = bench_with_program();
    assert!(!w.needs_recompile);
    assert_eq!(w.preview(), Preview::Program);
    assert_eq!(w.install(Ok(8)), Some(7));
    assert_eq!(w.program, Some(8));
    assert_eq!(w.install(Err(failure())), Some(8));
    assert_eq!(w.program, None);
    assert_eq!(
        w.last_error.as_deref(),
        Some("Tweet shader mode failed:\nProgram link error:\none\n\nFull GLSL mode also failed:\nProgram link error:\ntwo")
    );
    assert_eq!(w.status(), Status::Error);
    assert_eq!(w.preview(), Preview::Error);
}

#[test]
fn edit_clears_error_and_asks_for_one_build() {
    let mut w = bench_with_program();
    w.report_error("old".to_string());
    w.edit("o = vec4(1.0);".to_string());
    assert!(!w.needs_recompile);
    assert_eq!(w.last_error.as_deref(), Some("old"));
    w.edit("o = vec4(0.5);".to_string());
    assert!(w.needs_recompile && w.dirty);
    assert_eq!(w.last_error, None);
    assert_eq!(w.snippet, "o = vec4(0.5);");
    w.saved();
    assert!(!w.dirty);
    w.load("void main() {}".to_string());
    assert!(w.needs_recompile && !w.dirty);
}

#[test]
fn export_without_program_reports_error() {
    let mut w: Workbench<u32> = Workbench::new("x".to_string());
    assert_eq!(w.request_export(), ExportStart::NoProgram);
    assert_eq!(w.last_error.as_deref(), Some("No compiled shader to export"));
    assert!(w.export.is_none());
}

#[test]
fn starting_while_exporting_changes_nothing() {
    let mut w = bench_with_program();
    start(&mut w);
    assert_eq!(w.status(), Status::Exporting);
    for _ in 0..4 {
        w.frame_written(Ok(()));
    }
    assert_eq!(w.request_export(), ExportStart::AlreadyRunning);
    let job = w.export.as_ref().unwrap();
    assert_eq!((job.frame_index, job.frame_count, job.target), (4, 90, 7));
    assert_eq!(w.last_error, None);
}

#[test]
fn frame_fifteen_samples_half_a_second() {
    let mut w = bench_with_program();
    start(&mut w);
    for _ in 0..15 {
        w.frame_written(Ok(()));
    }
    let req = w.next_frame().unwrap();
    assert_eq!((req.index, req.fps, req.width, req.height, req.delay), (15, 30, 512, 512, 3));
    assert_eq!(req.index as f32 / req.fps as f32, 0.5);
}

#[test]
fn export_writes_exactly_ninety_frames() {
    let mut w = bench_with_program();
    start(&mut w);
    let mut written = 0u32;
    let mut last = None;
    while let Some(req) = w.next_frame() {
        assert_eq!(req.index, written);
        written += 1;
        last = Some(w.frame_written(Ok(())));
    }
    assert_eq!(written, 90);
    assert_eq!(last, Some(Progress::Completed { written: 90 }));
    assert!(w.export.is_none());
    assert_eq!(w.status(), Status::Ready);
}

#[test]
fn export_error_aborts_and_keeps_count() {
    let mut w = bench_with_program();
    start(&mut w);
    for i in 1..=5u32 {
        assert_eq!(w.frame_written(Ok(())), Progress::InProgress { written: i, total: 90 });
    }
    let p = w.frame_written(Err(ExportError::WriteFrame("disk full".to_string())));
    assert_eq!(p, Progress::Aborted { written: 5 });
    assert!(w.export.is_none());
    assert_eq!(w.last_error.as_deref(), Some("Failed to write GIF frame: disk full"));
    assert_eq!(w.program, Some(7));
}

#[test]
fn recompile_during_export_keeps_export_target() {
    let mut w = bench_with_program();
    start(&mut w);
    assert_eq!(w.install(Ok(9)), Some(7));
    assert_eq!(w.export.as_ref().unwrap().target, 7);
}

fn pending(r: &OffscreenRender) -> RenderOp {
    match &r.phase {
        RenderPhase::Run(op) => *op,
        other => panic!("render is not running: {:?}", other),
    }
}

#[test]
fn offscreen_success_deletes_both_targets() {
    let mut r = OffscreenRender::new(512, 512);
    let mut ops = Vec::new();
    while let RenderPhase::Run(op) = &r.phase {
        ops.push(*op);
        r.advance(RenderOutcome::Done);
    }
    let both = Targets { framebuffer: true, texture: true };
    assert_eq!(
        ops,
        vec![
            RenderOp::CreateFramebuffer,
            RenderOp::CreateTexture,
            RenderOp::CheckComplete,
            RenderOp::Draw,
            RenderOp::ReadPixels,
            RenderOp::Release(both),
        ]
    );
    assert!(matches!(r.phase, RenderPhase::Finished(Ok(()))));
}

#[test]
fn offscreen_texture_failure_deletes_framebuffer() {
    let mut r = OffscreenRender::new(4, 4);
    r.advance(RenderOutcome::Done);
    r.advance(RenderOutcome::Failed("no memory".to_string()));
    assert_eq!(pending(&r), RenderOp::Release(Targets { framebuffer: true, texture: false }));
    r.advance(RenderOutcome::Done);
    match &r.phase {
        RenderPhase::Finished(Err(e)) => assert_eq!(e.message(), "Failed to create texture: no memory"),
        other => panic!("unexpected {:?}", other),
    }
}

#[test]
fn offscreen_incomplete_framebuffer_deletes_both() {
    let mut r = OffscreenRender::new(4, 4);
    r.advance(RenderOutcome::Done);
    r.advance(RenderOutcome::Done);
    r.advance(RenderOutcome::Failed(String::new()));
    assert_eq!(pending(&r), RenderOp::Release(Targets { framebuffer: true, texture: true }));
    r.advance(RenderOutcome::Done);
    assert!(matches!(r.phase, RenderPhase::Finished(Err(ExportError::FramebufferIncomplete))));
    assert_eq!(r.held, Targets { framebuffer: false, texture: false });
}

#[test]
fn offscreen_framebuffer_failure_holds_nothing() {
    let mut r = OffscreenRender::new(4, 4);
    r.advance(RenderOutcome::Failed("denied".to_string()));
    assert!(matches!(r.phase, RenderPhase::Finished(Err(ExportError::CreateFramebuffer(_)))));
}
