use image::{DynamicImage, GenericImageView, ImageFormat, Rgb, RgbImage, Rgba, RgbaImage};
use std::io::Cursor;
use watermarker::batch::{discovered_files, Batch, Discovery, InputEntry};
use watermarker::format::OutputFormat;
use watermarker::job::{
    ConfigError, JobError, JobEvent, JobResult, JobStep, Outcome, Watermarker,
};
use watermarker::raster::{render, stamp, RenderError};
use watermarker::resize::ResizeSpec;

fn encoded_rgb(w: u32, h: u32, color: [u8; 3], format: ImageFormat) -> Vec<u8> {
    let img = DynamicImage::ImageRgb8(RgbImage::from_pixel(w, h, Rgb(color)));
    let mut out = Cursor::new(Vec::new());
    img.write_to(&mut out, format).unwrap();
    out.into_inner()
}

fn mark(w: u32, h: u32) -> DynamicImage {
    DynamicImage::ImageRgba8(RgbaImage::from_pixel(w, h, Rgba([255, 0, 0, 255])))
}

fn mark_png(w: u32, h: u32) -> Vec<u8> {
    let mut out = Cursor::new(Vec::new());
    mark(w, h).write_to(&mut out, ImageFormat::Png).unwrap();
    out.into_inner()
}

fn no_resize() -> ResizeSpec {
    ResizeSpec { width: None, height: None }
}

fn close(a: u8, b: u8) -> bool {
    (a as i32 - b as i32).abs() <= 24
}

/// Runs one job to its end, with the given bytes standing for the source file
/// and every write succeeding; returns the written bytes, if any.
fn run(w: &Watermarker, job: &watermarker::job::Job, source: Option<Vec<u8>>) -> (JobResult, Option<Vec<u8>>) {
    let event = match source {
        Some(bytes) => JobEvent::SourceRead(bytes),
        None => JobEvent::SourceUnreadable("permission denied".to_string()),
    };
    let mut written = None;
    let mut step = w.advance(job, event);
    loop {
        match step {
            JobStep::Finish(result) => return (result, written),
            JobStep::Write { path, bytes } => {
                assert_eq!(path, job.output);
                written = Some(bytes);
                step = w.advance(job, JobEvent::OutputWritten);
            }
        }
    }
}

#[test]
fn watermark_photo_without_resize() {
    let w = Watermarker::new(&mark_png(10, 10), "./output".to_string(), None, None, None).unwrap();
    let job = w.config.build_job("photo.jpg").unwrap();
    assert_eq!(job.output, "./output/photo.jpg");
    let source = encoded_rgb(100, 100, [0, 0, 255], ImageFormat::Jpeg);
    let (result, written) = run(&w, &job, Some(source));
    assert_eq!(result.source, "photo.jpg");
    assert!(matches!(result.outcome, Outcome::Success { ref output } if output == "./output/photo.jpg"));
    let bytes = written.unwrap();
    assert_eq!(image::guess_format(&bytes).unwrap(), ImageFormat::Jpeg);
    let out = image::load_from_memory(&bytes).unwrap();
    assert_eq!(out.dimensions(), (100, 100));
    let inside = out.get_pixel(4, 4);
    assert!(close(inside[0], 255) && close(inside[2], 0), "{:?}", inside);
    let outside = out.get_pixel(50, 50);
    assert!(close(outside[0], 0) && close(outside[2], 255), "{:?}", outside);
}

#[test]
fn directory_inputs_resized_to_width() {
    let w = Watermarker::new(&mark_png(4, 4), "output".to_string(), Some(50), None, None).unwrap();
    let entries = vec![InputEntry {
        path: "photos".to_string(),
        found: Discovery::Directory(vec!["photos/a.png".to_string(), "photos/b.png".to_string()]),
    }];
    let files = discovered_files(&entries);
    let plan = w.config.plan(&files);
    let sizes = [(100u32, 80u32), (200u32, 100u32)];
    let expected = ["output/a.png", "output/b.png"];
    for (k, planned) in plan.iter().enumerate() {
        let job = planned.as_ref().unwrap();
        assert_eq!(job.output, expected[k]);
        let (sw, sh) = sizes[k];
        let (result, written) = run(&w, job, Some(encoded_rgb(sw, sh, [0, 200, 0], ImageFormat::Png)));
        assert!(matches!(result.outcome, Outcome::Success { .. }));
        let out = image::load_from_memory(&written.unwrap()).unwrap();
        assert_eq!(out.dimensions(), (50, 50 * sh / sw));
    }
}

#[test]
fn explicit_tiff_encodes_tiff() {
    let w = Watermarker::new(&mark_png(3, 3), "output".to_string(), None, None, Some("tiff".to_string()))
        .unwrap();
    let job = w.config.build_job("img.bmp").unwrap();
    assert_eq!(job.output, "output/img.tiff");
    let (result, written) = run(&w, &job, Some(encoded_rgb(20, 10, [9, 9, 9], ImageFormat::Bmp)));
    assert!(matches!(result.outcome, Outcome::Success { .. }));
    let bytes = written.unwrap();
    assert_eq!(image::guess_format(&bytes).unwrap(), ImageFormat::Tiff);
    assert_eq!(image::load_from_memory(&bytes).unwrap().dimensions(), (20, 10));
}

#[test]
fn unreadable_input_among_three() {
    let w = Watermarker::new(&mark_png(2, 2), "out".to_string(), None, None, None).unwrap();
    let files = vec!["a.png".to_string(), "locked.png".to_string(), "c.png".to_string()];
    let plan = w.config.plan(&files);
    let mut batch = Batch::new(plan.len());
    for (k, planned) in plan.iter().enumerate() {
        let job = planned.as_ref().unwrap();
        let source = if k == 1 { None } else { Some(encoded_rgb(8, 8, [1, 2, 3], ImageFormat::Png)) };
        let (result, _) = run(&w, job, source);
        assert!(batch.record(k, result));
    }
    assert!(batch.is_complete());
    assert_eq!(batch.succeeded(), 2);
    assert_eq!(batch.failed(), 1);
    let failed = batch.result(1).unwrap();
    assert_eq!(failed.source, "locked.png");
    assert!(matches!(failed.outcome, Outcome::Failure(JobError::Read(_))));
}

#[test]
fn round_trip_keeps_dimensions() {
    let m = mark(30, 30);
    for (w, h) in [(17u32, 9u32), (64, 64), (5, 40)] {
        let source = encoded_rgb(w, h, [10, 20, 30], ImageFormat::Png);
        let bytes = render(&source, &m, no_resize(), OutputFormat::Png).unwrap();
        assert_eq!(image::load_from_memory(&bytes).unwrap().dimensions(), (w, h));
    }
}

#[test]
fn stamp_puts_mark_at_origin() {
    let base = DynamicImage::ImageRgba8(RgbaImage::from_pixel(20, 20, Rgba([0, 0, 255, 255])));
    let out = stamp(base, &mark(5, 5), no_resize()).unwrap();
    assert_eq!(out.dimensions(), (20, 20));
    assert_eq!(out.get_pixel(0, 0), Rgba([255, 0, 0, 255]));
    assert_eq!(out.get_pixel(4, 4), Rgba([255, 0, 0, 255]));
    assert_eq!(out.get_pixel(5, 5), Rgba([0, 0, 255, 255]));
}

#[test]
fn stamp_resizes_as_planned() {
    let base = DynamicImage::ImageRgba8(RgbaImage::from_pixel(40, 20, Rgba([0, 0, 255, 255])));
    let out = stamp(base, &mark(5, 5), ResizeSpec { width: None, height: Some(10) }).unwrap();
    assert_eq!(out.dimensions(), (20, 10));
    let base = DynamicImage::ImageRgba8(RgbaImage::from_pixel(40, 20, Rgba([0, 0, 255, 255])));
    let out = stamp(base, &mark(5, 5), ResizeSpec { width: Some(7), height: Some(33) }).unwrap();
    assert_eq!(out.dimensions(), (7, 33));
}

#[test]
fn oversized_target_is_refused() {
    let base = DynamicImage::ImageRgba8(RgbaImage::from_pixel(10, 10, Rgba([0, 0, 255, 255])));
    let spec = ResizeSpec { width: Some(u32::MAX), height: Some(u32::MAX) };
    match stamp(base, &mark(2, 2), spec) {
        Err(RenderError::TooLarge { width, height }) => {
            assert_eq!((width, height), (u32::MAX, u32::MAX));
        }
        other => panic!("unexpected {:?}", other.map(|i| i.dimensions())),
    }
}

#[test]
fn undecodable_source_fails_the_job() {
    let w = Watermarker::new(&mark_png(2, 2), "out".to_string(), None, None, None).unwrap();
    let job = w.config.build_job("broken.png").unwrap();
    let (result, written) = run(&w, &job, Some(b"not an image".to_vec()));
    assert!(written.is_none());
    assert_eq!(result.source, "broken.png");
    assert!(matches!(result.outcome, Outcome::Failure(JobError::Render(RenderError::Decode(_)))));
}

#[test]
fn write_failure_is_reported() {
    let w = Watermarker::new(&mark_png(2, 2), "out".to_string(), None, None, None).unwrap();
    let job = w.config.build_job("a.png").unwrap();
    match w.advance(&job, JobEvent::OutputUnwritable("disk full".to_string())) {
        JobStep::Finish(result) => {
            assert_eq!(result.source, "a.png");
            assert!(matches!(result.outcome, Outcome::Failure(JobError::Write(ref m)) if m == "disk full"));
        }
        JobStep::Write { .. } => panic!("expected the job to finish"),
    }
}

#[test]
fn watermark_must_decode() {
    match Watermarker::new(b"garbage", "out".to_string(), None, None, None) {
        Err(ConfigError::WatermarkDecode(_)) => {}
        other => panic!("unexpected {:?}", other.err()),
    }
}

#[test]
fn watermark_with_unsupported_format() {
    match Watermarker::new(&mark_png(2, 2), "out".to_string(), None, None, Some("gif".to_string())) {
        Err(ConfigError::UnsupportedFormat(name)) => assert_eq!(name, "gif"),
        other => panic!("unexpected {:?}", other.err()),
    }
}

#[test]
fn batch_slot_takes_one_result() {
    let mut batch = Batch::new(2);
    assert_eq!(batch.len(), 2);
    assert!(!batch.is_complete());
    let ok = JobResult { source: "a".to_string(), outcome: Outcome::Success { output: "o/a.png".to_string() } };
    assert!(batch.record(0, ok));
    let again = JobResult { source: "a".to_string(), outcome: Outcome::Failure(JobError::InvalidFileName) };
    assert!(!batch.record(0, again));
    let beyond = JobResult { source: "z".to_string(), outcome: Outcome::Failure(JobError::InvalidFileName) };
    assert!(!batch.record(5, beyond));
    assert!(batch.result(1).is_none());
    let failed = JobResult { source: "b".to_string(), outcome: Outcome::Failure(JobError::Read("gone".to_string())) };
    assert!(batch.record(1, failed));
    assert!(batch.is_complete());
    assert!(matches!(batch.result(0).unwrap().outcome, Outcome::Success { .. }));
    assert_eq!((batch.succeeded(), batch.failed()), (1, 1));
}

#[test]
fn render_is_decode_stamp_encode() {
    let m = mark(6, 6);
    let source = encoded_rgb(30, 20, [0, 90, 200], ImageFormat::Png);
    let spec = ResizeSpec { width: Some(15), height: None };
    let bytes = render(&source, &m, spec, OutputFormat::Bmp).unwrap();
    let by_hand = stamp(image::load_from_memory(&source).unwrap(), &m, spec).unwrap();
    let mut expected = Cursor::new(Vec::new());
    by_hand.write_to(&mut expected, ImageFormat::Bmp).unwrap();
    assert_eq!(bytes, expected.into_inner());
    assert_eq!(by_hand.dimensions(), (15, 10));
}
