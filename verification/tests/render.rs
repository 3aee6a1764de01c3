use cap_recording::error::RecordingError;
use cap_recording::meta::{Dimensions, RecordingMeta};
use cap_recording::render::{
    finish_render, plan_render, render_fault, Background, Color, Overlay, Position, ProjectConfiguration,
    RenderFault, RenderOptions, RenderOutcome, RenderStep, SessionFiles, WebcamStyle,
};

const DIR: &str = "/data/recordings/abc.cap";
const BLACK: Color = Color { red: 0, green: 0, blue: 0, alpha: 255 };

fn style() -> WebcamStyle {
    WebcamStyle {
        corner_radius: 10,
        shadow_color: Color { red: 0, green: 0, blue: 0, alpha: 128 },
        shadow_blur: 5,
        shadow_offset: Position { x: 2, y: 2 },
    }
}

fn project(width: u32, height: u32) -> ProjectConfiguration {
    ProjectConfiguration {
        webcam_size: Dimensions { width: 320, height: 240 },
        webcam_position: Position { x: 940, y: 460 },
        style: style(),
        output_size: Dimensions { width, height },
        background: Background::Color(BLACK),
    }
}

fn recorded(camera: bool) -> SessionFiles {
    SessionFiles {
        directory_exists: true,
        output_exists: false,
        display_exists: true,
        camera_exists: camera,
    }
}

fn meta(camera: Option<Dimensions>) -> RecordingMeta {
    RecordingMeta { display: Dimensions { width: 1920, height: 1080 }, camera }
}

#[test]
fn output_has_the_size_of_the_project_whatever_the_sources() {
    let step = plan_render(
        DIR,
        recorded(true),
        Some(meta(Some(Dimensions { width: 640, height: 480 }))),
        &project(1280, 720),
    );
    let Ok(RenderStep::Encode(options)) = step else {
        panic!("the encoder has to run");
    };
    assert_eq!(options.output_size, Dimensions { width: 1280, height: 720 });
    assert_eq!(options.screen_size, Dimensions { width: 1920, height: 1080 });
    assert_eq!(
        options,
        RenderOptions {
            output_path: "/data/recordings/abc.cap/output/result.mp4".to_string(),
            temp_path: "/data/recordings/abc.cap/output/result.partial.mp4".to_string(),
            screen_recording_path: "/data/recordings/abc.cap/content/display.mp4".to_string(),
            webcam_recording_path: Some("/data/recordings/abc.cap/content/camera.mp4".to_string()),
            screen_size: Dimensions { width: 1920, height: 1080 },
            output_size: Dimensions { width: 1280, height: 720 },
            background: Background::Color(BLACK),
            overlay: Some(Overlay {
                source_size: Dimensions { width: 640, height: 480 },
                size: Dimensions { width: 320, height: 240 },
                position: Position { x: 940, y: 460 },
                style: style(),
            }),
        }
    );
}

#[test]
fn session_without_camera_renders_without_overlay() {
    let step = plan_render(DIR, recorded(false), Some(meta(None)), &project(1280, 720));
    let Ok(RenderStep::Encode(options)) = step else {
        panic!("the encoder has to run");
    };
    assert_eq!(options.overlay, None);
    assert_eq!(options.webcam_recording_path, None);
    assert_eq!(options.output_size, Dimensions { width: 1280, height: 720 });
    let with_stray_file = plan_render(DIR, recorded(true), Some(meta(None)), &project(1280, 720));
    assert_eq!(with_stray_file, Ok(RenderStep::Encode(options)));
}

#[test]
fn render_without_a_record_fails() {
    assert_eq!(
        plan_render(DIR, recorded(true), None, &project(1280, 720)),
        Err(RecordingError::RenderFailure)
    );
    let cached = SessionFiles { output_exists: true, ..recorded(true) };
    assert_eq!(
        plan_render(DIR, cached, None, &project(1280, 720)),
        Err(RecordingError::RenderFailure)
    );
}

#[test]
fn render_of_a_missing_directory_fails() {
    let files = SessionFiles { directory_exists: false, ..recorded(true) };
    assert_eq!(
        plan_render(DIR, files, Some(meta(None)), &project(1280, 720)),
        Err(RecordingError::RenderFailure)
    );
}

#[test]
fn render_needs_its_source_files() {
    let no_display = SessionFiles { display_exists: false, ..recorded(true) };
    assert_eq!(
        plan_render(DIR, no_display, Some(meta(None)), &project(1280, 720)),
        Err(RecordingError::RenderFailure)
    );
    let camera = Some(Dimensions { width: 640, height: 480 });
    assert_eq!(
        plan_render(DIR, recorded(false), Some(meta(camera)), &project(1280, 720)),
        Err(RecordingError::RenderFailure)
    );
}

#[test]
fn existing_output_is_served_from_the_cache() {
    let cached = SessionFiles {
        directory_exists: true,
        output_exists: true,
        display_exists: false,
        camera_exists: false,
    };
    let camera = Some(Dimensions { width: 640, height: 480 });
    assert_eq!(
        plan_render(DIR, cached, Some(meta(camera)), &project(1280, 720)),
        Ok(RenderStep::Cached("/data/recordings/abc.cap/output/result.mp4".to_string()))
    );
    assert_eq!(
        plan_render(DIR, cached, Some(meta(camera)), &project(640, 360)),
        Ok(RenderStep::Cached("/data/recordings/abc.cap/output/result.mp4".to_string()))
    );
}

#[test]
fn rendering_twice_runs_the_encoder_once() {
    let record = Some(meta(None));
    let first = plan_render(DIR, recorded(false), record, &project(1280, 720)).unwrap();
    let RenderStep::Encode(options) = first else {
        panic!("the encoder has to run");
    };
    let outcome = finish_render(&options, 0, String::new());
    assert_eq!(
        outcome,
        RenderOutcome::Completed {
            from: "/data/recordings/abc.cap/output/result.partial.mp4".to_string(),
            output_path: "/data/recordings/abc.cap/output/result.mp4".to_string(),
        }
    );
    let after = SessionFiles { output_exists: true, ..recorded(false) };
    assert_eq!(
        plan_render(DIR, after, record, &project(1280, 720)),
        Ok(RenderStep::Cached(options.output_path))
    );
}

#[test]
fn failed_encoder_leaves_no_output() {
    let first = plan_render(DIR, recorded(false), Some(meta(None)), &project(1280, 720)).unwrap();
    let RenderStep::Encode(options) = first else {
        panic!("the encoder has to run");
    };
    assert_eq!(
        finish_render(&options, 1, "moov atom not found".to_string()),
        RenderOutcome::Failed {
            discard: "/data/recordings/abc.cap/output/result.partial.mp4".to_string(),
            diagnostic: "moov atom not found".to_string(),
        }
    );
    assert_eq!(
        finish_render(&options, -11, String::new()),
        RenderOutcome::Failed {
            discard: "/data/recordings/abc.cap/output/result.partial.mp4".to_string(),
            diagnostic: String::new(),
        }
    );
}

#[test]
fn every_fault_has_its_cause() {
    let camera = Some(Dimensions { width: 640, height: 480 });
    let gone = SessionFiles { directory_exists: false, ..recorded(true) };
    assert_eq!(render_fault(gone, Some(meta(None))), Some(RenderFault::MissingDirectory));
    assert_eq!(render_fault(gone, None), Some(RenderFault::MissingDirectory));
    assert_eq!(render_fault(recorded(true), None), Some(RenderFault::MissingRecord));
    let no_display = SessionFiles { display_exists: false, ..recorded(true) };
    assert_eq!(render_fault(no_display, Some(meta(camera))), Some(RenderFault::MissingDisplay));
    assert_eq!(render_fault(recorded(false), Some(meta(camera))), Some(RenderFault::MissingCamera));
    assert_eq!(render_fault(recorded(false), Some(meta(None))), None);
    assert_eq!(render_fault(recorded(true), Some(meta(camera))), None);
    let cached = SessionFiles {
        directory_exists: true,
        output_exists: true,
        display_exists: false,
        camera_exists: false,
    };
    assert_eq!(render_fault(cached, Some(meta(camera))), None);
    assert_eq!(render_fault(cached, None), Some(RenderFault::MissingRecord));
}
