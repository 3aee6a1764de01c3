use cap_recording::encoder::thumbnail_args;
use cap_recording::error::RecordingError;
use cap_recording::video::duration_is_defined;
use cap_recording::layout::{
    camera_path, child, contains_path, display_path, is_session_dir, meta_path, output_path,
    output_temp_path, recordings_root, screenshots_dir, session_dir, session_dir_name,
    scan_session_dirs, thumbnail_path,
};

#[test]
fn child_joins_with_one_separator() {
    assert_eq!(child("/data", "recordings"), "/data/recordings");
    assert_eq!(child("", "x"), "/x");
    assert_eq!(child("a/", "b"), "a//b");
}

#[test]
fn recordings_root_lies_under_the_data_directory() {
    assert_eq!(recordings_root("/home/u/.local/share/cap"), "/home/u/.local/share/cap/recordings");
}

#[test]
fn session_directory_is_named_after_the_identifier() {
    assert_eq!(session_dir_name("abc"), "abc.cap");
    assert_eq!(session_dir("/data/recordings", "abc"), "/data/recordings/abc.cap");
}

#[test]
fn session_files_follow_the_layout() {
    let dir = "/data/recordings/abc.cap";
    assert_eq!(display_path(dir), "/data/recordings/abc.cap/content/display.mp4");
    assert_eq!(camera_path(dir), "/data/recordings/abc.cap/content/camera.mp4");
    assert_eq!(screenshots_dir(dir), "/data/recordings/abc.cap/screenshots");
    assert_eq!(thumbnail_path(dir), "/data/recordings/abc.cap/screenshots/display.jpg");
    assert_eq!(meta_path(dir), "/data/recordings/abc.cap/recording-meta.json");
    assert_eq!(output_path(dir), "/data/recordings/abc.cap/output/result.mp4");
    assert_eq!(output_temp_path(dir), "/data/recordings/abc.cap/output/result.partial.mp4");
}

#[test]
fn session_directories_end_in_cap() {
    assert!(is_session_dir("/data/recordings/abc.cap"));
    assert!(is_session_dir("a.cap"));
    assert!(is_session_dir("a..cap"));
    assert!(is_session_dir("..cap"));
    assert!(is_session_dir("/r/é.cap"));
}

#[test]
fn other_entries_are_not_session_directories() {
    assert!(!is_session_dir(""));
    assert!(!is_session_dir(".cap"));
    assert!(!is_session_dir("/data/recordings/.cap"));
    assert!(!is_session_dir("/data/recordings/abc.mp4"));
    assert!(!is_session_dir("/data/recordings/abc.CAP"));
    assert!(!is_session_dir("/data/recordings/abc.cap/"));
    assert!(!is_session_dir("/data/recordings/abccap"));
    assert!(!is_session_dir("cap"));
}

#[test]
fn allocated_directory_is_recognised() {
    let dir = session_dir("/r", "0f8fad5b-d9cb-469f-a165-70867728950e");
    assert!(is_session_dir(&dir));
}

#[test]
fn scan_keeps_finished_session_directories_in_order() {
    let entries = vec![
        ("/r/b.cap".to_string(), true),
        ("/r/notes.txt".to_string(), true),
        ("/r/u.cap".to_string(), false),
        ("/r/a.cap".to_string(), true),
        ("/r/.cap".to_string(), true),
        ("/r/b.cap".to_string(), true),
    ];
    assert_eq!(
        scan_session_dirs(&entries, true),
        vec!["/r/b.cap".to_string(), "/r/a.cap".to_string()]
    );
    assert_eq!(scan_session_dirs(&entries, false), vec!["/r/u.cap".to_string()]);
    assert_eq!(scan_session_dirs(&Vec::new(), true), Vec::<String>::new());
}

#[test]
fn scan_tells_a_path_found_both_ways_in_both_lists() {
    let entries = vec![("/r/a.cap".to_string(), false), ("/r/a.cap".to_string(), true)];
    assert_eq!(scan_session_dirs(&entries, true), vec!["/r/a.cap".to_string()]);
    assert_eq!(scan_session_dirs(&entries, false), vec!["/r/a.cap".to_string()]);
}

#[test]
fn contains_path_compares_whole_paths() {
    let paths = vec!["/r/a.cap".to_string(), "/r/b.cap".to_string()];
    assert!(contains_path(&paths, &"/r/b.cap".to_string()));
    assert!(!contains_path(&paths, &"/r/b.ca".to_string()));
    assert!(!contains_path(&Vec::new(), &"/r/a.cap".to_string()));
}

#[test]
fn thumbnail_is_the_first_frame_unscaled() {
    let args = thumbnail_args("/r/a.cap/content/display.mp4", "/r/a.cap/screenshots/display.jpg");
    assert_eq!(
        args,
        vec![
            "-ss",
            "0:00:00",
            "-i",
            "/r/a.cap/content/display.mp4",
            "-frames:v",
            "1",
            "-q:v",
            "2",
            "/r/a.cap/screenshots/display.jpg",
        ]
    );
}

#[test]
fn every_error_has_its_message() {
    assert_eq!(RecordingError::ConfigurationError.message(), "Invalid recording configuration");
    assert_eq!(RecordingError::DeviceUnavailable.message(), "Capture device unavailable");
    assert_eq!(RecordingError::EncoderLaunchFailure.message(), "Encoder failed to start");
    assert_eq!(RecordingError::EncoderRuntimeFailure.message(), "Encoder stopped unexpectedly");
    assert_eq!(RecordingError::IoFailure.message(), "File system operation failed");
    assert_eq!(RecordingError::RenderFailure.message(), "Render failed");
    assert_eq!(RecordingError::AlreadyRecording.message(), "Recording already in progress");
    assert_eq!(RecordingError::NotInProgress.message(), "Recording not in progress");
}

#[test]
fn duration_needs_ticks_and_room() {
    assert!(duration_is_defined(0, 1));
    assert!(duration_is_defined(90000, 90000));
    assert!(!duration_is_defined(90000, 0));
    assert!(!duration_is_defined(0, 0));
    assert!(duration_is_defined(18446744073709551, 1000));
    assert!(!duration_is_defined(18446744073709552, 1000));
    assert!(!duration_is_defined(u64::MAX, u32::MAX));
}
