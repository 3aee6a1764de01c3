use cap_recording::bootstrap::{
    after_install_step, first_install_step, InstallProgress, InstallStep,
};
use cap_recording::occlusion::FakeWindowBounds;
use cap_recording::render::InFlightRenders;

#[test]
fn installed_encoder_ends_the_installation_at_once() {
    assert_eq!(first_install_step(), InstallStep::CheckInstalled);
    assert_eq!(after_install_step(InstallStep::CheckInstalled, true), InstallProgress::Installed);
}

#[test]
fn missing_encoder_is_installed_step_by_step() {
    let mut steps = vec![first_install_step()];
    let mut progress = after_install_step(InstallStep::CheckInstalled, false);
    while let InstallProgress::Run(step) = progress {
        steps.push(step);
        progress = after_install_step(step, true);
    }
    assert_eq!(progress, InstallProgress::Installed);
    assert_eq!(
        steps,
        vec![
            InstallStep::CheckInstalled,
            InstallStep::CheckLatestVersion,
            InstallStep::FindDownloadUrl,
            InstallStep::FindDestination,
            InstallStep::Download,
            InstallStep::Unpack,
            InstallStep::ReadVersion,
        ]
    );
}

#[test]
fn latest_version_is_not_needed() {
    assert_eq!(
        after_install_step(InstallStep::CheckLatestVersion, false),
        InstallProgress::Run(InstallStep::FindDownloadUrl)
    );
    assert_eq!(
        after_install_step(InstallStep::CheckLatestVersion, true),
        InstallProgress::Run(InstallStep::FindDownloadUrl)
    );
}

#[test]
fn every_later_step_must_succeed() {
    for step in [
        InstallStep::FindDownloadUrl,
        InstallStep::FindDestination,
        InstallStep::Download,
        InstallStep::Unpack,
        InstallStep::ReadVersion,
    ] {
        assert_eq!(after_install_step(step, false), InstallProgress::Failed(step));
    }
}

#[test]
fn render_under_way_is_not_started_again() {
    let a = "/r/a.cap/output/result.mp4".to_string();
    let b = "/r/b.cap/output/result.mp4".to_string();
    let mut renders = InFlightRenders::new();
    assert!(!renders.is_rendering(&a));
    assert!(renders.begin(&a));
    assert!(renders.is_rendering(&a));
    assert!(!renders.begin(&a));
    assert!(renders.begin(&b));
    assert!(!renders.begin(&b));
    renders.finish(&a);
    assert!(!renders.is_rendering(&a));
    assert!(renders.is_rendering(&b));
    assert!(renders.begin(&a));
    renders.finish(&b);
    renders.finish(&b);
    assert!(renders.is_rendering(&a));
    assert!(!renders.is_rendering(&b));
}

#[test]
fn finishing_an_unknown_render_changes_nothing() {
    let a = "/r/a.cap/output/result.mp4".to_string();
    let mut renders = InFlightRenders::new();
    renders.finish(&a);
    assert!(!renders.is_rendering(&a));
    assert!(renders.begin(&a));
    renders.finish(&"/r/other.cap/output/result.mp4".to_string());
    assert!(renders.is_rendering(&a));
}

#[test]
fn regions_are_kept_by_window_and_name() {
    let panel = "prev-recordings".to_string();
    let other = "camera".to_string();
    let mut bounds: FakeWindowBounds<(i32, i32, u32, u32)> = FakeWindowBounds::new();
    assert_eq!(bounds.get(&panel, &"list".to_string()), None);
    assert_eq!(bounds.bounds_of(&panel), Vec::new());
    bounds.set(panel.clone(), "list".to_string(), (0, 0, 10, 10));
    bounds.set(panel.clone(), "menu".to_string(), (20, 0, 5, 5));
    bounds.set(other.clone(), "list".to_string(), (1, 1, 1, 1));
    assert_eq!(bounds.get(&panel, &"list".to_string()), Some((0, 0, 10, 10)));
    assert_eq!(bounds.get(&panel, &"menu".to_string()), Some((20, 0, 5, 5)));
    assert_eq!(bounds.get(&other, &"list".to_string()), Some((1, 1, 1, 1)));
    assert_eq!(bounds.get(&other, &"menu".to_string()), None);
    let mut regions = bounds.bounds_of(&panel);
    regions.sort();
    assert_eq!(regions, vec![(0, 0, 10, 10), (20, 0, 5, 5)]);
    assert_eq!(bounds.bounds_of(&other), vec![(1, 1, 1, 1)]);
}

#[test]
fn region_set_again_replaces_the_old_one() {
    let panel = "prev-recordings".to_string();
    let mut bounds: FakeWindowBounds<(i32, i32, u32, u32)> = FakeWindowBounds::new();
    bounds.set(panel.clone(), "list".to_string(), (0, 0, 10, 10));
    bounds.set(panel.clone(), "list".to_string(), (5, 5, 10, 10));
    assert_eq!(bounds.get(&panel, &"list".to_string()), Some((5, 5, 10, 10)));
    assert_eq!(bounds.bounds_of(&panel), vec![(5, 5, 10, 10)]);
}

#[test]
fn removed_region_is_gone_and_the_others_stay() {
    let panel = "prev-recordings".to_string();
    let mut bounds: FakeWindowBounds<(i32, i32, u32, u32)> = FakeWindowBounds::new();
    bounds.set(panel.clone(), "list".to_string(), (0, 0, 10, 10));
    bounds.set(panel.clone(), "menu".to_string(), (20, 0, 5, 5));
    bounds.remove(&panel, &"list".to_string());
    assert_eq!(bounds.get(&panel, &"list".to_string()), None);
    assert_eq!(bounds.bounds_of(&panel), vec![(20, 0, 5, 5)]);
    bounds.remove(&panel, &"list".to_string());
    bounds.remove(&"camera".to_string(), &"menu".to_string());
    assert_eq!(bounds.bounds_of(&panel), vec![(20, 0, 5, 5)]);
    bounds.remove(&panel, &"menu".to_string());
    assert_eq!(bounds.bounds_of(&panel), Vec::new());
}
