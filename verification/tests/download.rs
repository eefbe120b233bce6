use pengmai_shell::desktop::{DialogButtons, Platform, WindowFlag};
use pengmai_shell::download::{
    download_completed, download_finished, download_started, progress_window, Completion, Download,
    PROGRESS_EVENT, REPORT_STEP,
};

#[test]
fn reports_come_every_step() {
    let mut download = Download::new();
    assert!(download.on_chunk(262_143, Some(600_000)).is_none());
    let report = download.on_chunk(1, Some(600_000)).unwrap();
    assert_eq!(report.downloaded, 262_144);
    assert_eq!(report.total, Some(600_000));
    assert_eq!(report.status, "downloading");
    assert_eq!(report.message, None);
    assert!(download.on_chunk(262_143, None).is_none());
    let report = download.on_chunk(1000, None).unwrap();
    assert_eq!(report.downloaded, 525_287);
    assert_eq!(report.total, None);
    assert_eq!(download.received(), 525_287);
}

#[test]
fn a_large_chunk_is_one_report() {
    let mut download = Download::new();
    assert_eq!(download.on_chunk(10_000_000, None).unwrap().downloaded, 10_000_000);
    assert!(download.on_chunk(0, None).is_none());
}

#[test]
fn reports_are_spaced_and_close_behind() {
    let mut download = Download::new();
    let mut received: u64 = 0;
    let mut last: u64 = 0;
    let mut count: u64 = 0;
    for i in 0..2000usize {
        let chunk = (i * 7919) % 16_384;
        received += chunk as u64;
        if let Some(report) = download.on_chunk(chunk, None) {
            assert_eq!(report.downloaded, received);
            assert!(received - last >= REPORT_STEP);
            last = received;
            count += 1;
        }
        assert!(received - last < REPORT_STEP);
        assert_eq!(download.received(), received);
    }
    assert!(count > 0 && count * REPORT_STEP <= received);
}

#[test]
fn status_reports() {
    let start = download_started(true);
    assert_eq!((start.downloaded, start.total, start.status.as_str(), start.message), (0, None, "start", None));
    let end = download_finished();
    assert_eq!((end.downloaded, end.total, end.status.as_str(), end.message), (0, None, "installing", None));
    assert_eq!(PROGRESS_EVENT, "update:progress");
}

#[test]
fn installed_relaunches_except_on_windows() {
    for (platform, expected) in
        [(Platform::Linux, true), (Platform::MacOs, true), (Platform::Windows, false)]
    {
        match download_completed(platform, Ok(())) {
            Completion::Installed { progress, relaunch } => {
                assert_eq!(progress.status, "done");
                assert_eq!(progress.message, None);
                assert_eq!(relaunch, expected);
            }
            Completion::Failed { .. } => panic!("the update was installed"),
        }
    }
}

#[test]
fn failure_is_reported_and_shown() {
    match download_completed(Platform::Windows, Err("timeout".to_string())) {
        Completion::Failed { progress, dialog } => {
            assert_eq!(progress.status, "error");
            assert_eq!(progress.message, Some("下载/安装失败：timeout".to_string()));
            assert_eq!(progress.downloaded, 0);
            assert_eq!(dialog.title, "更新失败");
            assert_eq!(dialog.message, "下载/安装失败：timeout");
            assert!(matches!(dialog.buttons, DialogButtons::Default));
        }
        Completion::Installed { .. } => panic!("the update failed"),
    }
}

#[test]
fn progress_window_properties() {
    let window = progress_window();
    assert_eq!(window.label, "update_progress");
    assert_eq!(window.page, "update-progress.html");
    assert_eq!(window.title, "正在更新");
    assert_eq!((window.width, window.height), (460, 160));
    assert_eq!(window.flags, vec![WindowFlag::Resizable(false), WindowFlag::Center]);
}

fn statuses(window_built: bool, finished: bool, result: Result<(), String>) -> Vec<String> {
    let mut reports = vec![download_started(window_built)];
    let mut download = Download::new();
    for chunk in [200_000, 100_000, 300_000] {
        reports.extend(download.on_chunk(chunk, None));
    }
    if finished {
        reports.push(download_finished());
    }
    reports.push(match download_completed(Platform::Linux, result) {
        Completion::Installed { progress, .. } => progress,
        Completion::Failed { progress, .. } => progress,
    });
    for report in &reports {
        assert_eq!(report.message.is_some(), report.status == "error");
    }
    reports.into_iter().map(|report| report.status).collect()
}

#[test]
fn reports_come_in_order() {
    assert_eq!(
        statuses(true, true, Ok(())),
        vec!["start", "downloading", "downloading", "installing", "done"]
    );
    assert_eq!(
        statuses(true, false, Err("timeout".to_string())),
        vec!["start", "downloading", "downloading", "error"]
    );
}

#[test]
fn missing_window_changes_no_report() {
    assert_eq!(statuses(false, true, Ok(())), statuses(true, true, Ok(())));
}
