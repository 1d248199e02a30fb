use fotema::progress_monitor::{MediaType, ProgressMonitor, ProgressMonitorInput, TaskName};

#[test]
fn init_is_idle() {
    let m = ProgressMonitor::init();
    assert_eq!(m.task_name, TaskName::Idle);
    assert_eq!(m.current_count, 0);
    assert_eq!(m.end_count(), 0);
}

#[test]
fn ten_advances_reach_the_end_then_idle_clears() {
    let mut m = ProgressMonitor::init();
    assert!(m.reduce(ProgressMonitorInput::Start(TaskName::Thumbnail(MediaType::Photo), 10)));
    for _ in 0..10 {
        assert!(m.reduce(ProgressMonitorInput::Advance));
    }
    assert_eq!(m.current_count, 10);
    assert_eq!(m.end_count(), 10);
    let fraction = m.current_count as f64 / m.end_count() as f64;
    assert_eq!(fraction, 1.0);
    assert!(m.reduce(ProgressMonitorInput::Idle));
    assert_eq!(m.current_count, 0);
    assert_eq!(m.end_count(), 0);
    assert_eq!(m.task_name, TaskName::Idle);
}

#[test]
fn every_input_notifies() {
    let mut m = ProgressMonitor::init();
    assert!(m.reduce(ProgressMonitorInput::Start(TaskName::Transcode, 3)));
    assert!(m.reduce(ProgressMonitorInput::Advance));
    assert!(m.reduce(ProgressMonitorInput::Complete));
    assert!(m.reduce(ProgressMonitorInput::Idle));
}

#[test]
fn complete_jumps_to_end() {
    let mut m = ProgressMonitor::init();
    m.reduce(ProgressMonitorInput::Start(TaskName::Thumbnail(MediaType::Video), 7));
    m.reduce(ProgressMonitorInput::Advance);
    m.reduce(ProgressMonitorInput::Advance);
    assert_eq!(m.current_count, 2);
    m.reduce(ProgressMonitorInput::Complete);
    assert_eq!(m.current_count, 7);
    assert_eq!(m.task_name, TaskName::Thumbnail(MediaType::Video));
}

#[test]
fn start_resets_count() {
    let mut m = ProgressMonitor::init();
    m.reduce(ProgressMonitorInput::Start(TaskName::Transcode, 4));
    m.reduce(ProgressMonitorInput::Complete);
    m.reduce(ProgressMonitorInput::Start(TaskName::Thumbnail(MediaType::Photo), 5));
    assert_eq!(m.current_count, 0);
    assert_eq!(m.end_count(), 5);
}
