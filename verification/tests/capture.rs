use mirrorx_core::capture::{
    capture_step, encode_step, primary_monitor_id, select_monitor, CaptureOutcome, EncodeOutcome,
    FrameSendOutcome, LoopControl, Monitor,
};
use mirrorx_core::error::CoreError;

fn monitor(id: &str, primary: bool) -> Monitor {
    Monitor {
        id: id.to_string(),
        name: format!("monitor {}", id),
        refresh_rate: 60,
        width: 1920,
        height: 1080,
        is_primary: primary,
    }
}

#[test]
fn first_primary_monitor_is_chosen() {
    let monitors = vec![monitor("a", false), monitor("b", true), monitor("c", true)];
    assert_eq!(primary_monitor_id(&monitors), Some("b".to_string()));
}

#[test]
fn no_primary_monitor() {
    let monitors = vec![monitor("a", false), monitor("b", false)];
    assert_eq!(primary_monitor_id(&monitors), None);
    assert_eq!(primary_monitor_id(&Vec::new()), None);
}

#[test]
fn selected_monitor_by_id() {
    let monitors = vec![monitor("a", false), monitor("b", true), monitor("c", false)];
    assert_eq!(select_monitor(monitors.clone(), &"c".to_string()), Ok(monitor("c", false)));
    assert_eq!(select_monitor(monitors, &"z".to_string()), Err(CoreError::MonitorNotFound));
}

#[test]
fn primary_monitor_is_selected() {
    let monitors = vec![monitor("a", false), monitor("b", true), monitor("c", false)];
    let id = primary_monitor_id(&monitors).unwrap();
    let selected = select_monitor(monitors, &id).unwrap();
    assert!(selected.is_primary);
    assert_eq!(selected.id, "b");
}

#[test]
fn capture_loop_control() {
    assert_eq!(capture_step(CaptureOutcome::Captured(FrameSendOutcome::Sent)), LoopControl::Continue);
    assert_eq!(capture_step(CaptureOutcome::Captured(FrameSendOutcome::Full)), LoopControl::Continue);
    assert_eq!(
        capture_step(CaptureOutcome::Captured(FrameSendOutcome::Disconnected)),
        LoopControl::Break
    );
    assert_eq!(capture_step(CaptureOutcome::CaptureFailed), LoopControl::Break);
}

#[test]
fn encode_loop_control() {
    assert_eq!(encode_step(EncodeOutcome::Encoded), LoopControl::Continue);
    assert_eq!(encode_step(EncodeOutcome::EncodeFailed), LoopControl::Break);
    assert_eq!(encode_step(EncodeOutcome::ReceiveFailed), LoopControl::Break);
}
