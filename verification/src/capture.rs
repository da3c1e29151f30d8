//! The decisions of the desktop capture and encode process on the passive
//! device: which monitor to capture, and when the capture loop and the encode
//! loop stop.
use crate::error::{CoreError, CoreResult};
use vstd::prelude::*;

verus! {

/// An active monitor of this device.
#[derive(Debug, Clone, PartialEq, Eq)]
pub struct Monitor {
    pub id: String,
    pub name: String,
    pub refresh_rate: u8,
    pub width: u16,
    pub height: u16,
    pub is_primary: bool,
}

/// Whether `i` is the first primary monitor of `monitors`.
pub open spec fn is_first_primary(monitors: Seq<Monitor>, i: int) -> bool {
    &&& 0 <= i < monitors.len()
    &&& monitors[i].is_primary
    &&& forall|j: int| 0 <= j < i ==> !(#[trigger] monitors[j]).is_primary
}

/// Whether `choice` is the id of the first primary monitor of `monitors`, or
/// nothing when there is no primary monitor.
pub open spec fn primary_choice(monitors: Seq<Monitor>, choice: Option<String>) -> bool {
    match choice {
        Some(id) => exists|i: int| is_first_primary(monitors, i) && id@ == (#[trigger] monitors[i]).id@,
        None => forall|i: int| 0 <= i < monitors.len() ==> !(#[trigger] monitors[i]).is_primary,
    }
}

/// The id of the first primary monitor, which the duplicator is asked for.
pub fn primary_monitor_id(monitors: &Vec<Monitor>) -> (r: Option<String>)
    ensures
        primary_choice(monitors@, r),
{
    let mut i: usize = 0;
    while i < monitors.len()
        invariant
            i <= monitors@.len(),
            forall|j: int| 0 <= j < i ==> !(#[trigger] monitors@[j]).is_primary,
        decreases monitors@.len() - i,
    {
        if monitors[i].is_primary {
            let id = monitors[i].id.clone();
            assert(is_first_primary(monitors@, i as int));
            return Some(id);
        }
        i = i + 1;
    }
    None
}

/// Whether `i` is the first monitor of `monitors` with the id `monitor_id`.
pub open spec fn is_first_with_id(monitors: Seq<Monitor>, monitor_id: Seq<char>, i: int) -> bool {
    &&& 0 <= i < monitors.len()
    &&& monitors[i].id@ == monitor_id
    &&& forall|j: int| 0 <= j < i ==> (#[trigger] monitors[j]).id@ != monitor_id
}

/// Whether `selection` is the first monitor with the id `monitor_id`, or
/// `MonitorNotFound` when there is none.
pub open spec fn monitor_selection(monitors: Seq<Monitor>, monitor_id: Seq<char>, selection: CoreResult<Monitor>) -> bool {
    match selection {
        Ok(m) => exists|i: int| is_first_with_id(monitors, monitor_id, i) && m == #[trigger] monitors[i],
        Err(e) => e == CoreError::MonitorNotFound && forall|i: int|
            0 <= i < monitors.len() ==> (#[trigger] monitors[i]).id@ != monitor_id,
    }
}

/// The monitor that the duplicator settled on (`monitor_id`), taken from the
/// active monitors; it is registered as the monitor of the session.
pub fn select_monitor(mut monitors: Vec<Monitor>, monitor_id: &String) -> (r: CoreResult<Monitor>)
    ensures
        monitor_selection(monitors@, monitor_id@, r),
{
    let ghost all = monitors@;
    let mut i: usize = 0;
    while i < monitors.len() && monitors[i].id != *monitor_id
        invariant
            monitors@ == all,
            i <= all.len(),
            forall|j: int| 0 <= j < i ==> (#[trigger] all[j]).id@ != monitor_id@,
        decreases all.len() - i,
    {
        i = i + 1;
    }
    if i < monitors.len() {
        assert(is_first_with_id(all, monitor_id@, i as int));
        let m = monitors.swap_remove(i);
        assert(m == all[i as int]);
        Ok(m)
    } else {
        Err(CoreError::MonitorNotFound)
    }
}

/// When the monitor ids are distinct and one monitor is primary, the
/// monitor selected for the id of the primary monitor is that monitor.
pub proof fn law_primary_monitor_is_selected(monitors: Seq<Monitor>, primary: Option<String>, selection: CoreResult<Monitor>)
    requires
        forall|i: int, j: int|
            0 <= i < j < monitors.len() ==> (#[trigger] monitors[i]).id@ != (#[trigger] monitors[j]).id@,
        exists|i: int| 0 <= i < monitors.len() && (#[trigger] monitors[i]).is_primary,
        primary_choice(monitors, primary),
        primary matches Some(id) && monitor_selection(monitors, id@, selection),
    ensures
        selection matches Ok(m) && m.is_primary && exists|i: int|
            is_first_primary(monitors, i) && m == #[trigger] monitors[i],
{
    let i = choose|i: int| 0 <= i < monitors.len() && (#[trigger] monitors[i]).is_primary;
    assert(primary is Some);
    let id = primary.unwrap();
    let p = choose|p: int| is_first_primary(monitors, p) && id@ == (#[trigger] monitors[p]).id@;
    assert(monitors[p].id@ == id@);
    match selection {
        Ok(m) => {
            let k = choose|k: int| is_first_with_id(monitors, id@, k) && m == #[trigger] monitors[k];
            if k < p {
                assert(monitors[k].id@ != monitors[p].id@);
            } else if p < k {
                assert(monitors[p].id@ != monitors[k].id@);
            }
            assert(m == monitors[p]);
        },
        Err(_) => {
            assert(monitors[p].id@ != id@);
        },
    }
}

/// What came of handing a captured frame to the encoder's channel without
/// waiting.
#[derive(Debug, Clone, Copy, PartialEq, Eq, Structural)]
pub enum FrameSendOutcome {
    Sent,
    /// The channel is full; the frame is dropped.
    Full,
    /// The encoder is gone.
    Disconnected,
}

/// What came of one capture.
#[derive(Debug, Clone, Copy, PartialEq, Eq, Structural)]
pub enum CaptureOutcome {
    Captured(FrameSendOutcome),
    CaptureFailed,
}

/// What came of one turn of the encode loop.
#[derive(Debug, Clone, Copy, PartialEq, Eq, Structural)]
pub enum EncodeOutcome {
    Encoded,
    EncodeFailed,
    /// The capture side is gone.
    ReceiveFailed,
}

/// Whether a loop goes on.
#[derive(Debug, Clone, Copy, PartialEq, Eq, Structural)]
pub enum LoopControl {
    Continue,
    Break,
}

/// The capture loop stops when a capture fails or the encoder is gone; a
/// frame that finds the channel full is dropped and capturing goes on.
pub fn capture_step(outcome: CaptureOutcome) -> (c: LoopControl)
    ensures
        c == LoopControl::Break <==> (outcome == CaptureOutcome::CaptureFailed || outcome
            == CaptureOutcome::Captured(FrameSendOutcome::Disconnected)),
{
    match outcome {
        CaptureOutcome::Captured(FrameSendOutcome::Disconnected) => LoopControl::Break,
        CaptureOutcome::Captured(_) => LoopControl::Continue,
        CaptureOutcome::CaptureFailed => LoopControl::Break,
    }
}

/// The encode loop goes on while frames arrive and encode.
pub fn encode_step(outcome: EncodeOutcome) -> (c: LoopControl)
    ensures
        c == LoopControl::Break <==> outcome != EncodeOutcome::Encoded,
{
    match outcome {
        EncodeOutcome::Encoded => LoopControl::Continue,
        _ => LoopControl::Break,
    }
}

} // verus!
