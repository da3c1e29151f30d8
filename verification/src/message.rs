//! The messages that two endpoints of a remote-desktop session exchange.
use vstd::prelude::*;

verus! {

/// A video codec that both sides may use.
#[derive(Debug, Clone, Copy, PartialEq, Eq, Structural)]
pub enum VideoCodec {
    H264,
}

/// An audio sample rate.
#[derive(Debug, Clone, Copy, PartialEq, Eq, Structural)]
pub enum AudioSampleRate {
    HZ8000,
    HZ16000,
    HZ24000,
    HZ480000,
}

/// An audio sample format.
#[derive(Debug, Clone, Copy, PartialEq, Eq, Structural)]
pub enum AudioSampleFormat {
    I16,
    U16,
    F32,
}

/// A mouse button.
#[derive(Debug, Clone, Copy, PartialEq, Eq, Structural)]
pub enum MouseKey {
    NoButton,
    Left,
    Right,
    Wheel,
}

/// A mouse event, at a position on the monitor in pixels.
#[derive(Debug, Clone, Copy, PartialEq, Eq, Structural)]
pub enum MouseEvent {
    MouseUp(MouseKey, i32, i32),
    MouseDown(MouseKey, i32, i32),
    MouseMove(MouseKey, i32, i32),
    MouseScrollWheel(i32),
}

/// A keyboard event, by key code.
#[derive(Debug, Clone, Copy, PartialEq, Eq, Structural)]
pub enum KeyboardEvent {
    KeyUp(u32),
    KeyDown(u32),
}

/// An input event forwarded from the active to the passive device.
#[derive(Debug, Clone, Copy, PartialEq, Eq, Structural)]
pub enum InputEvent {
    Mouse(MouseEvent),
    Keyboard(KeyboardEvent),
}

/// An input event on its way to the passive device.
#[derive(Debug, Clone, PartialEq, Eq)]
pub struct EndPointInput {
    pub event: InputEvent,
}

/// Tells the passive device that negotiation is over and at which frame rate
/// to capture.
#[derive(Debug, Clone, PartialEq, Eq)]
pub struct EndPointNegotiateFinishedRequest {
    pub expected_frame_rate: u8,
}

/// What the active device can handle.
#[derive(Debug, Clone, PartialEq, Eq)]
pub struct EndPointNegotiateVisitDesktopParamsRequest {
    pub video_codecs: Vec<VideoCodec>,
    pub audio_max_sample_rate: AudioSampleRate,
    pub audio_sample_formats: Vec<AudioSampleFormat>,
    pub audio_dual_channel: bool,
}

/// The desktop parameters that the passive device settles on.
#[derive(Debug, Clone, PartialEq, Eq)]
pub struct EndPointNegotiateVisitDesktopParams {
    pub video_codec: VideoCodec,
    pub audio_sample_rate: AudioSampleRate,
    pub audio_sample_format: AudioSampleFormat,
    pub audio_dual_channel: bool,
    pub os_type: String,
    pub os_version: String,
    pub monitor_id: String,
    pub monitor_width: u16,
    pub monitor_height: u16,
}

/// The passive device's answer to a desktop-parameter negotiation.
#[derive(Debug, Clone, PartialEq, Eq)]
pub enum EndPointNegotiateVisitDesktopParamsResponse {
    Error,
    Params(EndPointNegotiateVisitDesktopParams),
}

/// A message between two endpoints.
#[derive(Debug, Clone, PartialEq, Eq)]
pub enum EndPointMessage {
    Input(EndPointInput),
    NegotiateFinishedRequest(EndPointNegotiateFinishedRequest),
    NegotiateVisitDesktopParamsRequest(EndPointNegotiateVisitDesktopParamsRequest),
    NegotiateVisitDesktopParamsResponse(EndPointNegotiateVisitDesktopParamsResponse),
}

} // verus!
