//! The requests that the user interface makes of an endpoint, and the
//! decisions of the handlers that serve them: which message goes out, and
//! what the caller gets back for each outcome of sending it and of awaiting
//! the reply.
use crate::error::{CoreError, CoreResult};
use crate::message::{
    AudioSampleFormat, AudioSampleRate, EndPointInput, EndPointMessage,
    EndPointNegotiateFinishedRequest, EndPointNegotiateVisitDesktopParams,
    EndPointNegotiateVisitDesktopParamsRequest, EndPointNegotiateVisitDesktopParamsResponse,
    InputEvent, VideoCodec,
};
use vstd::prelude::*;

verus! {

/// Forward an input event from the active to the passive device.
pub struct InputReqeust {
    pub active_device_id: String,
    pub passive_device_id: String,
    pub event: Box<InputEvent>,
}

/// Negotiation is over: start streaming at this frame rate, onto this texture.
pub struct NegotiateFinishedRequest {
    pub active_device_id: i64,
    pub passive_device_id: i64,
    pub expect_frame_rate: u8,
    pub texture_id: i64,
}

/// Ask the passive device for its desktop parameters.
pub struct NegotiateVisitDesktopParamsRequest {
    pub active_device_id: i64,
    pub passive_device_id: i64,
}

/// The desktop parameters as the user interface gets them.
#[derive(Debug, Clone, PartialEq, Eq)]
pub struct NegotiateVisitDesktopParamsResponse {
    pub video_codec: VideoCodec,
    pub audio_sample_rate: AudioSampleRate,
    pub audio_sample_format: AudioSampleFormat,
    pub audio_dual_channel: bool,
    pub os_type: String,
    pub os_version: String,
    pub monitor_id: String,
    pub monitor_width: i16,
    pub monitor_height: i16,
}

/// Allow or refuse a visit from another device.
pub struct VisitReplyRequest {
    pub active_device_id: i64,
    pub passive_device_id: i64,
    pub allow: bool,
}

/// The endpoint registered for a pair of devices, or `EndpointNotExists`.
pub fn endpoint_or_error<T>(endpoint: Option<T>) -> (r: CoreResult<T>)
    ensures
        endpoint matches Some(e) ==> r == Ok::<T, CoreError>(e),
        endpoint is None ==> r == Err::<T, CoreError>(CoreError::EndpointNotExists),
{
    match endpoint {
        Some(e) => Ok(e),
        None => Err(CoreError::EndpointNotExists),
    }
}

/// What handing a message to an endpoint comes to: any failure to send
/// (the channel is full past the timeout, or closed) is `MessageSendFailed`.
pub fn send_outcome<E>(sent: Result<(), E>) -> (r: CoreResult<()>)
    ensures
        sent is Ok ==> r == Ok::<(), CoreError>(()),
        sent is Err ==> r == Err::<(), CoreError>(CoreError::MessageSendFailed),
{
    match sent {
        Ok(()) => Ok(()),
        Err(_) => Err(CoreError::MessageSendFailed),
    }
}

/// What awaiting a reply with a timeout comes to: the time ran out
/// (outer `Err`), the reply channel closed (inner `Err`), or the reply.
pub fn reply_outcome<T, Closed, Elapsed>(reply: Result<Result<T, Closed>, Elapsed>) -> (r: CoreResult<T>)
    ensures
        reply is Err ==> r == Err::<T, CoreError>(CoreError::ResponseTimeout),
        reply matches Ok(Err(_)) ==> r == Err::<T, CoreError>(CoreError::ResponseChannelClosed),
        reply matches Ok(Ok(t)) ==> r == Ok::<T, CoreError>(t),
{
    match reply {
        Err(_) => Err(CoreError::ResponseTimeout),
        Ok(Err(_)) => Err(CoreError::ResponseChannelClosed),
        Ok(Ok(t)) => Ok(t),
    }
}

/// The message that carries an input request's event.
pub fn input_message(req: InputReqeust) -> (m: EndPointMessage)
    ensures
        m == EndPointMessage::Input(EndPointInput { event: *req.event }),
{
    EndPointMessage::Input(EndPointInput { event: *req.event })
}

/// The message that tells the passive device negotiation is over.
pub fn negotiate_finished_message(req: &NegotiateFinishedRequest) -> (m: EndPointMessage)
    ensures
        m == EndPointMessage::NegotiateFinishedRequest(
            EndPointNegotiateFinishedRequest { expected_frame_rate: req.expect_frame_rate },
        ),
{
    EndPointMessage::NegotiateFinishedRequest(
        EndPointNegotiateFinishedRequest { expected_frame_rate: req.expect_frame_rate },
    )
}

/// What the active device offers: H.264 video, audio up to the highest
/// sample rate in 32-bit float samples, on two channels.
pub open spec fn offers_visit_desktop_params(req: EndPointNegotiateVisitDesktopParamsRequest) -> bool {
    &&& req.video_codecs@ == seq![VideoCodec::H264]
    &&& req.audio_max_sample_rate == AudioSampleRate::HZ480000
    &&& req.audio_sample_formats@ == seq![AudioSampleFormat::F32]
    &&& req.audio_dual_channel
}

/// The request with which the active device asks for desktop parameters.
pub fn visit_desktop_params_request() -> (req: EndPointNegotiateVisitDesktopParamsRequest)
    ensures
        offers_visit_desktop_params(req),
{
    let mut video_codecs: Vec<VideoCodec> = Vec::new();
    video_codecs.push(VideoCodec::H264);
    let mut audio_sample_formats: Vec<AudioSampleFormat> = Vec::new();
    audio_sample_formats.push(AudioSampleFormat::F32);
    let req = EndPointNegotiateVisitDesktopParamsRequest {
        video_codecs,
        audio_max_sample_rate: AudioSampleRate::HZ480000,
        audio_sample_formats,
        audio_dual_channel: true,
    };
    assert(req.video_codecs@ =~= seq![VideoCodec::H264]);
    assert(req.audio_sample_formats@ =~= seq![AudioSampleFormat::F32]);
    req
}

/// The message with which the active device asks for desktop parameters.
pub fn visit_desktop_params_message() -> (m: EndPointMessage)
    ensures
        m matches EndPointMessage::NegotiateVisitDesktopParamsRequest(req)
            && offers_visit_desktop_params(req),
{
    EndPointMessage::NegotiateVisitDesktopParamsRequest(visit_desktop_params_request())
}

/// `x` read as a two's-complement 16-bit integer, as `x as i16` does.
pub open spec fn wrap_i16(x: u16) -> int {
    if x <= 32767 {
        x as int
    } else {
        x - 65536
    }
}

/// `x as i16`.
pub fn to_i16_wrapping(x: u16) -> (r: i16)
    ensures
        r == wrap_i16(x),
{
    if x <= 32767 {
        x as i16
    } else {
        ((x - 32768) as i16) + i16::MIN
    }
}

/// Whether `answer` is what the passive device answers to `req`, given what
/// it found out about its primary monitor: its id, width and height, or
/// nothing. It takes the sample rate and the channels the active device
/// asked for, H.264 video and 32-bit float samples; the operating system
/// fields stay empty.
pub open spec fn answers_media_params<E>(req: EndPointNegotiateVisitDesktopParamsRequest, primary_monitor: Result<(String, u16, u16), E>, answer: EndPointNegotiateVisitDesktopParamsResponse) -> bool {
    match primary_monitor {
        Err(_) => answer == EndPointNegotiateVisitDesktopParamsResponse::Error,
        Ok((monitor_id, monitor_width, monitor_height)) => match answer {
            EndPointNegotiateVisitDesktopParamsResponse::Params(p) => {
                &&& p.video_codec == VideoCodec::H264
                &&& p.audio_sample_rate == req.audio_max_sample_rate
                &&& p.audio_sample_format == AudioSampleFormat::F32
                &&& p.audio_dual_channel == req.audio_dual_channel
                &&& p.os_type@ == Seq::<char>::empty()
                &&& p.os_version@ == Seq::<char>::empty()
                &&& p.monitor_id@ == monitor_id@
                &&& p.monitor_width == monitor_width
                &&& p.monitor_height == monitor_height
            },
            EndPointNegotiateVisitDesktopParamsResponse::Error => false,
        },
    }
}

/// The passive device's answer to a request for desktop parameters, given
/// what it found out about its primary monitor (`Err` when it could not).
pub fn negotiate_media_params<E>(req: EndPointNegotiateVisitDesktopParamsRequest, primary_monitor: Result<(String, u16, u16), E>) -> (answer: EndPointNegotiateVisitDesktopParamsResponse)
    ensures
        answers_media_params(req, primary_monitor, answer),
{
    let mut params = EndPointNegotiateVisitDesktopParams {
        video_codec: VideoCodec::H264,
        audio_sample_rate: req.audio_max_sample_rate,
        audio_sample_format: AudioSampleFormat::F32,
        audio_dual_channel: req.audio_dual_channel,
        os_type: String::new(),
        os_version: String::new(),
        monitor_id: String::new(),
        monitor_width: 0,
        monitor_height: 0,
    };
    match primary_monitor {
        Ok((monitor_id, monitor_width, monitor_height)) => {
            params.monitor_id = monitor_id;
            params.monitor_width = monitor_width;
            params.monitor_height = monitor_height;
        },
        Err(_) => return EndPointNegotiateVisitDesktopParamsResponse::Error,
    }
    EndPointNegotiateVisitDesktopParamsResponse::Params(params)
}

/// Whether `result` is what the user interface gets from the passive
/// device's `answer`: its parameters, with the monitor size read as 16-bit
/// signed integers, or `NegotiateDesktopParamsFailed`.
pub open spec fn delivers_desktop_params(answer: EndPointNegotiateVisitDesktopParamsResponse, result: CoreResult<NegotiateVisitDesktopParamsResponse>) -> bool {
    match answer {
        EndPointNegotiateVisitDesktopParamsResponse::Error => result == Err::<
            NegotiateVisitDesktopParamsResponse,
            CoreError,
        >(CoreError::NegotiateDesktopParamsFailed),
        EndPointNegotiateVisitDesktopParamsResponse::Params(p) => match result {
            Ok(o) => {
                &&& o.video_codec == p.video_codec
                &&& o.audio_sample_rate == p.audio_sample_rate
                &&& o.audio_sample_format == p.audio_sample_format
                &&& o.audio_dual_channel == p.audio_dual_channel
                &&& o.os_type == p.os_type
                &&& o.os_version == p.os_version
                &&& o.monitor_id == p.monitor_id
                &&& o.monitor_width == wrap_i16(p.monitor_width)
                &&& o.monitor_height == wrap_i16(p.monitor_height)
            },
            Err(_) => false,
        },
    }
}

/// What the active device makes of the passive device's answer.
pub fn visit_desktop_params_result(answer: EndPointNegotiateVisitDesktopParamsResponse) -> (r: CoreResult<NegotiateVisitDesktopParamsResponse>)
    ensures
        delivers_desktop_params(answer, r),
{
    match answer {
        EndPointNegotiateVisitDesktopParamsResponse::Error => Err(CoreError::NegotiateDesktopParamsFailed),
        EndPointNegotiateVisitDesktopParamsResponse::Params(params) => {
            let monitor_width = to_i16_wrapping(params.monitor_width);
            let monitor_height = to_i16_wrapping(params.monitor_height);
            Ok(NegotiateVisitDesktopParamsResponse {
                video_codec: params.video_codec,
                audio_sample_rate: params.audio_sample_rate,
                audio_sample_format: params.audio_sample_format,
                audio_dual_channel: params.audio_dual_channel,
                os_type: params.os_type,
                os_version: params.os_version,
                monitor_id: params.monitor_id,
                monitor_width,
                monitor_height,
            })
        },
    }
}

/// A negotiation end to end: what the user interface gets when the passive
/// device answers a request for desktop parameters is what that device found
/// about its primary monitor, with the sample rate and channels that were
/// asked for, as long as the monitor is no more than 32767 pixels in either
/// direction; when the monitor could not be queried, the negotiation fails.
pub proof fn law_negotiation_round_trip<E>(req: EndPointNegotiateVisitDesktopParamsRequest, primary_monitor: Result<(String, u16, u16), E>, answer: EndPointNegotiateVisitDesktopParamsResponse, result: CoreResult<NegotiateVisitDesktopParamsResponse>)
    requires
        answers_media_params(req, primary_monitor, answer),
        delivers_desktop_params(answer, result),
        primary_monitor matches Ok((_, w, h)) ==> w <= 32767 && h <= 32767,
    ensures
        primary_monitor is Err ==> result == Err::<NegotiateVisitDesktopParamsResponse, CoreError>(
            CoreError::NegotiateDesktopParamsFailed,
        ),
        primary_monitor matches Ok((id, w, h)) ==> (result matches Ok(o) && {
            &&& o.video_codec == VideoCodec::H264
            &&& o.audio_sample_rate == req.audio_max_sample_rate
            &&& o.audio_sample_format == AudioSampleFormat::F32
            &&& o.audio_dual_channel == req.audio_dual_channel
            &&& o.monitor_id@ == id@
            &&& o.monitor_width == w
            &&& o.monitor_height == h
        }),
{
}

} // verus!
