use mirrorx_core::error::CoreError;
use mirrorx_core::handlers::{
    endpoint_or_error, input_message, negotiate_finished_message, negotiate_media_params,
    reply_outcome, send_outcome, to_i16_wrapping, visit_desktop_params_message,
    visit_desktop_params_request, visit_desktop_params_result, InputReqeust,
    NegotiateFinishedRequest, NegotiateVisitDesktopParamsRequest,
    NegotiateVisitDesktopParamsResponse, VisitReplyRequest,
};
use mirrorx_core::message::{
    AudioSampleFormat, AudioSampleRate, EndPointInput, EndPointMessage,
    EndPointNegotiateFinishedRequest, EndPointNegotiateVisitDesktopParamsRequest,
    EndPointNegotiateVisitDesktopParamsResponse, InputEvent, KeyboardEvent, MouseEvent, MouseKey,
    VideoCodec,
};

fn request(rate: AudioSampleRate, dual: bool) -> EndPointNegotiateVisitDesktopParamsRequest {
    EndPointNegotiateVisitDesktopParamsRequest {
        video_codecs: vec![VideoCodec::H264],
        audio_max_sample_rate: rate,
        audio_sample_formats: vec![AudioSampleFormat::F32, AudioSampleFormat::I16],
        audio_dual_channel: dual,
    }
}

#[test]
fn endpoint_lookup_missing_is_endpoint_not_exists() {
    assert_eq!(endpoint_or_error::<u8>(None), Err(CoreError::EndpointNotExists));
    assert_eq!(endpoint_or_error(Some(7u8)), Ok(7u8));
}

#[test]
fn send_failure_is_message_send_failed() {
    assert_eq!(send_outcome::<&str>(Err("channel closed")), Err(CoreError::MessageSendFailed));
    assert_eq!(send_outcome::<&str>(Ok(())), Ok(()));
}

#[test]
fn reply_outcomes() {
    let elapsed: Result<Result<u8, ()>, &str> = Err("elapsed");
    assert_eq!(reply_outcome(elapsed), Err(CoreError::ResponseTimeout));
    let closed: Result<Result<u8, ()>, &str> = Ok(Err(()));
    assert_eq!(reply_outcome(closed), Err(CoreError::ResponseChannelClosed));
    let answered: Result<Result<u8, ()>, &str> = Ok(Ok(3));
    assert_eq!(reply_outcome(answered), Ok(3));
}

#[test]
fn input_request_becomes_input_message() {
    let event = InputEvent::Mouse(MouseEvent::MouseDown(MouseKey::Left, 10, 20));
    let req = InputReqeust {
        active_device_id: "a".to_string(),
        passive_device_id: "b".to_string(),
        event: Box::new(event),
    };
    assert_eq!(input_message(req), EndPointMessage::Input(EndPointInput { event }));
    let key = InputEvent::Keyboard(KeyboardEvent::KeyUp(65));
    let req = InputReqeust {
        active_device_id: "a".to_string(),
        passive_device_id: "b".to_string(),
        event: Box::new(key),
    };
    assert_eq!(input_message(req), EndPointMessage::Input(EndPointInput { event: key }));
}

#[test]
fn negotiate_finished_carries_frame_rate() {
    let req = NegotiateFinishedRequest {
        active_device_id: 1,
        passive_device_id: 2,
        expect_frame_rate: 60,
        texture_id: 9,
    };
    assert_eq!(
        negotiate_finished_message(&req),
        EndPointMessage::NegotiateFinishedRequest(EndPointNegotiateFinishedRequest {
            expected_frame_rate: 60
        })
    );
}

#[test]
fn visit_desktop_params_request_offers_h264_f32_stereo() {
    let req = visit_desktop_params_request();
    assert_eq!(req.video_codecs, vec![VideoCodec::H264]);
    assert_eq!(req.audio_max_sample_rate, AudioSampleRate::HZ480000);
    assert_eq!(req.audio_sample_formats, vec![AudioSampleFormat::F32]);
    assert!(req.audio_dual_channel);
    assert_eq!(
        visit_desktop_params_message(),
        EndPointMessage::NegotiateVisitDesktopParamsRequest(req)
    );
    let _ = NegotiateVisitDesktopParamsRequest { active_device_id: 1, passive_device_id: 2 };
    let reply = VisitReplyRequest { active_device_id: 1, passive_device_id: 2, allow: true };
    assert!(reply.allow);
}

#[test]
fn i16_wrapping_matches_as_cast() {
    for x in [0u16, 1, 1920, 32767, 32768, 40000, 65535] {
        assert_eq!(to_i16_wrapping(x), x as i16);
    }
    assert_eq!(to_i16_wrapping(40000), -25536);
}

#[test]
fn media_params_from_primary_monitor() {
    let answer = negotiate_media_params::<()>(
        request(AudioSampleRate::HZ24000, false),
        Ok(("monitor-1".to_string(), 1920, 1080)),
    );
    match answer {
        EndPointNegotiateVisitDesktopParamsResponse::Params(p) => {
            assert_eq!(p.video_codec, VideoCodec::H264);
            assert_eq!(p.audio_sample_rate, AudioSampleRate::HZ24000);
            assert_eq!(p.audio_sample_format, AudioSampleFormat::F32);
            assert!(!p.audio_dual_channel);
            assert_eq!(p.os_type, "");
            assert_eq!(p.os_version, "");
            assert_eq!(p.monitor_id, "monitor-1");
            assert_eq!(p.monitor_width, 1920);
            assert_eq!(p.monitor_height, 1080);
        }
        EndPointNegotiateVisitDesktopParamsResponse::Error => panic!("expected parameters"),
    }
}

#[test]
fn media_params_without_monitor_is_error() {
    let answer = negotiate_media_params(request(AudioSampleRate::HZ480000, true), Err("no monitor"));
    assert_eq!(answer, EndPointNegotiateVisitDesktopParamsResponse::Error);
}

#[test]
fn error_answer_fails_negotiation() {
    assert_eq!(
        visit_desktop_params_result(EndPointNegotiateVisitDesktopParamsResponse::Error),
        Err(CoreError::NegotiateDesktopParamsFailed)
    );
}

#[test]
fn negotiation_round_trip() {
    let answer = negotiate_media_params::<()>(
        request(AudioSampleRate::HZ480000, true),
        Ok(("\\\\.\\DISPLAY1".to_string(), 2560, 1440)),
    );
    let result = visit_desktop_params_result(answer);
    assert_eq!(
        result,
        Ok(NegotiateVisitDesktopParamsResponse {
            video_codec: VideoCodec::H264,
            audio_sample_rate: AudioSampleRate::HZ480000,
            audio_sample_format: AudioSampleFormat::F32,
            audio_dual_channel: true,
            os_type: String::new(),
            os_version: String::new(),
            monitor_id: "\\\\.\\DISPLAY1".to_string(),
            monitor_width: 2560,
            monitor_height: 1440,
        })
    );
}

#[test]
fn oversized_monitor_wraps_to_negative() {
    let answer = negotiate_media_params::<()>(
        request(AudioSampleRate::HZ16000, true),
        Ok(("m".to_string(), 40000, 32768)),
    );
    let result = visit_desktop_params_result(answer).unwrap();
    assert_eq!(result.monitor_width, -25536);
    assert_eq!(result.monitor_height, -32768);
    assert_eq!(result.audio_sample_rate, AudioSampleRate::HZ16000);
}
