//! State-machine and dispatcher behaviour: operation gating, transition
//! order, the one-shot negotiation latch, and description round-trips.

use webrtc_signaling::actions::Action;
use webrtc_signaling::controller::{
    construct, on_offer_or_answer_created, send_ice_candidate_message,
};
use webrtc_signaling::engine::GStreamerBackend;
use webrtc_signaling::session::{
    EngineDescription, EngineSdpKind, IceCandidate, MediaStream, SdpType, SessionDescription,
};
use webrtc_signaling::state::{AppState, ProtocolError};
use webrtc_signaling::thread::{dispatch_events, handle_rtc_event, RtcThreadEvent, WebRtcController};

fn desc(type_: SdpType, sdp: &str) -> SessionDescription {
    SessionDescription { type_, sdp: sdp.to_owned() }
}

#[test]
fn construct_starts_at_server_connected() {
    let (c, setup) = construct();
    assert_eq!(c.0.app_state, AppState::ServerConnected);
    assert!(!c.0.ready_to_negotiate);
    assert!(c.0.webrtc_installed);
    assert_eq!(
        setup,
        vec![
            Action::InstallWebRtcElement,
            Action::ConnectIceCandidateSignal,
            Action::ConnectPadAddedSignal,
        ]
    );
}

#[test]
fn add_stream_arms_latch_only_once() {
    let (mut c, _setup) = construct();
    let first = c.add_stream(&MediaStream { id: 1 });
    assert_eq!(
        first,
        vec![
            Action::AttachStream(MediaStream { id: 1 }),
            Action::ArmNegotiationTrigger,
            Action::StartPipeline,
        ]
    );
    let second = c.add_stream(&MediaStream { id: 2 });
    assert_eq!(second, vec![Action::AttachStream(MediaStream { id: 2 })]);
    let third = c.add_stream(&MediaStream { id: 3 });
    assert_eq!(third, vec![Action::AttachStream(MediaStream { id: 3 })]);
}

#[test]
fn queued_streams_start_pipeline_once() {
    let (mut c, _setup) = construct();
    let mut handle = WebRtcController::new();
    handle.add_stream(MediaStream { id: 1 });
    handle.add_stream(MediaStream { id: 2 });
    handle.add_stream(MediaStream { id: 3 });
    let outcomes = dispatch_events(&mut handle, &mut c);
    assert_eq!(outcomes.len(), 3);
    let mut starts: usize = 0;
    let mut arms: usize = 0;
    for outcome in &outcomes {
        let acts = outcome.as_ref().expect("attaching a stream never fails");
        starts += acts.iter().filter(|a| **a == Action::StartPipeline).count();
        arms += acts.iter().filter(|a| **a == Action::ArmNegotiationTrigger).count();
    }
    assert_eq!(starts, 1);
    assert_eq!(arms, 1);
}

#[test]
fn create_answer_rejected_outside_have_remote() {
    let (mut c, _setup) = construct();
    assert_eq!(c.create_answer(), Err(ProtocolError::NoOfferReceived));
    let _ = c.on_negotiation_needed();
    assert_eq!(c.create_answer(), Err(ProtocolError::NoOfferReceived));
    let r = c.set_local_description(desc(SdpType::Offer, "v=0\r\n"));
    assert!(r.is_ok());
    // Only a local description so far: still no remote offer to answer.
    assert_eq!(c.create_answer(), Err(ProtocolError::NoOfferReceived));
}

#[test]
fn create_answer_succeeds_after_remote_description() {
    let (mut c, _setup) = construct();
    let _ = c.on_negotiation_needed();
    let r = c.set_remote_description(desc(SdpType::Offer, "v=0\r\n"));
    assert!(r.is_ok());
    assert_eq!(c.0.app_state, AppState::PeerCallNegotiatingHaveRemote);
    assert_eq!(c.create_answer(), Ok(vec![Action::RequestAnswer]));
}

#[test]
fn create_offer_requires_negotiating() {
    let (mut c, _setup) = construct();
    assert_eq!(c.create_offer(), Err(ProtocolError::NotNegotiatingCall));
    let _ = c.on_negotiation_needed();
    assert_eq!(c.create_offer(), Ok(vec![Action::RequestOffer]));
}

#[test]
fn local_then_remote_reaches_started() {
    let (mut c, _setup) = construct();
    let _ = c.on_negotiation_needed();
    assert!(c.set_local_description(desc(SdpType::Offer, "a")).is_ok());
    assert_eq!(c.0.app_state, AppState::PeerCallNegotiatingHaveLocal);
    assert!(c.set_remote_description(desc(SdpType::Answer, "b")).is_ok());
    assert_eq!(c.0.app_state, AppState::PeerCallStarted);
}

#[test]
fn remote_then_local_reaches_started() {
    let (mut c, _setup) = construct();
    let _ = c.on_negotiation_needed();
    assert!(c.set_remote_description(desc(SdpType::Offer, "a")).is_ok());
    assert_eq!(c.0.app_state, AppState::PeerCallNegotiatingHaveRemote);
    assert!(c.set_local_description(desc(SdpType::Answer, "b")).is_ok());
    assert_eq!(c.0.app_state, AppState::PeerCallStarted);
}

#[test]
fn descriptions_rejected_outside_negotiation() {
    let (mut c, _setup) = construct();
    assert_eq!(
        c.set_local_description(desc(SdpType::Offer, "a")),
        Err(ProtocolError::NotReadyForSdp)
    );
    assert_eq!(
        c.set_remote_description(desc(SdpType::Offer, "a")),
        Err(ProtocolError::NotReadyForSdp)
    );
    assert_eq!(c.0.app_state, AppState::ServerConnected);
    // A second description on the same side is also rejected.
    let _ = c.on_negotiation_needed();
    assert!(c.set_local_description(desc(SdpType::Offer, "a")).is_ok());
    assert_eq!(
        c.set_local_description(desc(SdpType::Offer, "b")),
        Err(ProtocolError::NotReadyForSdp)
    );
    assert_eq!(c.0.app_state, AppState::PeerCallNegotiatingHaveLocal);
}

#[test]
fn ice_rejected_before_negotiation() {
    let (mut c, _setup) = construct();
    let r = send_ice_candidate_message(&c, 0, "candidate:1".to_owned());
    assert_eq!(r, Err(ProtocolError::IceBeforeNegotiation));
    let _ = c.on_negotiation_needed();
    let r = send_ice_candidate_message(&c, 2, "candidate:2".to_owned());
    assert_eq!(
        r,
        Ok(Action::RelayIceCandidate(IceCandidate {
            sdp_mline_index: 2,
            candidate: "candidate:2".to_owned(),
        }))
    );
}

#[test]
fn remote_ice_forwarded_in_any_state() {
    let (c, _setup) = construct();
    let a = c.add_ice_candidate(IceCandidate {
        sdp_mline_index: 1,
        candidate: "candidate:9".to_owned(),
    });
    assert_eq!(a, Action::EmitIceCandidate(1, "candidate:9".to_owned()));
}

#[test]
fn dispatcher_applies_events_in_submission_order() {
    // Answering before the remote offer arrives fails; the same two
    // events in the other order both succeed. Only the queue order
    // decides, so the dispatcher is applying events FIFO.
    let (mut c, _setup) = construct();
    let _ = c.on_negotiation_needed();
    let mut handle = WebRtcController::new();
    handle.create_answer();
    handle.set_remote_description(desc(SdpType::Offer, "v=0\r\n"));
    let outcomes = dispatch_events(&mut handle, &mut c);
    assert_eq!(outcomes.len(), 2);
    assert_eq!(outcomes[0], Err(ProtocolError::NoOfferReceived));
    assert!(outcomes[1].is_ok());

    let (mut c2, _setup) = construct();
    let _ = c2.on_negotiation_needed();
    let mut handle2 = WebRtcController::new();
    handle2.set_remote_description(desc(SdpType::Offer, "v=0\r\n"));
    handle2.create_answer();
    let outcomes2 = dispatch_events(&mut handle2, &mut c2);
    assert_eq!(outcomes2.len(), 2);
    assert!(outcomes2[0].is_ok());
    assert_eq!(outcomes2[1], Ok(vec![Action::RequestAnswer]));
    assert_eq!(c2.0.app_state, AppState::PeerCallNegotiatingHaveRemote);
}

#[test]
fn dispatcher_drains_queue_and_reports_every_event() {
    let (mut c, _setup) = construct();
    let mut handle = WebRtcController::new();
    handle.configure(
        "stun://stun.example.org:3478".to_owned(),
        webrtc_signaling::session::BundlePolicy::Balanced,
    );
    handle.add_stream(MediaStream { id: 4 });
    handle.create_offer();
    let outcomes = dispatch_events(&mut handle, &mut c);
    assert_eq!(outcomes.len(), 3);
    assert!(outcomes[0].is_ok());
    assert!(outcomes[1].is_ok());
    // The negotiation-needed trigger has not fired yet.
    assert_eq!(outcomes[2], Err(ProtocolError::NotNegotiatingCall));
    // The queue is empty: a second run reports nothing.
    let outcomes = dispatch_events(&mut handle, &mut c);
    assert_eq!(outcomes.len(), 0);
}

#[test]
fn offer_scenario_from_server_connected_to_started() {
    // Full happy path: attach a stream, negotiation fires, offer is
    // created well-formed, and the remote answer completes the call.
    let (mut c, _setup) = construct();
    let mut engine = GStreamerBackend::init();
    assert_eq!(c.0.app_state, AppState::ServerConnected);
    for a in _setup {
        engine.apply(a);
    }

    let acts = c.add_stream(&MediaStream { id: 1 });
    for a in acts {
        engine.apply(a);
    }
    assert!(engine.negotiation_trigger_armed);
    assert!(engine.pipeline_playing);

    let notify = c.on_negotiation_needed();
    assert_eq!(notify, Action::NotifyNegotiationNeeded);
    assert_eq!(c.0.app_state, AppState::PeerCallNegotiating);

    let offer_acts = c.create_offer().expect("offer is legal while negotiating");
    assert_eq!(offer_acts, vec![Action::RequestOffer]);

    let reply = EngineDescription { kind: EngineSdpKind::Offer, sdp: "v=0\r\nm=audio".to_owned() };
    let offer = on_offer_or_answer_created(SdpType::Offer, &c, reply)
        .expect("the engine replied with a well-formed offer");
    assert_eq!(offer.type_, SdpType::Offer);
    assert_eq!(offer.sdp, "v=0\r\nm=audio");

    // The created offer is applied locally, then the remote answer
    // completes the pair.
    assert!(c.set_local_description(offer).is_ok());
    assert_eq!(c.0.app_state, AppState::PeerCallNegotiatingHaveLocal);
    assert!(c.set_remote_description(desc(SdpType::Answer, "v=0\r\n")).is_ok());
    assert_eq!(c.0.app_state, AppState::PeerCallStarted);
}

#[test]
fn offer_reply_rejected_in_wrong_state() {
    let (c, _setup) = construct();
    let reply = EngineDescription { kind: EngineSdpKind::Offer, sdp: "v=0\r\n".to_owned() };
    assert_eq!(
        on_offer_or_answer_created(SdpType::Offer, &c, reply),
        Err(ProtocolError::NotNegotiatingCall)
    );
    let reply = EngineDescription { kind: EngineSdpKind::Answer, sdp: "v=0\r\n".to_owned() };
    assert_eq!(
        on_offer_or_answer_created(SdpType::Answer, &c, reply),
        Err(ProtocolError::NoOfferReceived)
    );
}

#[test]
fn unknown_engine_reply_is_rejected() {
    let (mut c, _setup) = construct();
    let _ = c.on_negotiation_needed();
    let reply = EngineDescription { kind: EngineSdpKind::Unspecified, sdp: "v=0\r\n".to_owned() };
    assert_eq!(
        on_offer_or_answer_created(SdpType::Offer, &c, reply),
        Err(ProtocolError::UnknownSdpReply)
    );
}

#[test]
fn description_round_trips_through_engine() {
    // A description applied as the local description reads back with its
    // type and SDP text preserved byte for byte.
    let (mut c, _setup) = construct();
    let mut engine = GStreamerBackend::init();
    let _ = c.on_negotiation_needed();
    let original = desc(SdpType::Pranswer, "v=0\r\no=- 42 2 IN IP4 127.0.0.1\r\n");
    let acts = c.set_local_description(original.clone()).expect("negotiating");
    for a in acts {
        engine.apply(a);
    }
    let read_back = engine
        .read_back_description(true)
        .expect("the stored tag came from an SDP type")
        .expect("a local description was applied");
    assert_eq!(read_back, original);
    // Nothing was applied on the remote side.
    assert_eq!(engine.read_back_description(false), Ok(None));
}

#[test]
fn remote_description_round_trips_too() {
    let (mut c, _setup) = construct();
    let mut engine = GStreamerBackend::init();
    let _ = c.on_negotiation_needed();
    let original = desc(SdpType::Offer, "v=0\r\nm=video 9 UDP/TLS/RTP/SAVPF 96\r\n");
    let acts = c.set_remote_description(original.clone()).expect("negotiating");
    for a in acts {
        engine.apply(a);
    }
    let read_back = engine
        .read_back_description(false)
        .expect("the stored tag came from an SDP type")
        .expect("a remote description was applied");
    assert_eq!(read_back, original);
}

#[test]
fn handle_rtc_event_matches_direct_calls() {
    let (mut c, _setup) = construct();
    let _ = c.on_negotiation_needed();
    let outcome = handle_rtc_event(
        &mut c,
        RtcThreadEvent::SetLocalDescription(desc(SdpType::Offer, "x")),
    );
    assert!(outcome.is_ok());
    assert_eq!(c.0.app_state, AppState::PeerCallNegotiatingHaveLocal);
    let outcome = handle_rtc_event(&mut c, RtcThreadEvent::CreateOffer);
    assert_eq!(outcome, Err(ProtocolError::NotNegotiatingCall));
    assert_eq!(c.0.app_state, AppState::PeerCallNegotiatingHaveLocal);
}

#[test]
fn update_state_overwrites_phase() {
    let (mut c, _setup) = construct();
    c.update_state(AppState::PeerConnected);
    assert_eq!(c.0.app_state, AppState::PeerConnected);
    c.update_state(AppState::PeerCallError);
    assert_eq!(c.0.app_state, AppState::PeerCallError);
}
