//! The controller that owns all mutable negotiation state of one peer
//! connection: the state-machine record, the one-shot negotiation latch,
//! and the operations that drive the offer/answer exchange. Every
//! operation decides synchronously and returns the instructions for the
//! media engine and the signaling transport as [`Action`] values.

use vstd::prelude::*;

use crate::actions::Action;
use crate::session::{
    engine_kind_of, sdp_type_of_engine_kind, sdp_type_to_engine, BundlePolicy, EngineDescription,
    IceCandidate, MediaStream, PadDirection, SdpType, SessionDescription,
};
use crate::state::{reached_negotiation, AppState, ProtocolError};
use crate::streams::on_incoming_stream;

verus! {

/// The mutable record of one peer connection: the negotiation phase, the
/// one-shot readiness latch, and whether the WebRTC element has been
/// installed in the pipeline.
#[derive(Clone, Copy, Debug, PartialEq, Eq, Structural)]
pub struct WebRtcControllerState {
    pub app_state: AppState,
    pub ready_to_negotiate: bool,
    pub webrtc_installed: bool,
}

/// Whether a remote description may be applied in state `s`: either no
/// description of the pair has been applied yet, or only the local one.
pub open spec fn allow_remote_description(s: AppState) -> bool {
    s is PeerCallNegotiating || s is PeerCallNegotiatingHaveLocal
}

/// The state after a remote description completes in an allowed state.
pub open spec fn next_after_remote(s: AppState) -> AppState {
    if s is PeerCallNegotiating {
        AppState::PeerCallNegotiatingHaveRemote
    } else {
        AppState::PeerCallStarted
    }
}

/// Whether a local description may be applied in state `s`: either no
/// description of the pair has been applied yet, or only the remote one.
pub open spec fn allow_local_description(s: AppState) -> bool {
    s is PeerCallNegotiating || s is PeerCallNegotiatingHaveRemote
}

/// The state after a local description completes in an allowed state.
pub open spec fn next_after_local(s: AppState) -> AppState {
    if s is PeerCallNegotiating {
        AppState::PeerCallNegotiatingHaveLocal
    } else {
        AppState::PeerCallStarted
    }
}

/// The state an offer or answer request must find the connection in:
/// offers require `PeerCallNegotiating`, answers require that a remote
/// offer has already been applied.
pub open spec fn allow_creation(ty: SdpType, s: AppState) -> bool {
    if ty is Offer {
        s is PeerCallNegotiating
    } else {
        s is PeerCallNegotiatingHaveRemote
    }
}

impl WebRtcControllerState {
    /// Arms the negotiation-readiness latch. On the first call this
    /// connects the negotiation trigger and starts the pipeline; any
    /// later call does nothing, so the pipeline is started and the
    /// trigger armed at most once per connection.
    pub fn prepare_for_negotiation(&mut self) -> (r: Vec<Action>)
        requires
            old(self).webrtc_installed,
        ensures
            final(self).ready_to_negotiate,
            final(self).app_state == old(self).app_state,
            final(self).webrtc_installed == old(self).webrtc_installed,
            old(self).ready_to_negotiate ==> r@.len() == 0,
            !old(self).ready_to_negotiate ==> r@.len() == 2
                && r@[0] == Action::ArmNegotiationTrigger && r@[1] == Action::StartPipeline,
    {
        let mut actions: Vec<Action> = Vec::new();
        if self.ready_to_negotiate {
            return actions;
        }
        self.ready_to_negotiate = true;
        // Starting the pipeline with the negotiation trigger armed before
        // any media track exists would produce an offer without media
        // sections, so both are deferred to the first attached stream.
        actions.push(Action::ArmNegotiationTrigger);
        actions.push(Action::StartPipeline);
        actions
    }

    /// Installs the WebRTC element into the pipeline and connects the
    /// ICE-candidate and pad notifications that drive the core.
    pub fn start_pipeline(&mut self) -> (r: Vec<Action>)
        ensures
            final(self).webrtc_installed,
            final(self).app_state == old(self).app_state,
            final(self).ready_to_negotiate == old(self).ready_to_negotiate,
            r@.len() == 3,
            r@[0] == Action::InstallWebRtcElement,
            r@[1] == Action::ConnectIceCandidateSignal,
            r@[2] == Action::ConnectPadAddedSignal,
    {
        let mut actions: Vec<Action> = Vec::new();
        actions.push(Action::InstallWebRtcElement);
        actions.push(Action::ConnectIceCandidateSignal);
        actions.push(Action::ConnectPadAddedSignal);
        self.webrtc_installed = true;
        actions
    }

    /// Overwrites the negotiation phase.
    pub fn update_state(&mut self, state: AppState)
        ensures
            final(self).app_state == state,
            final(self).ready_to_negotiate == old(self).ready_to_negotiate,
            final(self).webrtc_installed == old(self).webrtc_installed,
    {
        self.app_state = state;
    }
}

/// The peer-connection controller. The controller state is owned
/// exclusively — one dispatcher applies operations to it, one at a time;
/// embedders submit operations through the event queue and perform the
/// returned actions.
#[derive(Debug, PartialEq, Eq, Structural)]
pub struct GStreamerWebRtcController(pub WebRtcControllerState);

/// Creates a controller for one peer connection: the state machine starts
/// at `ServerConnected` with the negotiation latch unarmed, and the
/// returned actions install the WebRTC element and its notifications.
pub fn construct() -> (r: (GStreamerWebRtcController, Vec<Action>))
    ensures
        r.0.wf(),
        r.0.0.app_state == AppState::ServerConnected,
        !r.0.0.ready_to_negotiate,
        r.1@.len() == 3,
        r.1@[0] == Action::InstallWebRtcElement,
        r.1@[1] == Action::ConnectIceCandidateSignal,
        r.1@[2] == Action::ConnectPadAddedSignal,
{
    let mut state = WebRtcControllerState {
        app_state: AppState::ServerConnected,
        ready_to_negotiate: false,
        webrtc_installed: false,
    };
    let actions = state.start_pipeline();
    (GStreamerWebRtcController(state), actions)
}

impl GStreamerWebRtcController {
    /// Well-formedness: construction installed the WebRTC element, and
    /// every operation preserves that.
    pub open spec fn wf(self) -> bool {
        self.0.webrtc_installed
    }

    /// Forwards a remote ICE candidate to the media engine. Accepted in
    /// any state.
    pub fn add_ice_candidate(&self, candidate: IceCandidate) -> (a: Action)
        requires
            self.wf(),
        ensures
            (a matches Action::EmitIceCandidate(i, c) && i == candidate.sdp_mline_index
                && c@ == candidate.candidate@),
    {
        Action::EmitIceCandidate(candidate.sdp_mline_index, candidate.candidate)
    }

    /// Converts a description to the engine's form and instructs the
    /// engine to apply it on the given side (`true` means local).
    fn set_description(&self, desc: SessionDescription, local: bool) -> (a: Action)
        ensures
            (a matches Action::ApplyDescription(l, ed) && l == local
                && ed.kind == engine_kind_of(desc.type_) && ed.sdp@ == desc.sdp@),
    {
        let kind = sdp_type_to_engine(desc.type_);
        Action::ApplyDescription(local, EngineDescription { kind, sdp: desc.sdp })
    }

    /// Applies a remote description. Allowed only while negotiating with
    /// no remote description yet; a violation is a fatal protocol error
    /// and leaves the state untouched. On success the state advances:
    /// first description of the pair to `PeerCallNegotiatingHaveRemote`,
    /// second to `PeerCallStarted`.
    pub fn set_remote_description(&mut self, desc: SessionDescription) -> (r: Result<
        Vec<Action>,
        ProtocolError,
    >)
        requires
            old(self).wf(),
        ensures
            final(self).wf(),
            (r is Ok <==> allow_remote_description(old(self).0.app_state)),
            r is Err ==> *final(self) == *old(self),
            (r matches Err(e) ==> e == ProtocolError::NotReadyForSdp),
            r is Ok ==> final(self).0.app_state == next_after_remote(old(self).0.app_state)
                && final(self).0.ready_to_negotiate == old(self).0.ready_to_negotiate
                && final(self).0.webrtc_installed == old(self).0.webrtc_installed,
            (r matches Ok(acts) ==> acts@.len() == 1
                && (acts@[0] matches Action::ApplyDescription(l, ed) && l == false
                    && ed.kind == engine_kind_of(desc.type_) && ed.sdp@ == desc.sdp@)),
    {
        if !(self.0.app_state == AppState::PeerCallNegotiating
            || self.0.app_state == AppState::PeerCallNegotiatingHaveLocal) {
            return Err(ProtocolError::NotReadyForSdp);
        }
        let action = self.set_description(desc, false);
        if self.0.app_state == AppState::PeerCallNegotiating {
            self.0.app_state = AppState::PeerCallNegotiatingHaveRemote;
        } else {
            self.0.app_state = AppState::PeerCallStarted;
        }
        let mut actions: Vec<Action> = Vec::new();
        actions.push(action);
        Ok(actions)
    }

    /// Applies a local description. Allowed only while negotiating with
    /// no local description yet; a violation is a fatal protocol error
    /// and leaves the state untouched. On success the state advances:
    /// first description of the pair to `PeerCallNegotiatingHaveLocal`,
    /// second to `PeerCallStarted`.
    pub fn set_local_description(&mut self, desc: SessionDescription) -> (r: Result<
        Vec<Action>,
        ProtocolError,
    >)
        requires
            old(self).wf(),
        ensures
            final(self).wf(),
            (r is Ok <==> allow_local_description(old(self).0.app_state)),
            r is Err ==> *final(self) == *old(self),
            (r matches Err(e) ==> e == ProtocolError::NotReadyForSdp),
            r is Ok ==> final(self).0.app_state == next_after_local(old(self).0.app_state)
                && final(self).0.ready_to_negotiate == old(self).0.ready_to_negotiate
                && final(self).0.webrtc_installed == old(self).0.webrtc_installed,
            (r matches Ok(acts) ==> acts@.len() == 1
                && (acts@[0] matches Action::ApplyDescription(l, ed) && l == true
                    && ed.kind == engine_kind_of(desc.type_) && ed.sdp@ == desc.sdp@)),
    {
        if !(self.0.app_state == AppState::PeerCallNegotiating
            || self.0.app_state == AppState::PeerCallNegotiatingHaveRemote) {
            return Err(ProtocolError::NotReadyForSdp);
        }
        let action = self.set_description(desc, true);
        if self.0.app_state == AppState::PeerCallNegotiating {
            self.0.app_state = AppState::PeerCallNegotiatingHaveLocal;
        } else {
            self.0.app_state = AppState::PeerCallStarted;
        }
        let mut actions: Vec<Action> = Vec::new();
        actions.push(action);
        Ok(actions)
    }

    /// Asks the engine to synthesize an offer. Allowed only in
    /// `PeerCallNegotiating`; a violation is a fatal protocol error.
    pub fn create_offer(&self) -> (r: Result<Vec<Action>, ProtocolError>)
        requires
            self.wf(),
        ensures
            (r is Ok <==> self.0.app_state is PeerCallNegotiating),
            (r matches Err(e) ==> e == ProtocolError::NotNegotiatingCall),
            (r matches Ok(acts) ==> acts@.len() == 1 && acts@[0] == Action::RequestOffer),
    {
        if !(self.0.app_state == AppState::PeerCallNegotiating) {
            return Err(ProtocolError::NotNegotiatingCall);
        }
        let mut actions: Vec<Action> = Vec::new();
        actions.push(Action::RequestOffer);
        Ok(actions)
    }

    /// Asks the engine to synthesize an answer. Allowed only once a
    /// remote offer has been applied (`PeerCallNegotiatingHaveRemote`);
    /// a violation is a fatal protocol error.
    pub fn create_answer(&self) -> (r: Result<Vec<Action>, ProtocolError>)
        requires
            self.wf(),
        ensures
            (r is Ok <==> self.0.app_state is PeerCallNegotiatingHaveRemote),
            (r matches Err(e) ==> e == ProtocolError::NoOfferReceived),
            (r matches Ok(acts) ==> acts@.len() == 1 && acts@[0] == Action::RequestAnswer),
    {
        if !(self.0.app_state == AppState::PeerCallNegotiatingHaveRemote) {
            return Err(ProtocolError::NoOfferReceived);
        }
        let mut actions: Vec<Action> = Vec::new();
        actions.push(Action::RequestAnswer);
        Ok(actions)
    }

    /// Attaches a caller-owned stream to the pipeline, then arms the
    /// negotiation latch: only the first attachment connects the
    /// negotiation trigger and starts the pipeline.
    pub fn add_stream(&mut self, stream: &MediaStream) -> (r: Vec<Action>)
        requires
            old(self).wf(),
        ensures
            final(self).wf(),
            final(self).0.app_state == old(self).0.app_state,
            final(self).0.ready_to_negotiate,
            r@.len() > 0 && r@[0] == Action::AttachStream(*stream),
            old(self).0.ready_to_negotiate ==> r@.len() == 1,
            !old(self).0.ready_to_negotiate ==> r@.len() == 3
                && r@[1] == Action::ArmNegotiationTrigger && r@[2] == Action::StartPipeline,
            (crate::actions::arms_negotiation(r@) <==> !old(self).0.ready_to_negotiate),
            (crate::actions::starts_pipeline(r@) <==> !old(self).0.ready_to_negotiate),
    {
        let mut actions: Vec<Action> = Vec::new();
        actions.push(Action::AttachStream(*stream));
        let mut latch_actions = self.0.prepare_for_negotiation();
        actions.append(&mut latch_actions);
        proof {
            if old(self).0.ready_to_negotiate {
                crate::actions::lemma_latch_untouched(actions@);
            }
        }
        actions
    }

    /// Forwards the STUN server and bundle policy to the media engine.
    /// No state-machine precondition.
    pub fn configure(&self, stun_server: &str, policy: BundlePolicy) -> (r: Vec<Action>)
        requires
            self.wf(),
        ensures
            r@.len() == 2,
            (r@[0] matches Action::SetStunServer(s) && s@ == stun_server@),
            r@[1] == Action::SetBundlePolicy(policy),
    {
        let mut actions: Vec<Action> = Vec::new();
        actions.push(Action::SetStunServer(stun_server.to_owned()));
        actions.push(Action::SetBundlePolicy(policy));
        actions
    }

    /// Handles a pad notification from the engine. Sink-direction pads
    /// are the controller's own outgoing attachments and are ignored; a
    /// genuine source pad has its demuxing delegated to a decoder.
    pub fn process_new_stream(&self, direction: PadDirection) -> (r: Vec<Action>)
        ensures
            direction !is Src ==> r@.len() == 0,
            direction is Src ==> r@.len() == 4 && r@[0] == Action::InstallDecodeElement
                && r@[1] == Action::ConnectDecodePadSignal && r@[2] == Action::SyncDecodeElement
                && r@[3] == Action::LinkWebRtcToDecodeElement,
    {
        if !(direction == PadDirection::Src) {
            return Vec::new();
        }
        on_incoming_stream()
    }

    /// Records that the engine asked for negotiation: the state moves to
    /// `PeerCallNegotiating` and the transport is told that negotiation
    /// is needed.
    pub fn on_negotiation_needed(&mut self) -> (a: Action)
        ensures
            final(self).0.app_state == AppState::PeerCallNegotiating,
            final(self).0.ready_to_negotiate == old(self).0.ready_to_negotiate,
            final(self).0.webrtc_installed == old(self).0.webrtc_installed,
            a == Action::NotifyNegotiationNeeded,
    {
        self.0.app_state = AppState::PeerCallNegotiating;
        Action::NotifyNegotiationNeeded
    }

    /// Reports a recoverable negotiation error without touching the
    /// controller state; the session stays up.
    pub fn send_bus_error(&self, body: &str) -> (a: Action)
        ensures
            (a matches Action::ReportError(b) && b@ == body@),
    {
        Action::ReportError(body.to_owned())
    }

    /// Overwrites the negotiation phase.
    pub fn update_state(&mut self, state: AppState)
        ensures
            final(self).0.app_state == state,
            final(self).0.ready_to_negotiate == old(self).0.ready_to_negotiate,
            final(self).0.webrtc_installed == old(self).0.webrtc_installed,
    {
        self.0.update_state(state);
    }

    /// Shuts the session down: the transport is notified with the reason
    /// first, and only then is the pipeline commanded to stop, so a
    /// teardown failure cannot block the notification.
    pub fn close_and_quit(&self, reason: &str) -> (r: Vec<Action>)
        ensures
            r@.len() == 2,
            (r@[0] matches Action::CloseSignaller(s) && s@ == reason@),
            r@[1] == Action::StopPipeline,
    {
        let mut actions: Vec<Action> = Vec::new();
        actions.push(Action::CloseSignaller(reason.to_owned()));
        actions.push(Action::StopPipeline);
        actions
    }
}

/// Relays a locally produced ICE candidate to the signaling transport.
/// A candidate produced before negotiation began is a protocol-order
/// violation and is rejected.
pub fn send_ice_candidate_message(
    app_control: &GStreamerWebRtcController,
    sdp_mline_index: u32,
    candidate: String,
) -> (r: Result<Action, ProtocolError>)
    ensures
        (r is Ok <==> reached_negotiation(app_control.0.app_state)),
        (r matches Ok(a) ==> (a matches Action::RelayIceCandidate(c)
            && c.sdp_mline_index == sdp_mline_index && c.candidate@ == candidate@)),
        (r matches Err(e) ==> e == ProtocolError::IceBeforeNegotiation),
{
    if !crate::state::state_reached_negotiation(app_control.0.app_state) {
        return Err(ProtocolError::IceBeforeNegotiation);
    }
    Ok(Action::RelayIceCandidate(IceCandidate { sdp_mline_index, candidate }))
}

/// Translates the engine's reply to an offer or answer request into a
/// session description for the caller. The connection must still be in
/// the state the request was legal in, and the engine's tag must be in
/// the offer/answer vocabulary; otherwise the reply is a fatal protocol
/// error.
pub fn on_offer_or_answer_created(
    ty: SdpType,
    app_control: &GStreamerWebRtcController,
    reply: EngineDescription,
) -> (r: Result<SessionDescription, ProtocolError>)
    requires
        ty is Offer || ty is Answer,
    ensures
        (r is Ok <==> allow_creation(ty, app_control.0.app_state)
            && sdp_type_of_engine_kind(reply.kind) is Some),
        (r matches Ok(d) ==> Some(d.type_) == sdp_type_of_engine_kind(reply.kind)
            && d.sdp@ == reply.sdp@),
        (r matches Err(e) ==> e == (if !allow_creation(ty, app_control.0.app_state) {
            if ty is Offer {
                ProtocolError::NotNegotiatingCall
            } else {
                ProtocolError::NoOfferReceived
            }
        } else {
            ProtocolError::UnknownSdpReply
        })),
{
    if ty == SdpType::Offer {
        if !(app_control.0.app_state == AppState::PeerCallNegotiating) {
            return Err(ProtocolError::NotNegotiatingCall);
        }
    } else {
        if !(app_control.0.app_state == AppState::PeerCallNegotiatingHaveRemote) {
            return Err(ProtocolError::NoOfferReceived);
        }
    }
    let type_ = match crate::session::engine_kind_to_sdp_type(reply.kind) {
        Some(t) => t,
        None => {
            return Err(ProtocolError::UnknownSdpReply);
        },
    };
    Ok(SessionDescription { type_, sdp: reply.sdp })
}

} // verus!
