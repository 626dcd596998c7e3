//! A model of the backend session the controller drives: what the media
//! engine has been told so far. Applying the controller's actions to it
//! lets embedders and tests observe the engine-side effects of a run —
//! which descriptions are applied, whether the pipeline is playing, and
//! which playback chains were built.

use vstd::prelude::*;

use crate::actions::{Action, PlaybackChain};
use crate::controller::{construct, GStreamerWebRtcController};
use crate::session::{
    sdp_type_of_engine_kind, BundlePolicy, EngineDescription, IceCandidate, MediaStream,
    SessionDescription,
};

verus! {

/// The engine side of one session: every field records the latest effect
/// of the corresponding engine-directed action. Transport-directed
/// actions do not touch it.
#[derive(Debug)]
pub struct GStreamerBackend {
    pub webrtc_installed: bool,
    pub ice_signal_connected: bool,
    pub pad_signal_connected: bool,
    pub negotiation_trigger_armed: bool,
    pub pipeline_playing: bool,
    pub stun_server: Option<String>,
    pub bundle_policy: Option<BundlePolicy>,
    pub local_description: Option<EngineDescription>,
    pub remote_description: Option<EngineDescription>,
    pub ice_candidates: Vec<IceCandidate>,
    pub attached_streams: Vec<MediaStream>,
    pub offer_requested: bool,
    pub answer_requested: bool,
    pub decode_installed: bool,
    pub decode_pad_signal_connected: bool,
    pub decode_synced: bool,
    pub decode_linked: bool,
    pub playback_chains: Vec<PlaybackChain>,
}

impl GStreamerBackend {
    /// A fresh backend session: nothing installed, nothing configured,
    /// the pipeline not playing.
    pub fn init() -> (b: GStreamerBackend)
        ensures
            !b.webrtc_installed,
            !b.ice_signal_connected,
            !b.pad_signal_connected,
            !b.negotiation_trigger_armed,
            !b.pipeline_playing,
            b.stun_server is None,
            b.bundle_policy is None,
            b.local_description is None,
            b.remote_description is None,
            b.ice_candidates@.len() == 0,
            b.attached_streams@.len() == 0,
            !b.offer_requested,
            !b.answer_requested,
            !b.decode_installed,
            !b.decode_pad_signal_connected,
            !b.decode_synced,
            !b.decode_linked,
            b.playback_chains@.len() == 0,
    {
        GStreamerBackend {
            webrtc_installed: false,
            ice_signal_connected: false,
            pad_signal_connected: false,
            negotiation_trigger_armed: false,
            pipeline_playing: false,
            stun_server: None,
            bundle_policy: None,
            local_description: None,
            remote_description: None,
            ice_candidates: Vec::new(),
            attached_streams: Vec::new(),
            offer_requested: false,
            answer_requested: false,
            decode_installed: false,
            decode_pad_signal_connected: false,
            decode_synced: false,
            decode_linked: false,
            playback_chains: Vec::new(),
        }
    }

    /// Creates the controller this backend serves and the actions that
    /// set its pipeline up.
    pub fn start_webrtc_controller() -> (r: (GStreamerWebRtcController, Vec<Action>))
        ensures
            r.0.wf(),
            r.0.0.app_state is ServerConnected,
            !r.0.0.ready_to_negotiate,
            r.1@.len() == 3,
            r.1@[0] == Action::InstallWebRtcElement,
            r.1@[1] == Action::ConnectIceCandidateSignal,
            r.1@[2] == Action::ConnectPadAddedSignal,
    {
        construct()
    }

    /// Performs one engine-directed action on the session: each variant
    /// updates exactly the fields it speaks of and leaves every other
    /// field unchanged. Transport-directed actions change nothing here.
    pub fn apply(&mut self, action: Action)
        ensures
            final(self).webrtc_installed == (action is InstallWebRtcElement
                || old(self).webrtc_installed),
            final(self).ice_signal_connected == (action is ConnectIceCandidateSignal || old(
                self,
            ).ice_signal_connected),
            final(self).pad_signal_connected == (action is ConnectPadAddedSignal || old(
                self,
            ).pad_signal_connected),
            final(self).negotiation_trigger_armed == (action is ArmNegotiationTrigger || old(
                self,
            ).negotiation_trigger_armed),
            final(self).pipeline_playing == (if action is StartPipeline {
                true
            } else if action is StopPipeline {
                false
            } else {
                old(self).pipeline_playing
            }),
            (action matches Action::SetStunServer(s) ==> final(self).stun_server == Some(s)),
            action !is SetStunServer ==> final(self).stun_server == old(self).stun_server,
            (action matches Action::SetBundlePolicy(p) ==> final(self).bundle_policy == Some(p)),
            action !is SetBundlePolicy ==> final(self).bundle_policy == old(self).bundle_policy,
            (action matches Action::ApplyDescription(local, d) ==> (if local {
                final(self).local_description == Some(d) && final(self).remote_description == old(
                    self,
                ).remote_description
            } else {
                final(self).remote_description == Some(d) && final(self).local_description == old(
                    self,
                ).local_description
            })),
            action !is ApplyDescription ==> final(self).local_description == old(
                self,
            ).local_description && final(self).remote_description == old(self).remote_description,
            (action matches Action::EmitIceCandidate(i, c) ==> final(self).ice_candidates@ == old(
                self,
            ).ice_candidates@.push(IceCandidate { sdp_mline_index: i, candidate: c })),
            action !is EmitIceCandidate ==> final(self).ice_candidates@ == old(
                self,
            ).ice_candidates@,
            (action matches Action::AttachStream(m) ==> final(self).attached_streams@ == old(
                self,
            ).attached_streams@.push(m)),
            action !is AttachStream ==> final(self).attached_streams@ == old(
                self,
            ).attached_streams@,
            final(self).offer_requested == (action is RequestOffer || old(self).offer_requested),
            final(self).answer_requested == (action is RequestAnswer || old(self).answer_requested),
            final(self).decode_installed == (action is InstallDecodeElement || old(
                self,
            ).decode_installed),
            final(self).decode_pad_signal_connected == (action is ConnectDecodePadSignal || old(
                self,
            ).decode_pad_signal_connected),
            final(self).decode_synced == (action is SyncDecodeElement || old(self).decode_synced),
            final(self).decode_linked == (action is LinkWebRtcToDecodeElement || old(
                self,
            ).decode_linked),
            (action matches Action::BuildPlaybackChain(c) ==> final(self).playback_chains@ == old(
                self,
            ).playback_chains@.push(c)),
            action !is BuildPlaybackChain ==> final(self).playback_chains@ == old(
                self,
            ).playback_chains@,
    {
        match action {
            Action::SetStunServer(s) => {
                self.stun_server = Some(s);
            },
            Action::SetBundlePolicy(p) => {
                self.bundle_policy = Some(p);
            },
            Action::EmitIceCandidate(i, c) => {
                self.ice_candidates.push(IceCandidate { sdp_mline_index: i, candidate: c });
            },
            Action::ApplyDescription(local, d) => {
                if local {
                    self.local_description = Some(d);
                } else {
                    self.remote_description = Some(d);
                }
            },
            Action::RequestOffer => {
                self.offer_requested = true;
            },
            Action::RequestAnswer => {
                self.answer_requested = true;
            },
            Action::AttachStream(m) => {
                self.attached_streams.push(m);
            },
            Action::InstallWebRtcElement => {
                self.webrtc_installed = true;
            },
            Action::ConnectIceCandidateSignal => {
                self.ice_signal_connected = true;
            },
            Action::ConnectPadAddedSignal => {
                self.pad_signal_connected = true;
            },
            Action::ArmNegotiationTrigger => {
                self.negotiation_trigger_armed = true;
            },
            Action::StartPipeline => {
                self.pipeline_playing = true;
            },
            Action::StopPipeline => {
                self.pipeline_playing = false;
            },
            Action::InstallDecodeElement => {
                self.decode_installed = true;
            },
            Action::ConnectDecodePadSignal => {
                self.decode_pad_signal_connected = true;
            },
            Action::SyncDecodeElement => {
                self.decode_synced = true;
            },
            Action::LinkWebRtcToDecodeElement => {
                self.decode_linked = true;
            },
            Action::BuildPlaybackChain(c) => {
                self.playback_chains.push(c);
            },
            Action::NotifyNegotiationNeeded => {},
            Action::RelayIceCandidate(_) => {},
            Action::CloseSignaller(_) => {},
            Action::ReportError(_) => {},
        }
    }

    /// Reads the description last applied on one side back as a session
    /// description, converting the engine's tag; `None` if no description
    /// was applied on that side, an error if the stored tag is outside
    /// the offer/answer vocabulary.
    pub fn read_back_description(&self, local: bool) -> (r: Result<
        Option<SessionDescription>,
        crate::state::ProtocolError,
    >)
        ensures
            ({
                let stored = if local {
                    self.local_description
                } else {
                    self.remote_description
                };
                match stored {
                    None => r == Ok::<Option<SessionDescription>, crate::state::ProtocolError>(
                        None::<SessionDescription>,
                    ),
                    Some(d) => match sdp_type_of_engine_kind(d.kind) {
                        Some(t) => (r matches Ok(o) && (o matches Some(rd) && rd.type_ == t
                            && rd.sdp@ == d.sdp@)),
                        None => r == Err::<Option<SessionDescription>, crate::state::ProtocolError>(
                            crate::state::ProtocolError::UnknownSdpReply,
                        ),
                    },
                }
            }),
    {
        let stored = if local {
            &self.local_description
        } else {
            &self.remote_description
        };
        match stored {
            None => Ok(None),
            Some(d) => {
                match crate::session::engine_kind_to_sdp_type(d.kind) {
                    Some(t) => Ok(
                        Some(SessionDescription { type_: t, sdp: d.sdp.clone() }),
                    ),
                    None => Err(crate::state::ProtocolError::UnknownSdpReply),
                }
            },
        }
    }
}

/// Law: a description round-trips through the engine exactly. The
/// premises are what applying a description promises of the stored
/// engine value — the tag is the conversion of the description's type,
/// the text is untouched — and the conclusions are what reading that
/// value back returns: the description's own type tag and the same SDP
/// text, byte for byte.
pub proof fn lemma_description_round_trip(desc: SessionDescription, stored: EngineDescription)
    requires
        stored.kind == crate::session::engine_kind_of(desc.type_),
        stored.sdp@ == desc.sdp@,
    ensures
        sdp_type_of_engine_kind(stored.kind) == Some(desc.type_),
        stored.sdp@ == desc.sdp@,
{
    crate::session::lemma_sdp_type_round_trip(desc.type_);
}

} // verus!
