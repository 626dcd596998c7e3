//! The effects the signaling core asks its collaborators to perform. Every
//! decision of the core is returned as a sequence of [`Action`] values; the
//! embedder performs them against the real media engine and signaling
//! transport, in the order given.

use vstd::prelude::*;

use crate::session::{BundlePolicy, EngineDescription, IceCandidate, MediaStream, MediaType};

verus! {

/// One element of a playback chain for an incoming track.
#[derive(Clone, Copy, Debug, PartialEq, Eq, Structural)]
pub enum ElementKind {
    Queue,
    AudioConvert,
    AudioResample,
    AutoAudioSink,
    VideoConvert,
    AutoVideoSink,
}

/// The playback chain the core asks the engine to build for one incoming
/// track: the elements in link order, each added to the pipeline, linked
/// to its predecessor, and state-synchronized with the running pipeline;
/// the incoming pad is linked to the head of the chain.
#[derive(Clone, Debug, PartialEq, Eq)]
pub struct PlaybackChain {
    pub media_type: MediaType,
    pub elements: Vec<ElementKind>,
}

/// The elements of the playback chain for a media kind, in link order:
/// a queue, then format conversion, then (for audio) resampling, then an
/// automatic sink.
pub open spec fn chain_elements(m: MediaType) -> Seq<ElementKind> {
    match m {
        MediaType::Audio => seq![
            ElementKind::Queue,
            ElementKind::AudioConvert,
            ElementKind::AudioResample,
            ElementKind::AutoAudioSink,
        ],
        MediaType::Video => seq![
            ElementKind::Queue,
            ElementKind::VideoConvert,
            ElementKind::AutoVideoSink,
        ],
    }
}

/// One instruction to a collaborator. The engine-directed variants drive
/// the media pipeline; the transport-directed variants carry signaling to
/// the remote peer.
#[derive(Clone, Debug, PartialEq, Eq)]
pub enum Action {
    /// Engine: use this STUN server during ICE gathering.
    SetStunServer(String),
    /// Engine: use this bundling strategy.
    SetBundlePolicy(BundlePolicy),
    /// Engine: take this remote ICE candidate (m-line index, candidate text).
    EmitIceCandidate(u32, String),
    /// Engine: apply this description; `true` means as the local
    /// description, `false` as the remote one.
    ApplyDescription(bool, EngineDescription),
    /// Engine: synthesize an offer asynchronously.
    RequestOffer,
    /// Engine: synthesize an answer asynchronously.
    RequestAnswer,
    /// Engine: attach this caller-owned stream to the pipeline.
    AttachStream(MediaStream),
    /// Engine: create the WebRTC element and add it to the pipeline.
    InstallWebRtcElement,
    /// Engine: deliver locally produced ICE candidates to the core.
    ConnectIceCandidateSignal,
    /// Engine: report new pads to the core.
    ConnectPadAddedSignal,
    /// Engine: report negotiation-needed events to the core from now on.
    ArmNegotiationTrigger,
    /// Engine: set the pipeline playing.
    StartPipeline,
    /// Engine: stop the pipeline.
    StopPipeline,
    /// Engine: create a decoder for an incoming stream and add it to the
    /// pipeline.
    InstallDecodeElement,
    /// Engine: report the decoder's resolved pads to the core.
    ConnectDecodePadSignal,
    /// Engine: state-synchronize the decoder with the running pipeline.
    SyncDecodeElement,
    /// Engine: link the WebRTC element's new pad into the decoder.
    LinkWebRtcToDecodeElement,
    /// Engine: build and synchronize this playback chain.
    BuildPlaybackChain(PlaybackChain),
    /// Transport: tell the remote side that negotiation is needed.
    NotifyNegotiationNeeded,
    /// Transport: relay this locally produced ICE candidate.
    RelayIceCandidate(IceCandidate),
    /// Transport: close the session, with a human-readable reason.
    CloseSignaller(String),
    /// Report a recoverable negotiation error; the session stays up.
    ReportError(String),
}

/// Whether an action sequence arms the negotiation trigger.
pub open spec fn arms_negotiation(actions: Seq<Action>) -> bool {
    exists|i: int| 0 <= i < actions.len() && actions[i] is ArmNegotiationTrigger
}

/// Whether an action sequence starts the pipeline.
pub open spec fn starts_pipeline(actions: Seq<Action>) -> bool {
    exists|i: int| 0 <= i < actions.len() && actions[i] is StartPipeline
}

/// An action sequence with no latch action in it neither arms the
/// negotiation trigger nor starts the pipeline.
pub proof fn lemma_latch_untouched(actions: Seq<Action>)
    requires
        forall|i: int|
            0 <= i < actions.len() ==> !(#[trigger] actions[i] is ArmNegotiationTrigger)
                && !(actions[i] is StartPipeline),
    ensures
        !arms_negotiation(actions),
        !starts_pipeline(actions),
{
}

} // verus!
