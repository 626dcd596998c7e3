//! Immutable value types exchanged at the session boundary: SDP types,
//! session descriptions, ICE candidates, bundle policies and media-stream
//! handles, together with the conversions between the core's SDP type tags
//! and the media engine's.

use vstd::prelude::*;

verus! {

/// The tag of a session description in the offer/answer exchange.
#[derive(Clone, Copy, Debug, PartialEq, Eq, Structural)]
pub enum SdpType {
    Answer,
    Offer,
    Pranswer,
    Rollback,
}

/// An SDP session description: a type tag plus the SDP text, treated as
/// opaque at this layer. Immutable once constructed.
#[derive(Clone, Debug, PartialEq, Eq)]
pub struct SessionDescription {
    pub type_: SdpType,
    pub sdp: String,
}

/// A proposed network path for peer connectivity, exchanged out-of-band
/// through the signaling transport. The candidate text is opaque here.
#[derive(Clone, Debug, PartialEq, Eq)]
pub struct IceCandidate {
    pub sdp_mline_index: u32,
    pub candidate: String,
}

/// A strategy controlling whether multiple media lines share one
/// transport; forwarded verbatim to the media engine.
#[derive(Clone, Copy, Debug, PartialEq, Eq, Structural)]
pub enum BundlePolicy {
    Balanced,
    MaxCompat,
    MaxBundle,
}

/// The wire spelling of a bundle policy, as the media engine expects it.
pub open spec fn bundle_policy_text(p: BundlePolicy) -> Seq<char> {
    match p {
        BundlePolicy::Balanced => "balanced"@,
        BundlePolicy::MaxCompat => "max-compat"@,
        BundlePolicy::MaxBundle => "max-bundle"@,
    }
}

impl BundlePolicy {
    /// The textual form handed to the media engine's configuration.
    pub fn as_str(&self) -> (r: &'static str)
        ensures
            r@ == bundle_policy_text(*self),
    {
        match self {
            BundlePolicy::Balanced => "balanced",
            BundlePolicy::MaxCompat => "max-compat",
            BundlePolicy::MaxBundle => "max-bundle",
        }
    }
}

/// An opaque handle to a caller-owned media stream. The core never looks
/// inside it; it only forwards the attachment capability to the pipeline.
#[derive(Clone, Copy, Debug, PartialEq, Eq, Structural)]
pub struct MediaStream {
    pub id: u64,
}

/// The media kind of a track, once the engine has resolved it.
#[derive(Clone, Copy, Debug, PartialEq, Eq, Structural)]
pub enum MediaType {
    Audio,
    Video,
}

/// The direction of a pipeline pad reported by the media engine.
#[derive(Clone, Copy, Debug, PartialEq, Eq, Structural)]
pub enum PadDirection {
    Unknown,
    Src,
    Sink,
}

/// The media engine's own tag for a session description. The engine may
/// report a tag outside the offer/answer vocabulary; `Unspecified` stands
/// for any such reply.
#[derive(Clone, Copy, Debug, PartialEq, Eq, Structural)]
pub enum EngineSdpKind {
    Answer,
    Offer,
    Pranswer,
    Rollback,
    Unspecified,
}

/// A session description in the media engine's form: the engine's tag
/// plus the SDP text.
#[derive(Clone, Debug, PartialEq, Eq)]
pub struct EngineDescription {
    pub kind: EngineSdpKind,
    pub sdp: String,
}

/// The engine tag that corresponds to an SDP type tag.
pub open spec fn engine_kind_of(t: SdpType) -> EngineSdpKind {
    match t {
        SdpType::Answer => EngineSdpKind::Answer,
        SdpType::Offer => EngineSdpKind::Offer,
        SdpType::Pranswer => EngineSdpKind::Pranswer,
        SdpType::Rollback => EngineSdpKind::Rollback,
    }
}

/// The SDP type tag that corresponds to an engine tag, if any.
pub open spec fn sdp_type_of_engine_kind(k: EngineSdpKind) -> Option<SdpType> {
    match k {
        EngineSdpKind::Answer => Some(SdpType::Answer),
        EngineSdpKind::Offer => Some(SdpType::Offer),
        EngineSdpKind::Pranswer => Some(SdpType::Pranswer),
        EngineSdpKind::Rollback => Some(SdpType::Rollback),
        EngineSdpKind::Unspecified => None,
    }
}

/// Converts an SDP type tag to the media engine's tag.
pub fn sdp_type_to_engine(t: SdpType) -> (k: EngineSdpKind)
    ensures
        k == engine_kind_of(t),
{
    match t {
        SdpType::Answer => EngineSdpKind::Answer,
        SdpType::Offer => EngineSdpKind::Offer,
        SdpType::Pranswer => EngineSdpKind::Pranswer,
        SdpType::Rollback => EngineSdpKind::Rollback,
    }
}

/// Converts a media-engine tag back to an SDP type tag; `None` exactly
/// when the engine reported a tag outside the offer/answer vocabulary.
pub fn engine_kind_to_sdp_type(k: EngineSdpKind) -> (r: Option<SdpType>)
    ensures
        r == sdp_type_of_engine_kind(k),
{
    match k {
        EngineSdpKind::Answer => Some(SdpType::Answer),
        EngineSdpKind::Offer => Some(SdpType::Offer),
        EngineSdpKind::Pranswer => Some(SdpType::Pranswer),
        EngineSdpKind::Rollback => Some(SdpType::Rollback),
        EngineSdpKind::Unspecified => None,
    }
}

/// Law: converting an SDP type tag to the engine's tag and back returns
/// the original tag, so a description handed to the engine and read back
/// keeps its type exactly.
pub proof fn lemma_sdp_type_round_trip(t: SdpType)
    ensures
        sdp_type_of_engine_kind(engine_kind_of(t)) == Some(t),
{
}

} // verus!
