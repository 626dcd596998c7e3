//! Incoming-track handling: classifying a resolved pad's media kind from
//! its capability name and planning the playback chain the engine builds
//! for it.

use vstd::prelude::*;

use crate::actions::{chain_elements, Action, ElementKind, PlaybackChain};
use crate::session::MediaType;

verus! {

/// What the engine reports about a pad once the decoder resolves it:
/// whether capabilities are known yet, and the capability name
/// (for example `audio/x-raw`).
#[derive(Clone, Debug, PartialEq, Eq)]
pub struct PadInfo {
    pub has_caps: bool,
    pub caps_name: String,
}

/// The media kind named by a capability string: a `video` prefix means a
/// video track, an `audio` prefix an audio track, anything else is not a
/// track this core plays back.
pub open spec fn caps_media_type(name: Seq<char>) -> Option<MediaType> {
    if name.len() >= 5 && name.subrange(0, 5) == "video"@ {
        Some(MediaType::Video)
    } else if name.len() >= 5 && name.subrange(0, 5) == "audio"@ {
        Some(MediaType::Audio)
    } else {
        None
    }
}

/// Whether `prefix` is a prefix of `s`, by characters.
fn str_has_prefix(s: &str, prefix: &str) -> (r: bool)
    ensures
        r == (prefix@.len() <= s@.len() && s@.subrange(0, prefix@.len() as int) == prefix@),
{
    let s_len = s.unicode_len();
    let p_len = prefix.unicode_len();
    if p_len > s_len {
        return false;
    }
    let mut i: usize = 0;
    while i < p_len
        invariant
            i <= p_len,
            p_len <= s_len,
            p_len == prefix@.len(),
            s_len == s@.len(),
            forall|j: int| 0 <= j < i ==> s@[j] == prefix@[j],
        decreases p_len - i,
    {
        if s.get_char(i) != prefix.get_char(i) {
            proof {
                assert(s@.subrange(0, p_len as int)[i as int] == s@[i as int]);
            }
            return false;
        }
        i += 1;
    }
    proof {
        assert(s@.subrange(0, p_len as int) =~= prefix@);
    }
    true
}

/// Plans the minimal playback chain for a track of the given kind: a
/// queue, then format conversion, then (for audio) resampling, then an
/// automatic sink, each to be added, linked in order and synchronized
/// with the running pipeline.
pub fn handle_media_stream(media_type: MediaType) -> (c: PlaybackChain)
    ensures
        c.media_type == media_type,
        c.elements@ == chain_elements(media_type),
{
    let mut elements: Vec<ElementKind> = Vec::new();
    match media_type {
        MediaType::Audio => {
            elements.push(ElementKind::Queue);
            elements.push(ElementKind::AudioConvert);
            elements.push(ElementKind::AudioResample);
            elements.push(ElementKind::AutoAudioSink);
        },
        MediaType::Video => {
            elements.push(ElementKind::Queue);
            elements.push(ElementKind::VideoConvert);
            elements.push(ElementKind::AutoVideoSink);
        },
    }
    proof {
        assert(elements@ =~= chain_elements(media_type));
    }
    PlaybackChain { media_type, elements }
}

/// Delegates demuxing of a newly reported source pad to a decoder: the
/// decoder is installed, its pad notifications are connected, it is
/// synchronized with the running pipeline, and the WebRTC element is
/// linked into it.
pub fn on_incoming_stream() -> (r: Vec<Action>)
    ensures
        r@.len() == 4,
        r@[0] == Action::InstallDecodeElement,
        r@[1] == Action::ConnectDecodePadSignal,
        r@[2] == Action::SyncDecodeElement,
        r@[3] == Action::LinkWebRtcToDecodeElement,
{
    let mut actions: Vec<Action> = Vec::new();
    actions.push(Action::InstallDecodeElement);
    actions.push(Action::ConnectDecodePadSignal);
    actions.push(Action::SyncDecodeElement);
    actions.push(Action::LinkWebRtcToDecodeElement);
    actions
}

/// Handles a pad resolved by the decoder. A pad without capabilities is
/// ignored; a pad whose capability name is neither audio nor video is
/// ignored; otherwise exactly one playback chain is planned for its
/// media kind. A failure to build the chain is reported by the embedder
/// as a recoverable error and does not tear the session down.
pub fn on_incoming_decodebin_stream(pad: &PadInfo) -> (r: Vec<Action>)
    ensures
        !pad.has_caps ==> r@.len() == 0,
        pad.has_caps && caps_media_type(pad.caps_name@) is None ==> r@.len() == 0,
        pad.has_caps ==> (caps_media_type(pad.caps_name@) matches Some(m) ==> r@.len() == 1
            && (r@[0] matches Action::BuildPlaybackChain(c) && c.media_type == m
                && c.elements@ == chain_elements(m))),
{
    let mut actions: Vec<Action> = Vec::new();
    if !pad.has_caps {
        return actions;
    }
    proof {
        reveal_strlit("video");
        reveal_strlit("audio");
    }
    let chain = if str_has_prefix(pad.caps_name.as_str(), "video") {
        handle_media_stream(MediaType::Video)
    } else if str_has_prefix(pad.caps_name.as_str(), "audio") {
        handle_media_stream(MediaType::Audio)
    } else {
        return actions;
    };
    actions.push(Action::BuildPlaybackChain(chain));
    actions
}

} // verus!
