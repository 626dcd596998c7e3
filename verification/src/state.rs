//! The signaling state machine: the ordered negotiation phases of one peer
//! connection, the comparison the protocol relies on, and the fatal
//! protocol-violation errors.

use vstd::prelude::*;

verus! {

/// The negotiation phase of one peer connection. The happy path is the
/// chain `ServerConnected` through `PeerCallStarted`; the error variants
/// are terminal for the connection attempt and are not ordered against
/// the happy path.
#[derive(Clone, Copy, Debug, PartialEq, Eq, Structural)]
pub enum AppState {
    Error,
    ServerConnected,
    ServerRegistering,
    ServerRegisteringError,
    ServerRegistered,
    PeerConnecting,
    PeerConnectionError,
    PeerConnected,
    PeerCallNegotiating,
    PeerCallNegotiatingHaveLocal,
    PeerCallNegotiatingHaveRemote,
    PeerCallStarted,
    PeerCallError,
}

/// Whether a state is one of the terminal error variants.
pub open spec fn is_error_state(s: AppState) -> bool {
    match s {
        AppState::Error => true,
        AppState::ServerRegisteringError => true,
        AppState::PeerConnectionError => true,
        AppState::PeerCallError => true,
        _ => false,
    }
}

/// The position of a non-error state along the happy path. The two
/// `PeerCallNegotiatingHave*` states share a rank: they are the two
/// possible middle points of one offer/answer exchange.
pub open spec fn happy_rank(s: AppState) -> int
    recommends
        !is_error_state(s),
{
    match s {
        AppState::ServerConnected => 0,
        AppState::ServerRegistering => 1,
        AppState::ServerRegistered => 2,
        AppState::PeerConnecting => 3,
        AppState::PeerConnected => 4,
        AppState::PeerCallNegotiating => 5,
        AppState::PeerCallNegotiatingHaveLocal => 6,
        AppState::PeerCallNegotiatingHaveRemote => 6,
        AppState::PeerCallStarted => 7,
        _ => -1,
    }
}

/// Whether negotiation of the call has begun: the one ordered comparison
/// the protocol makes. A locally produced ICE candidate is legal only in
/// these states. `PeerCallError` counts: it is reachable only after
/// negotiation began.
pub open spec fn reached_negotiation(s: AppState) -> bool {
    match s {
        AppState::PeerCallNegotiating => true,
        AppState::PeerCallNegotiatingHaveLocal => true,
        AppState::PeerCallNegotiatingHaveRemote => true,
        AppState::PeerCallStarted => true,
        AppState::PeerCallError => true,
        _ => false,
    }
}

/// Decides whether negotiation of the call has begun in state `s`.
pub fn state_reached_negotiation(s: AppState) -> (r: bool)
    ensures
        r == reached_negotiation(s),
{
    match s {
        AppState::PeerCallNegotiating => true,
        AppState::PeerCallNegotiatingHaveLocal => true,
        AppState::PeerCallNegotiatingHaveRemote => true,
        AppState::PeerCallStarted => true,
        AppState::PeerCallError => true,
        _ => false,
    }
}

/// A fatal protocol-contract violation: an operation was submitted in a
/// state that the signaling protocol forbids. Distinct from recoverable
/// media errors, which are reported to the transport and do not corrupt
/// the controller state.
#[derive(Clone, Copy, Debug, PartialEq, Eq, Structural)]
pub enum ProtocolError {
    /// A local or remote description arrived while no description of that
    /// side may be applied.
    NotReadyForSdp,
    /// An offer was requested while the call was not negotiating.
    NotNegotiatingCall,
    /// An answer was requested before a remote offer was applied.
    NoOfferReceived,
    /// A locally produced ICE candidate appeared before negotiation began.
    IceBeforeNegotiation,
    /// The media engine replied to an offer or answer request with a
    /// description tag outside the offer/answer vocabulary.
    UnknownSdpReply,
}

} // verus!
