//! The actor front-end and the event dispatcher. Every public operation
//! becomes a queued event; a single consumer drains the queue in
//! submission order and applies each event to the controller before the
//! next, so no two operations ever interleave on the state machine.

use vstd::prelude::*;

use crate::actions::{arms_negotiation, lemma_latch_untouched, starts_pipeline, Action};
use crate::controller::{
    allow_local_description, allow_remote_description, next_after_local, next_after_remote,
    GStreamerWebRtcController, WebRtcControllerState,
};
use crate::session::{BundlePolicy, IceCandidate, MediaStream, SessionDescription};
use crate::state::{AppState, ProtocolError};

verus! {

/// One queued operation, in the order the handles submitted them.
/// Completion callbacks are the embedder's: it pairs each event's outcome
/// with the callback of the call that enqueued it, in queue order.
#[derive(Clone, Debug, PartialEq, Eq)]
pub enum RtcThreadEvent {
    ConfigureStun(String, BundlePolicy),
    SetRemoteDescription(SessionDescription),
    SetLocalDescription(SessionDescription),
    AddIceCandidate(IceCandidate),
    CreateOffer,
    CreateAnswer,
    AddStream(MediaStream),
}

/// What one dispatched event produced: the actions for the collaborators,
/// or the fatal protocol violation that rejected it.
pub type EventOutcome = Result<Vec<Action>, ProtocolError>;

/// Whether the state machine accepts the event in state `s`.
pub open spec fn event_allowed(s: AppState, ev: RtcThreadEvent) -> bool {
    match ev {
        RtcThreadEvent::ConfigureStun(..) => true,
        RtcThreadEvent::SetRemoteDescription(..) => allow_remote_description(s),
        RtcThreadEvent::SetLocalDescription(..) => allow_local_description(s),
        RtcThreadEvent::AddIceCandidate(..) => true,
        RtcThreadEvent::CreateOffer => s is PeerCallNegotiating,
        RtcThreadEvent::CreateAnswer => s is PeerCallNegotiatingHaveRemote,
        RtcThreadEvent::AddStream(..) => true,
    }
}

/// The protocol error an event rejected in state `s` is reported with.
pub open spec fn event_error(s: AppState, ev: RtcThreadEvent) -> ProtocolError
    recommends
        !event_allowed(s, ev),
{
    match ev {
        RtcThreadEvent::CreateOffer => ProtocolError::NotNegotiatingCall,
        RtcThreadEvent::CreateAnswer => ProtocolError::NoOfferReceived,
        _ => ProtocolError::NotReadyForSdp,
    }
}

/// The controller state after an accepted event.
pub open spec fn event_step(
    cs: WebRtcControllerState,
    ev: RtcThreadEvent,
) -> WebRtcControllerState
    recommends
        event_allowed(cs.app_state, ev),
{
    match ev {
        RtcThreadEvent::SetRemoteDescription(..) => WebRtcControllerState {
            app_state: next_after_remote(cs.app_state),
            ready_to_negotiate: cs.ready_to_negotiate,
            webrtc_installed: cs.webrtc_installed,
        },
        RtcThreadEvent::SetLocalDescription(..) => WebRtcControllerState {
            app_state: next_after_local(cs.app_state),
            ready_to_negotiate: cs.ready_to_negotiate,
            webrtc_installed: cs.webrtc_installed,
        },
        RtcThreadEvent::AddStream(..) => WebRtcControllerState {
            app_state: cs.app_state,
            ready_to_negotiate: true,
            webrtc_installed: cs.webrtc_installed,
        },
        _ => cs,
    }
}

/// The controller state after one event: an accepted event steps the
/// machine, a rejected one aborts and leaves the state untouched.
pub open spec fn apply_one(cs: WebRtcControllerState, ev: RtcThreadEvent) -> WebRtcControllerState {
    if event_allowed(cs.app_state, ev) {
        event_step(cs, ev)
    } else {
        cs
    }
}

/// The controller state after a queue of events, applied front to back.
pub open spec fn apply_events(
    cs: WebRtcControllerState,
    evs: Seq<RtcThreadEvent>,
) -> WebRtcControllerState
    decreases evs.len(),
{
    if evs.len() == 0 {
        cs
    } else {
        apply_events(apply_one(cs, evs[0]), evs.subrange(1, evs.len() as int))
    }
}

/// Whether the event, dispatched in state `cs`, arms the negotiation
/// trigger and starts the pipeline: exactly the first stream attachment.
pub open spec fn step_arms(cs: WebRtcControllerState, ev: RtcThreadEvent) -> bool {
    ev is AddStream && !cs.ready_to_negotiate
}

/// The whole contract of dispatching one event in state `cs`: the event
/// is accepted exactly when the state machine allows it, a rejection
/// carries the right protocol error, and an acceptance carries exactly
/// the actions the operation stands for.
pub open spec fn outcome_matches(
    cs: WebRtcControllerState,
    ev: RtcThreadEvent,
    r: EventOutcome,
) -> bool {
    &&& (r is Ok <==> event_allowed(cs.app_state, ev))
    &&& (r matches Err(e) ==> e == event_error(cs.app_state, ev))
    &&& (r matches Ok(acts) ==> match ev {
        RtcThreadEvent::ConfigureStun(s, p) => acts@.len() == 2
            && (acts@[0] matches Action::SetStunServer(s2) && s2@ == s@)
            && acts@[1] == Action::SetBundlePolicy(p),
        RtcThreadEvent::SetRemoteDescription(d) => acts@.len() == 1
            && (acts@[0] matches Action::ApplyDescription(l, ed) && l == false
                && ed.kind == crate::session::engine_kind_of(d.type_) && ed.sdp@ == d.sdp@),
        RtcThreadEvent::SetLocalDescription(d) => acts@.len() == 1
            && (acts@[0] matches Action::ApplyDescription(l, ed) && l == true
                && ed.kind == crate::session::engine_kind_of(d.type_) && ed.sdp@ == d.sdp@),
        RtcThreadEvent::AddIceCandidate(c) => acts@.len() == 1
            && (acts@[0] matches Action::EmitIceCandidate(i, t) && i == c.sdp_mline_index
                && t@ == c.candidate@),
        RtcThreadEvent::CreateOffer => acts@.len() == 1 && acts@[0] == Action::RequestOffer,
        RtcThreadEvent::CreateAnswer => acts@.len() == 1 && acts@[0] == Action::RequestAnswer,
        RtcThreadEvent::AddStream(m) => acts@.len() >= 1 && acts@[0] == Action::AttachStream(m)
            && (cs.ready_to_negotiate ==> acts@.len() == 1) && (!cs.ready_to_negotiate
            ==> acts@.len() == 3 && acts@[1] == Action::ArmNegotiationTrigger && acts@[2]
            == Action::StartPipeline),
    })
}

/// Appending one event to a queue applies it after all the others.
pub proof fn lemma_apply_events_snoc(
    cs: WebRtcControllerState,
    evs: Seq<RtcThreadEvent>,
    ev: RtcThreadEvent,
)
    ensures
        apply_events(cs, evs.push(ev)) == apply_one(apply_events(cs, evs), ev),
    decreases evs.len(),
{
    let s = evs.push(ev);
    if evs.len() == 0 {
        assert(s[0] == ev);
        assert(s.subrange(1, 1) =~= Seq::<RtcThreadEvent>::empty());
        assert(apply_events(apply_one(cs, ev), Seq::<RtcThreadEvent>::empty()) == apply_one(
            cs,
            ev,
        ));
        assert(apply_events(cs, s) == apply_one(cs, ev));
        assert(apply_events(cs, evs) == cs);
    } else {
        assert(s[0] == evs[0]);
        assert(s.subrange(1, s.len() as int) =~= evs.subrange(1, evs.len() as int).push(ev));
        assert(apply_events(cs, s) == apply_events(apply_one(cs, s[0]), s.subrange(
            1,
            s.len() as int,
        )));
        assert(apply_events(cs, evs) == apply_events(apply_one(cs, evs[0]), evs.subrange(
            1,
            evs.len() as int,
        )));
        lemma_apply_events_snoc(apply_one(cs, evs[0]), evs.subrange(1, evs.len() as int), ev);
    }
}

/// Splitting a queue applies the first part, then the second.
pub proof fn lemma_apply_events_concat(
    cs: WebRtcControllerState,
    evs1: Seq<RtcThreadEvent>,
    evs2: Seq<RtcThreadEvent>,
)
    ensures
        apply_events(cs, evs1 + evs2) == apply_events(apply_events(cs, evs1), evs2),
    decreases evs1.len(),
{
    if evs1.len() == 0 {
        assert(evs1 + evs2 =~= evs2);
    } else {
        assert((evs1 + evs2)[0] == evs1[0]);
        assert((evs1 + evs2).subrange(1, (evs1 + evs2).len() as int) =~= evs1.subrange(
            1,
            evs1.len() as int,
        ) + evs2);
        lemma_apply_events_concat(apply_one(cs, evs1[0]), evs1.subrange(1, evs1.len() as int), evs2);
    }
}

/// Law: dispatch order is exactly submission order. Event `i` of a queued
/// run is applied to precisely the state produced by events `0..i`, so the
/// whole run is the in-order fold of the single global queue — FIFO, with
/// no reordering between handles, since every handle appends to the back
/// of the same queue.
pub proof fn lemma_dispatch_fifo_order(
    cs: WebRtcControllerState,
    evs: Seq<RtcThreadEvent>,
    i: int,
)
    requires
        0 <= i < evs.len(),
    ensures
        apply_events(cs, evs.take(i + 1)) == apply_one(apply_events(cs, evs.take(i)), evs[i]),
{
    assert(evs.take(i + 1) =~= evs.take(i).push(evs[i]));
    lemma_apply_events_snoc(cs, evs.take(i), evs[i]);
}

/// Once the negotiation latch is armed, no run of queued events disarms
/// it.
pub proof fn lemma_latch_stays_armed(cs: WebRtcControllerState, evs: Seq<RtcThreadEvent>)
    requires
        cs.ready_to_negotiate,
    ensures
        apply_events(cs, evs).ready_to_negotiate,
    decreases evs.len(),
{
    if evs.len() > 0 {
        lemma_latch_stays_armed(apply_one(cs, evs[0]), evs.subrange(1, evs.len() as int));
    }
}

/// Law: queued events only move the state machine forward. Outside the
/// terminal error states, no event moves the negotiation phase backwards
/// along the happy path, and no queued event enters an error state.
pub proof fn lemma_events_move_forward(cs: WebRtcControllerState, ev: RtcThreadEvent)
    requires
        !crate::state::is_error_state(cs.app_state),
    ensures
        !crate::state::is_error_state(apply_one(cs, ev).app_state),
        crate::state::happy_rank(apply_one(cs, ev).app_state) >= crate::state::happy_rank(
            cs.app_state,
        ),
{
}

/// Law: the negotiation latch is one-shot. Over any run of queued events,
/// at most one event arms the negotiation trigger and starts the
/// pipeline, no matter how many streams are attached afterwards.
pub proof fn lemma_negotiation_armed_at_most_once(
    cs: WebRtcControllerState,
    evs: Seq<RtcThreadEvent>,
    i: int,
    j: int,
)
    requires
        0 <= i < j < evs.len(),
        step_arms(apply_events(cs, evs.take(i)), evs[i]),
    ensures
        !step_arms(apply_events(cs, evs.take(j)), evs[j]),
{
    lemma_dispatch_fifo_order(cs, evs, i);
    let armed = apply_events(cs, evs.take(i + 1));
    assert(armed.ready_to_negotiate);
    assert(evs.take(j) =~= evs.take(i + 1) + evs.take(j).subrange(i + 1, j));
    lemma_apply_events_concat(cs, evs.take(i + 1), evs.take(j).subrange(i + 1, j));
    lemma_latch_stays_armed(armed, evs.take(j).subrange(i + 1, j));
}

/// Entry point for all client interactions with one peer connection: a
/// cheap handle whose operations only append events to the single queue,
/// never touching the controller state. Submission never blocks and never
/// fails; all validation happens when the dispatcher applies the event.
#[derive(Debug)]
pub struct WebRtcController {
    events: Vec<RtcThreadEvent>,
}

impl View for WebRtcController {
    type V = Seq<RtcThreadEvent>;

    /// The pending events, front to back.
    closed spec fn view(&self) -> Seq<RtcThreadEvent> {
        self.events@
    }
}

impl WebRtcController {
    /// A handle with an empty queue.
    pub fn new() -> (c: WebRtcController)
        ensures
            c@ == Seq::<RtcThreadEvent>::empty(),
    {
        WebRtcController { events: Vec::new() }
    }

    /// Queues a configuration of the STUN server and bundle policy.
    pub fn configure(&mut self, stun_server: String, policy: BundlePolicy)
        ensures
            final(self)@ == old(self)@.push(RtcThreadEvent::ConfigureStun(stun_server, policy)),
    {
        self.events.push(RtcThreadEvent::ConfigureStun(stun_server, policy));
    }

    /// Queues the application of a remote description.
    pub fn set_remote_description(&mut self, desc: SessionDescription)
        ensures
            final(self)@ == old(self)@.push(RtcThreadEvent::SetRemoteDescription(desc)),
    {
        self.events.push(RtcThreadEvent::SetRemoteDescription(desc));
    }

    /// Queues the application of a local description.
    pub fn set_local_description(&mut self, desc: SessionDescription)
        ensures
            final(self)@ == old(self)@.push(RtcThreadEvent::SetLocalDescription(desc)),
    {
        self.events.push(RtcThreadEvent::SetLocalDescription(desc));
    }

    /// Queues a remote ICE candidate for the engine.
    pub fn add_ice_candidate(&mut self, candidate: IceCandidate)
        ensures
            final(self)@ == old(self)@.push(RtcThreadEvent::AddIceCandidate(candidate)),
    {
        self.events.push(RtcThreadEvent::AddIceCandidate(candidate));
    }

    /// Queues an offer request.
    pub fn create_offer(&mut self)
        ensures
            final(self)@ == old(self)@.push(RtcThreadEvent::CreateOffer),
    {
        self.events.push(RtcThreadEvent::CreateOffer);
    }

    /// Queues an answer request.
    pub fn create_answer(&mut self)
        ensures
            final(self)@ == old(self)@.push(RtcThreadEvent::CreateAnswer),
    {
        self.events.push(RtcThreadEvent::CreateAnswer);
    }

    /// Queues the attachment of a caller-owned stream.
    pub fn add_stream(&mut self, stream: MediaStream)
        ensures
            final(self)@ == old(self)@.push(RtcThreadEvent::AddStream(stream)),
    {
        self.events.push(RtcThreadEvent::AddStream(stream));
    }
}

/// Applies one queued event to the controller. A rejected event reports
/// its protocol error and leaves the state untouched; an accepted one
/// steps the state machine and returns the actions for the collaborators.
pub fn handle_rtc_event(
    controller: &mut GStreamerWebRtcController,
    event: RtcThreadEvent,
) -> (r: EventOutcome)
    requires
        old(controller).wf(),
    ensures
        final(controller).wf(),
        final(controller).0 == apply_one(old(controller).0, event),
        outcome_matches(old(controller).0, event, r),
        (r matches Ok(acts) ==> (arms_negotiation(acts@) <==> step_arms(old(controller).0, event))),
        (r matches Ok(acts) ==> (starts_pipeline(acts@) <==> step_arms(old(controller).0, event))),
{
    match event {
        RtcThreadEvent::ConfigureStun(server, policy) => {
            let acts = controller.configure(server.as_str(), policy);
            proof {
                lemma_latch_untouched(acts@);
            }
            Ok(acts)
        },
        RtcThreadEvent::SetRemoteDescription(desc) => {
            match controller.set_remote_description(desc) {
                Ok(acts) => {
                    proof {
                        lemma_latch_untouched(acts@);
                    }
                    Ok(acts)
                },
                Err(e) => Err(e),
            }
        },
        RtcThreadEvent::SetLocalDescription(desc) => {
            match controller.set_local_description(desc) {
                Ok(acts) => {
                    proof {
                        lemma_latch_untouched(acts@);
                    }
                    Ok(acts)
                },
                Err(e) => Err(e),
            }
        },
        RtcThreadEvent::AddIceCandidate(candidate) => {
            let mut acts: Vec<Action> = Vec::new();
            acts.push(controller.add_ice_candidate(candidate));
            proof {
                lemma_latch_untouched(acts@);
            }
            Ok(acts)
        },
        RtcThreadEvent::CreateOffer => {
            match controller.create_offer() {
                Ok(acts) => {
                    proof {
                        lemma_latch_untouched(acts@);
                    }
                    Ok(acts)
                },
                Err(e) => Err(e),
            }
        },
        RtcThreadEvent::CreateAnswer => {
            match controller.create_answer() {
                Ok(acts) => {
                    proof {
                        lemma_latch_untouched(acts@);
                    }
                    Ok(acts)
                },
                Err(e) => Err(e),
            }
        },
        RtcThreadEvent::AddStream(stream) => {
            let acts = controller.add_stream(&stream);
            Ok(acts)
        },
    }
}

/// Drains the queue: every pending event is applied to the controller in
/// submission order, each one against exactly the state the events before
/// it produced, and its outcome is reported in the same order — the order
/// completion callbacks fire in.
pub fn dispatch_events(
    handle: &mut WebRtcController,
    controller: &mut GStreamerWebRtcController,
) -> (outcomes: Vec<EventOutcome>)
    requires
        old(controller).wf(),
    ensures
        final(controller).wf(),
        final(handle)@ == Seq::<RtcThreadEvent>::empty(),
        final(controller).0 == apply_events(old(controller).0, old(handle)@),
        outcomes@.len() == old(handle)@.len(),
        forall|i: int| #![trigger outcomes@[i]]
            0 <= i < outcomes@.len() ==> outcome_matches(
                apply_events(old(controller).0, old(handle)@.take(i)),
                old(handle)@[i],
                outcomes@[i],
            ),
        forall|i: int| #![trigger outcomes@[i]]
            0 <= i < outcomes@.len() ==> (outcomes@[i] matches Ok(acts) ==> (starts_pipeline(acts@)
                <==> step_arms(
                apply_events(old(controller).0, old(handle)@.take(i)),
                old(handle)@[i],
            ))),
{
    let ghost queue0 = handle@;
    let ghost cs0 = controller.0;
    let mut outcomes: Vec<EventOutcome> = Vec::new();
    let ghost k: int = 0;
    while handle.events.len() > 0
        invariant
            controller.wf(),
            0 <= k <= queue0.len(),
            handle.events@ == queue0.skip(k),
            controller.0 == apply_events(cs0, queue0.take(k)),
            outcomes@.len() == k,
            forall|i: int| #![trigger outcomes@[i]]
                0 <= i < k ==> outcome_matches(
                    apply_events(cs0, queue0.take(i)),
                    queue0[i],
                    outcomes@[i],
                ),
            forall|i: int| #![trigger outcomes@[i]]
                0 <= i < k ==> (outcomes@[i] matches Ok(acts) ==> (starts_pipeline(acts@)
                    <==> step_arms(apply_events(cs0, queue0.take(i)), queue0[i]))),
        decreases queue0.len() - k,
    {
        let event = handle.events.remove(0);
        proof {
            assert(event == queue0[k]);
            assert(queue0.skip(k).remove(0) =~= queue0.skip(k + 1));
        }
        let outcome = handle_rtc_event(controller, event);
        outcomes.push(outcome);
        proof {
            lemma_dispatch_fifo_order(cs0, queue0, k);
            assert(queue0.take(k + 1).take(k) =~= queue0.take(k));
            k = k + 1;
        }
    }
    proof {
        assert(queue0.skip(k).len() == 0);
        assert(k == queue0.len());
        assert(queue0.take(k) =~= queue0);
        assert(handle.events@ =~= Seq::<RtcThreadEvent>::empty());
    }
    outcomes
}

} // verus!
