//! What holds of a registration session over every run of events.

use vstd::prelude::*;
use crate::messages::TopologyProxyConfig;
use crate::proxy_client::{RegistrationStep, SessionEvent, SessionView, StepKind};
use crate::retry::{MAX_DELAY_SECS, MIN_DELAY_SECS};

verus! {

/// Whatever happens to a session, its retry delay stays between one and
/// fifteen seconds, and it holds a last heartbeat only while it holds an
/// identity.
pub proof fn lemma_delay_stays_bounded(session: SessionView, events: Seq<(SessionEvent, u64)>)
    requires
        session.wf(),
    ensures
        session.after_all(events).wf(),
        MIN_DELAY_SECS <= session.after_all(events).current_delay <= MAX_DELAY_SECS,
        session.after_all(events).service_id.is_none() ==> session.after_all(
            events,
        ).last_heartbeat_at.is_none(),
    decreases events.len(),
{
    if events.len() > 0 {
        lemma_delay_stays_bounded(session, events.drop_last());
    }
}

/// A failure never shortens the retry delay and never leaves it at one
/// second: the delay is back at one second only right after a registration
/// that succeeded.
pub proof fn lemma_delay_resets_only_on_success(
    session: SessionView,
    event: SessionEvent,
    now: u64,
)
    requires
        session.wf(),
    ensures
        event.is_failure() ==> session.after(event, now).current_delay >= 2,
        event.is_failure() ==> session.after(event, now).current_delay >= session.current_delay,
        session.after(event, now).current_delay < session.current_delay ==> event
            is Registration && event->Registration_0.is_some() && session.after(
            event,
            now,
        ).current_delay == MIN_DELAY_SECS,
{
}

/// A registered session keeps an identity for as long as no event takes it
/// away: no failed heartbeat or report, no invalidation, no unregistration.
pub proof fn lemma_identity_persists(session: SessionView, events: Seq<(SessionEvent, u64)>)
    requires
        session.service_id.is_some(),
        forall|i: int| 0 <= i < events.len() ==> !(#[trigger] events[i]).0.invalidating(),
    ensures
        session.after_all(events).service_id.is_some(),
        (forall|i: int| 0 <= i < events.len() ==> !((#[trigger] events[i]).0 is Registration))
            ==> session.after_all(events).service_id == session.service_id,
    decreases events.len(),
{
    if events.len() > 0 {
        let earlier = events.drop_last();
        assert forall|i: int| 0 <= i < earlier.len() implies !(#[trigger] earlier[i]).0.invalidating() by {
            assert(earlier[i] == events[i]);
        }
        lemma_identity_persists(session, earlier);
        if forall|i: int| 0 <= i < events.len() ==> !((#[trigger] events[i]).0 is Registration) {
            assert forall|i: int| 0 <= i < earlier.len() implies !((#[trigger] earlier[i]).0 is Registration) by {
                assert(earlier[i] == events[i]);
            }
        }
    }
}

/// An event that takes the identity away leaves none behind, whatever the
/// session held, and with the identity goes the last heartbeat. Only an
/// unregistration that finds no identity leaves the session as it was.
pub proof fn lemma_invalidation_clears_identity(
    session: SessionView,
    event: SessionEvent,
    now: u64,
)
    requires
        event.invalidating(),
    ensures
        session.after(event, now).service_id.is_none(),
        session.service_id.is_some() || !(event is Unregister) ==> session.after(
            event,
            now,
        ).last_heartbeat_at.is_none(),
        session.service_id.is_none() && event is Unregister ==> session.after(event, now)
            == session,
{
}

/// A failure at `now` puts the next attempt off by the delay that the session
/// held, which is at least a second: no attempt is due before that.
pub proof fn lemma_failure_defers_eligibility(session: SessionView, event: SessionEvent, now: u64)
    requires
        session.wf(),
        event.is_failure(),
        now <= u64::MAX - 1000 * MAX_DELAY_SECS,
    ensures
        session.after(event, now).next_retry_at == now + 1000 * session.current_delay,
        session.after(event, now).next_retry_at > now,
{
}

/// A call stays outstanding until its end is reported: whatever happens to
/// a session with a call under way, as long as no end of a registration or
/// heartbeat call is reported the call is still under way, and a tick at
/// any instant asks for nothing. Failed reports, invalidations and
/// unregistrations do not change that.
pub proof fn lemma_call_stays_outstanding(
    session: SessionView,
    events: Seq<(SessionEvent, u64)>,
    interval_ms: u64,
    now: u64,
)
    requires
        session.in_flight,
        forall|i: int| 0 <= i < events.len() ==> !(#[trigger] events[i]).0.ends_call(),
    ensures
        session.after_all(events).in_flight,
        session.after_all(events).tick(interval_ms, now) == StepKind::InFlight,
    decreases events.len(),
{
    if events.len() > 0 {
        let earlier = events.drop_last();
        assert forall|i: int| 0 <= i < earlier.len() implies !(#[trigger] earlier[i]).0.ends_call() by {
            assert(earlier[i] == events[i]);
        }
        lemma_call_stays_outstanding(session, earlier, interval_ms, now);
        assert(!events[events.len() - 1].0.ends_call());
    }
}

/// At most one call is asked for at a time: a tick never asks for a call
/// while one is under way, and the tick after one that asked for a call asks
/// for nothing.
pub proof fn lemma_one_call_at_a_time(
    session: SessionView,
    config: TopologyProxyConfig,
    first: RegistrationStep,
    first_at: u64,
    second: RegistrationStep,
    second_at: u64,
)
    requires
        session.plans(&config, first_at, first),
        session.after_step(first, first_at).plans(&config, second_at, second),
    ensures
        first.names_call() ==> !session.in_flight,
        first.names_call() ==> second is InFlight,
        session.in_flight ==> first is InFlight && second is InFlight,
{
}

/// A tick of a registered session never asks for a registration and never
/// touches identity, last heartbeat or retry state. With heartbeats switched
/// off and no call under way it asks for nothing and changes nothing.
pub proof fn lemma_tick_keeps_identity(
    session: SessionView,
    config: TopologyProxyConfig,
    step: RegistrationStep,
    now: u64,
)
    requires
        session.plans(&config, now, step),
    ensures
        session.after_step(step, now).service_id == session.service_id,
        session.after_step(step, now).last_heartbeat_at == session.last_heartbeat_at,
        session.after_step(step, now).next_retry_at == session.next_retry_at,
        session.after_step(step, now).current_delay == session.current_delay,
        session.service_id.is_some() ==> !(step is SendRegister),
        session.service_id.is_some() && !session.in_flight && config.heartbeat_interval_ms == 0
            ==> step is Registered && session.after_step(step, now) == session,
        !step.names_call() ==> session.after_step(step, now) == session,
{
}

/// A tick never asks for a registration before the retry deadline. With no
/// call under way it asks for one exactly when the session has no identity
/// and the deadline has come; with a call under way it asks for none.
pub proof fn lemma_registration_waits_for_deadline(
    session: SessionView,
    config: TopologyProxyConfig,
    step: RegistrationStep,
    now: u64,
)
    requires
        session.plans(&config, now, step),
    ensures
        step is SendRegister ==> now >= session.next_retry_at,
        step is SendRegister <==> !session.in_flight && session.service_id.is_none() && now
            >= session.next_retry_at,
        !session.in_flight ==> (step is SendRegister <==> session.service_id.is_none() && now
            >= session.next_retry_at),
        session.in_flight ==> !step.names_call(),
        now < session.next_retry_at ==> !(step is SendRegister),
{
}

/// Unregistering twice is unregistering once: after the first the session
/// holds no identity, so the second finds nothing to withdraw and changes
/// nothing. Unregistering a session without identity changes nothing at all.
pub proof fn lemma_unregister_idempotent(session: SessionView, first: u64, second: u64)
    ensures
        session.after(SessionEvent::Unregister, first).service_id.is_none(),
        session.service_id.is_none() ==> session.after(SessionEvent::Unregister, first)
            == session,
        session.after(SessionEvent::Unregister, first).in_flight == session.in_flight,
        session.after(SessionEvent::Unregister, first).after(SessionEvent::Unregister, second)
            == session.after(SessionEvent::Unregister, first),
{
}

} // verus!
