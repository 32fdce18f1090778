//! The probe-time state machine of one storage device: register mapping,
//! clock negotiation, host-controller initialization, registration. Fatal
//! probe conditions end the sequence without registering the device.

use vstd::prelude::*;

verus! {

/// Lifecycle of one storage device during probing.
#[derive(Clone, Copy, Debug, PartialEq, Eq, Structural)]
pub enum ProbeState {
    /// Nothing has happened for this device yet.
    Unprobed,
    /// Controller registers were located and mapped.
    RegistersMapped,
    /// The transfer-clock rate was resolved and applied.
    ClockNegotiated,
    /// The vendor host controller reported successful initialization.
    HostInitialized,
    /// The device is registered with the platform; transfers may be served.
    Registered,
    /// Host initialization failed; the device is still registered so upper
    /// layers can observe the degraded state, but no transfer is promised.
    InitFailed,
    /// A fatal probe condition (missing register description, failed mapping,
    /// unsynthesizable clock rate) ended the sequence; the device is never
    /// registered and no queue adapter becomes reachable.
    Aborted,
}

/// What the surrounding probe code reports back into the state machine.
#[derive(Clone, Copy, Debug, PartialEq, Eq, Structural)]
pub enum ProbeEvent {
    /// The register description was found and mapped.
    MapOk,
    /// No register description, or mapping failed.
    MapFailed,
    /// Clock negotiation applied a supported rate.
    ClockOk,
    /// Clock negotiation hit an unsynthesizable rate.
    ClockFatal,
    /// The vendor host controller initialized successfully.
    HostInitOk,
    /// The vendor host controller reported an initialization failure.
    HostInitFailed,
    /// The device was handed to the platform registry.
    Register,
}

/// The probe transition relation. Success path:
/// `Unprobed -> RegistersMapped -> ClockNegotiated -> HostInitialized ->
/// Registered`; a host-init failure after clock negotiation leads to
/// `InitFailed` (still registered); fatal mapping or clock conditions lead to
/// `Aborted`. Terminal states absorb every event, and an event out of order
/// changes nothing.
pub open spec fn spec_probe_step(s: ProbeState, ev: ProbeEvent) -> ProbeState {
    match (s, ev) {
        (ProbeState::Unprobed, ProbeEvent::MapOk) => ProbeState::RegistersMapped,
        (ProbeState::Unprobed, ProbeEvent::MapFailed) => ProbeState::Aborted,
        (ProbeState::RegistersMapped, ProbeEvent::ClockOk) => ProbeState::ClockNegotiated,
        (ProbeState::RegistersMapped, ProbeEvent::ClockFatal) => ProbeState::Aborted,
        (ProbeState::ClockNegotiated, ProbeEvent::HostInitOk) => ProbeState::HostInitialized,
        (ProbeState::ClockNegotiated, ProbeEvent::HostInitFailed) => ProbeState::InitFailed,
        (ProbeState::HostInitialized, ProbeEvent::Register) => ProbeState::Registered,
        _ => s,
    }
}

/// Advances the probe state machine by one reported event.
pub fn probe_step(s: ProbeState, ev: ProbeEvent) -> (r: ProbeState)
    ensures
        r == spec_probe_step(s, ev),
{
    match (s, ev) {
        (ProbeState::Unprobed, ProbeEvent::MapOk) => ProbeState::RegistersMapped,
        (ProbeState::Unprobed, ProbeEvent::MapFailed) => ProbeState::Aborted,
        (ProbeState::RegistersMapped, ProbeEvent::ClockOk) => ProbeState::ClockNegotiated,
        (ProbeState::RegistersMapped, ProbeEvent::ClockFatal) => ProbeState::Aborted,
        (ProbeState::ClockNegotiated, ProbeEvent::HostInitOk) => ProbeState::HostInitialized,
        (ProbeState::ClockNegotiated, ProbeEvent::HostInitFailed) => ProbeState::InitFailed,
        (ProbeState::HostInitialized, ProbeEvent::Register) => ProbeState::Registered,
        (other, _) => other,
    }
}

/// The probe state after consuming a whole sequence of reported events.
pub open spec fn spec_probe_run(s: ProbeState, evs: Seq<ProbeEvent>) -> ProbeState
    decreases evs.len(),
{
    if evs.len() == 0 {
        s
    } else {
        spec_probe_step(spec_probe_run(s, evs.drop_last()), evs.last())
    }
}

/// An aborted probe stays aborted: no sequence of later events can move the
/// device out of `Aborted`, so it is never registered.
pub proof fn lemma_aborted_is_terminal(evs: Seq<ProbeEvent>)
    ensures
        spec_probe_run(ProbeState::Aborted, evs) == ProbeState::Aborted,
    decreases evs.len(),
{
    if evs.len() > 0 {
        lemma_aborted_is_terminal(evs.drop_last());
    }
}

/// Clock negotiation comes strictly before registration: from the unprobed
/// state, no sequence of events that lacks a successful clock step reaches
/// registration, a host-controller initialization outcome, or any state past
/// clock negotiation. So no queue adapter exists before the transfer clock is
/// settled.
pub proof fn lemma_registration_needs_clock(evs: Seq<ProbeEvent>)
    requires
        !evs.contains(ProbeEvent::ClockOk),
    ensures
        spec_probe_run(ProbeState::Unprobed, evs) != ProbeState::Registered,
        spec_probe_run(ProbeState::Unprobed, evs) != ProbeState::HostInitialized,
        spec_probe_run(ProbeState::Unprobed, evs) != ProbeState::InitFailed,
        spec_probe_run(ProbeState::Unprobed, evs) != ProbeState::ClockNegotiated,
    decreases evs.len(),
{
    if evs.len() > 0 {
        assert(!evs.drop_last().contains(ProbeEvent::ClockOk)) by {
            if evs.drop_last().contains(ProbeEvent::ClockOk) {
                let i = choose|i: int|
                    0 <= i < evs.drop_last().len() && evs.drop_last()[i] == ProbeEvent::ClockOk;
                assert(evs[i] == ProbeEvent::ClockOk);
            }
        }
        lemma_registration_needs_clock(evs.drop_last());
        assert(evs.last() != ProbeEvent::ClockOk) by {
            assert(evs[evs.len() - 1] == evs.last());
        }
    }
}

/// A fatal clock negotiation ends the probe for good: after `ClockFatal` is
/// reported from the mapped state, no sequence of later events registers the
/// device, so no queue adapter ever becomes reachable for it.
pub proof fn lemma_clock_fatal_never_registers(evs: Seq<ProbeEvent>)
    ensures
        spec_probe_run(
            spec_probe_step(ProbeState::RegistersMapped, ProbeEvent::ClockFatal),
            evs,
        ) != ProbeState::Registered,
        spec_probe_run(
            spec_probe_step(ProbeState::RegistersMapped, ProbeEvent::ClockFatal),
            evs,
        ) != ProbeState::InitFailed,
{
    lemma_aborted_is_terminal(evs);
}

} // verus!
