//! The concurrent event-dispatch loop, as an explicit state machine.
//!
//! The machine owns every decision of the loop: spawn the keepalive task
//! first; if the sign-in flow raised the sign-out flag, invalidate the
//! remote session before anything is fetched; then race "next event"
//! against "shutdown requested", spawning one detached handler per event
//! and treating a shutdown, an end of stream and a fetch failure all as the
//! same graceful termination; finally join the keepalive task. The driver
//! performs the pending action of the current state and feeds the outcome
//! back in as a [`DispatchEvent`]; [`dispatch_step`] yields the next state.
//!
//! Inbound events are identified here by a `tag` the driver assigns in
//! fetch order; the contracts relate the tags of spawned handlers to the
//! tags fetched, so one handler is spawned per event, in fetch order.

use vstd::prelude::*;
use vstd::pervasive::unreached;

verus! {

/// Where the loop stands; each non-terminal phase has one pending action,
/// given by [`dispatch_action`].
#[derive(Clone, Copy, Debug, PartialEq, Eq, Structural)]
pub enum DispatchPhase {
    /// Spawning the background task that owns the primary connection.
    SpawningKeepalive,
    /// Issuing the best-effort remote sign-out (sign-out flag was raised).
    SigningOut,
    /// Racing "next event" against "shutdown requested".
    AwaitingRace,
    /// Spawning a detached handler task for the event tagged `tag`.
    SpawningHandler { tag: u64 },
    /// Awaiting completion of the background keepalive task.
    JoiningKeepalive,
    /// Terminal. `clean` is false exactly when the keepalive task ended
    /// with an unexpected error, which the driver surfaces as fatal.
    Finished { clean: bool },
}

/// The loop's state: its phase, and the sign-out flag the sign-in flow
/// handed over (never changed here).
#[derive(Clone, Copy, Debug, PartialEq, Eq, Structural)]
pub struct DispatchState {
    pub phase: DispatchPhase,
    pub sign_out: bool,
}

/// What the driver reports back after performing the pending action.
#[derive(Clone, Copy, Debug, PartialEq, Eq, Structural)]
pub enum DispatchEvent {
    /// The keepalive task is running.
    KeepaliveSpawned,
    /// The remote sign-out attempt finished; its outcome is discarded.
    SignOutFinished { ok: bool },
    /// The race was won by the external shutdown signal.
    ShutdownRequested,
    /// The race was won by a fetched event, tagged in fetch order.
    EventArrived { tag: u64 },
    /// The race was won by the fetch reporting a graceful end of stream.
    StreamEnded,
    /// The race was won by the fetch failing.
    FetchFailed,
    /// The detached handler task was spawned (not joined).
    HandlerSpawned,
    /// The keepalive task completed; `ok` is false on an unexpected error.
    KeepaliveJoined { ok: bool },
}

/// The pending action of a phase: what the driver must perform before it
/// can feed the next event in.
#[derive(Clone, Copy, Debug, PartialEq, Eq, Structural)]
pub enum DispatchAction {
    /// Spawn the background task that owns the primary connection.
    SpawnKeepalive,
    /// Issue the best-effort remote sign-out and disconnect.
    SignOutAndDisconnect,
    /// Race "next event" against "shutdown requested"; abandon the loser.
    AwaitRace,
    /// Spawn a detached handler task for the event tagged `tag`; do not
    /// wait for it.
    SpawnHandler { tag: u64 },
    /// Await completion of the background keepalive task.
    JoinKeepalive,
    /// The loop is over; exit, fatally if `clean` is false.
    Exit { clean: bool },
}

/// The state the loop starts in, given the sign-in flow's sign-out flag.
pub open spec fn dispatch_initial_spec(sign_out: bool) -> DispatchState {
    DispatchState { phase: DispatchPhase::SpawningKeepalive, sign_out }
}

/// Whether `e` answers the pending action of `s`. The terminal phase
/// accepts no event.
pub open spec fn dispatch_event_fits(s: DispatchState, e: DispatchEvent) -> bool {
    match (s.phase, e) {
        (DispatchPhase::SpawningKeepalive, DispatchEvent::KeepaliveSpawned) => true,
        (DispatchPhase::SigningOut, DispatchEvent::SignOutFinished { .. }) => true,
        (DispatchPhase::AwaitingRace, DispatchEvent::ShutdownRequested) => true,
        (DispatchPhase::AwaitingRace, DispatchEvent::EventArrived { .. }) => true,
        (DispatchPhase::AwaitingRace, DispatchEvent::StreamEnded) => true,
        (DispatchPhase::AwaitingRace, DispatchEvent::FetchFailed) => true,
        (DispatchPhase::SpawningHandler { .. }, DispatchEvent::HandlerSpawned) => true,
        (DispatchPhase::JoiningKeepalive, DispatchEvent::KeepaliveJoined { .. }) => true,
        _ => false,
    }
}

/// The transition relation of the loop.
///
/// The sign-out detour is taken exactly when the flag is set; a shutdown,
/// an end of stream and a fetch failure all lead to joining the keepalive
/// task; a fetched event leads to one handler spawn and back to the race.
/// The sign-out flag never changes.
pub open spec fn dispatch_next(s: DispatchState, e: DispatchEvent) -> DispatchState
    recommends
        dispatch_event_fits(s, e),
{
    let phase = match (s.phase, e) {
        (DispatchPhase::SpawningKeepalive, DispatchEvent::KeepaliveSpawned) => {
            if s.sign_out {
                DispatchPhase::SigningOut
            } else {
                DispatchPhase::AwaitingRace
            }
        },
        (DispatchPhase::SigningOut, DispatchEvent::SignOutFinished { .. }) => DispatchPhase::AwaitingRace,
        (DispatchPhase::AwaitingRace, DispatchEvent::ShutdownRequested) => DispatchPhase::JoiningKeepalive,
        (DispatchPhase::AwaitingRace, DispatchEvent::EventArrived { tag }) => {
            DispatchPhase::SpawningHandler { tag }
        },
        (DispatchPhase::AwaitingRace, DispatchEvent::StreamEnded) => DispatchPhase::JoiningKeepalive,
        (DispatchPhase::AwaitingRace, DispatchEvent::FetchFailed) => DispatchPhase::JoiningKeepalive,
        (DispatchPhase::SpawningHandler { .. }, DispatchEvent::HandlerSpawned) => DispatchPhase::AwaitingRace,
        (DispatchPhase::JoiningKeepalive, DispatchEvent::KeepaliveJoined { ok }) => {
            DispatchPhase::Finished { clean: ok }
        },
        _ => DispatchPhase::Finished { clean: false },
    };
    DispatchState { phase, sign_out: s.sign_out }
}

/// The pending action of each phase.
pub open spec fn dispatch_pending(s: DispatchState) -> DispatchAction {
    match s.phase {
        DispatchPhase::SpawningKeepalive => DispatchAction::SpawnKeepalive,
        DispatchPhase::SigningOut => DispatchAction::SignOutAndDisconnect,
        DispatchPhase::AwaitingRace => DispatchAction::AwaitRace,
        DispatchPhase::SpawningHandler { tag } => DispatchAction::SpawnHandler { tag },
        DispatchPhase::JoiningKeepalive => DispatchAction::JoinKeepalive,
        DispatchPhase::Finished { clean } => DispatchAction::Exit { clean },
    }
}

/// The state the loop starts in: about to spawn the keepalive task, with
/// the sign-out flag as the sign-in flow left it.
pub fn dispatch_initial(sign_out: bool) -> (s: DispatchState)
    ensures
        s == dispatch_initial_spec(sign_out),
{
    DispatchState { phase: DispatchPhase::SpawningKeepalive, sign_out }
}

/// Advances the loop by one step: consumes the event that answers the
/// current phase's pending action and returns the next state.
pub fn dispatch_step(s: DispatchState, e: DispatchEvent) -> (r: DispatchState)
    requires
        dispatch_event_fits(s, e),
    ensures
        r == dispatch_next(s, e),
{
    let phase = match s.phase {
        DispatchPhase::SpawningKeepalive => match e {
            DispatchEvent::KeepaliveSpawned => {
                if s.sign_out {
                    DispatchPhase::SigningOut
                } else {
                    DispatchPhase::AwaitingRace
                }
            },
            _ => unreached(),
        },
        DispatchPhase::SigningOut => match e {
            DispatchEvent::SignOutFinished { ok: _ } => DispatchPhase::AwaitingRace,
            _ => unreached(),
        },
        DispatchPhase::AwaitingRace => match e {
            DispatchEvent::ShutdownRequested => DispatchPhase::JoiningKeepalive,
            DispatchEvent::EventArrived { tag } => DispatchPhase::SpawningHandler { tag },
            DispatchEvent::StreamEnded => DispatchPhase::JoiningKeepalive,
            DispatchEvent::FetchFailed => DispatchPhase::JoiningKeepalive,
            _ => unreached(),
        },
        DispatchPhase::SpawningHandler { tag: _ } => match e {
            DispatchEvent::HandlerSpawned => DispatchPhase::AwaitingRace,
            _ => unreached(),
        },
        DispatchPhase::JoiningKeepalive => match e {
            DispatchEvent::KeepaliveJoined { ok } => DispatchPhase::Finished { clean: ok },
            _ => unreached(),
        },
        DispatchPhase::Finished { clean: _ } => unreached(),
    };
    DispatchState { phase, sign_out: s.sign_out }
}

/// The pending action of the current phase, for the driver to perform.
pub fn dispatch_action(s: &DispatchState) -> (a: DispatchAction)
    ensures
        a == dispatch_pending(*s),
{
    match s.phase {
        DispatchPhase::SpawningKeepalive => DispatchAction::SpawnKeepalive,
        DispatchPhase::SigningOut => DispatchAction::SignOutAndDisconnect,
        DispatchPhase::AwaitingRace => DispatchAction::AwaitRace,
        DispatchPhase::SpawningHandler { tag } => DispatchAction::SpawnHandler { tag },
        DispatchPhase::JoiningKeepalive => DispatchAction::JoinKeepalive,
        DispatchPhase::Finished { clean } => DispatchAction::Exit { clean },
    }
}

/// The state after consuming a whole sequence of events.
pub open spec fn dispatch_run(s: DispatchState, evs: Seq<DispatchEvent>) -> DispatchState
    decreases evs.len(),
{
    if evs.len() == 0 {
        s
    } else {
        dispatch_run(dispatch_next(s, evs[0]), evs.drop_first())
    }
}

/// Whether every event of the sequence answers, in turn, the pending
/// action of the phase it meets: the sequence is a well-formed run.
pub open spec fn dispatch_run_fits(s: DispatchState, evs: Seq<DispatchEvent>) -> bool
    decreases evs.len(),
{
    evs.len() == 0 || {
        &&& dispatch_event_fits(s, evs[0])
        &&& dispatch_run_fits(dispatch_next(s, evs[0]), evs.drop_first())
    }
}

/// The actions a run performs, in order: the pending action of every
/// state whose answering event the run consumes.
pub open spec fn performed_actions(s: DispatchState, evs: Seq<DispatchEvent>) -> Seq<DispatchAction>
    decreases evs.len(),
{
    if evs.len() == 0 {
        Seq::empty()
    } else {
        seq![dispatch_pending(s)] + performed_actions(dispatch_next(s, evs[0]), evs.drop_first())
    }
}

/// The tags of the events a run fetches, in fetch order.
pub open spec fn arrived_tags(evs: Seq<DispatchEvent>) -> Seq<u64>
    decreases evs.len(),
{
    if evs.len() == 0 {
        Seq::empty()
    } else {
        let head: Seq<u64> = match evs[0] {
            DispatchEvent::EventArrived { tag } => seq![tag],
            _ => Seq::empty(),
        };
        head + arrived_tags(evs.drop_first())
    }
}

/// The tags of the handlers a run spawns, in spawn order: one per
/// performed `SpawnHandler` action.
pub open spec fn handler_spawns(s: DispatchState, evs: Seq<DispatchEvent>) -> Seq<u64>
    decreases evs.len(),
{
    if evs.len() == 0 {
        Seq::empty()
    } else {
        outstanding_spawn(s) + handler_spawns(dispatch_next(s, evs[0]), evs.drop_first())
    }
}

/// The handler spawn a phase still owes, if any.
pub open spec fn outstanding_spawn(s: DispatchState) -> Seq<u64> {
    match s.phase {
        DispatchPhase::SpawningHandler { tag } => seq![tag],
        _ => Seq::empty(),
    }
}

/// An end of stream and a failed fetch terminate the loop exactly as a
/// shutdown request does: one step to joining the keepalive task, which
/// is still awaited.
pub proof fn lemma_stream_end_is_shutdown(s: DispatchState)
    requires
        s.phase is AwaitingRace,
    ensures
        dispatch_next(s, DispatchEvent::StreamEnded) == dispatch_next(
            s,
            DispatchEvent::ShutdownRequested,
        ),
        dispatch_next(s, DispatchEvent::FetchFailed) == dispatch_next(
            s,
            DispatchEvent::ShutdownRequested,
        ),
        dispatch_next(s, DispatchEvent::ShutdownRequested).phase is JoiningKeepalive,
{
}

/// Balance of spawns over any well-formed run: the events fetched are the
/// handlers spawned, up to the one spawn a run may still owe at either
/// end.
proof fn lemma_spawn_balance(s: DispatchState, evs: Seq<DispatchEvent>)
    requires
        dispatch_run_fits(s, evs),
    ensures
        outstanding_spawn(s) + arrived_tags(evs) =~= handler_spawns(s, evs) + outstanding_spawn(
            dispatch_run(s, evs),
        ),
    decreases evs.len(),
{
    if evs.len() == 0 {
        assert(outstanding_spawn(s) + arrived_tags(evs) =~= outstanding_spawn(s));
        assert(handler_spawns(s, evs) + outstanding_spawn(s) =~= outstanding_spawn(s));
    } else {
        let e = evs[0];
        let s2 = dispatch_next(s, e);
        let rest = evs.drop_first();
        lemma_spawn_balance(s2, rest);
        let head: Seq<u64> = match e {
            DispatchEvent::EventArrived { tag } => seq![tag],
            _ => Seq::empty(),
        };
        assert(head =~= outstanding_spawn(s2));
        assert(outstanding_spawn(s) + arrived_tags(evs) =~= (outstanding_spawn(s)
            + outstanding_spawn(s2)) + arrived_tags(rest));
        assert((outstanding_spawn(s) + outstanding_spawn(s2)) + arrived_tags(rest)
            =~= outstanding_spawn(s) + (outstanding_spawn(s2) + arrived_tags(rest)));
        assert(outstanding_spawn(s) + (handler_spawns(s2, rest) + outstanding_spawn(
            dispatch_run(s2, rest),
        )) =~= handler_spawns(s, evs) + outstanding_spawn(dispatch_run(s, evs)));
    }
}

/// One handler is spawned per fetched event, in fetch order: over any
/// well-formed run that neither starts nor ends between a fetch and its
/// spawn, the tags of the spawned handlers equal the tags of the arrived
/// events.
pub proof fn lemma_spawns_match_arrivals(s: DispatchState, evs: Seq<DispatchEvent>)
    requires
        dispatch_run_fits(s, evs),
        !(s.phase is SpawningHandler),
        !(dispatch_run(s, evs).phase is SpawningHandler),
    ensures
        handler_spawns(s, evs) =~= arrived_tags(evs),
{
    lemma_spawn_balance(s, evs);
}

/// The event sequence of `tags.len()` fetched events, each answered by its
/// handler spawn, in fetch order.
pub open spec fn arrival_events(tags: Seq<u64>) -> Seq<DispatchEvent>
    decreases tags.len(),
{
    if tags.len() == 0 {
        Seq::empty()
    } else {
        seq![
            DispatchEvent::EventArrived { tag: tags[0] },
            DispatchEvent::HandlerSpawned,
        ] + arrival_events(tags.drop_first())
    }
}

/// A run of `n` fetched events spans `2 n` events: each fetch is answered
/// by its handler spawn.
proof fn lemma_arrival_events_len(tags: Seq<u64>)
    ensures
        arrival_events(tags).len() == 2 * tags.len(),
    decreases tags.len(),
{
    if tags.len() > 0 {
        lemma_arrival_events_len(tags.drop_first());
    }
}

/// A run performs one action per event it consumes.
proof fn lemma_performed_actions_len(s: DispatchState, evs: Seq<DispatchEvent>)
    ensures
        performed_actions(s, evs).len() == evs.len(),
    decreases evs.len(),
{
    if evs.len() > 0 {
        lemma_performed_actions_len(dispatch_next(s, evs[0]), evs.drop_first());
    }
}

/// The event sequence of a whole steady-state run: any number of fetched
/// events, then a shutdown request, then the keepalive task's completion.
pub open spec fn events_then_shutdown(tags: Seq<u64>, ok: bool) -> Seq<DispatchEvent> {
    arrival_events(tags) + seq![
        DispatchEvent::ShutdownRequested,
        DispatchEvent::KeepaliveJoined { ok },
    ]
}

/// Any number of fetched events followed by a shutdown request is a
/// well-formed run: it spawns exactly one handler per event, in fetch
/// order, and ends — with the keepalive task joined — in the terminal
/// phase. No action of the run waits for a spawned handler.
pub proof fn lemma_events_then_shutdown(s: DispatchState, tags: Seq<u64>, ok: bool)
    requires
        s.phase is AwaitingRace,
    ensures
        dispatch_run_fits(s, events_then_shutdown(tags, ok)),
        handler_spawns(s, events_then_shutdown(tags, ok)) =~= tags,
        dispatch_run(s, events_then_shutdown(tags, ok)).phase == (DispatchPhase::Finished {
            clean: ok,
        }),
    decreases tags.len(),
{
    let evs = events_then_shutdown(tags, ok);
    if tags.len() == 0 {
        let tail = seq![DispatchEvent::ShutdownRequested, DispatchEvent::KeepaliveJoined { ok }];
        assert(evs =~= tail);
        assert(evs[0] == DispatchEvent::ShutdownRequested);
        let s1 = dispatch_next(s, evs[0]);
        assert(s1.phase is JoiningKeepalive);
        let r1 = evs.drop_first();
        assert(r1 =~= seq![DispatchEvent::KeepaliveJoined { ok }]);
        assert(r1[0] == (DispatchEvent::KeepaliveJoined { ok }));
        let s2 = dispatch_next(s1, r1[0]);
        assert(s2.phase == (DispatchPhase::Finished { clean: ok }));
        let r2 = r1.drop_first();
        assert(r2.len() == 0);
        assert(dispatch_run_fits(s2, r2));
        assert(dispatch_run_fits(s1, r1));
        assert(dispatch_run_fits(s, evs));
        assert(dispatch_run(s, evs) == dispatch_run(s1, r1));
        assert(dispatch_run(s1, r1) == dispatch_run(s2, r2));
        assert(dispatch_run(s2, r2) == s2);
        assert(handler_spawns(s2, r2) =~= Seq::<u64>::empty());
        assert(handler_spawns(s1, r1) =~= Seq::<u64>::empty());
        assert(handler_spawns(s, evs) =~= Seq::<u64>::empty());
    } else {
        let t0 = tags[0];
        let tr = tags.drop_first();
        lemma_arrival_events_len(tags);
        lemma_arrival_events_len(tr);
        assert(arrival_events(tags) == seq![
            DispatchEvent::EventArrived { tag: t0 },
            DispatchEvent::HandlerSpawned,
        ] + arrival_events(tr));
        assert(arrival_events(tags)[0] == (DispatchEvent::EventArrived { tag: t0 }));
        assert(evs[0] == (DispatchEvent::EventArrived { tag: t0 }));
        let s1 = dispatch_next(s, evs[0]);
        assert(s1.phase == (DispatchPhase::SpawningHandler { tag: t0 }));
        let r1 = evs.drop_first();
        assert(r1 =~= seq![DispatchEvent::HandlerSpawned] + events_then_shutdown(tr, ok));
        assert(r1[0] == DispatchEvent::HandlerSpawned);
        let s2 = dispatch_next(s1, r1[0]);
        assert(s2.phase is AwaitingRace);
        let r2 = r1.drop_first();
        assert(r2 =~= events_then_shutdown(tr, ok));
        lemma_events_then_shutdown(s2, tr, ok);
        assert(dispatch_run_fits(s2, r2));
        assert(dispatch_run_fits(s1, r1));
        assert(dispatch_run_fits(s, evs));
        assert(dispatch_run(s, evs) == dispatch_run(s1, r1));
        assert(dispatch_run(s1, r1) == dispatch_run(s2, r2));
        assert(handler_spawns(s1, r1) =~= seq![t0] + handler_spawns(s2, r2));
        assert(handler_spawns(s, evs) =~= handler_spawns(s1, r1));
        assert(seq![t0] + tr =~= tags);
    }
}

/// When the sign-in flow could not persist the session, the loop issues
/// the remote sign-out before it ever races for an event: in every
/// well-formed run that starts with the sign-out flag raised, the first
/// two performed actions are spawning the keepalive task and the remote
/// sign-out, and every `AwaitRace` action comes after them.
pub proof fn lemma_sign_out_precedes_fetch(evs: Seq<DispatchEvent>, i: int)
    requires
        dispatch_run_fits(dispatch_initial_spec(true), evs),
        0 <= i < evs.len(),
        performed_actions(dispatch_initial_spec(true), evs)[i] is AwaitRace,
    ensures
        2 <= i,
        performed_actions(dispatch_initial_spec(true), evs)[0] is SpawnKeepalive,
        performed_actions(dispatch_initial_spec(true), evs)[1] is SignOutAndDisconnect,
{
    let s0 = dispatch_initial_spec(true);
    let pa = performed_actions(s0, evs);
    let s1 = dispatch_next(s0, evs[0]);
    let rest = evs.drop_first();
    assert(pa =~= seq![DispatchAction::SpawnKeepalive] + performed_actions(s1, rest));
    assert(pa[0] is SpawnKeepalive);
    assert(i >= 1);
    assert(s1.phase is SigningOut);
    assert(rest.len() >= 1);
    assert(performed_actions(s1, rest)[0] == dispatch_pending(s1));
    assert(pa[1] is SignOutAndDisconnect);
    assert(i >= 2);
}

/// When the session was persisted, the loop never issues the remote
/// sign-out: no well-formed run from a state with the flag clear (and not
/// already signing out) performs `SignOutAndDisconnect`.
pub proof fn lemma_no_sign_out_when_persisted(s: DispatchState, evs: Seq<DispatchEvent>, i: int)
    requires
        dispatch_run_fits(s, evs),
        !s.sign_out,
        !(s.phase is SigningOut),
        0 <= i < evs.len(),
    ensures
        !(performed_actions(s, evs)[i] is SignOutAndDisconnect),
    decreases evs.len(),
{
    let s2 = dispatch_next(s, evs[0]);
    let rest = evs.drop_first();
    assert(!s2.sign_out && !(s2.phase is SigningOut));
    assert(performed_actions(s, evs) == seq![dispatch_pending(s)] + performed_actions(s2, rest));
    if i == 0 {
        assert(performed_actions(s, evs)[0] == dispatch_pending(s));
        assert(!(dispatch_pending(s) is SignOutAndDisconnect));
    } else {
        lemma_performed_actions_len(s2, rest);
        lemma_no_sign_out_when_persisted(s2, rest, i - 1);
        assert(performed_actions(s, evs)[i] == performed_actions(s2, rest)[i - 1]);
    }
}

} // verus!
