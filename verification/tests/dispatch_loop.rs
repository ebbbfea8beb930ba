use arch_client::dispatch::{
    dispatch_action, dispatch_initial, dispatch_step, DispatchAction, DispatchEvent,
    DispatchPhase, DispatchState,
};

#[test]
fn two_events_then_shutdown_spawns_both_handlers_in_fetch_order() {
    let mut spawned: Vec<u64> = Vec::new();

    let s = dispatch_initial(false);
    assert_eq!(dispatch_action(&s), DispatchAction::SpawnKeepalive);
    let s = dispatch_step(s, DispatchEvent::KeepaliveSpawned);
    assert_eq!(s.phase, DispatchPhase::AwaitingRace);
    assert_eq!(dispatch_action(&s), DispatchAction::AwaitRace);

    let s = dispatch_step(s, DispatchEvent::EventArrived { tag: 1 });
    if let DispatchAction::SpawnHandler { tag } = dispatch_action(&s) {
        spawned.push(tag);
    }
    let s = dispatch_step(s, DispatchEvent::HandlerSpawned);
    assert_eq!(dispatch_action(&s), DispatchAction::AwaitRace);

    let s = dispatch_step(s, DispatchEvent::EventArrived { tag: 2 });
    if let DispatchAction::SpawnHandler { tag } = dispatch_action(&s) {
        spawned.push(tag);
    }
    let s = dispatch_step(s, DispatchEvent::HandlerSpawned);

    let s = dispatch_step(s, DispatchEvent::ShutdownRequested);
    assert_eq!(dispatch_action(&s), DispatchAction::JoinKeepalive);
    let s = dispatch_step(s, DispatchEvent::KeepaliveJoined { ok: true });
    assert_eq!(s.phase, DispatchPhase::Finished { clean: true });
    assert_eq!(dispatch_action(&s), DispatchAction::Exit { clean: true });

    assert_eq!(spawned, vec![1, 2]);
}

#[test]
fn raised_sign_out_flag_signs_out_before_any_fetch() {
    let s = dispatch_initial(true);
    assert_eq!(dispatch_action(&s), DispatchAction::SpawnKeepalive);
    let s = dispatch_step(s, DispatchEvent::KeepaliveSpawned);
    assert_eq!(s.phase, DispatchPhase::SigningOut);
    assert_eq!(dispatch_action(&s), DispatchAction::SignOutAndDisconnect);
    // The sign-out is best-effort: a failed attempt changes nothing.
    let s = dispatch_step(s, DispatchEvent::SignOutFinished { ok: false });
    assert_eq!(s.phase, DispatchPhase::AwaitingRace);
}

#[test]
fn clear_sign_out_flag_goes_straight_to_the_race() {
    let s = dispatch_initial(false);
    let s = dispatch_step(s, DispatchEvent::KeepaliveSpawned);
    assert_eq!(s.phase, DispatchPhase::AwaitingRace);
}

#[test]
fn end_of_stream_terminates_like_a_shutdown() {
    let racing = DispatchState {
        phase: DispatchPhase::AwaitingRace,
        sign_out: false,
    };
    let via_stream_end = dispatch_step(racing, DispatchEvent::StreamEnded);
    let via_shutdown = dispatch_step(racing, DispatchEvent::ShutdownRequested);
    let via_fetch_failure = dispatch_step(racing, DispatchEvent::FetchFailed);
    assert_eq!(via_stream_end, via_shutdown);
    assert_eq!(via_fetch_failure, via_shutdown);
    assert_eq!(via_shutdown.phase, DispatchPhase::JoiningKeepalive);

    // The keepalive task is still awaited on this path.
    assert_eq!(
        dispatch_action(&via_stream_end),
        DispatchAction::JoinKeepalive
    );
    let s = dispatch_step(via_stream_end, DispatchEvent::KeepaliveJoined { ok: true });
    assert_eq!(s.phase, DispatchPhase::Finished { clean: true });
}

#[test]
fn keepalive_error_surfaces_as_unclean_exit() {
    let s = DispatchState {
        phase: DispatchPhase::JoiningKeepalive,
        sign_out: false,
    };
    let s = dispatch_step(s, DispatchEvent::KeepaliveJoined { ok: false });
    assert_eq!(s.phase, DispatchPhase::Finished { clean: false });
    assert_eq!(dispatch_action(&s), DispatchAction::Exit { clean: false });
}

#[test]
fn shutdown_with_no_events_spawns_no_handler() {
    let s = dispatch_initial(false);
    let s = dispatch_step(s, DispatchEvent::KeepaliveSpawned);
    let s = dispatch_step(s, DispatchEvent::ShutdownRequested);
    assert_eq!(s.phase, DispatchPhase::JoiningKeepalive);
    let s = dispatch_step(s, DispatchEvent::KeepaliveJoined { ok: true });
    assert_eq!(s.phase, DispatchPhase::Finished { clean: true });
}
