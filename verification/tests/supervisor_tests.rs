use rapp_core::handle::EngineHandle;
use rapp_core::handle::first_existing;
use rapp_core::handle::DEFAULT_PORT;

#[test]
fn fresh_handle_is_empty_on_default_port() {
    let h = EngineHandle::default();
    assert!(!h.is_occupied());
    assert_eq!(h.port, 7071);
    assert_eq!(DEFAULT_PORT, 7071);
}

#[test]
fn stop_on_empty_slot_is_idempotent() {
    let mut h = EngineHandle::new(7071);
    let st = h.stop();
    assert!(!st.running);
    assert_eq!(st.port, 7071);
    assert_eq!(st.endpoint, "");
    assert!(!h.is_occupied());
    let st2 = h.stop();
    assert!(!st2.running);
    assert_eq!(st2.port, 7071);
    assert_eq!(st2.endpoint, "");
    assert!(!h.is_occupied());
}

#[test]
fn start_twice_while_alive_spawns_once() {
    let mut h = EngineHandle::new(7071);
    let already = h.start_prepare(false);
    assert!(!already);
    let st1 = h.start_commit(4242);
    assert_eq!(h.slot, Some(4242));
    // A second start finds the occupant alive: no second spawn, the
    // same occupant stays, and the reported status is identical.
    let already2 = h.start_prepare(true);
    assert!(already2);
    assert_eq!(h.slot, Some(4242));
    let st2 = h.running_status();
    assert_eq!(st1.running, st2.running);
    assert_eq!(st1.port, st2.port);
    assert_eq!(st1.endpoint, st2.endpoint);
    assert_eq!(st2.endpoint, "http://127.0.0.1:7071/api/rapp");
    assert!(st2.running);
}

#[test]
fn start_after_out_of_band_exit_clears_and_respawns() {
    let mut h = EngineHandle::new(7071);
    h.start_prepare(false);
    h.start_commit(100);
    // The occupant exited out of band: the exit check reports it dead,
    // the stale reference is cleared, and a fresh spawn may commit.
    let already = h.start_prepare(false);
    assert!(!already);
    assert!(!h.is_occupied());
    h.start_commit(101);
    assert_eq!(h.slot, Some(101));
}

#[test]
fn status_reflects_probe_not_slot_occupancy() {
    let mut h = EngineHandle::new(7071);
    h.start_prepare(false);
    h.start_commit(4242);
    // The slot is occupied, but the process died out of band and the
    // health probe fails: status must report not running.
    let st = h.status(false);
    assert!(!st.running);
    assert_eq!(st.endpoint, "");
    assert_eq!(st.port, 7071);
    // An empty slot with an answering engine reports running the same
    // way an occupied one does: only the probe decides.
    let empty = EngineHandle::new(7071);
    let st_empty = empty.status(true);
    let st_full = h.status(true);
    assert_eq!(st_empty.running, st_full.running);
    assert_eq!(st_empty.endpoint, st_full.endpoint);
    assert!(st_full.running);
    assert_eq!(st_full.endpoint, "http://127.0.0.1:7071/api/rapp");
}

#[test]
fn transitions_commit_whole_slot_states() {
    let mut h = EngineHandle::new(9000);
    // Every observable state is either empty or one whole occupant.
    assert_eq!(h.slot, None);
    h.start_prepare(false);
    assert_eq!(h.slot, None);
    h.start_commit(7);
    assert_eq!(h.slot, Some(7));
    let st = h.stop();
    assert_eq!(h.slot, None);
    assert!(!st.running);
    assert_eq!(st.port, 9000);
}

#[test]
fn stop_clears_occupied_slot() {
    let mut h = EngineHandle::new(7071);
    h.start_prepare(false);
    h.start_commit(555);
    assert!(h.is_occupied());
    let st = h.stop();
    assert!(!h.is_occupied());
    assert!(!st.running);
    assert_eq!(st.endpoint, "");
}

#[test]
fn first_existing_picks_first_in_order() {
    assert_eq!(first_existing(&vec![false, true, true]), Some(1));
    assert_eq!(first_existing(&vec![true, false]), Some(0));
    assert_eq!(first_existing(&vec![false, false, true]), Some(2));
}

#[test]
fn first_existing_none_when_no_candidate_exists() {
    assert_eq!(first_existing(&vec![]), None);
    assert_eq!(first_existing(&vec![false, false, false]), None);
}

#[test]
fn status_uses_configured_port_in_endpoint() {
    let h = EngineHandle::new(65535);
    let st = h.status(true);
    assert_eq!(st.endpoint, "http://127.0.0.1:65535/api/rapp");
    let h0 = EngineHandle::new(80);
    assert_eq!(h0.running_status().endpoint, "http://127.0.0.1:80/api/rapp");
}
