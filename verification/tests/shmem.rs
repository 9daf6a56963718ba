use rcade_sdk::contention::LockContention;
use rcade_sdk::shmem::{LockAttempt, PluginSharedMemoryRunner, LOCKED_BY_OWNER, LOCKED_BY_PEER};

#[test]
fn spawn_zero_initializes_region() {
    let mut runner = PluginSharedMemoryRunner::spawn(8);
    assert_eq!(runner.data_len(), 8);
    assert_eq!(runner.notifies(), 0);
    let guard = runner.try_lock(LOCKED_BY_OWNER).expect("fresh region is unlocked");
    let view = guard.data_view(&runner);
    assert_eq!(view, vec![0u8; 8]);
    runner.release(guard);
}

#[test]
fn try_lock_fails_while_held_and_never_blocks() {
    let mut runner = PluginSharedMemoryRunner::spawn(8);
    let guard = runner.try_lock(LOCKED_BY_OWNER).expect("unlocked");
    // the other side's try reports failure while the lock is held ...
    assert!(runner.try_lock(LOCKED_BY_PEER).is_none());
    // ... and so does a repeat from the same side
    assert!(runner.try_lock(LOCKED_BY_OWNER).is_none());
    runner.release(guard);
    // released: the peer wins the next attempt
    let guard = runner.try_lock(LOCKED_BY_PEER).expect("released");
    runner.release(guard);
}

#[test]
fn release_unlocks_and_notifies_exactly_once() {
    let mut runner = PluginSharedMemoryRunner::spawn(8);
    let guard = runner.try_lock(LOCKED_BY_OWNER).expect("unlocked");
    assert_eq!(runner.notifies(), 0);
    runner.release(guard);
    assert_eq!(runner.notifies(), 1);
    // the word is UNLOCKED again: acquisition succeeds at once
    let guard = runner.try_lock(LOCKED_BY_PEER).expect("unlocked after release");
    runner.release(guard);
    assert_eq!(runner.notifies(), 2);
}

#[test]
fn lock_attempt_reports_observed_value_for_the_wait() {
    let mut runner = PluginSharedMemoryRunner::spawn(8);
    let first = runner.lock_attempt(LOCKED_BY_OWNER);
    let guard = match first {
        LockAttempt::Acquired(g) => g,
        LockAttempt::Contended { .. } => panic!("fresh region must be acquired"),
    };
    // the peer's attempt observes the owner's stamp, the value it would
    // condition its block-until-notified wait on
    match runner.lock_attempt(LOCKED_BY_PEER) {
        LockAttempt::Acquired(_) => panic!("must contend while held"),
        LockAttempt::Contended { observed } => assert_eq!(observed, LOCKED_BY_OWNER),
    }
    runner.release(guard);
}

#[test]
fn owner_write_visible_to_peer_after_release() {
    // data region size 8, zero-initialized
    let mut runner = PluginSharedMemoryRunner::spawn(8);
    // owner acquires, writes byte 0 = 0xFF, releases
    let guard = runner.try_lock(LOCKED_BY_OWNER).expect("unlocked");
    runner.write_data(&guard, 0, 0xFF);
    runner.release(guard);
    // peer's tryAcquire immediately after succeeds and reads byte 0 == 0xFF
    let guard = runner.try_lock(LOCKED_BY_PEER).expect("unlocked after release");
    assert_eq!(runner.read_data(&guard, 0), 0xFF);
    assert_eq!(runner.read_data(&guard, 1), 0);
    runner.release(guard);
}

#[test]
fn data_view_copies_the_payload_without_lock_bytes() {
    let mut runner = PluginSharedMemoryRunner::spawn(4);
    let guard = runner.try_lock(LOCKED_BY_OWNER).expect("unlocked");
    runner.write_data(&guard, 0, 1);
    runner.write_data(&guard, 1, 2);
    runner.write_data(&guard, 2, 3);
    runner.write_data(&guard, 3, 4);
    assert_eq!(guard.data_view(&runner), vec![1, 2, 3, 4]);
    runner.release(guard);
}

#[test]
fn contention_interleaving_loses_no_update() {
    // two contexts, each repeatedly acquire -> increment -> release, under a
    // deterministic pseudo-random interleaving
    let mut sim = LockContention::new(8);
    let rounds: u64 = 20000;
    let mut seed: u64 = 0x2545F4914F6CDD1D;
    let mut completed: u64 = 0;
    let mut owner_waiting = false;
    let mut peer_waiting = false;
    while completed < rounds {
        seed = seed.wrapping_mul(6364136223846793005).wrapping_add(1442695040888963407);
        let owner = (seed >> 33) & 1 == 0;
        let holds = if owner { owner_waiting } else { peer_waiting };
        if holds {
            // inside the critical section: the other side must fail to enter
            assert!(!sim.step_acquire(!owner));
            assert!(sim.step_finish(owner));
            completed += 1;
            if owner {
                owner_waiting = false;
            } else {
                peer_waiting = false;
            }
        } else {
            let got = sim.step_acquire(owner);
            // acquisition succeeds exactly when nobody held the lock
            assert_eq!(got, !owner_waiting && !peer_waiting);
            if got {
                if owner {
                    owner_waiting = true;
                } else {
                    peer_waiting = true;
                }
            }
        }
    }
    // no lost updates: the counter equals exactly the completed sections
    assert_eq!(sim.sections_completed(), rounds);
    assert_eq!(sim.counter_check(), Some(rounds as u32));
}

#[test]
fn contention_finish_without_holding_does_nothing() {
    let mut sim = LockContention::new(4);
    assert!(!sim.step_finish(true));
    assert!(!sim.step_finish(false));
    assert_eq!(sim.sections_completed(), 0);
    assert_eq!(sim.counter_check(), Some(0));
}
