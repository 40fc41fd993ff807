use tracy_client::state::{
    decode_state, encode_state, Client, Phase, ReleaseStep, SessionState, StartStep,
};

fn word(phase: Phase, count: usize) -> usize {
    encode_state(SessionState { phase, count })
}

#[test]
fn state_transitions() {
    assert_eq!(0, word(Phase::Disabled, 0));
    assert_eq!(word(Phase::Disabled, 0).wrapping_add(1), word(Phase::Enabling, 0));
    assert_eq!(word(Phase::Enabling, 0).wrapping_add(1), word(Phase::Enabled, 0));
}

#[test]
fn packed_word_round_trips() {
    let s = SessionState { phase: Phase::Enabled, count: 5 };
    assert_eq!(encode_state(s), 22);
    assert_eq!(decode_state(22), s);
    assert_eq!(decode_state(7), SessionState { phase: Phase::Disabling, count: 1 });
}

/// Runs one caller's `start` against a shared word, as a compare-and-swap loop would, and says
/// whether it won the start-up.
fn start_once(shared: &mut usize, startups: &mut u32) -> bool {
    loop {
        let observed = decode_state(*shared);
        match Client::start(observed) {
            StartStep::Claim(next) => {
                *shared = encode_state(next);
                *startups += 1;
                return true;
            }
            StartStep::Join(next) => {
                *shared = encode_state(next);
                return false;
            }
            StartStep::Wait => panic!("no caller is mid-transition here"),
        }
    }
}

fn publish(shared: &mut usize) {
    let next = Client::publish(decode_state(*shared)).expect("enabling");
    *shared = encode_state(next);
}

#[test]
fn hundred_callers_start_the_backend_once() {
    let mut shared = 0usize;
    let mut startups = 0u32;
    for i in 0..100 {
        let won = start_once(&mut shared, &mut startups);
        assert_eq!(won, i == 0);
        if i == 0 {
            assert!(!Client::is_running(decode_state(shared)));
            assert!(Client::granted(decode_state(shared)).is_none());
        }
    }
    publish(&mut shared);
    assert_eq!(startups, 1);
    assert_eq!(decode_state(shared), SessionState { phase: Phase::Enabled, count: 100 });
    assert!(Client::granted(decode_state(shared)).is_some());
}

#[test]
fn callers_wait_while_disabling() {
    let s = SessionState { phase: Phase::Disabling, count: 0 };
    assert_eq!(Client::start(s), StartStep::Wait);
    assert_eq!(Client::running(s), None);
    assert_eq!(
        Client::retire(s),
        Some(SessionState { phase: Phase::Disabled, count: 0 })
    );
}

#[test]
fn last_release_shuts_down_once() {
    let mut shared = 0usize;
    let mut startups = 0u32;
    for _ in 0..5 {
        start_once(&mut shared, &mut startups);
    }
    publish(&mut shared);
    let mut shutdowns = 0u32;
    for i in 0..5 {
        match Client::release(decode_state(shared)) {
            ReleaseStep::Decrement(next) => shared = encode_state(next),
            ReleaseStep::Shutdown(next) => {
                shared = encode_state(next);
                shutdowns += 1;
            }
            ReleaseStep::Ignore => panic!("a handle is held"),
        }
        if i < 4 {
            assert!(Client::is_running(decode_state(shared)));
            assert_eq!(shutdowns, 0);
        }
    }
    assert_eq!(shutdowns, 1);
    assert_eq!(decode_state(shared), SessionState { phase: Phase::Disabling, count: 0 });
    shared = encode_state(Client::retire(decode_state(shared)).unwrap());
    assert_eq!(shared, 0);
    assert_eq!(Client::release(decode_state(shared)), ReleaseStep::Ignore);
}

#[test]
fn running_only_joins_an_enabled_session() {
    let enabled = SessionState { phase: Phase::Enabled, count: 2 };
    assert_eq!(
        Client::running(enabled),
        Some(SessionState { phase: Phase::Enabled, count: 3 })
    );
    let enabling = SessionState { phase: Phase::Enabling, count: 2 };
    assert_eq!(Client::running(enabling), None);
    assert_eq!(
        Client::start(enabling),
        StartStep::Join(SessionState { phase: Phase::Enabling, count: 3 })
    );
    assert_eq!(Client::publish(enabled), None);
}

#[test]
fn interleaved_handles_shut_down_after_the_last_one() {
    let mut shared = 0usize;
    let mut startups = 0u32;
    let mut shutdowns = 0u32;
    let release = |shared: &mut usize, shutdowns: &mut u32| match Client::release(decode_state(*shared)) {
        ReleaseStep::Decrement(next) => *shared = encode_state(next),
        ReleaseStep::Shutdown(next) => {
            *shared = encode_state(next);
            *shutdowns += 1;
        }
        ReleaseStep::Ignore => panic!("a handle is held"),
    };
    start_once(&mut shared, &mut startups);
    start_once(&mut shared, &mut startups);
    publish(&mut shared);
    release(&mut shared, &mut shutdowns);
    start_once(&mut shared, &mut startups);
    release(&mut shared, &mut shutdowns);
    assert!(Client::is_running(decode_state(shared)));
    assert_eq!(shutdowns, 0);
    release(&mut shared, &mut shutdowns);
    assert_eq!(startups, 1);
    assert_eq!(shutdowns, 1);
    assert!(!Client::is_running(decode_state(shared)));
}
