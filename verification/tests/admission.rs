use governor::errors::InsufficientCapacity;
use governor::gcra::{Gcra, NotUntil};
use governor::middleware::{NoOpMiddleware, StateInformationMiddleware, StateSnapshot};
use governor::nanos::Nanos;
use governor::quota::Quota;
use governor::state::{HashMapStateStore, InMemoryState, NotKeyed, StateStore};
use std::time::Duration;

const SECOND: u64 = 1_000_000_000;

fn check(gcra: &Gcra, state: &mut InMemoryState, at: u64) -> Result<(), NotUntil<Nanos>> {
    gcra.test_and_update::<NotKeyed, Nanos, InMemoryState, NoOpMiddleware<Nanos>>(
        Nanos::new(0),
        &NotKeyed::NonKey,
        state,
        Nanos::new(at),
    )
}

fn check_n(
    gcra: &Gcra,
    state: &mut InMemoryState,
    n: u32,
    at: u64,
) -> Result<Result<(), NotUntil<Nanos>>, InsufficientCapacity> {
    gcra.test_n_all_and_update::<NotKeyed, Nanos, InMemoryState, NoOpMiddleware<Nanos>>(
        Nanos::new(0),
        &NotKeyed::NonKey,
        n,
        state,
        Nanos::new(at),
    )
}

#[test]
fn steady_rate_is_admitted() {
    let gcra = Gcra::new(Quota::per_second(1).unwrap());
    let mut state = InMemoryState::new();
    for i in 0..100u64 {
        assert!(check(&gcra, &mut state, i * SECOND).is_ok());
        assert_eq!(state.get(), Some(Nanos::new((i + 1) * SECOND)));
    }
}

#[test]
fn second_cell_at_the_same_instant_is_denied() {
    let gcra = Gcra::new(Quota::per_second(1).unwrap());
    let mut state = InMemoryState::new();
    let t0 = Nanos::new(5 * SECOND);
    assert!(check(&gcra, &mut state, 5 * SECOND).is_ok());
    let denied = check(&gcra, &mut state, 5 * SECOND).unwrap_err();
    assert_eq!(denied.wait_time_from(t0), Duration::from_secs(1));
    assert_eq!(denied.earliest_possible(), Nanos::new(6 * SECOND));
}

#[test]
fn burst_is_admitted_at_once() {
    let gcra = Gcra::new(Quota::per_second(1).unwrap().allow_burst(10).unwrap());
    let mut state = InMemoryState::new();
    for _ in 0..10 {
        assert!(check(&gcra, &mut state, 0).is_ok());
    }
    assert_eq!(state.get(), Some(Nanos::new(10 * SECOND)));
    let denied = check(&gcra, &mut state, 0).unwrap_err();
    assert_eq!(denied.earliest_possible(), Nanos::new(SECOND));
    assert_eq!(denied.wait_time_from(Nanos::new(0)), Duration::from_secs(1));
    // One more cell each second after that, and no more.
    for i in 1..20u64 {
        assert!(check(&gcra, &mut state, i * SECOND - 1).is_err());
        assert!(check(&gcra, &mut state, i * SECOND).is_ok());
        assert!(check(&gcra, &mut state, i * SECOND).is_err());
    }
}

#[test]
fn wait_time_is_zero_from_the_earliest_instant_on() {
    let gcra = Gcra::new(Quota::per_second(2).unwrap().allow_burst(1).unwrap());
    let mut state = InMemoryState::new();
    assert!(check(&gcra, &mut state, 0).is_ok());
    let denied = check(&gcra, &mut state, 100).unwrap_err();
    assert_eq!(denied.earliest_possible(), Nanos::new(500_000_000));
    assert_eq!(
        denied.wait_time_from(Nanos::new(100)),
        Duration::from_nanos(499_999_900)
    );
    assert_eq!(
        denied.wait_time_from(Nanos::new(499_999_999)),
        Duration::from_nanos(1)
    );
    assert_eq!(denied.wait_time_from(Nanos::new(500_000_000)), Duration::ZERO);
    assert_eq!(denied.wait_time_from(Nanos::new(500_000_001)), Duration::ZERO);
    assert_eq!(denied.wait_time_from(Nanos::new(u64::MAX)), Duration::ZERO);
}

#[test]
fn arrival_times_count_from_the_start() {
    let gcra = Gcra::new(Quota::per_second(1).unwrap());
    let mut state = InMemoryState::new();
    let start = Nanos::new(40 * SECOND);
    let test = |state: &mut InMemoryState, at: u64| {
        gcra.test_and_update::<NotKeyed, Nanos, InMemoryState, NoOpMiddleware<Nanos>>(
            start,
            &NotKeyed::NonKey,
            state,
            Nanos::new(at),
        )
    };
    assert!(test(&mut state, 42 * SECOND).is_ok());
    assert_eq!(state.get(), Some(Nanos::new(3 * SECOND)));
    let denied = test(&mut state, 42 * SECOND).unwrap_err();
    assert_eq!(denied.earliest_possible(), Nanos::new(43 * SECOND));
    assert_eq!(
        denied.wait_time_from(Nanos::new(42 * SECOND)),
        Duration::from_secs(1)
    );
    // An arrival before the start counts as one at the start.
    let mut early = InMemoryState::new();
    assert!(test(&mut early, 7).is_ok());
    assert_eq!(early.get(), Some(Nanos::new(SECOND)));
}

#[test]
fn oversized_batch_is_refused() {
    let gcra = Gcra::new(Quota::per_second(1).unwrap().allow_burst(5).unwrap());
    let mut state = InMemoryState::new();
    assert_eq!(
        check_n(&gcra, &mut state, 6, 0),
        Err(InsufficientCapacity(5))
    );
    assert_eq!(
        check_n(&gcra, &mut state, u32::MAX, 0),
        Err(InsufficientCapacity(5))
    );
    assert_eq!(state.get(), None);
    let single = Gcra::new(Quota::per_second(1).unwrap());
    assert_eq!(
        check_n(&single, &mut state, 2, 0),
        Err(InsufficientCapacity(1))
    );
    assert_eq!(state.get(), None);
}

#[test]
fn batch_is_admitted_whole_or_not_at_all() {
    let gcra = Gcra::new(Quota::per_second(1).unwrap().allow_burst(5).unwrap());
    let mut state = InMemoryState::new();
    assert_eq!(check_n(&gcra, &mut state, 3, 0), Ok(Ok(())));
    assert_eq!(state.get(), Some(Nanos::new(3 * SECOND)));
    // Two cells are left: three do not go through, and take nothing.
    let denied = check_n(&gcra, &mut state, 3, 0).unwrap().unwrap_err();
    assert_eq!(state.get(), Some(Nanos::new(3 * SECOND)));
    assert_eq!(denied.earliest_possible(), Nanos::new(SECOND));
    assert_eq!(check_n(&gcra, &mut state, 2, 0), Ok(Ok(())));
    assert_eq!(state.get(), Some(Nanos::new(5 * SECOND)));
    assert!(check_n(&gcra, &mut state, 1, 0).unwrap().is_err());
    assert_eq!(check_n(&gcra, &mut state, 5, 5 * SECOND), Ok(Ok(())));
    assert_eq!(state.get(), Some(Nanos::new(10 * SECOND)));
}

#[test]
fn batch_of_one_is_a_single_cell() {
    let gcra = Gcra::new(Quota::per_second(4).unwrap());
    let mut one = InMemoryState::new();
    let mut batch = InMemoryState::new();
    for at in [0u64, 0, 1, 5, 5, 5, 5, 5, 900_000_000, SECOND, SECOND, 3 * SECOND] {
        let a = check(&gcra, &mut one, at);
        let b = check_n(&gcra, &mut batch, 1, at).unwrap();
        assert_eq!(a, b);
        assert_eq!(one.get(), batch.get());
    }
}

#[test]
fn denial_consumes_nothing() {
    let gcra = Gcra::new(Quota::per_second(1).unwrap().allow_burst(2).unwrap());
    let mut with_denials = InMemoryState::new();
    let mut without = InMemoryState::new();
    assert!(check(&gcra, &mut with_denials, 0).is_ok());
    assert!(check(&gcra, &mut with_denials, 0).is_ok());
    assert!(check(&gcra, &mut without, 0).is_ok());
    assert!(check(&gcra, &mut without, 0).is_ok());
    for at in [0u64, 1, 2, 500_000_000, 999_999_999] {
        let before = with_denials.get();
        assert!(check(&gcra, &mut with_denials, at).is_err());
        assert!(check_n(&gcra, &mut with_denials, 2, at).unwrap().is_err());
        assert_eq!(with_denials.get(), before);
    }
    assert_eq!(with_denials.get(), without.get());
    for at in [SECOND, SECOND, 2 * SECOND, 5 * SECOND, 5 * SECOND, 5 * SECOND] {
        assert_eq!(
            check(&gcra, &mut with_denials, at),
            check(&gcra, &mut without, at)
        );
        assert_eq!(with_denials.get(), without.get());
    }
}

#[test]
fn no_window_admits_more_than_the_rate() {
    let burst: u64 = 7;
    let interval: u64 = 1000;
    let gcra = Gcra::new(
        Quota::new(Duration::from_nanos(interval), burst as u32).unwrap(),
    );
    let mut state = InMemoryState::new();
    let mut admitted: Vec<u64> = Vec::new();
    let mut seed: u64 = 0x2545_f491_4f6c_dd1d;
    let mut now: u64 = 0;
    for _ in 0..20_000 {
        seed ^= seed << 13;
        seed ^= seed >> 7;
        seed ^= seed << 17;
        now += seed % 400;
        // Callers do not come in the order of their clocks.
        let at = now.saturating_sub((seed >> 32) % 300);
        if check(&gcra, &mut state, at).is_ok() {
            admitted.push(at);
        }
    }
    assert!(admitted.len() > 1000);
    admitted.sort();
    for span in [0u64, 1, 999, 1000, 1001, 5000, 123_456] {
        let mut first = 0;
        for last in 0..admitted.len() {
            while admitted[last] - admitted[first] > span {
                first += 1;
            }
            let count = (last - first + 1) as u64;
            assert!(count <= burst + span / interval);
        }
    }
}

#[test]
fn decisions_are_a_function_of_state_and_arrival() {
    let gcra = Gcra::new(Quota::per_second(1).unwrap().allow_burst(3).unwrap());
    let t = Nanos::new(SECOND);
    let tau = Nanos::new(2 * SECOND);
    let none = Nanos::new(0);
    // A key without state is taken as empty at the arrival time.
    let (snapshot, next) = gcra.decide(None, Nanos::new(7), none).unwrap();
    assert_eq!(next, Nanos::new(SECOND + 7));
    assert_eq!(snapshot, StateSnapshot::new(t, tau, Nanos::new(7), next));
    // On the edge of the tolerance the cell conforms.
    let stored = Some(Nanos::new(2 * SECOND + 7));
    let (snapshot, next) = gcra.decide(stored, Nanos::new(7), none).unwrap();
    assert_eq!(next, Nanos::new(3 * SECOND + 7));
    assert_eq!(snapshot.time_of_measurement(), Nanos::new(7));
    assert_eq!(snapshot.tat(), next);
    // One nanosecond before it, the cell does not.
    let snapshot = gcra.decide(stored, Nanos::new(6), none).unwrap_err();
    assert_eq!(
        snapshot,
        StateSnapshot::new(t, tau, Nanos::new(7), Nanos::new(7))
    );
    // A bucket that is long empty starts again from the arrival time.
    let (_, next) = gcra
        .decide(Some(Nanos::new(5)), Nanos::new(10 * SECOND), none)
        .unwrap();
    assert_eq!(next, Nanos::new(11 * SECOND));
    // A weight beyond the first cell moves the edge and the new state.
    let weight = Nanos::new(2 * SECOND);
    let (_, next) = gcra.decide(None, Nanos::new(0), weight).unwrap();
    assert_eq!(next, Nanos::new(3 * SECOND));
    let snapshot = gcra
        .decide(Some(Nanos::new(SECOND)), Nanos::new(0), weight)
        .unwrap_err();
    assert_eq!(snapshot.tat(), Nanos::new(SECOND));
}

#[test]
fn decisions_saturate() {
    let gcra = Gcra::new(Quota::per_second(1).unwrap().allow_burst(2).unwrap());
    let late = Nanos::new(u64::MAX - 5);
    let (snapshot, next) = gcra.decide(None, late, Nanos::new(0)).unwrap();
    assert_eq!(next, Nanos::new(u64::MAX));
    assert_eq!(snapshot.tat(), Nanos::new(u64::MAX));
    let denied = gcra
        .decide(Some(Nanos::new(u64::MAX)), Nanos::new(0), Nanos::new(u64::MAX))
        .unwrap_err();
    assert_eq!(denied.tat(), Nanos::new(u64::MAX - SECOND));
    let huge = Gcra::new(Quota::new(Duration::from_nanos(1 << 63), 4).unwrap());
    let mut state = InMemoryState::new();
    assert_eq!(check_n(&huge, &mut state, 4, 0), Ok(Ok(())));
    assert_eq!(state.get(), Some(Nanos::new(u64::MAX)));
}

#[test]
fn snapshots_tell_the_quota() {
    let quota = Quota::per_second(5).unwrap().allow_burst(3).unwrap();
    let gcra = Gcra::new(quota);
    let mut state = InMemoryState::new();
    let start = Nanos::new(0);
    let snapshot = gcra
        .test_and_update::<NotKeyed, Nanos, InMemoryState, StateInformationMiddleware<Nanos>>(
            start,
            &NotKeyed::NonKey,
            &mut state,
            Nanos::new(11),
        )
        .unwrap();
    assert_eq!(snapshot.quota(), quota);
    assert_eq!(snapshot.time_of_measurement(), Nanos::new(11));
    assert_eq!(snapshot.tat(), Nanos::new(200_000_011));
    assert_eq!(state.get(), Some(Nanos::new(200_000_011)));
    let denied = gcra
        .test_n_all_and_update::<NotKeyed, Nanos, InMemoryState, StateInformationMiddleware<Nanos>>(
            start,
            &NotKeyed::NonKey,
            3,
            &mut state,
            Nanos::new(11),
        )
        .unwrap()
        .unwrap_err();
    assert_eq!(denied.quota(), quota);
    assert_eq!(denied.earliest_possible(), Nanos::new(200_000_011));
}

#[test]
fn jitter_puts_the_advice_off() {
    let gcra = Gcra::new(Quota::per_second(1).unwrap());
    let mut state = InMemoryState::new();
    assert!(check(&gcra, &mut state, 0).is_ok());
    let denied = check(&gcra, &mut state, 0).unwrap_err();
    assert_eq!(
        denied.earliest_possible_with_offset(Nanos::new(0)),
        denied.earliest_possible()
    );
    assert_eq!(
        denied.earliest_possible_with_offset(Nanos::new(250)),
        Nanos::new(SECOND + 250)
    );
    assert_eq!(
        denied.wait_time_with_offset(Nanos::new(100), Nanos::new(250)),
        Duration::from_nanos(SECOND + 150)
    );
    assert_eq!(
        denied.wait_time_with_offset(Nanos::new(SECOND + 250), Nanos::new(250)),
        Duration::ZERO
    );
    assert_eq!(
        denied.earliest_possible_with_offset(Nanos::new(u64::MAX)),
        Nanos::new(u64::MAX)
    );
}

#[test]
fn keys_do_not_share_capacity() {
    let gcra = Gcra::new(Quota::per_second(1).unwrap().allow_burst(2).unwrap());
    let mut state = HashMapStateStore::new();
    let start = Nanos::new(0);
    let test = |state: &mut HashMapStateStore, key: u64, at: u64| {
        gcra.test_and_update::<u64, Nanos, HashMapStateStore, NoOpMiddleware<Nanos>>(
            start,
            &key,
            state,
            Nanos::new(at),
        )
    };
    assert_eq!(state.len(), 0);
    assert!(test(&mut state, 1, 0).is_ok());
    assert!(test(&mut state, 1, 0).is_ok());
    assert!(test(&mut state, 1, 0).is_err());
    assert_eq!(state.len(), 1);
    assert!(test(&mut state, 2, 0).is_ok());
    assert_eq!(state.len(), 2);
    assert_eq!(state.get(1), Some(Nanos::new(2 * SECOND)));
    assert_eq!(state.get(2), Some(Nanos::new(SECOND)));
    assert_eq!(state.get(3), None);
    // A denied key is not created.
    let denied = gcra.test_n_all_and_update::<u64, Nanos, HashMapStateStore, NoOpMiddleware<Nanos>>(
        start,
        &3,
        3,
        &mut state,
        Nanos::new(0),
    );
    assert_eq!(denied, Err(InsufficientCapacity(2)));
    assert_eq!(state.get(3), None);
    assert_eq!(state.len(), 2);
}

#[test]
fn stores_commit_what_the_decision_says() {
    let mut state = InMemoryState::new();
    let seen = state.measure_and_replace(&NotKeyed::NonKey, |tat| {
        Ok::<(Option<Nanos>, Nanos), ()>((tat, Nanos::new(5)))
    });
    assert_eq!(seen, Ok(None));
    assert_eq!(state.get(), Some(Nanos::new(5)));
    let seen = state.measure_and_replace(&NotKeyed::NonKey, |tat| Err::<((), Nanos), _>(tat));
    assert_eq!(seen, Err(Some(Nanos::new(5))));
    assert_eq!(state.get(), Some(Nanos::new(5)));
    let mut keyed = HashMapStateStore::new();
    let seen = keyed.measure_and_replace(&9, |tat| Ok::<(Option<Nanos>, Nanos), ()>((tat, Nanos::new(6))));
    assert_eq!(seen, Ok(None));
    let seen = keyed.measure_and_replace(&9, |tat| Ok::<(Option<Nanos>, Nanos), ()>((tat, Nanos::new(7))));
    assert_eq!(seen, Ok(Some(Nanos::new(6))));
    let seen = keyed.measure_and_replace(&9, |tat| Err::<((), Nanos), _>(tat));
    assert_eq!(seen, Err(Some(Nanos::new(7))));
    assert_eq!(keyed.get(9), Some(Nanos::new(7)));
    assert_eq!(keyed.get(8), None);
}

#[test]
fn batch_weight_is_the_cost_beyond_the_first_cell() {
    let gcra = Gcra::new(Quota::per_second(1).unwrap().allow_burst(5).unwrap());
    assert_eq!(gcra.batch_weight(1), Ok(Nanos::new(0)));
    assert_eq!(gcra.batch_weight(2), Ok(Nanos::new(SECOND)));
    assert_eq!(gcra.batch_weight(5), Ok(Nanos::new(4 * SECOND)));
    assert_eq!(gcra.batch_weight(6), Err(InsufficientCapacity(5)));
    assert_eq!(gcra.batch_weight(u32::MAX), Err(InsufficientCapacity(5)));
}
