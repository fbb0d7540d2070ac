use pp_core::{
    resolve_misses, CatchScore, CatchState, StdScore, StdState, TaikoScore, TaikoState,
};

#[test]
fn an_absent_miss_count_resolves_to_zero() {
    assert_eq!(resolve_misses(None), 0);
    assert_eq!(resolve_misses(Some(0)), 0);
    assert_eq!(resolve_misses(Some(5)), 5);
    assert_eq!(resolve_misses(Some(usize::MAX)), usize::MAX);
}

#[test]
fn a_std_score_resolves_into_two_states() {
    let score = StdScore {
        combo: Some(321),
        accuracy: Some(97.25),
        potential_accuracy: Some(99.5),
        n300: Some(300),
        n100: Some(12),
        n50: Some(3),
        miss_count: Some(4),
        passed_objects: Some(319),
    };
    let states = score.resolve();
    assert_eq!(
        states.achieved,
        StdState {
            combo: Some(321),
            accuracy: Some(97.25),
            n300: Some(300),
            n100: Some(12),
            n50: Some(3),
            miss_count: 4,
            passed_objects: Some(319),
        }
    );
    assert_eq!(
        states.potential,
        StdState {
            combo: None,
            accuracy: Some(99.5),
            n300: None,
            n100: None,
            n50: None,
            miss_count: 0,
            passed_objects: None,
        }
    );
}

#[test]
fn an_empty_std_score_resolves_to_no_misses_and_nothing_else() {
    let score: StdScore<f64> = StdScore {
        combo: None,
        accuracy: None,
        potential_accuracy: None,
        n300: None,
        n100: None,
        n50: None,
        miss_count: None,
        passed_objects: None,
    };
    let empty = StdState {
        combo: None,
        accuracy: None,
        n300: None,
        n100: None,
        n50: None,
        miss_count: 0,
        passed_objects: None,
    };
    let states = score.resolve();
    assert_eq!(states.achieved, empty);
    assert_eq!(states.potential, empty);
}

#[test]
fn the_potential_state_does_not_take_the_accuracy_of_the_play() {
    let score = StdScore {
        combo: Some(9),
        accuracy: Some(91.0),
        potential_accuracy: None,
        n300: None,
        n100: None,
        n50: None,
        miss_count: Some(7),
        passed_objects: Some(20),
    };
    let states = score.resolve();
    assert_eq!(states.potential.accuracy, None);
    assert_eq!(states.potential.miss_count, 0);
    assert_eq!(states.achieved.accuracy, Some(91.0));
    assert_eq!(states.achieved.miss_count, 7);
}

#[test]
fn std_scores_that_differ_only_in_the_miss_count_being_absent_or_zero_resolve_alike() {
    let score = StdScore {
        combo: Some(50),
        accuracy: Some(96.0),
        potential_accuracy: Some(98.0),
        n300: None,
        n100: Some(2),
        n50: None,
        miss_count: None,
        passed_objects: None,
    };
    assert_eq!(score.resolve(), StdScore { miss_count: Some(0), ..score }.resolve());
    assert_ne!(score.resolve(), StdScore { miss_count: Some(1), ..score }.resolve());
}

#[test]
fn a_taiko_score_resolves() {
    let score = TaikoScore {
        combo: Some(200),
        accuracy: Some(95.5),
        n300: Some(180),
        n100: Some(15),
        miss_count: None,
        passed_objects: Some(199),
    };
    assert_eq!(
        score.resolve(),
        TaikoState {
            combo: Some(200),
            accuracy: Some(95.5),
            n300: Some(180),
            n100: Some(15),
            miss_count: 0,
            passed_objects: Some(199),
        }
    );
    assert_eq!(score.resolve(), TaikoScore { miss_count: Some(0), ..score }.resolve());
    assert_eq!(TaikoScore { miss_count: Some(6), ..score }.resolve().miss_count, 6);
}

#[test]
fn a_catch_score_resolves() {
    let score = CatchScore {
        combo: Some(120),
        fruits: Some(100),
        droplets: Some(18),
        tiny_droplets: Some(40),
        tiny_droplet_misses: Some(2),
        miss_count: None,
        passed_objects: None,
    };
    assert_eq!(
        score.resolve(),
        CatchState {
            combo: Some(120),
            fruits: Some(100),
            droplets: Some(18),
            tiny_droplets: Some(40),
            tiny_droplet_misses: Some(2),
            miss_count: 0,
            passed_objects: None,
        }
    );
    assert_eq!(score.resolve(), CatchScore { miss_count: Some(0), ..score }.resolve());
    assert_eq!(CatchScore { miss_count: Some(3), ..score }.resolve().miss_count, 3);
}
