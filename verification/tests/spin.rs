use notion_crud::spin::{generate_spin, SpinOutcome, LUCKY_DIGIT};
use rand::rngs::SmallRng;
use rand::SeedableRng;

#[test]
fn forced_win_shows_three_fives() {
    let mut rng = SmallRng::seed_from_u64(7);
    let outcome = generate_spin(&mut rng, true);
    assert_eq!(outcome, SpinOutcome { first: 5, second: 5, third: 5, is_win: true });
}

#[test]
fn forced_win_draws_nothing() {
    let mut rng = SmallRng::seed_from_u64(11);
    let untouched = rng.clone();
    let _ = generate_spin(&mut rng, true);
    assert_eq!(rng, untouched);
}

#[test]
fn lucky_digit_is_five() {
    assert_eq!(LUCKY_DIGIT, 5);
}

#[test]
fn spin_without_win_never_shows_three_fives() {
    let mut rng = SmallRng::seed_from_u64(2024);
    for _ in 0..200_000 {
        let outcome = generate_spin(&mut rng, false);
        assert!(!outcome.is_win);
        assert!(outcome.first <= 9 && outcome.second <= 9 && outcome.third <= 9);
        assert_ne!((outcome.first, outcome.second, outcome.third), (5, 5, 5));
    }
}

#[test]
fn spin_without_win_draws_every_digit() {
    let mut rng = SmallRng::seed_from_u64(5);
    let mut seen = [false; 10];
    for _ in 0..2_000 {
        let outcome = generate_spin(&mut rng, false);
        seen[outcome.first as usize] = true;
        seen[outcome.second as usize] = true;
        seen[outcome.third as usize] = true;
    }
    assert_eq!(seen, [true; 10]);
}

#[test]
fn spin_is_determined_by_the_seed() {
    let mut one = SmallRng::seed_from_u64(99);
    let mut other = SmallRng::seed_from_u64(99);
    for _ in 0..100 {
        assert_eq!(generate_spin(&mut one, false), generate_spin(&mut other, false));
    }
}

#[test]
fn three_fives_drawn_without_win_lose_the_first() {
    let outcome = SpinOutcome::from_draw(false, 5, 5, 5);
    assert_eq!(outcome, SpinOutcome { first: 0, second: 5, third: 5, is_win: false });
}

#[test]
fn other_draws_are_kept() {
    assert_eq!(
        SpinOutcome::from_draw(false, 5, 5, 4),
        SpinOutcome { first: 5, second: 5, third: 4, is_win: false }
    );
    assert_eq!(
        SpinOutcome::from_draw(false, 0, 0, 0),
        SpinOutcome { first: 0, second: 0, third: 0, is_win: false }
    );
    assert_eq!(
        SpinOutcome::from_draw(false, 9, 5, 5),
        SpinOutcome { first: 9, second: 5, third: 5, is_win: false }
    );
}

#[test]
fn win_overrides_the_draw() {
    assert_eq!(
        SpinOutcome::from_draw(true, 1, 2, 3),
        SpinOutcome { first: 5, second: 5, third: 5, is_win: true }
    );
}

#[test]
fn every_draw_gives_a_valid_outcome() {
    for first in 0..10u8 {
        for second in 0..10u8 {
            for third in 0..10u8 {
                for win in [false, true] {
                    let outcome = SpinOutcome::from_draw(win, first, second, third);
                    let triple = (outcome.first, outcome.second, outcome.third);
                    assert_eq!(outcome.is_win, win);
                    assert_eq!(outcome.is_win, triple == (5, 5, 5));
                    assert!(outcome.first <= 9 && outcome.second <= 9 && outcome.third <= 9);
                }
            }
        }
    }
}

#[test]
fn number_spells_the_digits() {
    let outcome = SpinOutcome { first: 5, second: 5, third: 5, is_win: true };
    assert_eq!(outcome.number(), 555);
    let outcome = SpinOutcome { first: 0, second: 1, third: 2, is_win: false };
    assert_eq!(outcome.number(), 12);
    let outcome = SpinOutcome { first: 9, second: 0, third: 7, is_win: false };
    assert_eq!(outcome.number(), 907);
}

#[test]
fn number_is_the_digits_joined_and_parsed() {
    for first in 0..10u8 {
        for second in 0..10u8 {
            for third in 0..10u8 {
                let outcome = SpinOutcome { first, second, third, is_win: false };
                let joined = outcome.response().numbers.join("");
                assert_eq!(outcome.number(), joined.parse::<i32>().unwrap());
            }
        }
    }
}

#[test]
fn response_shows_each_digit_as_a_string() {
    let outcome = SpinOutcome { first: 0, second: 5, third: 9, is_win: false };
    let response = outcome.response();
    assert_eq!(response.numbers, vec!["0".to_string(), "5".to_string(), "9".to_string()]);
    assert!(!response.is_win);
    let outcome = SpinOutcome { first: 5, second: 5, third: 5, is_win: true };
    let response = outcome.response();
    assert_eq!(response.numbers, vec!["5".to_string(), "5".to_string(), "5".to_string()]);
    assert!(response.is_win);
}
