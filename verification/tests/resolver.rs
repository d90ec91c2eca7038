use dice_roll::resolve;
use dice_roll::DiceRollResult;

const VENDOR: u64 = 10;
const PLAYER: u64 = 20;

#[test]
fn resolve_is_deterministic() {
    for side_count in [1u8, 5, 77, 254] {
        for (a, b) in [(0u8, 0u8), (3, 9), (255, 254), (17, 200)] {
            let first = resolve(side_count, a, b, VENDOR, PLAYER);
            let second = resolve(side_count, a, b, VENDOR, PLAYER);
            assert_eq!(first, second);
        }
    }
}

#[test]
fn resolve_equal_faces_is_draw() {
    assert_eq!(resolve(5, 2, 2, VENDOR, PLAYER), DiceRollResult::Draw);
    // 7 % 6 == 1 and 13 % 6 == 1: different raw draws, equal faces.
    assert_eq!(resolve(5, 7, 13, VENDOR, PLAYER), DiceRollResult::Draw);
    // 6 % 6 == 0 == 0 % 6.
    assert_eq!(resolve(5, 6, 0, VENDOR, PLAYER), DiceRollResult::Draw);
}

#[test]
fn resolve_higher_face_wins() {
    assert_eq!(
        resolve(5, 1, 4, VENDOR, PLAYER),
        DiceRollResult::Finished { winner: PLAYER }
    );
    assert_eq!(
        resolve(5, 4, 1, VENDOR, PLAYER),
        DiceRollResult::Finished { winner: VENDOR }
    );
    // 11 % 6 == 5 beats 0.
    assert_eq!(
        resolve(5, 11, 0, VENDOR, PLAYER),
        DiceRollResult::Finished { winner: VENDOR }
    );
}

#[test]
fn resolve_largest_side_count() {
    // With side_count = 254 the modulus is 255: 255 % 255 == 0 == 0 % 255.
    assert_eq!(resolve(254, 255, 0, VENDOR, PLAYER), DiceRollResult::Draw);
    assert_eq!(
        resolve(254, 254, 0, VENDOR, PLAYER),
        DiceRollResult::Finished { winner: VENDOR }
    );
}

#[test]
fn resolve_single_side_count() {
    // side_count = 1 gives two faces, 0 and 1.
    assert_eq!(resolve(1, 2, 4, VENDOR, PLAYER), DiceRollResult::Draw);
    assert_eq!(
        resolve(1, 2, 3, VENDOR, PLAYER),
        DiceRollResult::Finished { winner: PLAYER }
    );
}

#[test]
fn resolve_outcomes_split_evenly_over_faces() {
    // Over every pair of faces of a die with side_count + 1 faces there are
    // exactly side_count + 1 draws, and the remaining pairs split evenly
    // between a vendor win and a player win.
    for side_count in [1u8, 5, 254] {
        let faces: u64 = side_count as u64 + 1;
        let mut draws: u64 = 0;
        let mut vendor_wins: u64 = 0;
        let mut player_wins: u64 = 0;
        for a in 0..=side_count {
            for b in 0..=side_count {
                match resolve(side_count, a, b, VENDOR, PLAYER) {
                    DiceRollResult::Draw => draws += 1,
                    DiceRollResult::Finished { winner } => {
                        if winner == VENDOR {
                            vendor_wins += 1;
                        } else {
                            assert_eq!(winner, PLAYER);
                            player_wins += 1;
                        }
                    }
                }
            }
        }
        assert_eq!(draws, faces);
        assert_eq!(vendor_wins, player_wins);
        assert_eq!(vendor_wins, faces * (faces - 1) / 2);
    }
}

#[test]
fn resolve_swapping_draws_swaps_winner() {
    for (a, b) in [(0u8, 1u8), (3, 9), (250, 7), (100, 100)] {
        let forward = resolve(5, a, b, VENDOR, PLAYER);
        let swapped = resolve(5, b, a, VENDOR, PLAYER);
        match forward {
            DiceRollResult::Draw => assert_eq!(swapped, DiceRollResult::Draw),
            DiceRollResult::Finished { winner } => {
                let other = if winner == VENDOR { PLAYER } else { VENDOR };
                assert_eq!(swapped, DiceRollResult::Finished { winner: other });
            }
        }
    }
}

#[test]
fn default_result_is_draw() {
    assert_eq!(DiceRollResult::default(), DiceRollResult::Draw);
}
