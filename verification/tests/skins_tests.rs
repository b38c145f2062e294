use flappy_core::skins::{background_for_score, BackgroundType, BirdColor, PipeColor};

#[test]
fn bird_color_names_match_sprite_files() {
    assert_eq!(BirdColor::YellowBird.as_str(), "yellowbird");
    assert_eq!(BirdColor::BlueBird.as_str(), "bluebird");
    assert_eq!(BirdColor::RedBird.as_str(), "redbird");
}

#[test]
fn pipe_color_names_match_sprite_files() {
    assert_eq!(PipeColor::Green.as_str(), "green");
    assert_eq!(PipeColor::Red.as_str(), "red");
}

#[test]
fn background_names_match_sprite_files() {
    assert_eq!(BackgroundType::Day.as_str(), "day");
    assert_eq!(BackgroundType::Night.as_str(), "night");
}

#[test]
fn bird_index_mapping_is_fixed() {
    assert_eq!(BirdColor::of_index(0), BirdColor::YellowBird);
    assert_eq!(BirdColor::of_index(1), BirdColor::BlueBird);
    assert_eq!(BirdColor::of_index(2), BirdColor::RedBird);
}

#[test]
fn random_bird_color_is_one_of_three() {
    for _ in 0..50 {
        let c = BirdColor::get_random();
        assert!(matches!(
            c,
            BirdColor::YellowBird | BirdColor::BlueBird | BirdColor::RedBird
        ));
    }
}

#[test]
fn background_alternates_every_ten_points() {
    assert_eq!(background_for_score(0), BackgroundType::Day);
    assert_eq!(background_for_score(9), BackgroundType::Day);
    assert_eq!(background_for_score(10), BackgroundType::Night);
    assert_eq!(background_for_score(19), BackgroundType::Night);
    assert_eq!(background_for_score(20), BackgroundType::Day);
    assert_eq!(background_for_score(35), BackgroundType::Night);
}
