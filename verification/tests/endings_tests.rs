use nihilism::endings::{check_for_ending, EndingResponse, EndingType};
use nihilism::game::Player;

fn player_with(loops: u64, choices: u64, dark: u64, light: u64, score: i32) -> Player {
    let mut p = Player::new();
    p.memory.total_loops = loops;
    p.memory.total_choices = choices;
    p.memory.dark_choices = dark;
    p.memory.light_choices = light;
    p.memory.nihilism_score = score;
    p
}

#[test]
fn gate_requires_five_loops() {
    let p = player_with(4, 100, 50, 50, 100);
    assert_eq!(check_for_ending(&p), None);
}

#[test]
fn gate_requires_twenty_choices() {
    let p = player_with(100, 19, 10, 9, -100);
    assert_eq!(check_for_ending(&p), None);
}

#[test]
fn balanced_counts_give_the_middle_path() {
    let p = player_with(5, 20, 16, 17, 0);
    assert_eq!(check_for_ending(&p), Some(EndingType::TheMiddlePath));
}

#[test]
fn high_score_and_dark_count_give_void_embrace() {
    let p = player_with(10, 60, 32, 5, 85);
    assert_eq!(check_for_ending(&p), Some(EndingType::VoidEmbrace));
}

#[test]
fn long_mixed_game_matches_just_monika_before_the_watcher() {
    // Loops 25, choices 70, score 10: the Just Monika rule (>= 15 loops,
    // >= 50 choices, |score| <= 30) precedes the Watcher rule in the
    // priority list, so it wins although the Watcher rule also matches.
    let p = player_with(25, 70, 10, 10, 10);
    assert_eq!(check_for_ending(&p), Some(EndingType::JustMonika));
}

#[test]
fn the_watcher_wins_over_acceptance() {
    // Both the Watcher rule and the Acceptance rule match this state; the
    // Watcher rule stands earlier in the priority list.
    let p = player_with(25, 30, 10, 10, 10);
    assert_eq!(check_for_ending(&p), Some(EndingType::TheWatcher));
}

#[test]
fn near_balance_above_fifteen_each_is_still_the_middle_path() {
    let p = player_with(6, 40, 20, 19, 0);
    assert_eq!(check_for_ending(&p), Some(EndingType::TheMiddlePath));
}

#[test]
fn no_rule_matching_gives_none() {
    let p = player_with(6, 40, 14, 26, 0);
    assert_eq!(check_for_ending(&p), None);
}

#[test]
fn low_score_and_light_count_give_tiny_perfect_things() {
    let p = player_with(10, 25, 0, 25, -60);
    assert_eq!(check_for_ending(&p), Some(EndingType::TinyPerfectThings));
}

#[test]
fn very_low_score_in_few_loops_gives_transcendence() {
    let p = player_with(8, 41, 1, 40, -80);
    assert_eq!(check_for_ending(&p), Some(EndingType::Transcendence));
}

#[test]
fn many_loops_with_moderate_score_give_acceptance() {
    let p = player_with(25, 20, 20, 0, 0);
    assert_eq!(check_for_ending(&p), Some(EndingType::Acceptance));
}

#[test]
fn repeated_evaluation_is_stable() {
    let p = player_with(10, 60, 32, 5, 85);
    let first = check_for_ending(&p);
    let second = check_for_ending(&p);
    assert_eq!(first, second);
}

#[test]
fn titles_are_fixed() {
    assert_eq!(EndingType::VoidEmbrace.get_title(), "ENDING: Void Embrace");
    assert_eq!(EndingType::TinyPerfectThings.get_title(), "ENDING: Tiny Perfect Things");
    assert_eq!(EndingType::JustMonika.get_title(), "ENDING: Just You");
    assert_eq!(EndingType::Transcendence.get_title(), "ENDING: Transcendence");
    assert_eq!(EndingType::Acceptance.get_title(), "ENDING: Acceptance");
    assert_eq!(EndingType::TheWatcher.get_title(), "ENDING: The Watcher");
    assert_eq!(EndingType::TheMiddlePath.get_title(), "ENDING: The Middle Path");
}

#[test]
fn descriptions_are_fixed() {
    assert_eq!(
        EndingType::Acceptance.get_description(),
        "The loop continues. You continue. There's no grand revelation, no dramatic escape. Just one day after another, in comfortable monotony."
    );
    assert!(EndingType::VoidEmbrace.get_description().starts_with("You have stared into the abyss"));
    assert!(EndingType::TheMiddlePath.get_description().contains("Perfect balance between light and dark"));
}

#[test]
fn ending_response_echoes_the_counters() {
    let p = player_with(10, 60, 32, 5, 85);
    let r = EndingResponse::from_player(&p, EndingType::VoidEmbrace);
    assert_eq!(r.ending_type, EndingType::VoidEmbrace);
    assert_eq!(r.title, "ENDING: Void Embrace");
    assert!(r.description.contains("terrible peace"));
    assert_eq!(r.total_loops, 10);
    assert_eq!(r.total_choices, 60);
    assert_eq!(r.nihilism_score, 85);
    assert_eq!(r.dark_choices, 32);
    assert_eq!(r.light_choices, 5);
}
