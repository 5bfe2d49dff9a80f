use nihilism::game::{NarrativeMoment, Player};

fn moment(text: &str) -> NarrativeMoment {
    NarrativeMoment {
        id: 7,
        text: text.to_string(),
        speaker: None,
        mood: "neutral".to_string(),
        choices: Vec::new(),
        timestamp: 0,
    }
}

#[test]
fn new_player_starts_clean() {
    let p = Player::new();
    assert_eq!(p.current_loop.number, 1);
    assert!(p.current_loop.choices_made.is_empty());
    assert!(p.current_loop.ended_at.is_none());
    assert!(p.current_loop.outcome.is_none());
    assert!(p.narrative_history.is_empty());
    assert!(p.name.is_none());
    assert_eq!(p.memory.total_loops, 0);
    assert_eq!(p.memory.total_choices, 0);
    assert_eq!(p.memory.dark_choices, 0);
    assert_eq!(p.memory.light_choices, 0);
    assert_eq!(p.memory.nihilism_score, 0);
    assert!(p.memory.key_memories.is_empty());
    assert!(p.memory.character_deaths.is_empty());
    assert!(p.memory.truths_discovered.is_empty());
}

#[test]
fn dark_choice_scores_plus_five() {
    let mut p = Player::new();
    p.make_choice("embrace_dark", true);
    assert_eq!(p.memory.total_choices, 1);
    assert_eq!(p.memory.dark_choices, 1);
    assert_eq!(p.memory.light_choices, 0);
    assert_eq!(p.memory.nihilism_score, 5);
    assert_eq!(p.current_loop.choices_made, vec!["embrace_dark".to_string()]);
}

#[test]
fn light_choice_scores_minus_three() {
    let mut p = Player::new();
    p.make_choice("offer_help", false);
    assert_eq!(p.memory.total_choices, 1);
    assert_eq!(p.memory.dark_choices, 0);
    assert_eq!(p.memory.light_choices, 1);
    assert_eq!(p.memory.nihilism_score, -3);
}

#[test]
fn score_is_clamped_at_plus_one_hundred() {
    let mut p = Player::new();
    for i in 0..30 {
        p.make_choice(&format!("dark_{}", i), true);
    }
    assert_eq!(p.memory.nihilism_score, 100);
    assert_eq!(p.memory.dark_choices, 30);
}

#[test]
fn score_is_clamped_at_minus_one_hundred() {
    let mut p = Player::new();
    for i in 0..50 {
        p.make_choice(&format!("light_{}", i), false);
    }
    assert_eq!(p.memory.nihilism_score, -100);
    assert_eq!(p.memory.light_choices, 50);
}

#[test]
fn counters_always_add_up() {
    let mut p = Player::new();
    for i in 0..25 {
        p.make_choice(&format!("c{}", i), i % 3 == 0);
    }
    assert_eq!(p.memory.dark_choices + p.memory.light_choices, p.memory.total_choices);
    assert_eq!(p.memory.total_choices, 25);
}

#[test]
fn reset_advances_the_loop_and_clears_the_history() {
    let mut p = Player::new();
    p.make_choice("one", true);
    p.record_moment(moment("The hallway repeats itself."));
    let dark = p.memory.dark_choices;
    let light = p.memory.light_choices;
    let total = p.memory.total_choices;
    let score = p.memory.nihilism_score;
    p.reset_loop();
    assert_eq!(p.memory.total_loops, 1);
    assert_eq!(p.current_loop.number, p.memory.total_loops + 1);
    assert!(p.current_loop.choices_made.is_empty());
    assert!(p.current_loop.ended_at.is_none());
    assert!(p.current_loop.outcome.is_none());
    assert!(p.narrative_history.is_empty());
    assert_eq!(p.memory.dark_choices, dark);
    assert_eq!(p.memory.light_choices, light);
    assert_eq!(p.memory.total_choices, total);
    assert_eq!(p.memory.nihilism_score, score);
}

#[test]
fn reset_keeps_the_last_moment_as_a_memory() {
    let mut p = Player::new();
    p.record_moment(moment("A first beat."));
    p.record_moment(moment("The last thing you saw."));
    p.reset_loop();
    assert_eq!(p.memory.key_memories, vec!["The last thing you saw.".to_string()]);
}

#[test]
fn reset_without_moments_keeps_no_memory() {
    let mut p = Player::new();
    p.reset_loop();
    assert!(p.memory.key_memories.is_empty());
}

#[test]
fn duplicate_memories_are_not_kept_twice() {
    let mut p = Player::new();
    p.record_moment(moment("Again the same ending."));
    p.reset_loop();
    p.record_moment(moment("Again the same ending."));
    p.reset_loop();
    assert_eq!(p.memory.key_memories.len(), 1);
}

#[test]
fn at_most_twenty_memories_are_kept() {
    let mut p = Player::new();
    for i in 0..25 {
        p.record_moment(moment(&format!("Ending number {}", i)));
        p.reset_loop();
    }
    assert_eq!(p.memory.key_memories.len(), 20);
    assert_eq!(p.memory.key_memories[0], "Ending number 0");
    assert_eq!(p.memory.key_memories[19], "Ending number 19");
}

#[test]
fn fresh_context_is_exactly_two_lines() {
    let p = Player::new();
    assert_eq!(
        p.get_narrative_context(),
        "Loop #1\nNihilism Score: 0 (Balanced on the edge)\n"
    );
}

#[test]
fn context_renders_loop_number_in_decimal() {
    let mut p = Player::new();
    p.current_loop.number = 12345;
    assert!(p.get_narrative_context().starts_with("Loop #12345\n"));
}

#[test]
fn context_labels_a_dark_score() {
    let mut p = Player::new();
    p.memory.nihilism_score = 31;
    assert!(p.get_narrative_context().contains("Nihilism Score: 31 (Descending into darkness)\n"));
}

#[test]
fn context_labels_a_hopeful_score() {
    let mut p = Player::new();
    p.memory.nihilism_score = -45;
    assert!(p.get_narrative_context().contains("Nihilism Score: -45 (Finding meaning)\n"));
}

#[test]
fn context_lists_first_five_memories_and_all_choices() {
    let mut p = Player::new();
    for i in 0..6 {
        p.memory.key_memories.push(format!("m{}", i));
    }
    p.current_loop.choices_made.push("alpha".to_string());
    p.current_loop.choices_made.push("beta".to_string());
    assert_eq!(
        p.get_narrative_context(),
        "Loop #1\nNihilism Score: 0 (Balanced on the edge)\n\nMemories that persist:\n- m0\n- m1\n- m2\n- m3\n- m4\n\nChoices this loop:\n- alpha\n- beta\n"
    );
}

#[test]
fn cloned_player_matches_the_original() {
    let mut p = Player::new();
    p.make_choice("one", true);
    p.record_moment(moment("A beat."));
    let q = p.clone();
    assert_eq!(q.id, p.id);
    assert_eq!(q.memory.total_choices, 1);
    assert_eq!(q.current_loop.choices_made, p.current_loop.choices_made);
    assert_eq!(q.narrative_history.len(), 1);
    assert_eq!(q.narrative_history[0].text, "A beat.");
}

#[test]
fn fallback_moment_offers_the_standing_choices() {
    let m = NarrativeMoment::fallback(9, "Raw output.".to_string(), 17);
    assert_eq!(m.id, 9);
    assert_eq!(m.text, "Raw output.");
    assert!(m.speaker.is_none());
    assert_eq!(m.mood, "neutral");
    assert_eq!(m.timestamp, 17);
    assert_eq!(m.choices.len(), 2);
    assert_eq!(m.choices[0].id, "continue");
    assert_eq!(m.choices[0].text, "Continue...");
    assert!(m.choices[0].consequence_hint.is_none());
    assert_eq!(m.choices[1].id, "reset");
    assert_eq!(m.choices[1].text, "Let the loop reset...");
    assert_eq!(m.choices[1].consequence_hint, Some("End this iteration".to_string()));
}
