use nihilism::classify::classify;

#[test]
fn empty_inputs_are_light() {
    assert!(!classify("", ""));
}

#[test]
fn unmatched_inputs_are_light() {
    assert!(!classify("offer_help", "Stay with them a while"));
}

#[test]
fn identifier_keywords_are_dark() {
    assert!(classify("dark_path", ""));
    assert!(classify("hurt_them", ""));
    assert!(classify("ignore_plea", ""));
    assert!(classify("nihil_embrace", ""));
    assert!(classify("cruel_word", ""));
    assert!(classify("abandon_all", ""));
}

#[test]
fn matching_is_case_insensitive() {
    assert!(classify("DARK_CHOICE", ""));
    assert!(classify("", "Nothing Matters anymore"));
}

#[test]
fn text_phrases_are_dark() {
    assert!(classify("", "kill the lights"));
    assert!(classify("", "abandon the plan"));
    assert!(classify("", "I don't care"));
    assert!(classify("", "it is all meaningless"));
    assert!(classify("", "leave them behind"));
    assert!(classify("", "just walk away"));
}

#[test]
fn keyword_inside_a_longer_word_still_matches() {
    assert!(classify("embrace_darkness", ""));
}

#[test]
fn identifier_phrases_do_not_match_the_text_list() {
    // "dark" is an identifier keyword only; in the display text it means
    // nothing unless a text phrase also occurs.
    assert!(!classify("", "a dark evening"));
}
