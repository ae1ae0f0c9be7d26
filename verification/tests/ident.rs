use thermav_lib::ident::{capitalize, sanitize_identifier, sanitize_word, split_whitespace, strip_underscores};

fn ident_chars(s: &str) -> Vec<char> {
    s.chars().collect()
}

#[test]
fn synthesizes_water_pump_status() {
    assert_eq!(sanitize_identifier("Water Pump Status"), "WaterPumpStatus");
}

#[test]
fn only_the_first_character_of_a_word_is_put_in_upper_case() {
    assert_eq!(sanitize_identifier("dhw heating status (on/off)"), "DhwHeatingStatusonoff");
    assert_eq!(sanitize_identifier("dhw heating status On/Off"), "DhwHeatingStatusOnOff");
}

#[test]
fn degree_sign_and_parentheses_vanish() {
    assert_eq!(sanitize_identifier("Target Temp (\u{b0}C)"), "TargetTempC");
}

#[test]
fn first_letter_of_each_word_is_put_in_upper_case() {
    assert_eq!(sanitize_identifier("water"), "Water");
    assert_eq!(sanitize_identifier("operation mode"), "OperationMode");
}

#[test]
fn rest_of_a_word_is_left_as_it_is() {
    assert_eq!(sanitize_identifier("dHW tANK"), "DHWTANK");
}

#[test]
fn upper_case_of_one_character_may_be_two() {
    assert_eq!(sanitize_identifier("\u{df}eta"), "SSeta");
}

#[test]
fn empty_and_blank_descriptions_give_an_empty_identifier() {
    assert_eq!(sanitize_identifier(""), "");
    assert_eq!(sanitize_identifier("  \t\n "), "");
    assert_eq!(sanitize_identifier("(/)"), "");
}

#[test]
fn underscores_of_the_description_vanish_too() {
    assert_eq!(sanitize_identifier("a_b c__d"), "AbCd");
}

#[test]
fn synthesis_gives_the_same_identifier_each_time() {
    let first = sanitize_identifier("Energy State Input");
    let second = sanitize_identifier("Energy State Input");
    assert_eq!(first, second);
    assert_eq!(first, "EnergyStateInput");
}

#[test]
fn words_are_split_at_any_white_space() {
    let words = split_whitespace(&ident_chars("  a bc\t\td\u{a0}e  "));
    assert_eq!(words, vec![ident_chars("a"), ident_chars("bc"), ident_chars("d"), ident_chars("e")]);
    assert_eq!(split_whitespace(&ident_chars("")), Vec::<Vec<char>>::new());
}

#[test]
fn sanitizing_a_word_replaces_what_is_not_alphanumeric() {
    assert_eq!(sanitize_word(&ident_chars("(on/off)")), ident_chars("_on_off_"));
    assert_eq!(sanitize_word(&ident_chars("abc9")), ident_chars("abc9"));
}

#[test]
fn capitalizing_touches_the_first_character_only() {
    assert_eq!(capitalize(&ident_chars("status")), ident_chars("Status"));
    assert_eq!(capitalize(&ident_chars("_on")), ident_chars("_on"));
    assert_eq!(capitalize(&ident_chars("")), ident_chars(""));
}

#[test]
fn stripping_drops_every_underscore() {
    assert_eq!(strip_underscores(&ident_chars("_On_Off_")), ident_chars("OnOff"));
    assert_eq!(strip_underscores(&ident_chars("___")), ident_chars(""));
}
