use typestate::either::Either;
use typestate::machine::Initial;

fn number_state(n: u32) -> Either {
    Either::Number(Initial::new().to_number(n))
}

fn payload(state: &Either) -> Option<u32> {
    match state {
        Either::Number(n) => Some(n.num()),
        Either::Text(_) => None,
    }
}

#[test]
fn loop_accumulates_numbers() {
    let state = number_state(0);
    let state = state.step("5".to_string());
    assert_eq!(payload(&state), Some(5));
    let state = state.step("7".to_string());
    assert_eq!(payload(&state), Some(12));
}

#[test]
fn loop_resets_on_text() {
    let state = number_state(10);
    let state = state.step("abc".to_string());
    assert_eq!(state.render(), "TEXT: abc");
    let state = state.step("3".to_string());
    // The old text payload is discarded, not combined: 3, not 13.
    assert_eq!(payload(&state), Some(3));
}

#[test]
fn loop_wraps_around_silently() {
    let state = number_state(4294967295);
    let state = state.step("1".to_string());
    assert_eq!(payload(&state), Some(0));
}

#[test]
fn loop_wraps_around_partially() {
    let state = number_state(4294967290);
    let state = state.step("10".to_string());
    assert_eq!(payload(&state), Some(4));
}

#[test]
fn step_on_text_keeps_raw_line() {
    let state = number_state(1);
    let state = state.step(" 1 2 \n".to_string());
    assert_eq!(state.render(), "TEXT:  1 2 \n");
}

#[test]
fn step_parses_trimmed_but_stores_untrimmed() {
    let state = number_state(1);
    // Trimmed, " 2 " parses: the numbers combine.
    let state = state.step(" 2 ".to_string());
    assert_eq!(payload(&state), Some(3));
}

#[test]
fn simulated_session() {
    let inputs = ["5", "7", "oops", "3", "4294967293", "abc"];
    let mut state = number_state(0);
    for line in inputs {
        state = state.step(line.to_string());
    }
    assert_eq!(state.render(), "TEXT: abc");
    let state = state.step("1".to_string());
    assert_eq!(payload(&state), Some(1));
}
