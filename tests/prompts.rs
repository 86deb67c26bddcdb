use inquire_core::error::{InquireError, Validation};
use inquire_core::input::{Input, InputAction};
use inquire_core::key::{Key, KeyModifiers};
use inquire_core::password::{PasswordPrompt, Step};

fn ch(c: char) -> Key {
    Key::Char(c, KeyModifiers::none())
}

fn type_text(p: &mut PasswordPrompt, text: &str) {
    for c in text.chars() {
        assert_eq!(p.handle_key(ch(c)), Step::Continue);
    }
}

fn length_validator(ans: &str) -> Validation {
    let len = ans.len();
    if len > 5 && len < 10 {
        Validation::Valid
    } else {
        Validation::Invalid("bad length".to_string())
    }
}

/// Runs a prompt over `keys`, validating with `validator`; `None` when the
/// keys run out first.
fn run(
    mut p: PasswordPrompt,
    keys: Vec<Key>,
    validator: fn(&str) -> Validation,
) -> Option<Result<String, InquireError>> {
    for key in keys {
        let mut step = p.handle_key(key);
        if let Step::Validate(v) = step {
            step = p.submit(validator(&v));
        }
        if let Some(r) = step.result() {
            return Some(r);
        }
    }
    None
}

fn keys_of(text: &str) -> Vec<Key> {
    text.chars()
        .map(|c| if c == '\n' { Key::Enter } else { ch(c) })
        .collect()
}

fn always_valid(_: &str) -> Validation {
    Validation::Valid
}

#[test]
fn empty() {
    let p = PasswordPrompt::new("", false);
    assert_eq!(run(p, vec![Key::Enter], always_valid), Some(Ok(String::new())));
}

#[test]
fn single_letter() {
    let p = PasswordPrompt::new("", false);
    assert_eq!(
        run(p, vec![ch('b'), Key::Enter], always_valid),
        Some(Ok("b".to_string()))
    );
}

#[test]
fn letters_and_enter() {
    let p = PasswordPrompt::new("", false);
    assert_eq!(
        run(p, keys_of("normal input\n"), always_valid),
        Some(Ok("normal input".to_string()))
    );
}

#[test]
fn letters_and_enter_with_emoji() {
    let p = PasswordPrompt::new("", false);
    assert_eq!(
        run(p, keys_of("with emoji 🧘🏻‍♂️, 🌍, 🍞, 🚗, 📞\n"), always_valid),
        Some(Ok("with emoji 🧘🏻‍♂️, 🌍, 🍞, 🚗, 📞".to_string()))
    );
}

#[test]
fn input_and_correction() {
    let mut keys = keys_of("anor");
    keys.extend(vec![Key::Backspace; 4]);
    keys.extend(keys_of("normal input\n"));
    let p = PasswordPrompt::new("", false);
    assert_eq!(run(p, keys, always_valid), Some(Ok("normal input".to_string())));
}

#[test]
fn input_and_excessive_correction() {
    let mut keys = keys_of("anor");
    keys.extend(vec![Key::Backspace; 10]);
    keys.extend(keys_of("normal input\n"));
    let p = PasswordPrompt::new("", false);
    assert_eq!(run(p, keys, always_valid), Some(Ok("normal input".to_string())));
}

#[test]
fn input_correction_after_validation() {
    let mut keys = keys_of("1234567890\n");
    keys.extend(vec![Key::Backspace; 5]);
    keys.extend(keys_of("yes\n"));
    let p = PasswordPrompt::new("", false);
    assert_eq!(run(p, keys, length_validator), Some(Ok("12345yes".to_string())));
}

#[test]
fn input_confirmation_same() {
    let p = PasswordPrompt::new("", true);
    assert_eq!(
        run(p, keys_of("1234567890\n1234567890\n"), always_valid),
        Some(Ok("1234567890".to_string()))
    );
}

#[test]
fn input_confirmation_different() {
    let p = PasswordPrompt::new("", true);
    assert_eq!(
        run(p, keys_of("1234567890\nabcdefghij\n"), always_valid),
        Some(Err(InquireError::ConfirmationMismatch))
    );
}

#[test]
fn confirmation_flow_step_by_step() {
    let mut p = PasswordPrompt::new("Password", true);
    type_text(&mut p, "1234567890");
    assert_eq!(p.handle_key(Key::Enter), Step::Validate("1234567890".to_string()));
    assert_eq!(p.submit(Validation::Valid), Step::Continue);
    assert!(p.confirming());
    assert_eq!(p.value(), "");
    type_text(&mut p, "1234567890");
    assert_eq!(p.handle_key(Key::Enter), Step::Submitted("1234567890".to_string()));
}

#[test]
fn confirmation_mismatch_ends_without_retry() {
    let mut p = PasswordPrompt::new("Password", true);
    type_text(&mut p, "1234567890");
    p.handle_key(Key::Enter);
    p.submit(Validation::Valid);
    type_text(&mut p, "123456789");
    let step = p.handle_key(Key::Enter);
    assert_eq!(step, Step::Mismatch);
    assert_eq!(step.result(), Some(Err(InquireError::ConfirmationMismatch)));
}

#[test]
fn validated_retry_keeps_buffer() {
    let mut p = PasswordPrompt::new("", false);
    type_text(&mut p, "1234567890");
    let step = p.handle_key(Key::Enter);
    assert_eq!(step, Step::Validate("1234567890".to_string()));
    assert_eq!(p.submit(length_validator("1234567890")), Step::Continue);
    assert_eq!(p.value(), "1234567890");
    assert_eq!(p.error(), Some("bad length".to_string()));
    for _ in 0..3 {
        p.handle_key(Key::Backspace);
    }
    assert_eq!(p.handle_key(Key::Enter), Step::Validate("1234567".to_string()));
    assert_eq!(p.submit(length_validator("1234567")), Step::Submitted("1234567".to_string()));
}

#[test]
fn repeated_rejections_never_touch_buffer() {
    let mut p = PasswordPrompt::new("", true);
    type_text(&mut p, "secret");
    p.handle_key(Key::Left(KeyModifiers::none()));
    for i in 0..20 {
        assert_eq!(p.submit(Validation::Invalid(format!("no {}", i))), Step::Continue);
        assert_eq!(p.value(), "secret");
        assert!(!p.confirming());
    }
    p.handle_key(ch('X'));
    assert_eq!(p.value(), "secreXt");
}

#[test]
fn cancel_before_confirmation() {
    let mut p = PasswordPrompt::new("", true);
    type_text(&mut p, "abc");
    let step = p.handle_key(Key::Escape);
    assert_eq!(step, Step::Canceled);
    assert_eq!(step.result(), Some(Err(InquireError::OperationCanceled)));
}

#[test]
fn cancel_during_confirmation() {
    let mut p = PasswordPrompt::new("", true);
    type_text(&mut p, "abc");
    p.handle_key(Key::Enter);
    p.submit(Validation::Valid);
    type_text(&mut p, "abc");
    let step = p.handle_key(Key::Escape);
    assert_eq!(step, Step::Canceled);
    assert_eq!(step.result(), Some(Err(InquireError::OperationCanceled)));
}

#[test]
fn unmapped_key_changes_nothing() {
    let mut p = PasswordPrompt::new("", false);
    type_text(&mut p, "ab");
    assert_eq!(p.handle_key(Key::Any), Step::Continue);
    assert_eq!(p.handle_key(Key::Tab), Step::Continue);
    assert_eq!(p.value(), "ab");
}

#[test]
fn delete_left_at_start_is_noop() {
    let mut i = Input::new_with("abc");
    i.move_to_start();
    i.delete_left();
    assert_eq!(i.content(), "abc");
    assert_eq!(i.cursor(), 0);
}

#[test]
fn delete_right_at_end_is_noop() {
    let mut i = Input::new_with("abc");
    i.delete_right();
    assert_eq!(i.content(), "abc");
    assert_eq!(i.cursor(), 3);
}

#[test]
fn cursor_counts_characters_not_bytes() {
    let mut i = Input::new_with("héllo🌍");
    assert_eq!(i.cursor(), 6);
    assert_eq!(i.length(), 6);
    i.move_left();
    i.delete_left();
    assert_eq!(i.content(), "héll🌍");
    assert_eq!(i.cursor(), 4);
    i.insert('ö');
    assert_eq!(i.content(), "héllö🌍");
    assert_eq!(i.cursor(), 5);
}

#[test]
fn cursor_stays_in_bounds_over_many_edits() {
    let actions = [
        InputAction::MoveLeft,
        InputAction::DeleteLeft,
        InputAction::Insert('x'),
        InputAction::MoveRight,
        InputAction::MoveRight,
        InputAction::DeleteRight,
        InputAction::MoveWordLeft,
        InputAction::MoveWordRight,
        InputAction::DeleteWordLeft,
        InputAction::DeleteWordRight,
        InputAction::MoveToStart,
        InputAction::MoveToEnd,
        InputAction::Insert(' '),
    ];
    let mut i = Input::new_with("hello big world");
    for round in 0..40 {
        let a = actions[(round * 7) % actions.len()];
        i.handle(a);
        assert!(i.cursor() <= i.length());
        assert_eq!(i.content().chars().count(), i.length());
    }
}

#[test]
fn word_moves_stop_at_word_boundaries() {
    let mut i = Input::new_with("hello big  world");
    i.move_word_left();
    assert_eq!(i.cursor(), 11);
    i.move_word_left();
    assert_eq!(i.cursor(), 6);
    i.move_word_right();
    assert_eq!(i.cursor(), 9);
    i.move_word_right();
    assert_eq!(i.cursor(), 16);
    i.move_to_start();
    i.move_word_right();
    assert_eq!(i.cursor(), 5);
}

#[test]
fn word_moves_skip_unicode_spaces() {
    let mut i = Input::new_with("ab\u{3000}cd");
    i.move_word_left();
    assert_eq!(i.cursor(), 3);
    i.move_word_left();
    assert_eq!(i.cursor(), 0);
}

#[test]
fn delete_words() {
    let mut i = Input::new_with("hello big world");
    i.delete_word_left();
    assert_eq!(i.content(), "hello big ");
    assert_eq!(i.cursor(), 10);
    i.move_to_start();
    i.delete_word_right();
    assert_eq!(i.content(), " big ");
    assert_eq!(i.cursor(), 0);
}

#[test]
fn handle_reports_changes() {
    let mut i = Input::new_with("ab");
    assert!(!i.handle(InputAction::MoveLeft));
    assert!(i.handle(InputAction::Insert('z')));
    assert_eq!(i.content(), "azb");
    assert!(!i.handle(InputAction::MoveToEnd));
    assert!(!i.handle(InputAction::DeleteRight));
    assert!(i.handle(InputAction::DeleteLeft));
    assert_eq!(i.content(), "az");
}

#[test]
fn split_around_cursor() {
    let mut i = Input::new_with("abc");
    assert_eq!(
        i.split(),
        ("abc".to_string(), " ".to_string(), String::new())
    );
    i.move_left();
    i.move_left();
    assert_eq!(
        i.split(),
        ("a".to_string(), "b".to_string(), "c".to_string())
    );
}

#[test]
fn with_cursor_clamps() {
    let i = Input::new_with("abc").with_cursor(1);
    assert_eq!(i.cursor(), 1);
    let i = Input::new_with("abc").with_cursor(10);
    assert_eq!(i.cursor(), 3);
    assert!(Input::new().is_empty());
}
