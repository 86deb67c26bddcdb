use inquire_core::action::{SelectPromptAction, TextConfig, TextPromptAction};
use inquire_core::error::InquireError;
use inquire_core::input::InputAction;
use inquire_core::key::{Key, KeyModifiers};
use inquire_core::pager::{page_bounds, paginate};
use inquire_core::select::{
    default_filter, skippable, RenderConfig, Select, SelectPrompt, SelectStep, DEFAULT_PAGE_SIZE,
};
use inquire_core::text::contains_str;

fn plain() -> KeyModifiers {
    KeyModifiers::none()
}

#[test]
fn paginate_start_of_long_list() {
    let items: Vec<u32> = (0..12).collect();
    let page = paginate(5, &items, 0);
    assert_eq!(page.content, &[0, 1, 2, 3, 4]);
    assert_eq!(page.selection, 0);
    assert!(page.first);
    assert!(!page.last);
}

#[test]
fn paginate_end_of_long_list() {
    let items: Vec<u32> = (0..12).collect();
    let page = paginate(5, &items, 11);
    assert_eq!(page.content, &[7, 8, 9, 10, 11]);
    assert_eq!(page.selection, 4);
    assert!(!page.first);
    assert!(page.last);
}

#[test]
fn paginate_centres_cursor() {
    let items: Vec<u32> = (0..12).collect();
    let page = paginate(5, &items, 6);
    assert_eq!(page.content, &[4, 5, 6, 7, 8]);
    assert_eq!(page.selection, 2);
    assert!(!page.first && !page.last);
}

#[test]
fn paginate_short_list() {
    let items = vec!["a", "b", "c"];
    let page = paginate(7, &items, 2);
    assert_eq!(page.content.len(), 3);
    assert_eq!(page.selection, 2);
    assert!(page.first && page.last);
    assert_eq!(page.total, 3);
}

#[test]
fn page_bounds_values() {
    assert_eq!(page_bounds(12, 5, 0), (0, 5));
    assert_eq!(page_bounds(12, 5, 11), (7, 12));
    assert_eq!(page_bounds(12, 5, 9), (7, 12));
    assert_eq!(page_bounds(12, 5, 2), (0, 5));
    assert_eq!(page_bounds(12, 5, 3), (1, 6));
    assert_eq!(page_bounds(4, 5, 3), (0, 4));
}

#[test]
fn input_key_mapping() {
    assert_eq!(InputAction::from_key(Key::Backspace), Some(InputAction::DeleteLeft));
    assert_eq!(InputAction::from_key(Key::Delete(plain())), Some(InputAction::DeleteRight));
    assert_eq!(
        InputAction::from_key(Key::Delete(KeyModifiers::control())),
        Some(InputAction::DeleteWordRight)
    );
    assert_eq!(
        InputAction::from_key(Key::Left(KeyModifiers::control())),
        Some(InputAction::MoveWordLeft)
    );
    assert_eq!(InputAction::from_key(Key::Right(plain())), Some(InputAction::MoveRight));
    assert_eq!(InputAction::from_key(Key::Home), Some(InputAction::MoveToStart));
    assert_eq!(InputAction::from_key(Key::End), Some(InputAction::MoveToEnd));
    assert_eq!(InputAction::from_key(Key::Char('q', plain())), Some(InputAction::Insert('q')));
    assert_eq!(
        InputAction::from_key(Key::Char('w', KeyModifiers::control())),
        Some(InputAction::DeleteWordLeft)
    );
    assert_eq!(InputAction::from_key(Key::Char('x', KeyModifiers::control())), None);
    assert_eq!(InputAction::from_key(Key::Tab), None);
    assert_eq!(InputAction::from_key(Key::Enter), None);
}

#[test]
fn text_prompt_key_mapping() {
    let cfg = TextConfig { page_size: 7 };
    assert_eq!(
        TextPromptAction::from_key(Key::Up(plain()), &cfg),
        Some(TextPromptAction::MoveToSuggestionAbove)
    );
    assert_eq!(
        TextPromptAction::from_key(Key::PageDown, &cfg),
        Some(TextPromptAction::MoveToSuggestionPageDown)
    );
    assert_eq!(
        TextPromptAction::from_key(Key::Tab, &cfg),
        Some(TextPromptAction::UseCurrentSuggestion)
    );
    assert_eq!(
        TextPromptAction::from_key(Key::Char('a', plain()), &cfg),
        Some(TextPromptAction::ValueInput(InputAction::Insert('a')))
    );
    assert_eq!(TextPromptAction::from_key(Key::Any, &cfg), None);
}

#[test]
fn select_key_mapping_with_vim_mode() {
    assert_eq!(
        SelectPromptAction::from_key(Key::Char('j', plain()), true),
        Some(SelectPromptAction::MoveDown)
    );
    assert_eq!(
        SelectPromptAction::from_key(Key::Char('k', plain()), true),
        Some(SelectPromptAction::MoveUp)
    );
    assert_eq!(
        SelectPromptAction::from_key(Key::Char('j', plain()), false),
        Some(SelectPromptAction::FilterInput(InputAction::Insert('j')))
    );
    assert_eq!(
        SelectPromptAction::from_key(Key::Down(plain()), false),
        Some(SelectPromptAction::MoveDown)
    );
    assert_eq!(
        SelectPromptAction::from_key(Key::Home, false),
        Some(SelectPromptAction::MoveToStart)
    );
}

#[test]
fn default_filter_cities() {
    let cases = [
        ("New York", false),
        ("Sacramento", true),
        ("Kansas", true),
        ("Mesa", true),
        ("Phoenix", false),
        ("Philadelphia", false),
        ("San Antonio", true),
        ("San Diego", true),
        ("Dallas", false),
        ("San Francisco", true),
        ("Austin", false),
        ("Jacksonville", false),
        ("San Jose", true),
    ];
    for (city, expected) in cases {
        assert_eq!(default_filter("sa", city), expected, "{}", city);
    }
}

#[test]
fn default_filter_ignores_case_of_filter() {
    assert!(default_filter("SA", "mesa"));
    assert!(default_filter("", "anything"));
}

#[test]
fn substring_search() {
    assert!(contains_str("hello", "ell"));
    assert!(contains_str("hello", ""));
    assert!(contains_str("hello", "hello"));
    assert!(!contains_str("hello", "hello!"));
    assert!(!contains_str("hello", "lo!"));
    assert!(contains_str("aaab", "aab"));
}

fn labels(v: &[&str]) -> Vec<String> {
    v.iter().map(|s| s.to_string()).collect()
}

fn fruit_prompt(select: Select<&'static str>) -> SelectPrompt<&'static str> {
    let l = labels(&select.options);
    match SelectPrompt::new(select, l) {
        Ok(p) => p,
        Err(e) => panic!("unexpected {:?}", e),
    }
}

const FRUITS: [&str; 4] = ["Banana", "Apple", "Strawberry", "Grapes"];

#[test]
fn select_defaults() {
    let s = Select::new("Fruit?", FRUITS.to_vec());
    assert_eq!(s.page_size, DEFAULT_PAGE_SIZE);
    assert_eq!(s.page_size, 7);
    assert!(!s.vim_mode);
    assert_eq!(s.starting_cursor, 0);
    assert_eq!(
        s.help_message.as_deref(),
        Some("↑↓ to move, enter to select, type to filter")
    );
    assert_eq!(s.render_config, RenderConfig::default_colored());
    let s = s
        .with_help_message("pick one")
        .with_page_size(3)
        .with_vim_mode(true)
        .with_starting_cursor(2)
        .with_render_config(RenderConfig::empty());
    assert_eq!(s.help_message.as_deref(), Some("pick one"));
    assert_eq!(s.page_size, 3);
    assert!(s.vim_mode);
    assert_eq!(s.starting_cursor, 2);
    assert_eq!(s.render_config, RenderConfig::empty());
    assert_eq!(s.without_help_message().help_message, None);
}

#[test]
fn select_rejects_bad_configuration() {
    let empty: Vec<&str> = vec![];
    let r = SelectPrompt::new(Select::new("?", empty), vec![]);
    assert!(matches!(r, Err(InquireError::InvalidConfiguration(_))));
    let r = SelectPrompt::new(
        Select::new("?", FRUITS.to_vec()).with_starting_cursor(4),
        labels(&FRUITS),
    );
    assert!(matches!(r, Err(InquireError::InvalidConfiguration(_))));
    let r = SelectPrompt::new(Select::new("?", FRUITS.to_vec()).with_page_size(0), labels(&FRUITS));
    assert!(matches!(r, Err(InquireError::InvalidConfiguration(_))));
    let r = SelectPrompt::new(Select::new("?", FRUITS.to_vec()), labels(&FRUITS[..2]));
    assert!(matches!(r, Err(InquireError::InvalidConfiguration(_))));
}

#[test]
fn select_wraps_around() {
    let mut p = fruit_prompt(Select::new("?", FRUITS.to_vec()));
    assert_eq!(p.handle_key(Key::Up(plain())), SelectStep::Continue);
    assert_eq!(p.handle_key(Key::Enter), SelectStep::Submitted(3));
    assert_eq!(p.handle_key(Key::Down(plain())), SelectStep::Continue);
    assert_eq!(p.handle_key(Key::Enter), SelectStep::Submitted(0));
    p.handle_key(Key::End);
    assert_eq!(p.handle_key(Key::Enter), SelectStep::Submitted(3));
    p.handle_key(Key::PageUp);
    assert_eq!(p.handle_key(Key::Enter), SelectStep::Submitted(0));
}

#[test]
fn select_starting_cursor_and_answer() {
    let mut p = fruit_prompt(Select::new("?", FRUITS.to_vec()).with_starting_cursor(2));
    let step = p.handle_key(Key::Enter);
    assert_eq!(step, SelectStep::Submitted(2));
    let answer = p.into_answer(2);
    assert_eq!(answer.index, 2);
    assert_eq!(answer.value, "Strawberry");
}

#[test]
fn select_filter_narrows_list() {
    let mut p = fruit_prompt(Select::new("?", FRUITS.to_vec()));
    p.handle_key(Key::Char('A', plain()));
    p.handle_key(Key::Char('P', plain()));
    assert_eq!(p.handle_key(Key::Enter), SelectStep::Submitted(1));
    p.handle_key(Key::Down(plain()));
    assert_eq!(p.handle_key(Key::Enter), SelectStep::Submitted(3));
    p.handle_key(Key::Char('z', plain()));
    assert_eq!(p.handle_key(Key::Enter), SelectStep::Continue);
    p.handle_key(Key::Backspace);
    assert_eq!(p.handle_key(Key::Enter), SelectStep::Submitted(1));
}

#[test]
fn select_vim_mode_moves() {
    let mut p = fruit_prompt(Select::new("?", FRUITS.to_vec()).with_vim_mode(true));
    p.handle_key(Key::Char('j', plain()));
    p.handle_key(Key::Char('j', plain()));
    p.handle_key(Key::Char('k', plain()));
    assert_eq!(p.handle_key(Key::Enter), SelectStep::Submitted(1));
}

#[test]
fn select_cancel() {
    let mut p = fruit_prompt(Select::new("?", FRUITS.to_vec()));
    assert_eq!(p.handle_key(Key::Escape), SelectStep::Canceled);
}

#[test]
fn skippable_maps_cancel_to_none() {
    assert_eq!(skippable(Ok::<u8, InquireError>(3)), Ok(Some(3)));
    assert_eq!(skippable(Err::<u8, InquireError>(InquireError::OperationCanceled)), Ok(None));
    assert_eq!(
        skippable(Err::<u8, InquireError>(InquireError::StreamEnded)),
        Err(InquireError::StreamEnded)
    );
}
