use chrono::Datelike;
use inquire_core::calendar::{center_20, two_column_number, week_header, weekday_label, Date};
use inquire_core::error::InquireError;
use inquire_core::renderer::Renderer;
use inquire_core::terminal::{Color, TermCommand};

fn date(y: i32, m: u32, d: u32) -> Date {
    Date::from_ymd(y, m, d).unwrap()
}

fn writes(cmds: &[TermCommand]) -> Vec<String> {
    cmds.iter()
        .filter_map(|c| match c {
            TermCommand::Write(s) if s != "\n" => Some(s.clone()),
            _ => None,
        })
        .collect()
}

#[test]
fn date_numbers_match_chrono() {
    let d = date(2021, 2, 1);
    let c = chrono::NaiveDate::from_ymd_opt(2021, 2, 1).unwrap();
    assert_eq!(d.days_from_ce, c.num_days_from_ce());
    assert_eq!(date(1, 1, 1).days_from_ce, 1);
    assert!(Date::from_ymd(2021, 2, 30).is_none());
}

#[test]
fn calendar_helpers() {
    assert_eq!(two_column_number(7), " 7");
    assert_eq!(two_column_number(31), "31");
    assert_eq!(weekday_label(0), "mo");
    assert_eq!(weekday_label(6), "su");
    assert_eq!(week_header(6), "su mo tu we th fr sa");
    assert_eq!(week_header(0), "mo tu we th fr sa su");
    assert_eq!(center_20("february 2021"), "   february 2021    ");
    assert_eq!(center_20("a long heading of many letters"), "a long heading of many letters");
}

#[test]
fn calendar_month_grid() {
    let mut r = Renderer::new();
    r.flush();
    let today = date(2021, 2, 10);
    let selected = date(2021, 2, 12);
    r.print_calendar_month(2, 2021, 6, today, selected, Some(date(2021, 2, 3)), None)
        .unwrap();
    let cmds = r.flush();
    let w = writes(&cmds);
    assert_eq!(w[0], "> ");
    assert_eq!(w[1], "   february 2021    ");
    assert_eq!(w[2], "> ");
    assert_eq!(w[3], "su mo tu we th fr sa");
    let first_row: Vec<&str> = w[4..17].iter().map(|s| s.as_str()).collect();
    assert_eq!(
        first_row,
        vec!["> ", "31", " ", " 1", " ", " 2", " ", " 3", " ", " 4", " ", " 5", " "]
    );
    // 6 weeks of 7 days, each with the leading marker and 6 separators.
    assert_eq!(w.len(), 4 + 6 * (1 + 7 + 6));
    let lines = cmds.iter().filter(|c| **c == TermCommand::Write("\n".to_string())).count();
    assert_eq!(lines, 8);
    r.reset_prompt();
    assert_eq!(r.flush().len(), 24);
}

#[test]
fn calendar_colors() {
    let mut r = Renderer::new();
    r.flush();
    let today = date(2021, 2, 10);
    let selected = date(2021, 2, 12);
    r.print_calendar_month(2, 2021, 6, today, selected, Some(date(2021, 2, 3)), None)
        .unwrap();
    let cmds = r.flush();
    let pos = |text: &str| cmds.iter().position(|c| *c == TermCommand::Write(text.to_string()));
    let i = pos("12").unwrap();
    assert_eq!(cmds[i - 2], TermCommand::SetFg(Color::Black));
    assert_eq!(cmds[i - 1], TermCommand::SetBg(Color::Grey));
    let i = pos("10").unwrap();
    assert_eq!(cmds[i - 1], TermCommand::SetFg(Color::Green));
    let i = pos("31").unwrap();
    assert_eq!(cmds[i - 1], TermCommand::SetFg(Color::DarkGrey));
    let i = pos(" 2").unwrap();
    assert_eq!(cmds[i - 1], TermCommand::SetFg(Color::DarkGrey));
    let i = pos(" 4").unwrap();
    assert_eq!(cmds[i - 1], TermCommand::Write(" ".to_string()));
}

#[test]
fn calendar_week_starting_on_first() {
    let mut r = Renderer::new();
    r.flush();
    let d = date(2021, 2, 1);
    r.print_calendar_month(2, 2021, 0, d, d, None, None).unwrap();
    let w = writes(&r.flush());
    assert_eq!(w[3], "mo tu we th fr sa su");
    assert_eq!(w[5], "25");
}

#[test]
fn calendar_out_of_range_prints_nothing() {
    let mut r = Renderer::new();
    r.flush();
    let d = date(2021, 2, 1);
    let res = r.print_calendar_month(2, i32::MAX, 0, d, d, None, None);
    assert!(matches!(res, Err(InquireError::InvalidConfiguration(_))));
    assert!(r.flush().is_empty());
}
