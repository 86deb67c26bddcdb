use vstd::prelude::*;
use vstd::string::{StrSliceExecFns, StringExecFns};

use crate::error::{InquireError, InquireResult};
use crate::input::{Buffer, Input};
use crate::key::Key;
use crate::pager::Page;
use crate::terminal::{Color, Effect, Style, TermCommand, Terminal};

verus! {

/// What printing `content` with the given colors and emphasis does: set
/// each one given, write, and reset each one given; nothing for empty text.
pub open spec fn styled(
    content: Seq<char>,
    fg: Option<Color>,
    bg: Option<Color>,
    style: Option<Style>,
) -> Seq<Effect> {
    if content.len() == 0 {
        Seq::empty()
    } else {
        set_fg(fg) + set_bg(bg) + set_style(style) + seq![Effect::Write(content)] + reset_fg(fg)
            + reset_bg(bg) + reset_style(style)
    }
}

pub open spec fn set_fg(fg: Option<Color>) -> Seq<Effect> {
    match fg {
        Some(c) => seq![Effect::SetFg(c)],
        None => Seq::empty(),
    }
}

pub open spec fn set_bg(bg: Option<Color>) -> Seq<Effect> {
    match bg {
        Some(c) => seq![Effect::SetBg(c)],
        None => Seq::empty(),
    }
}

pub open spec fn set_style(style: Option<Style>) -> Seq<Effect> {
    match style {
        Some(s) => seq![Effect::SetStyle(s)],
        None => Seq::empty(),
    }
}

pub open spec fn reset_fg(fg: Option<Color>) -> Seq<Effect> {
    if fg is Some {
        seq![Effect::ResetFg]
    } else {
        Seq::empty()
    }
}

pub open spec fn reset_bg(bg: Option<Color>) -> Seq<Effect> {
    if bg is Some {
        seq![Effect::ResetBg]
    } else {
        Seq::empty()
    }
}

pub open spec fn reset_style(style: Option<Style>) -> Seq<Effect> {
    if style is Some {
        seq![Effect::ResetStyle]
    } else {
        Seq::empty()
    }
}

/// Plain text.
pub open spec fn plain(content: Seq<char>) -> Seq<Effect> {
    styled(content, None, None, None)
}

/// Text in one foreground color.
pub open spec fn colored(content: Seq<char>, c: Color) -> Seq<Effect> {
    styled(content, Some(c), None, None)
}

/// Ending a line.
pub open spec fn line_break() -> Seq<Effect> {
    seq![Effect::HorizontalReset, Effect::Write("\n"@)]
}

/// Clearing the last `n` lines, bottom up.
pub open spec fn clear_lines(n: nat) -> Seq<Effect>
    decreases n,
{
    if n == 0 {
        Seq::empty()
    } else {
        clear_lines((n - 1) as nat) + seq![Effect::CursorUp, Effect::HorizontalReset, Effect::ClearLine]
    }
}

/// The line count after one more line, saturating at the largest `usize`.
pub open spec fn bump(n: nat) -> nat {
    if n < usize::MAX {
        n + 1
    } else {
        n
    }
}

/// A piece of text with optional colors and emphasis.
pub struct Token {
    pub content: String,
    pub fg: Option<Color>,
    pub bg: Option<Color>,
    pub style: Option<Style>,
}

impl Token {
    pub open spec fn effects(&self) -> Seq<Effect> {
        styled(self.content@, self.fg, self.bg, self.style)
    }

    pub fn new(content: &str) -> (r: Self)
        ensures
            r.content@ == content@,
            r.fg is None,
            r.bg is None,
            r.style is None,
    {
        Token { content: content.to_owned(), fg: None, bg: None, style: None }
    }

    pub fn empty() -> (r: Self)
        ensures
            r.content@.len() == 0,
            r.fg is None,
            r.bg is None,
            r.style is None,
    {
        Token { content: String::new(), fg: None, bg: None, style: None }
    }

    pub fn with_fg(self, fg: Color) -> (r: Self)
        ensures
            r.content@ == self.content@,
            r.fg == Some(fg),
            r.bg == self.bg,
            r.style == self.style,
    {
        Token { fg: Some(fg), ..self }
    }

    pub fn with_bg(self, bg: Color) -> (r: Self)
        ensures
            r.content@ == self.content@,
            r.fg == self.fg,
            r.bg == Some(bg),
            r.style == self.style,
    {
        Token { bg: Some(bg), ..self }
    }

    pub fn with_style(self, style: Style) -> (r: Self)
        ensures
            r.content@ == self.content@,
            r.fg == self.fg,
            r.bg == self.bg,
            r.style == Some(style),
    {
        Token { style: Some(style), ..self }
    }

    fn print_open(&self, terminal: &mut Terminal)
        ensures
            final(terminal)@ == old(terminal)@ + set_fg(self.fg) + set_bg(self.bg) + set_style(self.style),
    {
        let ghost start = terminal@;
        if let Some(color) = self.fg {
            terminal.set_fg_color(color);
        }
        assert(terminal@ =~= start + set_fg(self.fg));
        let ghost s1 = terminal@;
        if let Some(color) = self.bg {
            terminal.set_bg_color(color);
        }
        assert(terminal@ =~= s1 + set_bg(self.bg));
        let ghost s2 = terminal@;
        if let Some(style) = self.style {
            terminal.set_style(style);
        }
        assert(terminal@ =~= s2 + set_style(self.style));
    }

    fn print_close(&self, terminal: &mut Terminal)
        ensures
            final(terminal)@ == old(terminal)@ + reset_fg(self.fg) + reset_bg(self.bg) + reset_style(
                self.style,
            ),
    {
        let ghost start = terminal@;
        if self.fg.is_some() {
            terminal.reset_fg_color();
        }
        assert(terminal@ =~= start + reset_fg(self.fg));
        let ghost s1 = terminal@;
        if self.bg.is_some() {
            terminal.reset_bg_color();
        }
        assert(terminal@ =~= s1 + reset_bg(self.bg));
        let ghost s2 = terminal@;
        if self.style.is_some() {
            terminal.reset_style();
        }
        assert(terminal@ =~= s2 + reset_style(self.style));
    }

    /// Queues the token on `terminal`.
    pub fn print(&self, terminal: &mut Terminal)
        ensures
            final(terminal)@ == old(terminal)@ + self.effects(),
    {
        let ghost start = terminal@;
        if self.content.as_str().unicode_len() == 0 {
            assert(terminal@ =~= start + self.effects());
            return;
        }
        self.print_open(terminal);
        let ghost s1 = terminal@;
        terminal.write(self.content.as_str());
        let ghost s2 = terminal@;
        self.print_close(terminal);
        let ghost opening = set_fg(self.fg) + set_bg(self.bg) + set_style(self.style);
        let ghost closing = reset_fg(self.fg) + reset_bg(self.bg) + reset_style(self.style);
        assert(s1 =~= start + opening);
        assert(terminal@ =~= s2 + closing);
        assert(self.effects() =~= opening + seq![Effect::Write(self.content@)] + closing);
        assert(terminal@ =~= start + self.effects());
    }
}

/// The effects of printing `tokens` in order.
pub open spec fn tokens_effects(tokens: Seq<Token>) -> Seq<Effect>
    decreases tokens.len(),
{
    if tokens.len() == 0 {
        Seq::empty()
    } else {
        tokens_effects(tokens.drop_last()) + tokens.last().effects()
    }
}

/// The text of three pieces, joined.
fn join3(a: &str, b: &str, c: &str) -> (r: String)
    ensures
        r@ == a@ + b@ + c@,
{
    let mut s = String::from_str(a);
    s.append(b);
    s.append(c);
    s
}

/// The input line of a prompt: the text before the cursor, the character
/// under it (highlighted) and the text after it.
pub open spec fn input_effects(b: Buffer) -> Seq<Effect> {
    let at = if b.cursor < b.text.len() {
        seq![b.text[b.cursor]]
    } else {
        seq![' ']
    };
    let after = if b.cursor < b.text.len() {
        b.text.subrange(b.cursor + 1, b.text.len() as int)
    } else {
        Seq::empty()
    };
    plain(" "@) + plain(b.text.subrange(0, b.cursor)) + styled(
        at,
        Some(Color::Black),
        Some(Color::Grey),
        None,
    ) + plain(after)
}

/// The marker and color of entry `idx` of a page of `n` entries.
pub open spec fn option_marker(idx: int, n: int, selection: int, first: bool, last: bool) -> (Seq<char>, Color) {
    if idx == 0 && !first {
        ("^ "@, Color::Reset)
    } else if idx + 1 == n && !last {
        ("v "@, Color::Reset)
    } else if idx == selection {
        (" >"@, Color::Cyan)
    } else {
        ("  "@, Color::Reset)
    }
}

/// The lines of the first `k` entries of a page.
pub open spec fn option_lines(items: Seq<String>, selection: int, first: bool, last: bool, k: nat) -> Seq<Effect>
    decreases k,
{
    if k == 0 {
        Seq::empty()
    } else {
        let i = k - 1;
        let (m, c) = option_marker(i, items.len() as int, selection, first, last);
        option_lines(items, selection, first, last, (k - 1) as nat) + colored(m + " "@ + items[i]@, c)
            + line_break()
    }
}

/// Abstract state of a renderer: how many lines the current frame holds,
/// and every terminal operation queued since the last flush.
pub struct RenderModel {
    pub cur_line: nat,
    pub effects: Seq<Effect>,
}

/// Draws prompts frame by frame, remembering how many lines the current
/// frame holds so that the next one replaces it exactly.
pub struct Renderer {
    cur_line: usize,
    terminal: Terminal,
}

impl View for Renderer {
    type V = RenderModel;

    closed spec fn view(&self) -> RenderModel {
        RenderModel { cur_line: self.cur_line as nat, effects: self.terminal@ }
    }
}

impl Renderer {
    /// A renderer with no frame drawn; the terminal cursor is hidden.
    pub fn new() -> (r: Self)
        ensures
            r@.cur_line == 0,
            r@.effects == seq![Effect::HideCursor],
    {
        let mut terminal = Terminal::new();
        terminal.cursor_hide();
        assert(terminal@ =~= seq![Effect::HideCursor]);
        Renderer { cur_line: 0, terminal }
    }

    /// Erases the current frame: exactly as many lines as it holds.
    pub fn reset_prompt(&mut self)
        ensures
            final(self)@.cur_line == 0,
            final(self)@.effects == old(self)@.effects + clear_lines(old(self)@.cur_line),
    {
        let n = self.cur_line;
        let mut i: usize = 0;
        assert(self.terminal@ =~= old(self)@.effects + clear_lines(0));
        while i < n
            invariant
                i <= n,
                n == old(self)@.cur_line,
                self.terminal@ == old(self)@.effects + clear_lines(i as nat),
            decreases n - i,
        {
            self.terminal.cursor_up();
            self.terminal.cursor_horizontal_reset();
            self.terminal.clear_current_line();
            i = i + 1;
            assert(self.terminal@ =~= old(self)@.effects + clear_lines(i as nat));
        }
        self.cur_line = 0;
    }

    pub(crate) fn new_line(&mut self)
        ensures
            final(self)@.cur_line == bump(old(self)@.cur_line),
            final(self)@.effects == old(self)@.effects + line_break(),
    {
        self.terminal.cursor_horizontal_reset();
        self.terminal.write("\n");
        assert(self.terminal@ =~= old(self)@.effects + line_break());
        self.cur_line = self.cur_line.saturating_add(1);
    }

    /// Prints `tokens` in order, on the current line.
    pub fn print_tokens(&mut self, tokens: &[Token])
        ensures
            final(self)@.cur_line == old(self)@.cur_line,
            final(self)@.effects == old(self)@.effects + tokens_effects(tokens@),
    {
        let mut i: usize = 0;
        assert(tokens@.subrange(0, 0) =~= Seq::<Token>::empty());
        assert(self.terminal@ =~= old(self)@.effects + tokens_effects(tokens@.subrange(0, 0)));
        while i < tokens.len()
            invariant
                i <= tokens@.len(),
                self.cur_line == old(self).cur_line,
                self.terminal@ == old(self)@.effects + tokens_effects(tokens@.subrange(0, i as int)),
            decreases tokens@.len() - i,
        {
            tokens[i].print(&mut self.terminal);
            assert(tokens@.subrange(0, i + 1).drop_last() =~= tokens@.subrange(0, i as int));
            i = i + 1;
            assert(self.terminal@ =~= old(self)@.effects + tokens_effects(tokens@.subrange(0, i as int)));
        }
        assert(tokens@.subrange(0, i as int) =~= tokens@);
    }

    /// Prints `# message` in red, on a line of its own.
    pub fn print_error_message(&mut self, message: &str)
        ensures
            final(self)@.cur_line == bump(old(self)@.cur_line),
            final(self)@.effects == old(self)@.effects + colored("# "@ + message@, Color::Red)
                + line_break(),
    {
        let text = join3("# ", message, "");
        assert(text@ =~= "# "@ + message@) by { reveal_strlit(""); }
        Token::new(text.as_str()).with_fg(Color::Red).print(&mut self.terminal);
        self.new_line();
    }

    /// Prints `? prompt answer`, the answer in cyan, on a line of its own.
    pub fn print_prompt_answer(&mut self, prompt: &str, answer: &str)
        ensures
            final(self)@.cur_line == bump(old(self)@.cur_line),
            final(self)@.effects == old(self)@.effects + colored("? "@, Color::Green) + plain(prompt@)
                + colored(" "@ + answer@, Color::Cyan) + line_break(),
    {
        let text = join3(" ", answer, "");
        assert(text@ =~= " "@ + answer@) by { reveal_strlit(""); }
        Token::new("? ").with_fg(Color::Green).print(&mut self.terminal);
        Token::new(prompt).print(&mut self.terminal);
        Token::new(text.as_str()).with_fg(Color::Cyan).print(&mut self.terminal);
        self.new_line();
    }

    /// Prints `? prompt`, then ` (default)` if given, then the current
    /// content in bold if given and not empty, on a line of its own.
    pub fn print_prompt(&mut self, prompt: &str, default: Option<&str>, content: Option<&str>)
        ensures
            final(self)@.cur_line == bump(old(self)@.cur_line),
            final(self)@.effects == old(self)@.effects + colored("? "@, Color::Green) + plain(prompt@)
                + match default {
                Some(d) => plain(" ("@ + d@ + ")"@),
                None => Seq::empty(),
            } + match content {
                Some(c) => if c@.len() > 0 {
                    styled(" "@ + c@, None, None, Some(Style::Bold))
                } else {
                    Seq::empty()
                },
                None => Seq::empty(),
            } + line_break(),
    {
        let ghost e0 = self.terminal@;
        Token::new("? ").with_fg(Color::Green).print(&mut self.terminal);
        Token::new(prompt).print(&mut self.terminal);
        let ghost e1 = self.terminal@;
        match default {
            Some(d) => {
                let text = join3(" (", d, ")");
                Token::new(text.as_str()).print(&mut self.terminal);
            },
            None => {
                assert(self.terminal@ =~= e1 + Seq::<Effect>::empty());
            },
        }
        let ghost e2 = self.terminal@;
        match content {
            Some(c) if c.unicode_len() > 0 => {
                let text = join3(" ", c, "");
                assert(text@ =~= " "@ + c@) by { reveal_strlit(""); }
                Token::new(text.as_str()).with_style(Style::Bold).print(&mut self.terminal);
            },
            _ => {
                assert(self.terminal@ =~= e2 + Seq::<Effect>::empty());
            },
        }
        self.new_line();
    }

    /// Prints `? prompt`, ` (default)` if given, then the input with the
    /// character under the cursor highlighted, on a line of its own.
    #[verifier::rlimit(40)]
    pub fn print_prompt_input(&mut self, prompt: &str, default: Option<&str>, content: &Input)
        requires
            content.wf(),
        ensures
            final(self)@.cur_line == bump(old(self)@.cur_line),
            final(self)@.effects == old(self)@.effects + colored("? "@, Color::Green) + plain(prompt@)
                + match default {
                Some(d) => plain(" ("@ + d@ + ")"@),
                None => Seq::empty(),
            } + input_effects(content@) + line_break(),
    {
        Token::new("? ").with_fg(Color::Green).print(&mut self.terminal);
        Token::new(prompt).print(&mut self.terminal);
        let ghost e1 = self.terminal@;
        match default {
            Some(d) => {
                let text = join3(" (", d, ")");
                Token::new(text.as_str()).print(&mut self.terminal);
            },
            None => {
                assert(self.terminal@ =~= e1 + Seq::<Effect>::empty());
            },
        }
        let ghost e2 = self.terminal@;
        let (before, at, after) = content.split();
        Token::new(" ").print(&mut self.terminal);
        Token::new(before.as_str()).print(&mut self.terminal);
        Token::new(at.as_str()).with_bg(Color::Grey).with_fg(Color::Black).print(&mut self.terminal);
        Token::new(after.as_str()).print(&mut self.terminal);
        assert(self.terminal@ =~= e2 + input_effects(content@));
        self.new_line();
    }

    /// Prints `[message]` in cyan, on a line of its own.
    pub fn print_help(&mut self, message: &str)
        ensures
            final(self)@.cur_line == bump(old(self)@.cur_line),
            final(self)@.effects == old(self)@.effects + colored("["@ + message@ + "]"@, Color::Cyan)
                + line_break(),
    {
        let text = join3("[", message, "]");
        Token::new(text.as_str()).with_fg(Color::Cyan).print(&mut self.terminal);
        self.new_line();
    }

    /// Prints one option, marked `> ` in cyan under the cursor, indented
    /// otherwise.
    pub fn print_option(&mut self, cursor: bool, content: &str)
        ensures
            final(self)@.cur_line == bump(old(self)@.cur_line),
            final(self)@.effects == old(self)@.effects + (if cursor {
                colored("> "@ + content@, Color::Cyan)
            } else {
                plain("  "@ + content@)
            }) + line_break(),
    {
        if cursor {
            let text = join3("> ", content, "");
            assert(text@ =~= "> "@ + content@) by { reveal_strlit(""); }
            Token::new(text.as_str()).with_fg(Color::Cyan).print(&mut self.terminal);
        } else {
            let text = join3("  ", content, "");
            assert(text@ =~= "  "@ + content@) by { reveal_strlit(""); }
            Token::new(text.as_str()).print(&mut self.terminal);
        }
        self.new_line();
    }

    /// Prints the entries of a page, one per line: `^` on the first line
    /// when entries precede the page, `v` on the last when entries follow
    /// it, and `>` in cyan on the highlighted one.
    pub fn print_options(&mut self, page: &Page<String>)
        ensures
            final(self)@.cur_line == old(self)@.cur_line + page.content@.len() || final(self)@.cur_line
                == usize::MAX,
            final(self)@.cur_line <= old(self)@.cur_line + page.content@.len(),
            final(self)@.effects == old(self)@.effects + option_lines(
                page.content@,
                page.selection as int,
                page.first,
                page.last,
                page.content@.len(),
            ),
    {
        let n = page.content.len();
        let mut idx: usize = 0;
        assert(self.terminal@ =~= old(self)@.effects + option_lines(
            page.content@,
            page.selection as int,
            page.first,
            page.last,
            0,
        ));
        while idx < n
            invariant
                idx <= n,
                n == page.content@.len(),
                self.cur_line == old(self).cur_line + idx || self.cur_line == usize::MAX,
                self.cur_line <= old(self).cur_line + idx,
                self.terminal@ == old(self)@.effects + option_lines(
                    page.content@,
                    page.selection as int,
                    page.first,
                    page.last,
                    idx as nat,
                ),
            decreases n - idx,
        {
            let (marker, color) = if idx == 0 && !page.first {
                ("^ ", Color::Reset)
            } else if idx + 1 == n && !page.last {
                ("v ", Color::Reset)
            } else if idx == page.selection {
                (" >", Color::Cyan)
            } else {
                ("  ", Color::Reset)
            };
            assert((marker@, color) == option_marker(
                idx as int,
                n as int,
                page.selection as int,
                page.first,
                page.last,
            ));
            let text = join3(marker, " ", page.content[idx].as_str());
            Token::new(text.as_str()).with_fg(color).print(&mut self.terminal);
            self.new_line();
            idx = idx + 1;
            assert(self.terminal@ =~= old(self)@.effects + option_lines(
                page.content@,
                page.selection as int,
                page.first,
                page.last,
                idx as nat,
            ));
        }
    }

    /// Prints one option of a multiple-choice list: the cursor marker, the
    /// check box, and the option.
    pub fn print_multi_option(&mut self, cursor: bool, checked: bool, content: &str)
        ensures
            final(self)@.cur_line == bump(old(self)@.cur_line),
            final(self)@.effects == old(self)@.effects + (if cursor {
                colored("> "@, Color::Cyan)
            } else {
                plain("  "@)
            }) + (if checked {
                colored("[x] "@, Color::Green)
            } else {
                plain("[ ] "@)
            }) + plain(content@) + line_break(),
    {
        let c = if cursor {
            Token::new("> ").with_fg(Color::Cyan)
        } else {
            Token::new("  ")
        };
        c.print(&mut self.terminal);
        let b = if checked {
            Token::new("[x] ").with_fg(Color::Green)
        } else {
            Token::new("[ ] ")
        };
        b.print(&mut self.terminal);
        Token::new(content).print(&mut self.terminal);
        self.new_line();
    }

    /// Prints one token on the current line.
    pub(crate) fn print_token(&mut self, t: &Token)
        ensures
            final(self)@.cur_line == old(self)@.cur_line,
            final(self)@.effects == old(self)@.effects + t.effects(),
    {
        t.print(&mut self.terminal);
    }

    /// Writes `text` as it is, with no styling.
    pub(crate) fn write_text(&mut self, text: &str)
        ensures
            final(self)@.cur_line == old(self)@.cur_line,
            final(self)@.effects == old(self)@.effects.push(Effect::Write(text@)),
    {
        self.terminal.write(text);
    }

    /// Erases the current frame and leaves the permanent answer line
    /// `? message answer`.
    pub fn cleanup(&mut self, message: &str, answer: &str)
        ensures
            final(self)@.cur_line == 1,
            final(self)@.effects == old(self)@.effects + clear_lines(old(self)@.cur_line) + colored(
                "? "@,
                Color::Green,
            ) + plain(message@) + colored(" "@ + answer@, Color::Cyan) + line_break(),
    {
        self.reset_prompt();
        self.print_prompt_answer(message, answer);
    }

    /// Shows the terminal cursor again; the last call on a renderer.
    pub fn restore_cursor(&mut self)
        ensures
            final(self)@.cur_line == old(self)@.cur_line,
            final(self)@.effects == old(self)@.effects.push(Effect::ShowCursor),
    {
        self.terminal.cursor_show();
    }

    /// Hands out the queued terminal operations for the driver to perform.
    pub fn flush(&mut self) -> (r: Vec<TermCommand>)
        ensures
            crate::terminal::effects_of(r@) == old(self)@.effects,
            final(self)@.effects == Seq::<Effect>::empty(),
            final(self)@.cur_line == old(self)@.cur_line,
    {
        self.terminal.flush()
    }

    /// Takes the key the terminal driver read: `None` means the key stream
    /// has ended, which ends the prompt.
    pub fn read_key(&mut self, key: Option<Key>) -> (r: InquireResult<Key>)
        ensures
            final(self)@ == old(self)@,
            match key {
                Some(k) => r == Ok::<Key, InquireError>(k),
                None => r == Err::<Key, InquireError>(InquireError::StreamEnded),
            },
    {
        match key {
            Some(k) => Ok(k),
            None => Err(InquireError::StreamEnded),
        }
    }
}

} // verus!
