use vstd::prelude::*;

verus! {

/// Colors a terminal can draw text in.
#[derive(Clone, Copy, Debug, PartialEq, Eq, Structural)]
pub enum Color {
    Reset,
    Black,
    DarkGrey,
    Red,
    Green,
    Cyan,
    Grey,
}

/// Text emphasis.
#[derive(Clone, Copy, Debug, PartialEq, Eq, Structural)]
pub enum Style {
    Bold,
    Italic,
}

/// Abstract terminal operation.
pub enum Effect {
    Write(Seq<char>),
    SetFg(Color),
    SetBg(Color),
    SetStyle(Style),
    ResetFg,
    ResetBg,
    ResetStyle,
    CursorUp,
    HorizontalReset,
    ClearLine,
    HideCursor,
    ShowCursor,
}

/// A terminal operation queued for the terminal driver to perform.
#[derive(Clone, Debug, PartialEq, Eq)]
pub enum TermCommand {
    Write(String),
    SetFg(Color),
    SetBg(Color),
    SetStyle(Style),
    ResetFg,
    ResetBg,
    ResetStyle,
    CursorUp,
    HorizontalReset,
    ClearLine,
    HideCursor,
    ShowCursor,
}

impl View for TermCommand {
    type V = Effect;

    open spec fn view(&self) -> Effect {
        match self {
            TermCommand::Write(s) => Effect::Write(s@),
            TermCommand::SetFg(c) => Effect::SetFg(*c),
            TermCommand::SetBg(c) => Effect::SetBg(*c),
            TermCommand::SetStyle(s) => Effect::SetStyle(*s),
            TermCommand::ResetFg => Effect::ResetFg,
            TermCommand::ResetBg => Effect::ResetBg,
            TermCommand::ResetStyle => Effect::ResetStyle,
            TermCommand::CursorUp => Effect::CursorUp,
            TermCommand::HorizontalReset => Effect::HorizontalReset,
            TermCommand::ClearLine => Effect::ClearLine,
            TermCommand::HideCursor => Effect::HideCursor,
            TermCommand::ShowCursor => Effect::ShowCursor,
        }
    }
}

pub open spec fn effects_of(cmds: Seq<TermCommand>) -> Seq<Effect> {
    cmds.map_values(|c: TermCommand| c@)
}

/// A queue of terminal operations, handed to the terminal driver on flush.
pub struct Terminal {
    commands: Vec<TermCommand>,
}

impl View for Terminal {
    type V = Seq<Effect>;

    closed spec fn view(&self) -> Seq<Effect> {
        effects_of(self.commands@)
    }
}

impl Terminal {
    pub fn new() -> (r: Self)
        ensures
            r@ == Seq::<Effect>::empty(),
    {
        let r = Terminal { commands: Vec::new() };
        assert(r@ =~= Seq::<Effect>::empty());
        r
    }

    /// Queues one operation.
    pub fn push(&mut self, c: TermCommand)
        ensures
            final(self)@ == old(self)@.push(c@),
    {
        self.commands.push(c);
        assert(effects_of(self.commands@) =~= effects_of(old(self).commands@).push(c@));
    }

    pub fn write(&mut self, text: &str)
        ensures
            final(self)@ == old(self)@.push(Effect::Write(text@)),
    {
        self.push(TermCommand::Write(text.to_owned()));
    }

    pub fn set_fg_color(&mut self, c: Color)
        ensures
            final(self)@ == old(self)@.push(Effect::SetFg(c)),
    {
        self.push(TermCommand::SetFg(c));
    }

    pub fn set_bg_color(&mut self, c: Color)
        ensures
            final(self)@ == old(self)@.push(Effect::SetBg(c)),
    {
        self.push(TermCommand::SetBg(c));
    }

    pub fn set_style(&mut self, s: Style)
        ensures
            final(self)@ == old(self)@.push(Effect::SetStyle(s)),
    {
        self.push(TermCommand::SetStyle(s));
    }

    pub fn reset_fg_color(&mut self)
        ensures
            final(self)@ == old(self)@.push(Effect::ResetFg),
    {
        self.push(TermCommand::ResetFg);
    }

    pub fn reset_bg_color(&mut self)
        ensures
            final(self)@ == old(self)@.push(Effect::ResetBg),
    {
        self.push(TermCommand::ResetBg);
    }

    pub fn reset_style(&mut self)
        ensures
            final(self)@ == old(self)@.push(Effect::ResetStyle),
    {
        self.push(TermCommand::ResetStyle);
    }

    pub fn cursor_up(&mut self)
        ensures
            final(self)@ == old(self)@.push(Effect::CursorUp),
    {
        self.push(TermCommand::CursorUp);
    }

    pub fn cursor_horizontal_reset(&mut self)
        ensures
            final(self)@ == old(self)@.push(Effect::HorizontalReset),
    {
        self.push(TermCommand::HorizontalReset);
    }

    pub fn clear_current_line(&mut self)
        ensures
            final(self)@ == old(self)@.push(Effect::ClearLine),
    {
        self.push(TermCommand::ClearLine);
    }

    pub fn cursor_hide(&mut self)
        ensures
            final(self)@ == old(self)@.push(Effect::HideCursor),
    {
        self.push(TermCommand::HideCursor);
    }

    pub fn cursor_show(&mut self)
        ensures
            final(self)@ == old(self)@.push(Effect::ShowCursor),
    {
        self.push(TermCommand::ShowCursor);
    }

    /// Hands out the queued operations, in order, and empties the queue.
    pub fn flush(&mut self) -> (r: Vec<TermCommand>)
        ensures
            effects_of(r@) == old(self)@,
            final(self)@ == Seq::<Effect>::empty(),
    {
        let mut out: Vec<TermCommand> = Vec::new();
        std::mem::swap(&mut self.commands, &mut out);
        assert(effects_of(self.commands@) =~= Seq::<Effect>::empty());
        out
    }
}

} // verus!
