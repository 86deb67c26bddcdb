use vstd::prelude::*;

use crate::action::{select_action_of, SelectPromptAction};
use crate::error::{InquireError, InquireResult};
use crate::input::{apply_action, Buffer, Input};
use crate::key::Key;
use crate::pager::{page_end, page_start, paginate};
use crate::renderer::{clear_lines, colored, input_effects, line_break, option_lines, plain, Renderer};
use crate::terminal::Color;
use crate::text::{contains_str, lower_of, lowercase, occurs_in};

verus! {

/// Number of options shown at once unless configured otherwise.
pub const DEFAULT_PAGE_SIZE: usize = 7;

/// Whether `j`/`k` move through the list unless configured otherwise.
pub const DEFAULT_VIM_MODE: bool = false;

/// Colors of the parts of a prompt.
#[derive(Clone, Copy, Debug, PartialEq, Eq, Structural)]
pub struct RenderConfig {
    pub prompt_prefix_color: Color,
    pub answer_color: Color,
    pub error_color: Color,
    pub help_color: Color,
    pub selected_option_color: Color,
}

impl RenderConfig {
    /// The built-in colors.
    pub fn default_colored() -> (r: Self)
        ensures
            r.prompt_prefix_color == Color::Green,
            r.answer_color == Color::Cyan,
            r.error_color == Color::Red,
            r.help_color == Color::Cyan,
            r.selected_option_color == Color::Cyan,
    {
        RenderConfig {
            prompt_prefix_color: Color::Green,
            answer_color: Color::Cyan,
            error_color: Color::Red,
            help_color: Color::Cyan,
            selected_option_color: Color::Cyan,
        }
    }

    /// No colors at all.
    pub fn empty() -> (r: Self)
        ensures
            r.prompt_prefix_color == Color::Reset,
            r.answer_color == Color::Reset,
            r.error_color == Color::Reset,
            r.help_color == Color::Reset,
            r.selected_option_color == Color::Reset,
    {
        RenderConfig {
            prompt_prefix_color: Color::Reset,
            answer_color: Color::Reset,
            error_color: Color::Reset,
            help_color: Color::Reset,
            selected_option_color: Color::Reset,
        }
    }
}

/// Whether an option whose text is `value` is shown for the filter text
/// `filter`: the lowercased filter occurs in the lowercased option.
pub open spec fn option_matches(filter: Seq<char>, value: Seq<char>) -> bool {
    occurs_in(lower_of(value), lower_of(filter))
}

/// The default filter: case-insensitive substring match.
pub fn default_filter(filter: &str, value: &str) -> (r: bool)
    ensures
        r == option_matches(filter@, value@),
        filter@.len() == 0 ==> r,
{
    let f = lowercase(filter);
    let v = lowercase(value);
    let r = contains_str(v.as_str(), f.as_str());
    proof {
        if filter@.len() == 0 {
            assert(v@.subrange(0, 0) =~= f@);
            assert(crate::text::occurs_at(v@, f@, 0));
        }
    }
    r
}

/// Indices, in order, of the first `k` options that the filter text keeps.
pub open spec fn matching(labels: Seq<Seq<char>>, filter: Seq<char>, k: nat) -> Seq<int>
    decreases k,
{
    if k == 0 {
        Seq::empty()
    } else {
        matching(labels, filter, (k - 1) as nat) + if option_matches(filter, labels[k - 1]) {
            seq![k - 1]
        } else {
            Seq::empty()
        }
    }
}

pub proof fn lemma_matching_bounds(labels: Seq<Seq<char>>, filter: Seq<char>, k: nat)
    ensures
        matching(labels, filter, k).len() <= k,
        forall|j: int|
            0 <= j < matching(labels, filter, k).len() ==> 0 <= #[trigger] matching(
                labels,
                filter,
                k,
            )[j] < k,
    decreases k,
{
    if k > 0 {
        lemma_matching_bounds(labels, filter, (k - 1) as nat);
    }
}

/// Where a list cursor goes on a navigation action, over a list of `len`
/// entries: up and down wrap around, pages stop at the ends.
pub open spec fn moved_cursor(cursor: int, len: int, page_size: int, a: SelectPromptAction) -> int {
    if len == 0 {
        0
    } else {
        match a {
            SelectPromptAction::MoveUp => if cursor == 0 {
                len - 1
            } else {
                cursor - 1
            },
            SelectPromptAction::MoveDown => if cursor + 1 >= len {
                0
            } else {
                cursor + 1
            },
            SelectPromptAction::PageUp => if cursor >= page_size {
                cursor - page_size
            } else {
                0
            },
            SelectPromptAction::PageDown => if cursor + page_size < len {
                cursor + page_size
            } else {
                len - 1
            },
            SelectPromptAction::MoveToStart => 0,
            SelectPromptAction::MoveToEnd => len - 1,
            SelectPromptAction::FilterInput(_) => cursor,
        }
    }
}

/// Prompt for one option among many.
pub struct Select<T> {
    /// Message presented to the user.
    pub message: String,
    /// Options presented to the user.
    pub options: Vec<T>,
    /// Help line under the prompt.
    pub help_message: Option<String>,
    /// Number of options shown at once.
    pub page_size: usize,
    /// Whether `j`/`k` move through the list.
    pub vim_mode: bool,
    /// Index of the option highlighted first.
    pub starting_cursor: usize,
    /// Colors of the prompt.
    pub render_config: RenderConfig,
}

impl<T> Select<T> {
    /// A prompt with `message` and `options` and the default settings.
    pub fn new(message: &str, options: Vec<T>) -> (r: Self)
        ensures
            r.message@ == message@,
            r.options == options,
            r.help_message is Some,
            r.help_message->0@ == "↑↓ to move, enter to select, type to filter"@,
            r.page_size == DEFAULT_PAGE_SIZE,
            r.vim_mode == DEFAULT_VIM_MODE,
            r.starting_cursor == 0,
            r.render_config.prompt_prefix_color == Color::Green,
            r.render_config.answer_color == Color::Cyan,
            r.render_config.error_color == Color::Red,
            r.render_config.help_color == Color::Cyan,
            r.render_config.selected_option_color == Color::Cyan,
    {
        Select {
            message: message.to_owned(),
            options,
            help_message: Some("↑↓ to move, enter to select, type to filter".to_owned()),
            page_size: DEFAULT_PAGE_SIZE,
            vim_mode: DEFAULT_VIM_MODE,
            starting_cursor: 0,
            render_config: RenderConfig::default_colored(),
        }
    }

    pub fn with_help_message(self, message: &str) -> (r: Self)
        ensures
            r.help_message is Some,
            r.help_message->0@ == message@,
            r == (Select { help_message: r.help_message, ..self }),
    {
        Select { help_message: Some(message.to_owned()), ..self }
    }

    pub fn without_help_message(self) -> (r: Self)
        ensures
            r == (Select { help_message: None, ..self }),
    {
        Select { help_message: None, ..self }
    }

    pub fn with_page_size(self, page_size: usize) -> (r: Self)
        ensures
            r == (Select { page_size, ..self }),
    {
        Select { page_size, ..self }
    }

    pub fn with_vim_mode(self, vim_mode: bool) -> (r: Self)
        ensures
            r == (Select { vim_mode, ..self }),
    {
        Select { vim_mode, ..self }
    }

    pub fn with_starting_cursor(self, starting_cursor: usize) -> (r: Self)
        ensures
            r == (Select { starting_cursor, ..self }),
    {
        Select { starting_cursor, ..self }
    }

    pub fn with_render_config(self, render_config: RenderConfig) -> (r: Self)
        ensures
            r == (Select { render_config, ..self }),
    {
        Select { render_config, ..self }
    }
}

/// The option the user picked, with its index in the list.
pub struct ListOption<T> {
    pub index: usize,
    pub value: T,
}

/// Abstract state of a running list prompt.
pub struct SelectModel {
    /// Text of each option.
    pub labels: Seq<Seq<char>>,
    /// The filter text being typed.
    pub filter: Buffer,
    /// Indices of the options the filter keeps, in list order.
    pub filtered: Seq<int>,
    /// Position of the highlighted entry within `filtered`.
    pub cursor: int,
    pub page_size: int,
    pub vim_mode: bool,
}

impl SelectModel {
    pub open spec fn wf(self) -> bool {
        &&& self.filter.wf()
        &&& self.filtered == matching(self.labels, self.filter.text, self.labels.len())
        &&& self.page_size > 0
        &&& (self.cursor < self.filtered.len() || (self.filtered.len() == 0 && self.cursor == 0))
        &&& 0 <= self.cursor
    }
}

/// Abstract result of a key on a list prompt.
#[derive(Clone, Copy, Debug, PartialEq, Eq, Structural)]
pub enum SelectStep {
    Continue,
    /// The user picked the option with this index.
    Submitted(usize),
    Canceled,
}

/// The effect of a key on a list prompt.
pub open spec fn select_key(m: SelectModel, key: Key) -> (SelectModel, SelectStep) {
    match key {
        Key::Enter => if m.filtered.len() > 0 {
            (m, SelectStep::Submitted(m.filtered[m.cursor] as usize))
        } else {
            (m, SelectStep::Continue)
        },
        Key::Escape => (m, SelectStep::Canceled),
        _ => match select_action_of(key, m.vim_mode) {
            Some(SelectPromptAction::FilterInput(a)) => {
                let f = apply_action(m.filter, a);
                if f.text == m.filter.text {
                    (SelectModel { filter: f, ..m }, SelectStep::Continue)
                } else {
                    (
                        SelectModel {
                            filter: f,
                            filtered: matching(m.labels, f.text, m.labels.len()),
                            cursor: 0,
                            ..m
                        },
                        SelectStep::Continue,
                    )
                }
            },
            Some(a) => (
                SelectModel {
                    cursor: moved_cursor(m.cursor, m.filtered.len() as int, m.page_size, a),
                    ..m
                },
                SelectStep::Continue,
            ),
            None => (m, SelectStep::Continue),
        },
    }
}

/// A running list prompt.
pub struct SelectPrompt<T> {
    message: String,
    options: Vec<T>,
    labels: Vec<String>,
    help_message: Option<String>,
    vim_mode: bool,
    page_size: usize,
    filter: Input,
    filtered: Vec<usize>,
    cursor: usize,
}

pub open spec fn views(v: Seq<String>) -> Seq<Seq<char>> {
    v.map_values(|s: String| s@)
}

impl<T> View for SelectPrompt<T> {
    type V = SelectModel;

    closed spec fn view(&self) -> SelectModel {
        SelectModel {
            labels: views(self.labels@),
            filter: self.filter@,
            filtered: self.filtered@.map_values(|i: usize| i as int),
            cursor: self.cursor as int,
            page_size: self.page_size as int,
            vim_mode: self.vim_mode,
        }
    }
}

/// Indices of the options that `filter` keeps.
fn filter_options(labels: &Vec<String>, filter: &str) -> (r: Vec<usize>)
    ensures
        r@.map_values(|i: usize| i as int) == matching(views(labels@), filter@, labels@.len() as nat),
        filter@.len() == 0 ==> r@.len() == labels@.len(),
{
    let mut out: Vec<usize> = Vec::new();
    let n = labels.len();
    let mut i: usize = 0;
    while i < n
        invariant
            n == labels@.len(),
            i <= n,
            out@.map_values(|j: usize| j as int) == matching(views(labels@), filter@, i as nat),
            filter@.len() == 0 ==> out@.len() == i,
        decreases n - i,
    {
        let keep = default_filter(filter, labels[i].as_str());
        let ghost before = out@;
        if keep {
            out.push(i);
        }
        proof {
            assert(views(labels@)[i as int] == labels@[i as int]@);
            assert(out@.map_values(|j: usize| j as int) =~= matching(
                views(labels@),
                filter@,
                (i + 1) as nat,
            ));
        }
        i = i + 1;
    }
    out
}

impl<T> SelectPrompt<T> {
    pub closed spec fn wf(&self) -> bool {
        &&& self@.wf()
        &&& self.labels@.len() == self.options@.len()
        &&& self.filter.wf()
    }

    pub closed spec fn options_view(&self) -> Seq<T> {
        self.options@
    }

    /// Starts the prompt of `select`, whose options read as `labels`.
    /// Fails when there are no options, when `labels` does not give one
    /// text per option, when the page size is 0, or when the starting
    /// cursor is past the last option.
    pub fn new(select: Select<T>, labels: Vec<String>) -> (r: InquireResult<SelectPrompt<T>>)
        ensures
            (select.options@.len() == 0 || labels@.len() != select.options@.len() || select.page_size
                == 0 || select.starting_cursor >= select.options@.len()) <==> r is Err,
            r is Err ==> r->Err_0 is InvalidConfiguration,
            r is Ok ==> {
                let p = r->Ok_0;
                &&& p.wf()
                &&& p.options_view() == select.options@
                &&& p@.labels == views(labels@)
                &&& p@.filter.text.len() == 0
                &&& p@.page_size == select.page_size
                &&& p@.vim_mode == select.vim_mode
                &&& p@.filtered.len() == select.options@.len()
                &&& p@.cursor == select.starting_cursor
            },
    {
        let n = select.options.len();
        if n == 0 {
            return Err(InquireError::InvalidConfiguration("Available options can not be empty".to_owned()));
        }
        if labels.len() != n {
            return Err(InquireError::InvalidConfiguration("Each option needs one label".to_owned()));
        }
        if select.page_size == 0 {
            return Err(InquireError::InvalidConfiguration("Page size must be positive".to_owned()));
        }
        if select.starting_cursor >= n {
            return Err(InquireError::InvalidConfiguration("Starting cursor is out of bounds".to_owned()));
        }
        let filter = Input::new();
        let content = filter.content();
        let filtered = filter_options(&labels, content.as_str());
        let cursor = select.starting_cursor;
        Ok(SelectPrompt {
            message: select.message,
            options: select.options,
            labels,
            help_message: select.help_message,
            vim_mode: select.vim_mode,
            page_size: select.page_size,
            filter,
            filtered,
            cursor,
        })
    }

    /// Handles one key.
    pub fn handle_key(&mut self, key: Key) -> (r: SelectStep)
        requires
            old(self).wf(),
            old(self)@.filter.text.len() < usize::MAX,
        ensures
            final(self).wf(),
            final(self).options_view() == old(self).options_view(),
            (final(self)@, r) == select_key(old(self)@, key),
            r matches SelectStep::Submitted(i) ==> i < old(self).options_view().len(),
    {
        proof {
            lemma_matching_bounds(self@.labels, self@.filter.text, self@.labels.len() as nat);
        }
        match key {
            Key::Enter => {
                if self.filtered.len() > 0 {
                    return SelectStep::Submitted(self.filtered[self.cursor]);
                }
                return SelectStep::Continue;
            },
            Key::Escape => {
                return SelectStep::Canceled;
            },
            _ => {},
        }
        match SelectPromptAction::from_key(key, self.vim_mode) {
            Some(SelectPromptAction::FilterInput(a)) => {
                let changed = self.filter.handle(a);
                if changed {
                    let content = self.filter.content();
                    self.filtered = filter_options(&self.labels, content.as_str());
                    self.cursor = 0;
                }
                SelectStep::Continue
            },
            Some(a) => {
                let len = self.filtered.len();
                let c = self.cursor;
                let p = self.page_size;
                self.cursor = if len == 0 {
                    0
                } else {
                    match a {
                        SelectPromptAction::MoveUp => if c == 0 {
                            len - 1
                        } else {
                            c - 1
                        },
                        SelectPromptAction::MoveDown => if c + 1 >= len {
                            0
                        } else {
                            c + 1
                        },
                        SelectPromptAction::PageUp => if c >= p {
                            c - p
                        } else {
                            0
                        },
                        SelectPromptAction::PageDown => if p < len - c {
                            c + p
                        } else {
                            len - 1
                        },
                        SelectPromptAction::MoveToStart => 0,
                        SelectPromptAction::MoveToEnd => len - 1,
                        SelectPromptAction::FilterInput(_) => c,
                    }
                };
                SelectStep::Continue
            },
            None => SelectStep::Continue,
        }
    }

    /// Ends the prompt with the option at `index`.
    pub fn into_answer(self, index: usize) -> (r: ListOption<T>)
        requires
            index < self.options_view().len(),
        ensures
            r.index == index,
            r.value == self.options_view()[index as int],
    {
        let mut options = self.options;
        let value = options.swap_remove(index);
        ListOption { index, value }
    }
}

/// The texts of the options the filter keeps, in order.
pub open spec fn visible_labels(labels: Seq<String>, filtered: Seq<usize>) -> Seq<String> {
    filtered.map_values(|i: usize| labels[i as int])
}

impl<T> SelectPrompt<T> {
    pub closed spec fn labels_view(&self) -> Seq<String> {
        self.labels@
    }

    pub closed spec fn filtered_view(&self) -> Seq<usize> {
        self.filtered@
    }

    pub closed spec fn message_view(&self) -> Seq<char> {
        self.message@
    }

    pub closed spec fn help_view(&self) -> Option<Seq<char>> {
        match self.help_message {
            Some(h) => Some(h@),
            None => None,
        }
    }

    /// The texts of the options the filter keeps.
    fn visible(&self) -> (r: Vec<String>)
        requires
            self.wf(),
        ensures
            r@ == visible_labels(self.labels_view(), self.filtered_view()),
    {
        proof {
            lemma_matching_bounds(self@.labels, self@.filter.text, self@.labels.len() as nat);
            assert forall|k: int| 0 <= k < self.filtered@.len() implies (#[trigger] self.filtered@[k])
                < self.labels@.len() by {
                assert(self@.filtered[k] == self.filtered@[k] as int);
            }
        }
        let mut out: Vec<String> = Vec::new();
        let mut j: usize = 0;
        while j < self.filtered.len()
            invariant
                self.wf(),
                j <= self.filtered@.len(),
                out@ == visible_labels(self.labels@, self.filtered@.subrange(0, j as int)),
                forall|k: int| 0 <= k < self.filtered@.len() ==> (#[trigger] self.filtered@[k]) < self.labels@.len(),
            decreases self.filtered@.len() - j,
        {
            proof {
                assert(self@.filtered[j as int] == self.filtered@[j as int] as int);
            }
            let label = self.labels[self.filtered[j]].clone();
            out.push(label);
            j = j + 1;
            assert(out@ =~= visible_labels(self.labels@, self.filtered@.subrange(0, j as int)));
        }
        assert(self.filtered@.subrange(0, j as int) =~= self.filtered@);
        out
    }

    /// Replaces the frame on screen with the prompt's current one: the
    /// prompt line with the filter text, the page of options around the
    /// highlighted one, and the help line if there is one.
    pub fn render(&self, r: &mut Renderer)
        requires
            self.wf(),
            self.labels_view().len() < usize::MAX - 2,
        ensures
            ({
                let v = visible_labels(self.labels_view(), self.filtered_view());
                let n = v.len() as int;
                let s = page_start(n, self@.page_size, self@.cursor);
                let e = page_end(n, self@.page_size, self@.cursor);
                let shown = if n > 0 { e - s } else { 0 };
                &&& final(r)@.cur_line == 1 + shown + if self.help_view() is Some { 1int } else { 0 }
                &&& final(r)@.effects == old(r)@.effects + clear_lines(old(r)@.cur_line) + colored(
                    "? "@,
                    Color::Green,
                ) + plain(self.message_view()) + input_effects(self@.filter) + line_break() + (if n > 0 {
                    option_lines(v.subrange(s, e), self@.cursor - s, s == 0, e == n, (e - s) as nat)
                } else {
                    Seq::empty()
                }) + match self.help_view() {
                    Some(h) => colored("["@ + h + "]"@, Color::Cyan) + line_break(),
                    None => Seq::empty(),
                }
            }),
    {
        proof {
            lemma_matching_bounds(self@.labels, self@.filter.text, self@.labels.len() as nat);
        }
        r.reset_prompt();
        r.print_prompt_input(self.message.as_str(), None, &self.filter);
        let ghost e1 = r@.effects;
        let visible = self.visible();
        if visible.len() > 0 {
            let page = paginate(self.page_size, visible.as_slice(), self.cursor);
            r.print_options(&page);
        } else {
            assert(r@.effects =~= e1 + Seq::<crate::terminal::Effect>::empty());
        }
        let ghost e2 = r@.effects;
        match &self.help_message {
            Some(h) => r.print_help(h.as_str()),
            None => {
                assert(r@.effects =~= e2 + Seq::<crate::terminal::Effect>::empty());
            },
        }
    }
}

/// Turns a cancellation into "no answer", keeping answers and other errors.
pub fn skippable<T>(r: InquireResult<T>) -> (s: InquireResult<Option<T>>)
    ensures
        match r {
            Ok(v) => s == Ok::<Option<T>, InquireError>(Some(v)),
            Err(InquireError::OperationCanceled) => s == Ok::<Option<T>, InquireError>(None),
            Err(e) => s == Err::<Option<T>, InquireError>(e),
        },
{
    match r {
        Ok(v) => Ok(Some(v)),
        Err(InquireError::OperationCanceled) => Ok(None),
        Err(e) => Err(e),
    }
}

} // verus!
