use vstd::prelude::*;

use crate::action::{prompt_action_of, Action};
use crate::error::{verdict, InquireError, InquireResult, Validation};
use crate::input::{apply_action, Buffer, Input, InputAction};
use crate::key::Key;
use crate::renderer::{clear_lines, colored, line_break, plain, Renderer};
use crate::terminal::Color;

verus! {

/// Abstract state of a masked-entry prompt.
pub struct PasswordModel {
    /// What has been typed in the current stage.
    pub input: Buffer,
    /// Whether a second, matching entry is asked for.
    pub confirm: bool,
    /// The accepted first entry, once the confirmation stage has begun.
    pub first: Option<Seq<char>>,
    /// The message of the last failed validation.
    pub error: Option<Seq<char>>,
}

/// Abstract result of one step of a prompt.
pub enum Outcome {
    /// The prompt goes on.
    Continue,
    /// The caller must validate this value and hand the verdict to `submit`.
    Validate(Seq<char>),
    /// The prompt ended with this answer.
    Submitted(Seq<char>),
    /// The user canceled the prompt.
    Canceled,
    /// The confirmation entry differed from the first entry.
    Mismatch,
}

/// What the caller is to do after one step of a prompt.
#[derive(Clone, Debug, PartialEq, Eq)]
pub enum Step {
    Continue,
    Validate(String),
    Submitted(String),
    Canceled,
    Mismatch,
}

impl View for Step {
    type V = Outcome;

    open spec fn view(&self) -> Outcome {
        match self {
            Step::Continue => Outcome::Continue,
            Step::Validate(s) => Outcome::Validate(s@),
            Step::Submitted(s) => Outcome::Submitted(s@),
            Step::Canceled => Outcome::Canceled,
            Step::Mismatch => Outcome::Mismatch,
        }
    }
}

/// The effect of a key on a masked-entry prompt.
pub open spec fn password_key(m: PasswordModel, key: Key) -> (PasswordModel, Outcome) {
    match prompt_action_of(key, crate::action::input_action_of(key)) {
        Some(Action::Cancel) => (m, Outcome::Canceled),
        Some(Action::Submit) => match m.first {
            None => (m, Outcome::Validate(m.input.text)),
            Some(f) => if f == m.input.text {
                (m, Outcome::Submitted(f))
            } else {
                (m, Outcome::Mismatch)
            },
        },
        Some(Action::Inner(a)) => (PasswordModel { input: apply_action(m.input, a), ..m }, Outcome::Continue),
        None => (m, Outcome::Continue),
    }
}

/// The effect of a validator's verdict on the first entry of a
/// masked-entry prompt.
pub open spec fn password_submit(m: PasswordModel, v: Option<Seq<char>>) -> (PasswordModel, Outcome) {
    match v {
        Some(msg) => (PasswordModel { error: Some(msg), ..m }, Outcome::Continue),
        None => if m.confirm {
            (
                PasswordModel {
                    input: Buffer { text: Seq::empty(), cursor: 0 },
                    first: Some(m.input.text),
                    error: None,
                    ..m
                },
                Outcome::Continue,
            )
        } else {
            (m, Outcome::Submitted(m.input.text))
        },
    }
}

/// The state after a run of rejected submissions, one per message.
pub open spec fn rejected_submits(m: PasswordModel, msgs: Seq<Seq<char>>) -> PasswordModel
    decreases msgs.len(),
{
    if msgs.len() == 0 {
        m
    } else {
        rejected_submits(password_submit(m, Some(msgs[0])).0, msgs.drop_first())
    }
}

/// However many times in a row a validator rejects the entry, the text
/// typed and its cursor stay exactly as they were, and the prompt goes on.
pub proof fn lemma_rejections_keep_input(m: PasswordModel, msgs: Seq<Seq<char>>)
    ensures
        rejected_submits(m, msgs).input == m.input,
        rejected_submits(m, msgs).first == m.first,
        forall|i: int| 0 <= i < msgs.len() ==> #[trigger] password_submit(m, Some(msgs[i])).1 is Continue,
    decreases msgs.len(),
{
    if msgs.len() > 0 {
        lemma_rejections_keep_input(password_submit(m, Some(msgs[0])).0, msgs.drop_first());
    }
}

/// The cancel key ends a masked-entry prompt as canceled in either stage,
/// before or during confirmation, with no answer.
pub proof fn lemma_cancel_in_any_stage(m: PasswordModel)
    ensures
        password_key(m, Key::Escape).1 == Outcome::Canceled,
        password_key(m, Key::Escape).0 == m,
{
}

/// A masked-entry prompt: the typed text is never shown, and optionally
/// a second, matching entry is required.
pub struct PasswordPrompt {
    message: String,
    input: Input,
    confirm: bool,
    first: Option<String>,
    error: Option<String>,
}

impl View for PasswordPrompt {
    type V = PasswordModel;

    closed spec fn view(&self) -> PasswordModel {
        PasswordModel {
            input: self.input@,
            confirm: self.confirm,
            first: match self.first {
                Some(f) => Some(f@),
                None => None,
            },
            error: match self.error {
                Some(e) => Some(e@),
                None => None,
            },
        }
    }
}

impl PasswordPrompt {
    pub closed spec fn wf(&self) -> bool {
        self.input.wf()
    }

    pub closed spec fn message_view(&self) -> Seq<char> {
        self.message@
    }

    /// A prompt with an empty entry; `confirm` asks for a second entry.
    pub fn new(message: &str, confirm: bool) -> (r: Self)
        ensures
            r.wf(),
            r.message_view() == message@,
            r@ == (PasswordModel {
                input: Buffer { text: Seq::empty(), cursor: 0 },
                confirm,
                first: None,
                error: None,
            }),
    {
        PasswordPrompt {
            message: message.to_owned(),
            input: Input::new(),
            confirm,
            first: None,
            error: None,
        }
    }

    /// The message of the last failed validation.
    pub fn error(&self) -> (r: Option<String>)
        ensures
            r is None <==> self@.error is None,
            r is Some ==> r->0@ == self@.error->0,
    {
        self.error.clone()
    }

    /// The text typed in the current stage.
    pub fn value(&self) -> (r: String)
        requires
            self.wf(),
        ensures
            r@ == self@.input.text,
    {
        self.input.content()
    }

    /// The message shown by the prompt.
    pub fn message(&self) -> (r: &str)
        ensures
            r@ == self.message_view(),
    {
        self.message.as_str()
    }

    /// Whether the confirmation stage has begun.
    pub fn confirming(&self) -> (r: bool)
        ensures
            r == self@.first is Some,
    {
        self.first.is_some()
    }

    /// Handles one key.
    pub fn handle_key(&mut self, key: Key) -> (r: Step)
        requires
            old(self).wf(),
            old(self)@.input.text.len() < usize::MAX,
        ensures
            final(self).wf(),
            final(self).message_view() == old(self).message_view(),
            (final(self)@, r@) == password_key(old(self)@, key),
    {
        let action = match key {
            Key::Enter => Action::Submit,
            Key::Escape => Action::Cancel,
            _ => match InputAction::from_key(key) {
                Some(a) => Action::Inner(a),
                None => {
                    return Step::Continue;
                },
            },
        };
        match action {
            Action::Cancel => Step::Canceled,
            Action::Submit => {
                let value = self.input.content();
                match &self.first {
                    None => Step::Validate(value),
                    Some(f) => {
                        if *f == value {
                            Step::Submitted(value)
                        } else {
                            Step::Mismatch
                        }
                    },
                }
            },
            Action::Inner(a) => {
                self.input.handle(a);
                Step::Continue
            },
        }
    }

    /// Hands the validator's verdict on the entry to the prompt.
    pub fn submit(&mut self, validation: Validation) -> (r: Step)
        requires
            old(self).wf(),
            old(self)@.first is None,
        ensures
            final(self).wf(),
            final(self).message_view() == old(self).message_view(),
            (final(self)@, r@) == password_submit(old(self)@, verdict(validation)),
    {
        match validation {
            Validation::Invalid(msg) => {
                self.error = Some(msg);
                Step::Continue
            },
            Validation::Valid => {
                let value = self.input.content();
                if self.confirm {
                    self.first = Some(value);
                    self.input.clear();
                    self.error = None;
                    Step::Continue
                } else {
                    Step::Submitted(value)
                }
            },
        }
    }
}

impl PasswordPrompt {
    /// Replaces the frame on screen with the prompt's current one: the
    /// pending error, if any, then the prompt line; the typed text is
    /// never shown.
    pub fn render(&self, r: &mut Renderer)
        ensures
            final(r)@.cur_line == if self@.error is Some { 2nat } else { 1nat },
            final(r)@.effects == old(r)@.effects + clear_lines(old(r)@.cur_line) + match self@.error {
                Some(e) => colored("# "@ + e, Color::Red) + line_break(),
                None => Seq::empty(),
            } + colored("? "@, Color::Green) + plain(self.message_view()) + line_break(),
    {
        r.reset_prompt();
        let ghost e0 = r@.effects;
        match &self.error {
            Some(e) => r.print_error_message(e.as_str()),
            None => {
                assert(r@.effects =~= e0 + Seq::<crate::terminal::Effect>::empty());
            },
        }
        let ghost e1 = r@.effects;
        r.print_prompt(self.message.as_str(), None, None);
        assert(r@.effects =~= e1 + colored("? "@, Color::Green) + plain(self.message_view()) + line_break());
    }
}

impl Step {
    /// The prompt's result once it has ended: the answer, or the error
    /// that ended it; `None` while it goes on.
    pub fn result(self) -> (r: Option<InquireResult<String>>)
        ensures
            match self@ {
                Outcome::Submitted(s) => r is Some && r->0 is Ok && r->0->Ok_0@ == s,
                Outcome::Canceled => r == Some(Err::<String, InquireError>(InquireError::OperationCanceled)),
                Outcome::Mismatch => r == Some(Err::<String, InquireError>(InquireError::ConfirmationMismatch)),
                _ => r is None,
            },
    {
        match self {
            Step::Submitted(s) => Some(Ok(s)),
            Step::Canceled => Some(Err(InquireError::OperationCanceled)),
            Step::Mismatch => Some(Err(InquireError::ConfirmationMismatch)),
            _ => None,
        }
    }
}

} // verus!
