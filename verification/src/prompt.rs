//! The interactive live-preview prompt: an input buffer and a selection
//! cursor over the candidate fonts, driven one key event at a time.
//!
//! The per-keystroke state machine is [`step`]; [`Prompt::handle_key`]
//! implements exactly one such transition. Rendering is derived, never
//! cached: the editing line and the candidate lines are recomputed from the
//! buffer on demand, and the event loop around the prompt only performs the
//! returned [`Action`].

use vstd::prelude::*;
use vstd::string::StringExecFns;

use crate::convert::{chars_to_string, spec_convert, Converter};
use crate::font::Font;

verus! {

/// One decoded key event, as the prompt's state machine sees it.
#[derive(Clone, Copy, Debug, PartialEq, Eq, Structural)]
pub enum Key {
    Char(char),
    Backspace,
    Enter,
    Esc,
    Up,
    Down,
    CtrlC,
    CtrlJ,
    CtrlK,
    Other,
}

/// What the event loop must do after one key event was handled.
#[derive(Clone, Copy, Debug, PartialEq, Eq, Structural)]
pub enum Action {
    Confirm,
    Quit,
    Update,
    Nothing,
}

/// The mathematical state of one prompt session: what was typed, which
/// candidate is highlighted, and how many candidates there are.
pub struct PromptModel {
    pub input: Seq<char>,
    pub cursor: int,
    pub nfonts: int,
}

impl PromptModel {
    /// The session invariant: the cursor always denotes a candidate.
    pub open spec fn wf(self) -> bool {
        &&& self.nfonts > 0
        &&& 0 <= self.cursor < self.nfonts
    }
}

/// The per-keystroke state machine: from a state and one key event to the
/// next state and the action the event loop must take. Printable characters
/// grow the buffer, backspace shrinks it from the tail, the cursor moves
/// clamped to the candidate range, enter confirms, and escape or control-C
/// cancels with a cleared buffer.
pub open spec fn step(m: PromptModel, key: Key) -> (PromptModel, Action) {
    match key {
        Key::Enter => (m, Action::Confirm),
        Key::Esc | Key::CtrlC => (PromptModel { input: Seq::empty(), ..m }, Action::Quit),
        Key::Backspace => (
            PromptModel {
                input: if m.input.len() > 0 {
                    m.input.drop_last()
                } else {
                    m.input
                },
                ..m
            },
            Action::Update,
        ),
        Key::Up | Key::CtrlK => if m.cursor > 0 {
            (PromptModel { cursor: m.cursor - 1, ..m }, Action::Update)
        } else {
            (m, Action::Nothing)
        },
        Key::Down | Key::CtrlJ => if m.cursor + 1 < m.nfonts {
            (PromptModel { cursor: m.cursor + 1, ..m }, Action::Update)
        } else {
            (m, Action::Nothing)
        },
        Key::Char(c) => (PromptModel { input: m.input.push(c), ..m }, Action::Update),
        Key::Other => (m, Action::Nothing),
    }
}

/// The state after a whole sequence of key events, applied in order.
pub open spec fn run(m: PromptModel, keys: Seq<Key>) -> PromptModel
    decreases keys.len(),
{
    if keys.len() == 0 {
        m
    } else {
        run(step(m, keys[0]).0, keys.drop_first())
    }
}

/// One step keeps the session invariant and the candidate count: in
/// particular the cursor is clamped, never wrapped, at both ends.
pub proof fn lemma_step_keeps_invariant(m: PromptModel, key: Key)
    requires
        m.wf(),
    ensures
        step(m, key).0.wf(),
        step(m, key).0.nfonts == m.nfonts,
{
}

/// The selection cursor never leaves the candidate range under any sequence
/// of key events, however many times the ends are pushed.
pub proof fn lemma_cursor_stays_in_range(m: PromptModel, keys: Seq<Key>)
    requires
        m.wf(),
    ensures
        run(m, keys).wf(),
        run(m, keys).nfonts == m.nfonts,
    decreases keys.len(),
{
    if keys.len() > 0 {
        lemma_step_keeps_invariant(m, keys[0]);
        lemma_cursor_stays_in_range(step(m, keys[0]).0, keys.drop_first());
    }
}

/// Backspace on an empty input buffer leaves the whole state unchanged.
pub proof fn lemma_backspace_empty_is_noop(m: PromptModel)
    requires
        m.input.len() == 0,
    ensures
        step(m, Key::Backspace).0 == m,
{
}

/// Owns the input buffer, the candidate fonts, the cached converter and the
/// selection cursor of one interactive session.
pub struct Prompt {
    input: Vec<char>,
    fonts: Vec<Font>,
    converter: Converter,
    current_font: usize,
}

impl Prompt {
    /// The abstract state of this prompt.
    pub closed spec fn model(&self) -> PromptModel {
        PromptModel {
            input: self.input@,
            cursor: self.current_font as int,
            nfonts: self.fonts@.len() as int,
        }
    }

    /// The candidate fonts, in the order they are offered.
    pub closed spec fn spec_fonts(&self) -> Seq<Font> {
        self.fonts@
    }

    /// The prompt invariant: a non-empty candidate list, a cursor inside it,
    /// and a converter cached for exactly these fonts.
    pub closed spec fn wf(&self) -> bool {
        &&& self.model().wf()
        &&& self.converter.wf()
        &&& self.converter.spec_fonts() == self.fonts@
    }

    /// Creates a prompt offering `fonts`, with an empty buffer and the
    /// cursor on the first candidate.
    pub fn new(fonts: Vec<Font>) -> (prompt: Prompt)
        requires
            fonts@.len() > 0,
        ensures
            prompt.wf(),
            prompt.spec_fonts() == fonts@,
            prompt.model() == (PromptModel {
                input: Seq::<char>::empty(),
                cursor: 0,
                nfonts: fonts@.len() as int,
            }),
    {
        let converter = Converter::new(fonts.as_slice());
        Prompt { input: Vec::new(), fonts, converter, current_font: 0 }
    }

    /// Applies exactly one transition of [`step`] and reports the action the
    /// event loop must take.
    pub fn handle_key(&mut self, key: Key) -> (action: Action)
        requires
            old(self).wf(),
        ensures
            final(self).wf(),
            final(self).spec_fonts() == old(self).spec_fonts(),
            final(self).model() == step(old(self).model(), key).0,
            action == step(old(self).model(), key).1,
    {
        match key {
            Key::Enter => Action::Confirm,
            Key::Esc | Key::CtrlC => {
                self.input = Vec::new();
                Action::Quit
            },
            Key::Backspace => {
                self.input.pop();
                Action::Update
            },
            Key::Up | Key::CtrlK => self.move_up_cursor(),
            Key::Down | Key::CtrlJ => self.move_down_cursor(),
            Key::Char(c) => {
                self.input.push(c);
                Action::Update
            },
            Key::Other => Action::Nothing,
        }
    }

    /// Moves the selection one candidate up, unless it already sits on the
    /// first one.
    fn move_up_cursor(&mut self) -> (action: Action)
        requires
            old(self).wf(),
        ensures
            final(self).wf(),
            final(self).spec_fonts() == old(self).spec_fonts(),
            final(self).model() == step(old(self).model(), Key::Up).0,
            action == step(old(self).model(), Key::Up).1,
    {
        if self.current_font > 0 {
            self.current_font -= 1;
            Action::Update
        } else {
            Action::Nothing
        }
    }

    /// Moves the selection one candidate down, unless it already sits on the
    /// last one.
    fn move_down_cursor(&mut self) -> (action: Action)
        requires
            old(self).wf(),
        ensures
            final(self).wf(),
            final(self).spec_fonts() == old(self).spec_fonts(),
            final(self).model() == step(old(self).model(), Key::Down).0,
            action == step(old(self).model(), Key::Down).1,
    {
        if self.current_font < self.fonts.len() - 1 {
            self.current_font += 1;
            Action::Update
        } else {
            Action::Nothing
        }
    }

    /// The editing line as redrawn after every update: the prompt marker
    /// followed by exactly what was typed.
    pub fn render_input(&self) -> (line: String)
        ensures
            line@ == "> "@ + self.model().input,
    {
        let mut line = String::from_str("> ");
        let typed = chars_to_string(&self.input);
        line.append(typed.as_str());
        line
    }

    /// One candidate preview line: a marker on the selected candidate, blank
    /// margin on the others, then the buffer converted to that font.
    pub fn render_candidate_line(&self, i: usize) -> (line: String)
        requires
            self.wf(),
            i < self.spec_fonts().len(),
        ensures
            line@ == (if i as int == self.model().cursor {
                "> "@
            } else {
                "  "@
            }) + spec_convert(self.spec_fonts()[i as int], self.model().input),
    {
        let marker = if i == self.current_font {
            "> "
        } else {
            "  "
        };
        let mut line = String::from_str(marker);
        proof {
            assert(self.fonts@.contains(self.fonts@[i as int]));
        }
        let converted = self.converter.convert(self.input.as_slice(), self.fonts[i]);
        line.append(converted.as_str());
        line
    }

    /// All candidate preview lines, one per font, in catalog order; they are
    /// all recomputed on every redraw.
    pub fn render_candidates(&self) -> (lines: Vec<String>)
        requires
            self.wf(),
        ensures
            lines@.len() == self.spec_fonts().len(),
            forall|i: int|
                0 <= i < lines@.len() ==> #[trigger] lines@[i]@ == (if i == self.model().cursor {
                    "> "@
                } else {
                    "  "@
                }) + spec_convert(self.spec_fonts()[i], self.model().input),
    {
        let n = self.fonts.len();
        let mut lines: Vec<String> = Vec::new();
        let mut i: usize = 0;
        while i < n
            invariant
                self.wf(),
                n == self.spec_fonts().len(),
                i <= n,
                lines@.len() == i,
                forall|j: int|
                    0 <= j < i ==> #[trigger] lines@[j]@ == (if j == self.model().cursor {
                        "> "@
                    } else {
                        "  "@
                    }) + spec_convert(self.spec_fonts()[j], self.model().input),
            decreases n - i,
        {
            let line = self.render_candidate_line(i);
            lines.push(line);
            i += 1;
        }
        lines
    }

    /// The single line written to the final sink when the session ends: the
    /// buffer converted to the selected font.
    pub fn selected_output(&self) -> (line: String)
        requires
            self.wf(),
        ensures
            line@ == spec_convert(
                self.spec_fonts()[self.model().cursor],
                self.model().input,
            ),
    {
        proof {
            assert(self.fonts@.contains(self.fonts@[self.current_font as int]));
        }
        self.converter.convert(self.input.as_slice(), self.fonts[self.current_font])
    }

    /// Length of the editing line in characters: the marker plus the buffer.
    pub fn input_line_len(&self) -> (n: u16)
        requires
            2 + self.model().input.len() <= u16::MAX,
        ensures
            n as int == 2 + self.model().input.len(),
    {
        (2 + self.input.len()) as u16
    }

    /// How many terminal lines one redraw occupies: the editing line plus
    /// one line per candidate font.
    pub fn line_count(&self) -> (n: usize)
        requires
            self.wf(),
            self.spec_fonts().len() < usize::MAX,
        ensures
            n == self.spec_fonts().len() + 1,
    {
        self.fonts.len() + 1
    }

    /// The number of characters currently in the input buffer.
    pub fn input_len(&self) -> (n: usize)
        ensures
            n == self.model().input.len(),
    {
        self.input.len()
    }

    /// The position of the currently selected candidate.
    pub fn selected(&self) -> (i: usize)
        ensures
            i as int == self.model().cursor,
    {
        self.current_font
    }
}

} // verus!
