//! The selection state and its transitions under key events.
//!
//! The picker has two input modes. It starts in Filter mode, where character
//! keys add to the search text, Backspace takes its last character away and
//! Escape leads to Navigate mode. In Navigate mode Up, Right and `k` move
//! the selection one entry up, Down, Left and `j` move it one entry down,
//! both around the ends of the list, and `q` ends the loop without a choice.
//! Enter ends the loop in either mode, with the selected entry as the
//! choice. Every other key is ignored, and so is every event that reports a
//! key coming up.
//!
//! Navigate mode is never left again, and characters typed there, other than
//! `q`, `j` and `k`, change nothing. The search text is collected and shown;
//! it does not narrow the list.

use vstd::prelude::*;
use crate::key::{KeyCode, KeyEvent, KeyKind};

verus! {

/// The input mode of the picker.
#[derive(Clone, Copy, Debug, PartialEq, Eq, Structural)]
pub enum Mode {
    /// Keys move the selection.
    Navigate,
    /// Keys edit the search text.
    Filter,
}

/// What a key event asks of the loop that feeds the picker.
#[derive(Clone, Copy, Debug, PartialEq, Eq, Structural)]
pub enum Verdict {
    /// Go on reading events.
    Continue,
    /// Stop: the bookmark under the selection is chosen.
    Accept,
    /// Stop: nothing is chosen.
    Cancel,
}

/// The selection state as a mathematical value.
pub struct SelectionView {
    pub index: nat,
    pub mode: Mode,
    pub search_text: Seq<char>,
    pub preview_cache: Seq<char>,
    pub preview_current: bool,
}

/// The index one step up from `index` in a list of `n` entries, wrapping from
/// the first entry to the last. `%` is the mathematical modulo here: its
/// result is never negative.
pub open spec fn index_above(index: int, n: int) -> int {
    (index - 1) % n
}

/// The index one step down from `index` in a list of `n` entries, wrapping
/// from the last entry to the first.
pub open spec fn index_below(index: int, n: int) -> int {
    (index + 1) % n
}

/// The keys that move the selection up in Navigate mode.
pub open spec fn moves_up(code: KeyCode) -> bool {
    code == KeyCode::Up || code == KeyCode::Right || code == KeyCode::Char('k')
}

/// The keys that move the selection down in Navigate mode.
pub open spec fn moves_down(code: KeyCode) -> bool {
    code == KeyCode::Down || code == KeyCode::Left || code == KeyCode::Char('j')
}

/// The state `s` with the selection at `index`. The cached preview stays
/// current only if the selection did not move.
pub open spec fn selecting(s: SelectionView, index: nat) -> SelectionView {
    SelectionView { index, preview_current: s.preview_current && index == s.index, ..s }
}

/// The state `s` with `text` as the current preview.
pub open spec fn with_preview(s: SelectionView, text: Seq<char>) -> SelectionView {
    SelectionView { preview_cache: text, preview_current: true, ..s }
}

/// The state that follows `s` when `key` arrives, over a list of `n` entries.
pub open spec fn next_state(s: SelectionView, n: nat, key: KeyEvent) -> SelectionView {
    if !key.drives() {
        s
    } else {
        match s.mode {
            Mode::Navigate => {
                if moves_up(key.code) {
                    selecting(s, index_above(s.index as int, n as int) as nat)
                } else if moves_down(key.code) {
                    selecting(s, index_below(s.index as int, n as int) as nat)
                } else {
                    s
                }
            },
            Mode::Filter => match key.code {
                KeyCode::Esc => SelectionView { mode: Mode::Navigate, ..s },
                KeyCode::Backspace => SelectionView {
                    search_text: if s.search_text.len() == 0 {
                        s.search_text
                    } else {
                        s.search_text.drop_last()
                    },
                    ..s
                },
                KeyCode::Char(c) => SelectionView { search_text: s.search_text.push(c), ..s },
                _ => s,
            },
        }
    }
}

/// What `key` asks of the loop when it arrives in state `s`.
pub open spec fn verdict_of(s: SelectionView, key: KeyEvent) -> Verdict {
    if !key.drives() {
        Verdict::Continue
    } else if key.code == KeyCode::Enter {
        Verdict::Accept
    } else if s.mode == Mode::Navigate && key.code == KeyCode::Char('q') {
        Verdict::Cancel
    } else {
        Verdict::Continue
    }
}

/// The selection state: where the selection stands, the input mode, the
/// search text typed so far, and the preview last computed.
#[derive(Debug)]
pub struct SelectionState {
    index: usize,
    mode: Mode,
    search_text: String,
    preview_cache: String,
    preview_current: bool,
}

impl View for SelectionState {
    type V = SelectionView;

    closed spec fn view(&self) -> SelectionView {
        SelectionView {
            index: self.index as nat,
            mode: self.mode,
            search_text: self.search_text@,
            preview_cache: self.preview_cache@,
            preview_current: self.preview_current,
        }
    }
}

/// The state at startup: the first entry selected, Filter mode, no search
/// text, and no preview computed yet.
pub open spec fn initial_state() -> SelectionView {
    SelectionView {
        index: 0,
        mode: Mode::Filter,
        search_text: Seq::empty(),
        preview_cache: Seq::empty(),
        preview_current: false,
    }
}

impl SelectionState {
    /// The state at startup.
    pub(crate) fn new() -> (state: SelectionState)
        ensures
            state@ == initial_state(),
    {
        SelectionState {
            index: 0,
            mode: Mode::Filter,
            search_text: String::new(),
            preview_cache: String::new(),
            preview_current: false,
        }
    }

    /// Where the selection stands.
    pub fn index(&self) -> (index: usize)
        ensures
            index == self@.index,
    {
        self.index
    }

    /// The input mode.
    pub fn mode(&self) -> (mode: Mode)
        ensures
            mode == self@.mode,
    {
        self.mode
    }

    /// The search text typed so far.
    pub fn search_text(&self) -> (text: &str)
        ensures
            text@ == self@.search_text,
    {
        self.search_text.as_str()
    }

    /// The preview last computed, whether or not it is still current.
    pub fn preview_cache(&self) -> (text: &str)
        ensures
            text@ == self@.preview_cache,
    {
        self.preview_cache.as_str()
    }

    /// Says whether the cached preview was computed for the entry now
    /// selected.
    pub fn preview_is_current(&self) -> (current: bool)
        ensures
            current == self@.preview_current,
    {
        self.preview_current
    }

    /// Stores `text` as the preview of the entry now selected.
    pub(crate) fn store_preview(&mut self, text: String)
        ensures
            final(self)@ == with_preview(old(self)@, text@),
    {
        self.preview_cache = text;
        self.preview_current = true;
    }

    /// Applies one key event over a list of `n` entries and says what the
    /// event asks of the loop.
    pub(crate) fn apply_key(&mut self, n: usize, key: KeyEvent) -> (verdict: Verdict)
        requires
            old(self)@.index < n,
        ensures
            final(self)@ == next_state(old(self)@, n as nat, key),
            verdict == verdict_of(old(self)@, key),
            final(self)@.index < n,
    {
        match key.kind {
            KeyKind::Release => {
                return Verdict::Continue;
            },
            _ => {},
        }
        match self.mode {
            Mode::Navigate => match key.code {
                KeyCode::Char('q') => Verdict::Cancel,
                KeyCode::Up | KeyCode::Right | KeyCode::Char('k') => {
                    let target: usize = if self.index == 0 {
                        n - 1
                    } else {
                        self.index - 1
                    };
                    proof {
                        lemma_index_above(self.index as int, n as int);
                    }
                    self.preview_current = self.preview_current && target == self.index;
                    self.index = target;
                    Verdict::Continue
                },
                KeyCode::Down | KeyCode::Left | KeyCode::Char('j') => {
                    let target: usize = if self.index + 1 == n {
                        0
                    } else {
                        self.index + 1
                    };
                    proof {
                        lemma_index_below(self.index as int, n as int);
                    }
                    self.preview_current = self.preview_current && target == self.index;
                    self.index = target;
                    Verdict::Continue
                },
                KeyCode::Enter => Verdict::Accept,
                _ => Verdict::Continue,
            },
            Mode::Filter => match key.code {
                KeyCode::Esc => {
                    self.mode = Mode::Navigate;
                    Verdict::Continue
                },
                KeyCode::Backspace => {
                    self.search_text.pop();
                    Verdict::Continue
                },
                KeyCode::Char(c) => {
                    self.search_text.push(c);
                    Verdict::Continue
                },
                KeyCode::Enter => Verdict::Accept,
                _ => Verdict::Continue,
            },
        }
    }
}

/// Stepping up wraps from the first entry to the last and otherwise goes
/// one entry back.
pub proof fn lemma_index_above(index: int, n: int)
    requires
        0 <= index < n,
    ensures
        index_above(index, n) == if index == 0 { n - 1 } else { index - 1 },
        0 <= index_above(index, n) < n,
{
    if index == 0 {
        assert((-1int) % n == n - 1) by (nonlinear_arith)
            requires
                n > 0,
        ;
    } else {
        vstd::arithmetic::div_mod::lemma_small_mod((index - 1) as nat, n as nat);
    }
}

/// Stepping down wraps from the last entry to the first and otherwise goes
/// one entry forward.
pub proof fn lemma_index_below(index: int, n: int)
    requires
        0 <= index < n,
    ensures
        index_below(index, n) == if index + 1 == n { 0 } else { index + 1 },
        0 <= index_below(index, n) < n,
{
    if index + 1 < n {
        vstd::arithmetic::div_mod::lemma_small_mod((index + 1) as nat, n as nat);
    }
}

} // verus!
