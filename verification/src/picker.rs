//! The picker: a bookmark list with its selection state, moved on by events
//! and answering each with the action it asks for next.
//!
//! The picker does no input or output of its own. The loop that runs it
//! performs each action and hands back what came of it: after
//! [`Action::Draw`] the next key event, or [`Event::Idle`] where none came;
//! after [`Action::List`] the listing of the path that the action names.
//! [`Action::Finish`] ends the loop.
//!
//! The preview is computed when the selection has moved, not when the screen
//! is drawn: the picker asks for a listing only while the cached preview is
//! not that of the selected entry, and asks for a drawn screen only once it
//! is.

use vstd::prelude::*;
use crate::bookmarks::{paths_of, BookmarkList};
use crate::error::StartupConfigError;
use crate::key::KeyEvent;
use crate::preview::{preview_of, preview_text, Listing, ListingView};
use crate::selection::{
    initial_state, next_state, verdict_of, with_preview, SelectionState, SelectionView, Verdict,
};
use crate::strings::{text_of, texts_of};

verus! {

/// What happened since the picker last asked for something.
#[derive(Debug, PartialEq, Eq)]
pub enum Event {
    /// A key event was read.
    Key(KeyEvent),
    /// The path that the picker asked to have listed was listed. A listing
    /// that comes while the cached preview is current was not asked for and
    /// is ignored.
    Listed(Listing),
    /// Nothing the picker gives a meaning to: the wait for input ran out, or
    /// the input was no key event.
    Idle,
}

/// An event as a mathematical value.
pub enum EventView {
    Key(KeyEvent),
    Listed(ListingView),
    Idle,
}

impl View for Event {
    type V = EventView;

    open spec fn view(&self) -> EventView {
        match self {
            Event::Key(key) => EventView::Key(*key),
            Event::Listed(listing) => EventView::Listed(listing@),
            Event::Idle => EventView::Idle,
        }
    }
}

/// What the picker asks of the loop that runs it.
#[derive(Debug, PartialEq, Eq)]
pub enum Action {
    /// Draw the screen, then wait for input.
    Draw,
    /// List the direct children of this path and hand the listing back.
    List(String),
    /// Stop, with this path as the choice, or with none.
    Finish(Option<String>),
}

/// An action as a mathematical value.
pub enum ActionView {
    Draw,
    List(Seq<char>),
    Finish(Option<Seq<char>>),
}

impl View for Action {
    type V = ActionView;

    open spec fn view(&self) -> ActionView {
        match self {
            Action::Draw => ActionView::Draw,
            Action::List(path) => ActionView::List(path@),
            Action::Finish(Some(path)) => ActionView::Finish(Some(path@)),
            Action::Finish(None) => ActionView::Finish(None),
        }
    }
}

/// The picker as a mathematical value.
pub struct PickerView {
    pub bookmarks: Seq<Seq<char>>,
    pub state: SelectionView,
}

/// The selection points into the bookmark list, which therefore is not empty.
pub open spec fn well_formed(p: PickerView) -> bool {
    p.state.index < p.bookmarks.len()
}

/// The path under the selection.
pub open spec fn selected_path(p: PickerView) -> Seq<char> {
    p.bookmarks[p.state.index as int]
}

/// What the picker asks for while nothing stops it: a listing of the selected
/// path while the cached preview is not current, a drawn screen once it is.
pub open spec fn pending_action(p: PickerView) -> ActionView {
    if p.state.preview_current {
        ActionView::Draw
    } else {
        ActionView::List(selected_path(p))
    }
}

/// The picker after `event`.
pub open spec fn picker_after(p: PickerView, event: EventView) -> PickerView {
    match event {
        EventView::Key(key) => PickerView {
            state: next_state(p.state, p.bookmarks.len(), key),
            ..p
        },
        EventView::Listed(listing) => if p.state.preview_current {
            p
        } else {
            PickerView { state: with_preview(p.state, preview_of(listing)), ..p }
        },
        EventView::Idle => p,
    }
}

/// The action that answers `event`.
pub open spec fn action_after(p: PickerView, event: EventView) -> ActionView {
    match event {
        EventView::Key(key) => match verdict_of(p.state, key) {
            Verdict::Accept => ActionView::Finish(Some(selected_path(p))),
            Verdict::Cancel => ActionView::Finish(None),
            Verdict::Continue => pending_action(picker_after(p, event)),
        },
        _ => pending_action(picker_after(p, event)),
    }
}

/// What starting on a bookmark source gives: the picker over its paths in
/// the startup state, or the reason why there is none. `None` stands for a
/// source that could not be read.
pub open spec fn opening(source: Option<Seq<Seq<char>>>) -> Result<PickerView, StartupConfigError> {
    match source {
        None => Err(StartupConfigError::SourceUnreadable),
        Some(lines) => if paths_of(lines).len() == 0 {
            Err(StartupConfigError::NoBookmarks)
        } else {
            Ok(PickerView { bookmarks: paths_of(lines), state: initial_state() })
        },
    }
}

/// What is handed to the caller when the loop has ended: the chosen path, or
/// `"."` where none was chosen.
pub open spec fn handoff_of(choice: Option<Seq<char>>) -> Seq<char> {
    match choice {
        Some(path) => path,
        None => "."@,
    }
}

/// The text to hand to the caller for `choice`.
pub fn handoff(choice: Option<String>) -> (text: String)
    ensures
        text@ == handoff_of(text_of(choice)),
{
    match choice {
        Some(path) => path,
        None => String::from_str("."),
    }
}

/// A bookmark list and the selection state over it.
#[derive(Debug)]
pub struct Picker {
    bookmarks: BookmarkList,
    state: SelectionState,
}

impl View for Picker {
    type V = PickerView;

    closed spec fn view(&self) -> PickerView {
        PickerView { bookmarks: self.bookmarks@, state: self.state@ }
    }
}

impl Picker {
    #[verifier::type_invariant]
    spec fn selection_in_list(self) -> bool {
        self.state@.index < self.bookmarks@.len()
    }

    /// Starts a picker over `bookmarks`, with the first entry selected. There
    /// is no picker over an empty list.
    pub fn new(bookmarks: BookmarkList) -> (started: Result<Picker, StartupConfigError>)
        ensures
            bookmarks@.len() == 0 ==> started == Err::<Picker, _>(StartupConfigError::NoBookmarks),
            bookmarks@.len() > 0 ==> started.is_ok() && started.unwrap()@ == (PickerView {
                bookmarks: bookmarks@,
                state: initial_state(),
            }),
    {
        if bookmarks.is_empty() {
            Err(StartupConfigError::NoBookmarks)
        } else {
            Ok(Picker { bookmarks, state: SelectionState::new() })
        }
    }

    /// Starts a picker on the lines of a bookmark source, or on `None` where
    /// the source could not be read. Blank lines name no path.
    pub fn open(source: Option<Vec<String>>) -> (started: Result<Picker, StartupConfigError>)
        ensures
            match opening(texts_of(source)) {
                Ok(view) => started.is_ok() && started.unwrap()@ == view,
                Err(error) => started == Err::<Picker, _>(error),
            },
    {
        match source {
            None => Err(StartupConfigError::SourceUnreadable),
            Some(lines) => Picker::new(BookmarkList::from_lines(lines)),
        }
    }

    /// The bookmark list.
    pub fn bookmarks(&self) -> (bookmarks: &BookmarkList)
        ensures
            bookmarks@ == self@.bookmarks,
    {
        &self.bookmarks
    }

    /// The selection state. Its index lies within the bookmark list.
    pub fn state(&self) -> (state: &SelectionState)
        ensures
            state@ == self@.state,
            well_formed(self@),
    {
        proof {
            use_type_invariant(self);
        }
        &self.state
    }

    /// The path under the selection.
    pub fn selected(&self) -> (path: &str)
        ensures
            path@ == selected_path(self@),
    {
        proof {
            use_type_invariant(self);
        }
        self.bookmarks.path_at(self.state.index())
    }

    /// The action that the picker asks for as it stands.
    pub fn next_action(&self) -> (action: Action)
        ensures
            action@ == pending_action(self@),
    {
        proof {
            use_type_invariant(self);
        }
        if self.state.preview_is_current() {
            Action::Draw
        } else {
            Action::List(self.bookmarks.path_at(self.state.index()).to_owned())
        }
    }

    /// Takes one event in and answers with the action to perform next.
    pub fn step(&mut self, event: Event) -> (action: Action)
        ensures
            final(self)@ == picker_after(old(self)@, event@),
            action@ == action_after(old(self)@, event@),
            well_formed(final(self)@),
    {
        proof {
            use_type_invariant(&*self);
        }
        match event {
            Event::Key(key) => {
                let n = self.bookmarks.len();
                let chosen = self.state.index();
                // The state is changed outside the picker and put back whole.
                let mut state = SelectionState::new();
                std::mem::swap(&mut state, &mut self.state);
                let verdict = state.apply_key(n, key);
                self.state = state;
                match verdict {
                    Verdict::Accept => Action::Finish(
                        Some(self.bookmarks.path_at(chosen).to_owned()),
                    ),
                    Verdict::Cancel => Action::Finish(None),
                    Verdict::Continue => self.next_action(),
                }
            },
            Event::Listed(listing) => {
                if !self.state.preview_is_current() {
                    let mut state = SelectionState::new();
                    std::mem::swap(&mut state, &mut self.state);
                    state.store_preview(preview_text(&listing));
                    self.state = state;
                }
                self.next_action()
            },
            Event::Idle => self.next_action(),
        }
    }
}

} // verus!
