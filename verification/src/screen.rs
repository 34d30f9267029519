//! What there is to draw: the picker's state laid out as rows and texts, for
//! whatever paints it.

use vstd::prelude::*;
use crate::picker::{Picker, PickerView};
use crate::selection::SelectionView;

verus! {

/// The text that leads the search bar.
pub const PROMPT: &'static str = " -> ";

/// One row of the bookmark panel.
#[derive(Debug, PartialEq, Eq)]
pub struct Row {
    /// The bookmarked path.
    pub text: String,
    /// Whether the selection stands on this row.
    pub selected: bool,
}

/// A row as a mathematical value.
pub struct RowView {
    pub text: Seq<char>,
    pub selected: bool,
}

impl View for Row {
    type V = RowView;

    open spec fn view(&self) -> RowView {
        RowView { text: self.text@, selected: self.selected }
    }
}

/// The contents of the three panels.
#[derive(Debug, PartialEq, Eq)]
pub struct Screen {
    /// The bookmark panel, one row for each bookmark, in order.
    pub rows: Vec<Row>,
    /// The preview panel.
    pub preview: String,
    /// The search bar.
    pub search_bar: String,
}

/// A screen as a mathematical value.
pub struct ScreenView {
    pub rows: Seq<RowView>,
    pub preview: Seq<char>,
    pub search_bar: Seq<char>,
}

impl View for Screen {
    type V = ScreenView;

    open spec fn view(&self) -> ScreenView {
        ScreenView {
            rows: Seq::new(self.rows@.len(), |i: int| self.rows@[i]@),
            preview: self.preview@,
            search_bar: self.search_bar@,
        }
    }
}

/// The preview to show: the cached one while it is current, and nothing
/// while it is not, so that no preview of another entry is ever shown.
pub open spec fn shown_preview(s: SelectionView) -> Seq<char> {
    if s.preview_current {
        s.preview_cache
    } else {
        Seq::empty()
    }
}

/// The screen of a picker: a row for each bookmark, the one under the
/// selection marked; the preview to show; the prompt and the search text.
pub open spec fn screen_of(p: PickerView) -> ScreenView {
    ScreenView {
        rows: Seq::new(
            p.bookmarks.len(),
            |i: int| RowView { text: p.bookmarks[i], selected: i == p.state.index },
        ),
        preview: shown_preview(p.state),
        search_bar: PROMPT@ + p.state.search_text,
    }
}

/// Lays out what to draw for `picker`.
pub fn render(picker: &Picker) -> (screen: Screen)
    ensures
        screen@ == screen_of(picker@),
{
    let bookmarks = picker.bookmarks();
    let state = picker.state();
    let mut rows: Vec<Row> = Vec::new();
    let mut i: usize = 0;
    while i < bookmarks.len()
        invariant
            i <= bookmarks@.len(),
            rows@.len() == i,
            forall|j: int|
                0 <= j < i ==> (#[trigger] rows@[j])@ == (RowView {
                    text: bookmarks@[j],
                    selected: j == state@.index,
                }),
        decreases bookmarks@.len() - i,
    {
        rows.push(Row { text: bookmarks.path_at(i).to_owned(), selected: i == state.index() });
        i += 1;
    }
    let preview = if state.preview_is_current() {
        state.preview_cache().to_owned()
    } else {
        String::new()
    };
    let mut search_bar = String::from_str(PROMPT);
    search_bar.append(state.search_text());
    let screen = Screen { rows, preview, search_bar };
    assert(screen@.rows =~= screen_of(picker@).rows);
    screen
}

} // verus!
