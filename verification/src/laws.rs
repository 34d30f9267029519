//! What holds of the picker whatever the input: the laws of moving the
//! selection, of editing the search text, and of the preview cache.

use vstd::prelude::*;
use crate::bookmarks::{is_blank, paths_of};
use crate::key::{KeyCode, KeyEvent, KeyKind};
use crate::picker::{
    action_after, pending_action, picker_after, selected_path, well_formed, ActionView, EventView,
    PickerView,
};
use crate::preview::{
    holds_line_break, is_line_break, is_single_quote, lines_of, listing_of, preview_of, printed,
    quoted, quoted_char, script_for, unquoted, ListingView, UNAVAILABLE,
};
use crate::selection::{
    index_above, index_below, lemma_index_above, lemma_index_below, moves_down, moves_up,
    next_state, verdict_of, Mode, SelectionView, Verdict,
};

verus! {

/// Of the lines of a bookmark source only those that are not blank become
/// paths; in particular no path is empty.
pub proof fn law_paths_are_not_blank(lines: Seq<Seq<char>>, i: int)
    requires
        0 <= i < paths_of(lines).len(),
    ensures
        !is_blank(paths_of(lines)[i]),
        paths_of(lines)[i].len() > 0,
{
    lines.lemma_filter_pred(|line: Seq<char>| !is_blank(line), i);
}

/// The state after the events `keys`, taken in order, over a list of `n`
/// entries.
pub open spec fn after_keys(s: SelectionView, n: nat, keys: Seq<KeyEvent>) -> SelectionView
    decreases keys.len(),
{
    if keys.len() == 0 {
        s
    } else {
        next_state(after_keys(s, n, keys.drop_last()), n, keys.last())
    }
}

/// A key event that moves the selection up in Navigate mode.
pub open spec fn is_move_up(key: KeyEvent) -> bool {
    key.drives() && moves_up(key.code)
}

/// A key event that moves the selection down in Navigate mode.
pub open spec fn is_move_down(key: KeyEvent) -> bool {
    key.drives() && moves_down(key.code)
}

/// In Navigate mode, moving down `keys.len()` times advances the selection
/// by that many entries, counted around the list.
pub proof fn lemma_moving_down(s: SelectionView, n: nat, keys: Seq<KeyEvent>)
    requires
        s.index < n,
        s.mode == Mode::Navigate,
        forall|i: int| 0 <= i < keys.len() ==> is_move_down(#[trigger] keys[i]),
    ensures
        after_keys(s, n, keys).index == (s.index + keys.len()) as int % (n as int),
        after_keys(s, n, keys).mode == Mode::Navigate,
    decreases keys.len(),
{
    if keys.len() == 0 {
        vstd::arithmetic::div_mod::lemma_small_mod(s.index, n);
    } else {
        let before = keys.drop_last();
        lemma_moving_down(s, n, before);
        vstd::arithmetic::div_mod::lemma_add_mod_noop_right(
            1,
            (s.index + before.len()) as int,
            n as int,
        );
    }
}

/// Wraparound closure: in Navigate mode over a list of `n` entries, moving
/// down `n` times from any entry leads back to that entry.
pub proof fn law_moving_down_n_times_returns(s: SelectionView, n: nat, keys: Seq<KeyEvent>)
    requires
        s.index < n,
        s.mode == Mode::Navigate,
        keys.len() == n,
        forall|i: int| 0 <= i < keys.len() ==> is_move_down(#[trigger] keys[i]),
    ensures
        after_keys(s, n, keys).index == s.index,
{
    lemma_moving_down(s, n, keys);
    vstd::arithmetic::div_mod::lemma_mod_add_multiples_vanish(s.index as int, n as int);
    vstd::arithmetic::div_mod::lemma_small_mod(s.index, n);
}

/// Inverse pair: in Navigate mode, moving up and then down, or down and then
/// up, leads back to the entry the selection started on.
pub proof fn law_up_and_down_cancel(s: SelectionView, n: nat, up: KeyEvent, down: KeyEvent)
    requires
        s.index < n,
        s.mode == Mode::Navigate,
        is_move_up(up),
        is_move_down(down),
    ensures
        next_state(next_state(s, n, up), n, down).index == s.index,
        next_state(next_state(s, n, down), n, up).index == s.index,
{
    lemma_index_above(s.index as int, n as int);
    lemma_index_below(s.index as int, n as int);
    lemma_index_below(index_above(s.index as int, n as int), n as int);
    lemma_index_above(index_below(s.index as int, n as int), n as int);
}

/// Whatever the key event, the selection stays within the list.
pub proof fn law_index_stays_in_list(s: SelectionView, n: nat, key: KeyEvent)
    requires
        s.index < n,
    ensures
        next_state(s, n, key).index < n,
{
}

/// Whatever the key events and however many, the selection stays within the
/// list.
pub proof fn law_index_always_in_list(s: SelectionView, n: nat, keys: Seq<KeyEvent>)
    requires
        s.index < n,
    ensures
        after_keys(s, n, keys).index < n,
    decreases keys.len(),
{
    if keys.len() > 0 {
        law_index_always_in_list(s, n, keys.drop_last());
        law_index_stays_in_list(after_keys(s, n, keys.drop_last()), n, keys.last());
    }
}

/// Round trip: in Filter mode, typing a character and then pressing
/// Backspace leaves the state as it was, search text included.
pub proof fn law_backspace_undoes_typing(
    s: SelectionView,
    n: nat,
    c: char,
    typed: KeyEvent,
    erased: KeyEvent,
)
    requires
        s.mode == Mode::Filter,
        typed.drives() && typed.code == KeyCode::Char(c),
        erased.drives() && erased.code == KeyCode::Backspace,
    ensures
        next_state(s, n, typed).search_text == s.search_text.push(c),
        next_state(next_state(s, n, typed), n, erased).search_text == s.search_text,
        next_state(next_state(s, n, typed), n, erased) == s,
{
    assert(s.search_text.push(c).drop_last() =~= s.search_text);
}

/// Navigate mode is never left, and in it no key event changes the search
/// text.
pub proof fn law_navigate_keeps_mode_and_text(s: SelectionView, n: nat, key: KeyEvent)
    requires
        s.mode == Mode::Navigate,
    ensures
        next_state(s, n, key).mode == Mode::Navigate,
        next_state(s, n, key).search_text == s.search_text,
{
}

/// No key event touches the cached preview; a key event leaves it current
/// exactly if it was current and the selection did not move.
pub proof fn law_keys_keep_the_cache(s: SelectionView, n: nat, key: KeyEvent)
    ensures
        next_state(s, n, key).preview_cache == s.preview_cache,
        next_state(s, n, key).preview_current == (s.preview_current && next_state(
            s,
            n,
            key,
        ).index == s.index),
{
}

/// A key event that reports a key coming up changes nothing and asks for
/// nothing.
pub proof fn law_release_is_ignored(s: SelectionView, n: nat, key: KeyEvent)
    requires
        key.kind == KeyKind::Release,
    ensures
        next_state(s, n, key) == s,
        verdict_of(s, key) == Verdict::Continue,
{
}

/// Whatever the event, the selection stays within the bookmark list, and the
/// list itself stays as it is.
pub proof fn law_picker_stays_well_formed(p: PickerView, event: EventView)
    requires
        well_formed(p),
    ensures
        well_formed(picker_after(p, event)),
        picker_after(p, event).bookmarks == p.bookmarks,
{
    if let EventView::Key(key) = event {
        law_index_stays_in_list(p.state, p.bookmarks.len(), key);
    }
}

/// A turn of the loop without input changes nothing: it asks for a listing
/// only if one was owed before, and for the same path.
pub proof fn law_idle_changes_nothing(p: PickerView)
    ensures
        picker_after(p, EventView::Idle) == p,
        action_after(p, EventView::Idle) == pending_action(p),
        p.state.preview_current ==> action_after(p, EventView::Idle) == ActionView::Draw,
{
}

/// Once a listing has come in, the preview is current and the picker asks
/// for a drawn screen. A listing that was owed is now the cached preview, and
/// the selection has not moved.
pub proof fn law_listing_settles_preview(p: PickerView, listing: ListingView)
    ensures
        picker_after(p, EventView::Listed(listing)).state.preview_current,
        action_after(p, EventView::Listed(listing)) == ActionView::Draw,
        !p.state.preview_current ==> picker_after(
            p,
            EventView::Listed(listing),
        ).state.preview_cache == preview_of(listing),
        picker_after(p, EventView::Listed(listing)).state.index == p.state.index,
{
}

/// The picker never asks for a drawn screen while the cached preview is not
/// that of the selected entry.
pub proof fn law_draws_only_a_current_preview(p: PickerView, event: EventView)
    ensures
        action_after(p, event) == ActionView::Draw ==> picker_after(
            p,
            event,
        ).state.preview_current,
{
}

/// A key event that does not end the loop asks for a listing exactly when it
/// moved the selection or the preview was owed already; the listing asked
/// for is that of the entry now selected.
pub proof fn law_key_asks_for_listing_when_moved(p: PickerView, key: KeyEvent)
    requires
        verdict_of(p.state, key) == Verdict::Continue,
    ensures
        action_after(p, EventView::Key(key)) == if p.state.preview_current && picker_after(
            p,
            EventView::Key(key),
        ).state.index == p.state.index {
            ActionView::Draw
        } else {
            ActionView::List(selected_path(picker_after(p, EventView::Key(key))))
        },
{
}

/// A path stands in its script as a literal: read as the body of a
/// single-quoted string, the quoted path is the path again, character for
/// character, and no single quote in it ends the string.
pub proof fn law_quoted_path_reads_back(path: Seq<char>)
    ensures
        unquoted(quoted(path)) == Some(path),
    decreases path.len(),
{
    if path.len() > 0 {
        let c = path.first();
        let rest = path.drop_first();
        law_quoted_path_reads_back(rest);
        let body = quoted(path);
        assert(body == quoted_char(c) + quoted(rest));
        if is_single_quote(c) {
            assert(body.skip(2) =~= quoted(rest));
        } else {
            assert(body.drop_first() =~= quoted(rest));
        }
        assert(seq![c] + rest =~= path);
    }
}

/// Quoting brings no line break into a path that holds none.
pub proof fn law_quoting_adds_no_line_break(path: Seq<char>)
    requires
        !holds_line_break(path),
    ensures
        !holds_line_break(quoted(path)),
    decreases path.len(),
{
    if path.len() > 0 {
        let c = path.first();
        let rest = path.drop_first();
        assert(!is_line_break(path[0]));
        assert forall|i: int| 0 <= i < rest.len() implies !is_line_break(#[trigger] rest[i]) by {
            assert(rest[i] == path[i + 1]);
        }
        law_quoting_adds_no_line_break(rest);
        let body = quoted(path);
        let head = quoted_char(c);
        assert(body == head + quoted(rest));
        assert forall|i: int| 0 <= i < body.len() implies !is_line_break(#[trigger] body[i]) by {
            if i >= head.len() {
                assert(body[i] == quoted(rest)[i - head.len()]);
            }
        }
    }
}

/// A script is one line: there is one for every path without a line break,
/// none for any other, and a script holds no line break itself.
pub proof fn law_script_is_one_line(path: Seq<char>)
    ensures
        script_for(path).is_some() <==> !holds_line_break(path),
        script_for(path) matches Some(script) ==> !holds_line_break(script),
{
    if !holds_line_break(path) {
        law_quoting_adds_no_line_break(path);
        reveal_strlit("ls -Name -Force -LiteralPath '");
        let lead = "ls -Name -Force -LiteralPath '"@;
        let body = quoted(path);
        let script = lead + body + seq!['\''];
        assert forall|i: int| 0 <= i < script.len() implies !is_line_break(
            #[trigger] script[i],
        ) by {
            if lead.len() <= i < lead.len() + body.len() {
                assert(script[i] == body[i - lead.len()]);
            }
        }
    }
}

/// A run that printed nothing but errors gives the placeholder; a run that
/// printed on its output stream gives the names it printed, whatever it
/// printed on its error stream.
pub proof fn law_only_errors_give_the_placeholder(
    output: Option<Seq<char>>,
    errors: Option<Seq<char>>,
)
    ensures
        printed(output).len() == 0 && printed(errors).len() > 0 ==> preview_of(
            listing_of(output, errors),
        ) == UNAVAILABLE@,
        printed(output).len() > 0 ==> listing_of(output, errors) == ListingView::Entries(
            lines_of(printed(output)),
        ),
        printed(errors).len() == 0 ==> listing_of(output, errors) == ListingView::Entries(
            lines_of(printed(output)),
        ),
{
}

} // verus!
