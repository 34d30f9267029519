//! An interactive picker over a list of bookmarked paths.
//!
//! A user browses the bookmarks with the keyboard, types a search text, sees
//! a preview of the selected path's directory, and chooses one path or none.
//! This library holds the logic of that: the selection state machine, the
//! dispatch of key events, and the preview cache. It touches no terminal and
//! no file system. A [`picker::Picker`] takes events in and answers each with
//! the action that it asks for next; the program around it performs the
//! actions.
//!
//! The loop of such a program starts with [`picker::Picker::next_action`].
//! For [`picker::Action::List`] it lists the path and hands the listing to
//! [`picker::Picker::step`]; for [`picker::Action::Draw`] it draws
//! [`screen::render`] and hands over the next key event; it ends on
//! [`picker::Action::Finish`], whose choice [`picker::handoff`] turns into
//! the text for the caller.

pub mod bookmarks;
pub mod error;
pub mod key;
pub mod laws;
pub mod picker;
pub mod preview;
pub mod screen;
pub mod selection;
pub mod strings;
