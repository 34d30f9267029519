//! The preview of a path: the names of its direct children, one per line, or
//! a placeholder where the path cannot be listed.
//!
//! The listing itself is the work of a PowerShell script that the program
//! runs. This module builds the script and reads what it printed. The path
//! stands in the script as a literal, so that listing a path does nothing
//! but list that path, whatever characters it holds.

use vstd::prelude::*;
use crate::strings::{text_of, texts};

verus! {

/// The text shown in place of a preview when the path cannot be listed.
pub const UNAVAILABLE: &'static str = "(preview unavailable)";

/// What listing a path gave.
#[derive(Debug, PartialEq, Eq)]
pub enum Listing {
    /// The names of the path's direct children, in the order they were
    /// enumerated.
    Entries(Vec<String>),
    /// The path does not exist or cannot be read.
    Unavailable,
}

/// A listing as a mathematical value.
pub enum ListingView {
    Entries(Seq<Seq<char>>),
    Unavailable,
}

impl View for Listing {
    type V = ListingView;

    open spec fn view(&self) -> ListingView {
        match self {
            Listing::Entries(names) => ListingView::Entries(texts(names@)),
            Listing::Unavailable => ListingView::Unavailable,
        }
    }
}

/// The names joined by line feeds: one between each two neighbours, none
/// before the first or after the last.
pub open spec fn joined(names: Seq<Seq<char>>) -> Seq<char>
    decreases names.len(),
{
    if names.len() == 0 {
        Seq::empty()
    } else if names.len() == 1 {
        names[0]
    } else {
        joined(names.drop_last()) + seq!['\n'] + names.last()
    }
}

/// The preview text of a listing.
pub open spec fn preview_of(listing: ListingView) -> Seq<char> {
    match listing {
        ListingView::Entries(names) => joined(names),
        ListingView::Unavailable => UNAVAILABLE@,
    }
}

/// Renders a listing as preview text: the entry names joined by line feeds,
/// or the placeholder for a path that cannot be listed.
pub fn preview_text(listing: &Listing) -> (text: String)
    ensures
        text@ == preview_of(listing@),
{
    match listing {
        Listing::Unavailable => String::from_str(UNAVAILABLE),
        Listing::Entries(names) => {
            let mut text = String::new();
            let mut i: usize = 0;
            while i < names.len()
                invariant
                    i <= names.len(),
                    text@ == joined(texts(names@).take(i as int)),
                decreases names.len() - i,
            {
                proof {
                    let upto = texts(names@).take(i as int + 1);
                    assert(upto.drop_last() =~= texts(names@).take(i as int));
                    reveal_strlit("\n");
                }
                if i > 0 {
                    text.append("\n");
                }
                text.append(names[i].as_str());
                i += 1;
            }
            proof {
                assert(texts(names@).take(i as int) =~= texts(names@));
            }
            text
        },
    }
}

/// The length of the first line of `text`: the position of its first line
/// feed, or the length of `text` where it holds none.
pub open spec fn line_end(text: Seq<char>) -> int
    decreases text.len(),
{
    if text.len() == 0 || text[0] == '\n' {
        0
    } else {
        1 + line_end(text.drop_first())
    }
}

/// A line without the carriage return that stood before its line feed.
pub open spec fn without_return(line: Seq<char>) -> Seq<char> {
    if line.len() > 0 && line.last() == '\r' {
        line.drop_last()
    } else {
        line
    }
}

/// The lines of `text`. A line ends at a line feed; a carriage return right
/// before that line feed is not part of the line. What follows the last line
/// feed is a line of its own unless it is empty.
pub open spec fn lines_of(text: Seq<char>) -> Seq<Seq<char>>
    decreases text.len(),
{
    if text.len() == 0 {
        Seq::empty()
    } else {
        let end = line_end(text);
        if 0 <= end < text.len() {
            seq![without_return(text.take(end))] + lines_of(text.skip(end + 1))
        } else {
            seq![text]
        }
    }
}

/// The first line feed of `text` is where its first line ends.
proof fn lemma_line_end_at(text: Seq<char>, end: int)
    requires
        0 <= end <= text.len(),
        forall|i: int| 0 <= i < end ==> text[i] != '\n',
        end < text.len() ==> text[end] == '\n',
    ensures
        line_end(text) == end,
    decreases text.len(),
{
    if text.len() == 0 || text[0] == '\n' {
    } else {
        let rest = text.drop_first();
        assert forall|i: int| 0 <= i < end - 1 implies rest[i] != '\n' by {
            assert(rest[i] == text[i + 1]);
        }
        lemma_line_end_at(rest, end - 1);
    }
}

/// Splits the output of a directory listing into entry names, one per line.
pub fn entry_names(output: &str) -> (names: Vec<String>)
    ensures
        texts(names@) == lines_of(output@),
{
    let mut names: Vec<String> = Vec::new();
    let mut line = String::new();
    let mut after_return = false;
    proof {
        assert(line@ + output@.skip(0) =~= output@);
    }
    for c in it: output.chars()
        invariant
            it.seq() == output@,
            forall|i: int| 0 <= i < line@.len() ==> line@[i] != '\n',
            after_return == (line@.len() > 0 && line@.last() == '\r'),
            lines_of(output@) == texts(names@) + lines_of(line@ + output@.skip(it.index())),
    {
        let ghost rest = output@.skip(it.index());
        let ghost after = output@.skip(it.index() + 1);
        let ghost head = line@;
        if c == '\n' {
            if after_return {
                line.pop();
            }
            names.push(line);
            line = String::new();
            after_return = false;
            proof {
                let whole = head + rest;
                lemma_line_end_at(whole, head.len() as int);
                assert(whole.take(head.len() as int) =~= head);
                assert(whole.skip(head.len() as int + 1) =~= after);
            }
        } else {
            line.push(c);
            after_return = c == '\r';
            proof {
                assert(line@ + after =~= head + rest);
            }
        }
    }
    proof {
        lemma_line_end_at(line@, line@.len() as int);
    }
    if !line.as_str().is_empty() {
        names.push(line);
    }
    names
}

/// The text that a stream of a run printed, empty where it printed nothing.
pub open spec fn printed(stream: Option<Seq<char>>) -> Seq<char> {
    match stream {
        Some(text) => text,
        None => Seq::empty(),
    }
}

/// What a run of the listing script says of the path. A run that printed
/// nothing on its output stream and something on its error stream could not
/// list the path. In every other run each line of the output names an
/// entry, whatever else the run reported, and no output means no entry.
pub open spec fn listing_of(output: Option<Seq<char>>, errors: Option<Seq<char>>) -> ListingView {
    if printed(output).len() == 0 && printed(errors).len() > 0 {
        ListingView::Unavailable
    } else {
        ListingView::Entries(lines_of(printed(output)))
    }
}

impl Listing {
    /// Reads the listing off what a run of the listing script printed:
    /// `output` on its output stream and `errors` on its error stream, each
    /// `None` where nothing was printed.
    pub fn from_output(output: Option<String>, errors: Option<String>) -> (listing: Listing)
        ensures
            listing@ == listing_of(text_of(output), text_of(errors)),
    {
        let reported = match &errors {
            Some(text) => !text.as_str().is_empty(),
            None => false,
        };
        match output {
            Some(text) => {
                if reported && text.as_str().is_empty() {
                    Listing::Unavailable
                } else {
                    Listing::Entries(entry_names(text.as_str()))
                }
            },
            None => {
                if reported {
                    Listing::Unavailable
                } else {
                    let names: Vec<String> = Vec::new();
                    assert(texts(names@) =~= Seq::<Seq<char>>::empty());
                    Listing::Entries(names)
                }
            },
        }
    }
}

/// The characters that PowerShell takes as a single quote: the apostrophe
/// and the four typographic single quotes.
pub open spec fn is_single_quote(c: char) -> bool {
    c == '\'' || c == '\u{2018}' || c == '\u{2019}' || c == '\u{201A}' || c == '\u{201B}'
}

/// The characters that end a line of a script.
pub open spec fn is_line_break(c: char) -> bool {
    c == '\n' || c == '\r'
}

/// Says whether `path` holds a character that ends a line.
pub open spec fn holds_line_break(path: Seq<char>) -> bool {
    exists|i: int| 0 <= i < path.len() && is_line_break(#[trigger] path[i])
}

/// A character as it stands inside a single-quoted string: a single quote
/// twice, any other character once.
pub open spec fn quoted_char(c: char) -> Seq<char> {
    if is_single_quote(c) {
        seq![c, c]
    } else {
        seq![c]
    }
}

/// The body of the single-quoted string that stands for `path`: the
/// characters of `path` in order, every single quote doubled.
pub open spec fn quoted(path: Seq<char>) -> Seq<char>
    decreases path.len(),
{
    if path.len() == 0 {
        Seq::empty()
    } else {
        quoted_char(path.first()) + quoted(path.drop_first())
    }
}

/// What the body of a single-quoted string stands for: two single quotes in
/// a row are read as the second of them, every other character as itself.
/// A single quote that no single quote follows would end the string; a body
/// that holds one stands for nothing.
pub open spec fn unquoted(body: Seq<char>) -> Option<Seq<char>>
    decreases body.len(),
{
    if body.len() == 0 {
        Some(Seq::empty())
    } else if !is_single_quote(body[0]) {
        match unquoted(body.drop_first()) {
            Some(rest) => Some(seq![body[0]] + rest),
            None => None,
        }
    } else if body.len() >= 2 && is_single_quote(body[1]) {
        match unquoted(body.skip(2)) {
            Some(rest) => Some(seq![body[1]] + rest),
            None => None,
        }
    } else {
        None
    }
}

/// The script that lists `path`: hidden entries included, names only, with
/// `path` as a literal between single quotes, so that no character of it is
/// read as a wildcard, a variable, an escape or a command. A script is run
/// line by line, so there is none for a path that holds a line break.
pub open spec fn script_for(path: Seq<char>) -> Option<Seq<char>> {
    if holds_line_break(path) {
        None
    } else {
        Some("ls -Name -Force -LiteralPath '"@ + quoted(path) + seq!['\''])
    }
}

/// Quoting one more character adds that character, doubled if it is a single
/// quote, at the end.
proof fn lemma_quoted_push(path: Seq<char>, c: char)
    ensures
        quoted(path.push(c)) == quoted(path) + quoted_char(c),
    decreases path.len(),
{
    if path.len() == 0 {
        assert(path.push(c).drop_first() =~= path);
        assert(quoted(path.push(c)) =~= quoted_char(c) + quoted(path));
    } else {
        lemma_quoted_push(path.drop_first(), c);
        assert(path.push(c).drop_first() =~= path.drop_first().push(c));
        assert(quoted(path.push(c)) =~= quoted(path) + quoted_char(c));
    }
}

/// Builds the script that lists the direct children of `path`, or `None`
/// where `path` holds a line break.
pub fn listing_script(path: &str) -> (script: Option<String>)
    ensures
        text_of(script) == script_for(path@),
{
    let mut script = String::from_str("ls -Name -Force -LiteralPath '");
    for c in it: path.chars()
        invariant
            it.seq() == path@,
            script@ == "ls -Name -Force -LiteralPath '"@ + quoted(path@.take(it.index())),
            forall|j: int| 0 <= j < it.index() ==> !is_line_break(#[trigger] path@[j]),
    {
        proof {
            lemma_quoted_push(path@.take(it.index()), c);
            assert(path@.take(it.index() + 1) =~= path@.take(it.index()).push(c));
        }
        if c == '\n' || c == '\r' {
            assert(is_line_break(path@[it.index()]));
            return None;
        }
        if c == '\'' || c == '\u{2018}' || c == '\u{2019}' || c == '\u{201A}' || c == '\u{201B}' {
            script.push(c);
        }
        script.push(c);
    }
    proof {
        assert(path@.take(path@.len() as int) =~= path@);
    }
    script.push('\'');
    Some(script)
}

} // verus!
