//! The bookmark list: the paths a user can pick from, in the order of their
//! source.

use vstd::prelude::*;
use crate::strings::texts;

verus! {

/// The characters that leave a line blank: space, tab, line feed, vertical
/// tab, form feed and carriage return.
pub open spec fn is_blank_char(c: char) -> bool {
    c == ' ' || c == '\t' || c == '\n' || c == '\x0B' || c == '\x0C' || c == '\r'
}

/// A line is blank when it holds nothing but blank characters. The empty
/// line is blank.
pub open spec fn is_blank(line: Seq<char>) -> bool {
    forall|i: int| 0 <= i < line.len() ==> is_blank_char(#[trigger] line[i])
}

/// The lines of a bookmark source that name a path: all but the blank ones,
/// in their order, repeats included.
pub open spec fn paths_of(lines: Seq<Seq<char>>) -> Seq<Seq<char>> {
    lines.filter(|line: Seq<char>| !is_blank(line))
}

/// Says whether `line` is blank.
pub fn line_is_blank(line: &str) -> (blank: bool)
    ensures
        blank == is_blank(line@),
{
    let mut blank = true;
    for c in it: line.chars()
        invariant
            it.seq() == line@,
            blank == (forall|j: int| 0 <= j < it.index() ==> is_blank_char(#[trigger] line@[j])),
    {
        if !(c == ' ' || c == '\t' || c == '\n' || c == '\x0B' || c == '\x0C' || c == '\r') {
            blank = false;
        }
    }
    blank
}

/// Taking one more line into account either adds it as a path or, if it is
/// blank, changes nothing.
proof fn lemma_paths_of_push(lines: Seq<Seq<char>>, line: Seq<char>)
    ensures
        paths_of(lines.push(line)) == if is_blank(line) {
            paths_of(lines)
        } else {
            paths_of(lines).push(line)
        },
{
    lines.lemma_filter_push(line, |line: Seq<char>| !is_blank(line));
}

/// An ordered list of paths, fixed once it is made. No path in it is blank,
/// so none is empty.
#[derive(Debug)]
pub struct BookmarkList {
    paths: Vec<String>,
}

impl View for BookmarkList {
    type V = Seq<Seq<char>>;

    closed spec fn view(&self) -> Seq<Seq<char>> {
        texts(self.paths@)
    }
}

impl BookmarkList {
    #[verifier::type_invariant]
    spec fn holds_paths_only(self) -> bool {
        forall|i: int| 0 <= i < self.paths@.len() ==> !is_blank(#[trigger] self.paths@[i]@)
    }

    /// Makes the list from the lines of a bookmark source: one path per line,
    /// blank lines dropped, order kept, repeats kept.
    pub fn from_lines(lines: Vec<String>) -> (list: BookmarkList)
        ensures
            list@ == paths_of(texts(lines@)),
    {
        let mut paths: Vec<String> = Vec::new();
        let mut i: usize = 0;
        while i < lines.len()
            invariant
                i <= lines.len(),
                texts(paths@) == paths_of(texts(lines@).take(i as int)),
                forall|j: int| 0 <= j < paths@.len() ==> !is_blank(#[trigger] paths@[j]@),
            decreases lines.len() - i,
        {
            proof {
                lemma_paths_of_push(texts(lines@).take(i as int), lines@[i as int]@);
                assert(texts(lines@).take(i as int + 1) =~= texts(lines@).take(i as int).push(
                    lines@[i as int]@,
                ));
            }
            if !line_is_blank(lines[i].as_str()) {
                paths.push(lines[i].clone());
            }
            i += 1;
        }
        proof {
            assert(texts(lines@).take(i as int) =~= texts(lines@));
        }
        BookmarkList { paths }
    }

    /// The number of paths.
    pub fn len(&self) -> (n: usize)
        ensures
            n == self@.len(),
    {
        self.paths.len()
    }

    /// Says whether the list holds no path at all.
    pub fn is_empty(&self) -> (empty: bool)
        ensures
            empty == (self@.len() == 0),
    {
        self.paths.len() == 0
    }

    /// The path at `index`, if there is one. It is not blank.
    pub fn get(&self, index: usize) -> (path: Option<&str>)
        ensures
            index < self@.len() ==> path.is_some() && path.unwrap()@ == self@[index as int]
                && !is_blank(path.unwrap()@),
            index >= self@.len() ==> path.is_none(),
    {
        proof {
            use_type_invariant(self);
        }
        if index < self.paths.len() {
            Some(self.paths[index].as_str())
        } else {
            None
        }
    }

    /// The path at `index`, which lies within the list.
    pub(crate) fn path_at(&self, index: usize) -> (path: &str)
        requires
            index < self@.len(),
        ensures
            path@ == self@[index as int],
    {
        self.paths[index].as_str()
    }
}

} // verus!
