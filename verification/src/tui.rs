//! What the progress display keeps of the lines it is sent: the total, the
//! count of what is done, and the last line.

use vstd::prelude::*;
use vstd::string::*;
use crate::progress::ImportProgressView;
use crate::text::{
    chars_of, decimal, law_decimal_round_trip, parse_usize, parsed_usize, string_of,
};

verus! {

/// What the display knows.
#[derive(Clone, Debug)]
pub struct TuiState {
    pub total_files: usize,
    pub completed_files: usize,
    pub last_message: String,
}

/// What a `TuiState` holds, as mathematical values.
pub struct TuiStateView {
    pub total_files: usize,
    pub completed_files: usize,
    pub last_message: Seq<char>,
}

impl View for TuiState {
    type V = TuiStateView;

    open spec fn view(&self) -> TuiStateView {
        TuiStateView {
            total_files: self.total_files,
            completed_files: self.completed_files,
            last_message: self.last_message@,
        }
    }
}

/// Whether `line` begins with `tag`.
pub open spec fn has_tag(line: Seq<char>, tag: Seq<char>) -> bool {
    tag.len() <= line.len() && line.take(tag.len() as int) == tag
}

/// What the display knows after a line. A line tagged `TOTAL_FILES:` sets
/// the total where a number follows the tag, and is not shown. A line tagged
/// `COMPLETED:` counts one more as done, as far as can be counted, and is
/// shown. Any other line is shown.
pub open spec fn after_line(state: TuiStateView, line: Seq<char>) -> TuiStateView {
    if has_tag(line, "TOTAL_FILES:"@) {
        match parsed_usize(line.skip("TOTAL_FILES:"@.len() as int)) {
            Some(total) => TuiStateView { total_files: total, ..state },
            None => state,
        }
    } else if has_tag(line, "COMPLETED:"@) {
        TuiStateView {
            completed_files: if state.completed_files < usize::MAX {
                (state.completed_files + 1) as usize
            } else {
                state.completed_files
            },
            last_message: line,
            ..state
        }
    } else {
        TuiStateView { last_message: line, ..state }
    }
}

/// The display follows the import. The line that announces the number of
/// tracks sets the total to that number and is not shown; the line that
/// reports a completed track counts one more as done; the line that reports a
/// failed track counts nothing and is shown.
pub proof fn law_display_follows_the_import(state: TuiStateView, message: ImportProgressView)
    ensures
        message matches ImportProgressView::TotalTracks { count } ==> after_line(
            state,
            message.line(),
        ) == (TuiStateView { total_files: count, ..state }),
        message is TrackCompleted ==> after_line(state, message.line()) == (TuiStateView {
            completed_files: if state.completed_files < usize::MAX {
                (state.completed_files + 1) as usize
            } else {
                state.completed_files
            },
            last_message: message.line(),
            ..state
        }),
        message is TrackError ==> after_line(state, message.line()) == (TuiStateView {
            last_message: message.line(),
            ..state
        }),
{
    reveal_strlit("TOTAL_FILES:");
    reveal_strlit("COMPLETED:");
    reveal_strlit("COMPLETED: Imported track ");
    reveal_strlit("ERROR: Failed to import track ");
    let line = message.line();
    match message {
        ImportProgressView::TotalTracks { count } => {
            assert(line.take(12) =~= "TOTAL_FILES:"@);
            assert(line.skip(12) =~= decimal(count as nat));
            law_decimal_round_trip(count as nat, usize::MAX as nat);
        },
        ImportProgressView::TrackCompleted { number, title } => {
            assert(line[0] == 'C');
            assert(line.take(12)[0] == line[0]);
            assert(line.take(10) =~= "COMPLETED:"@);
        },
        ImportProgressView::TrackError { number, title, reason } => {
            assert(line[0] == 'E');
            assert(line.take(12)[0] == line[0]);
            assert(line.take(10)[0] == line[0]);
        },
        _ => {},
    }
}

fn strip_tag(line: &Vec<char>, tag: &Vec<char>) -> (rest: Option<Vec<char>>)
    ensures
        match rest {
            Some(rest) => has_tag(line@, tag@) && rest@ == line@.skip(tag@.len() as int),
            None => !has_tag(line@, tag@),
        },
{
    if tag.len() > line.len() {
        return None;
    }
    let mut i: usize = 0;
    while i < tag.len()
        invariant
            i <= tag.len() <= line.len(),
            forall|k: int| 0 <= k < i ==> line@[k] == tag@[k],
        decreases tag.len() - i,
    {
        if line[i] != tag[i] {
            assert(line@.take(tag@.len() as int)[i as int] != tag@[i as int]);
            return None;
        }
        i += 1;
    }
    assert(line@.take(tag@.len() as int) =~= tag@);
    let mut rest: Vec<char> = Vec::new();
    let mut j: usize = tag.len();
    while j < line.len()
        invariant
            tag.len() <= j <= line.len(),
            rest@ == line@.subrange(tag@.len() as int, j as int),
        decreases line.len() - j,
    {
        rest.push(line[j]);
        assert(line@.subrange(tag@.len() as int, j + 1) == line@.subrange(
            tag@.len() as int,
            j as int,
        ).push(line@[j as int]));
        j += 1;
    }
    assert(line@.subrange(tag@.len() as int, line@.len() as int) == line@.skip(tag@.len() as int));
    Some(rest)
}

impl TuiState {
    /// A display that has been sent nothing.
    pub fn new() -> (state: TuiState)
        ensures
            state@ == (TuiStateView {
                total_files: 0,
                completed_files: 0,
                last_message: Seq::empty(),
            }),
    {
        TuiState { total_files: 0, completed_files: 0, last_message: String::new() }
    }

    /// Takes a line in.
    pub fn receive(&mut self, line: String)
        ensures
            final(self)@ == after_line(old(self)@, line@),
    {
        let chars = chars_of(line.as_str());
        match strip_tag(&chars, &chars_of("TOTAL_FILES:")) {
            Some(rest) => {
                let number = string_of(&rest);
                match parse_usize(number.as_str()) {
                    Some(total) => {
                        self.total_files = total;
                    },
                    None => {},
                }
            },
            None => {
                match strip_tag(&chars, &chars_of("COMPLETED:")) {
                    Some(_) => {
                        if self.completed_files < usize::MAX {
                            self.completed_files = self.completed_files + 1;
                        }
                    },
                    None => {},
                }
                self.last_message = line;
            },
        }
    }
}

} // verus!
