//! Line numbering for concatenated output.
use crate::count::{decimal, right_aligned};
use vstd::prelude::*;

verus! {

/// Which files to print and how to number their lines.
pub struct Config {
    pub files: Vec<String>,
    pub number_lines: bool,
    pub number_nonblank_lines: bool,
}

/// `line` behind its number, right aligned in six characters, and a tab.
pub open spec fn numbered(n: nat, line: Seq<char>) -> Seq<char> {
    right_aligned(decimal(n), 6) + seq!['\t'] + line
}

/// Relies on `format!` with `{:>6}\t{}`: the decimal form of `n` right aligned
/// with spaces in six characters, a tab, then `line`.
#[verifier::external_body]
fn format_numbered(n: usize, line: &str) -> (r: String)
    ensures
        r@ == numbered(n as nat, line@),
{
    format!("{:>6}\t{}", n, line)
}

impl Config {
    /// The text printed for the line at zero-based position `line_index` of a
    /// file. `last_num` is the number given to the last non-blank line so
    /// far, and advances when a non-blank line is numbered.
    ///
    /// Numbering every line takes precedence over numbering non-blank lines;
    /// a blank line is printed without a number.
    pub fn render_line(&self, line_index: usize, last_num: &mut usize, line: &str) -> (r: String)
        requires
            line_index < usize::MAX,
            *old(last_num) < usize::MAX,
        ensures
            self.number_lines ==> r@ == numbered((line_index + 1) as nat, line@)
                && *final(last_num) == *old(last_num),
            !self.number_lines && self.number_nonblank_lines && line@.len() == 0
                ==> r@ == Seq::<char>::empty() && *final(last_num) == *old(last_num),
            !self.number_lines && self.number_nonblank_lines && line@.len() > 0
                ==> *final(last_num) == *old(last_num) + 1
                && r@ == numbered(*final(last_num) as nat, line@),
            !self.number_lines && !self.number_nonblank_lines
                ==> r@ == line@ && *final(last_num) == *old(last_num),
    {
        if self.number_lines {
            format_numbered(line_index + 1, line)
        } else if self.number_nonblank_lines {
            if line.is_empty() {
                String::new()
            } else {
                *last_num = *last_num + 1;
                format_numbered(*last_num, line)
            }
        } else {
            line.to_owned()
        }
    }
}

} // verus!
