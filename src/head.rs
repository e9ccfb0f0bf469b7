//! Selecting the start of an input: a number of lines or a number of bytes.
use vstd::prelude::*;

verus! {

/// Which files to print, and how much of each.
pub struct Args {
    pub files: Vec<String>,
    /// Number of lines to print when `bytes` is `None`.
    pub lines: u64,
    /// Number of bytes to print, in place of lines.
    pub bytes: Option<u64>,
}

/// Byte length of the first `k` lines of `b`, each line taken through its
/// `\n`; all of `b` when it has fewer lines.
pub open spec fn lines_prefix_len(b: Seq<u8>, k: nat) -> nat
    decreases b.len(),
{
    if k == 0 || b.len() == 0 {
        0
    } else if b[0] == 10u8 {
        1 + lines_prefix_len(b.drop_first(), (k - 1) as nat)
    } else {
        1 + lines_prefix_len(b.drop_first(), k)
    }
}

impl Args {
    /// How many bytes at the start of `content` are printed: the first
    /// `bytes` bytes when that is set, else the first `lines` lines; never
    /// more than the whole input.
    pub fn head_len(&self, content: &[u8]) -> (r: usize)
        ensures
            self.bytes matches Some(n) ==> r == if n < content@.len() { n as int } else { content@.len() as int },
            self.bytes is None ==> r == lines_prefix_len(content@, self.lines as nat),
    {
        let len = content.len();
        match self.bytes {
            Some(n) => {
                if (n as u128) < (len as u128) {
                    n as usize
                } else {
                    len
                }
            },
            None => {
                let mut left: u64 = self.lines;
                let mut i: usize = 0;
                assert(content@.skip(0) =~= content@);
                while i < len && left > 0
                    invariant
                        len == content@.len(),
                        i <= len,
                        lines_prefix_len(content@, self.lines as nat) == i + lines_prefix_len(
                            content@.skip(i as int),
                            left as nat,
                        ),
                    decreases len - i,
                {
                    let ghost rest = content@.skip(i as int);
                    assert(rest.drop_first() =~= content@.skip(i + 1));
                    if content[i] == 10u8 {
                        left = left - 1;
                    }
                    i = i + 1;
                }
                assert(lines_prefix_len(content@.skip(i as int), left as nat) == 0);
                i
            },
        }
    }
}

} // verus!
