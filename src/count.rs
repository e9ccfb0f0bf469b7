//! Line, word, byte and character counts of a text, and their column layout.
use vstd::prelude::*;
use vstd::string::StringSliceAdditionalSpecFns;
use vstd::utf8::{decode_utf8, encode_scalar, encode_utf8, encode_utf8_decode_utf8, valid_utf8};

verus! {

/// The four counts of one input.
#[derive(Debug, PartialEq, Eq, Structural)]
pub struct FileInfo {
    pub num_lines: usize,
    pub num_words: usize,
    pub num_bytes: usize,
    pub num_chars: usize,
}

/// Which counts are shown, in the order lines, words, bytes, characters.
#[derive(Clone, Copy, Debug, PartialEq, Eq, Structural)]
pub struct Columns {
    pub lines: bool,
    pub words: bool,
    pub bytes: bool,
    pub chars: bool,
}

impl Columns {
    /// The columns actually shown: when none is asked for, lines, words and
    /// bytes are.
    pub fn resolve(self) -> (r: Columns)
        ensures
            !self.lines && !self.words && !self.bytes && !self.chars ==> r == (Columns {
                lines: true,
                words: true,
                bytes: true,
                chars: false,
            }),
            self.lines || self.words || self.bytes || self.chars ==> r == self,
    {
        if !self.lines && !self.words && !self.bytes && !self.chars {
            Columns { lines: true, words: true, bytes: true, chars: false }
        } else {
            self
        }
    }
}

impl FileInfo {
    /// The counts of two inputs taken together, as in a total line.
    pub fn add(&self, other: &FileInfo) -> (r: FileInfo)
        requires
            self.num_lines + other.num_lines <= usize::MAX,
            self.num_words + other.num_words <= usize::MAX,
            self.num_bytes + other.num_bytes <= usize::MAX,
            self.num_chars + other.num_chars <= usize::MAX,
        ensures
            r.num_lines == self.num_lines + other.num_lines,
            r.num_words == self.num_words + other.num_words,
            r.num_bytes == self.num_bytes + other.num_bytes,
            r.num_chars == self.num_chars + other.num_chars,
    {
        FileInfo {
            num_lines: self.num_lines + other.num_lines,
            num_words: self.num_words + other.num_words,
            num_bytes: self.num_bytes + other.num_bytes,
            num_chars: self.num_chars + other.num_chars,
        }
    }
}

/// Why an input could not be counted.
#[derive(Debug, PartialEq, Eq, Structural)]
pub enum CountError {
    /// The input is not valid UTF-8.
    InvalidUtf8,
}

/// The characters with the Unicode `White_Space` property.
pub open spec fn is_white_space_spec(c: char) -> bool {
    let u = c as u32;
    (0x09 <= u <= 0x0d) || u == 0x20 || u == 0x85 || u == 0xa0 || u == 0x1680
        || (0x2000 <= u <= 0x200a) || u == 0x2028 || u == 0x2029 || u == 0x202f
        || u == 0x205f || u == 0x3000
}

/// Number of newline characters in `s`.
pub open spec fn newlines(s: Seq<char>) -> nat
    decreases s.len(),
{
    if s.len() == 0 {
        0
    } else {
        newlines(s.drop_last()) + if s.last() == '\n' { 1nat } else { 0nat }
    }
}

/// Number of lines: every newline ends one, and a last line without a
/// newline counts too.
pub open spec fn line_count(s: Seq<char>) -> nat {
    newlines(s) + if s.len() > 0 && s.last() != '\n' { 1nat } else { 0nat }
}

/// Whether a word starts at position `i`: a non-white-space character that
/// is first or follows white space.
pub open spec fn starts_word(s: Seq<char>, i: int) -> bool {
    !is_white_space_spec(s[i]) && (i == 0 || is_white_space_spec(s[i - 1]))
}

/// Number of maximal runs of non-white-space characters in `s`.
pub open spec fn word_count(s: Seq<char>) -> nat
    decreases s.len(),
{
    if s.len() == 0 {
        0
    } else {
        word_count(s.drop_last()) + if starts_word(s, s.len() - 1) { 1nat } else { 0nat }
    }
}

/// The counts of a byte sequence that is valid UTF-8.
pub open spec fn info_of(bytes: Seq<u8>) -> (nat, nat, nat, nat) {
    let s = decode_utf8(bytes);
    (line_count(s), word_count(s), bytes.len(), s.len())
}

/// Relies on `std::str::from_utf8`: `Some` exactly for valid UTF-8, holding
/// the same bytes as text.
#[verifier::external_body]
fn str_from_utf8(b: &[u8]) -> (r: Option<&str>)
    ensures
        r is Some <==> valid_utf8(b@),
        r matches Some(s) ==> s.spec_bytes() == b@,
{
    std::str::from_utf8(b).ok()
}

proof fn lemma_encoding_not_shorter(chars: Seq<char>)
    ensures
        chars.len() <= encode_utf8(chars).len(),
    decreases chars.len(),
{
    if chars.len() > 0 {
        lemma_encoding_not_shorter(chars.drop_first());
        assert(encode_scalar(chars[0] as u32).len() >= 1);
    }
}

/// Whether `c` has the Unicode `White_Space` property.
pub fn is_white_space(c: char) -> (r: bool)
    ensures
        r == is_white_space_spec(c),
{
    let u = c as u32;
    (0x09 <= u && u <= 0x0d) || u == 0x20 || u == 0x85 || u == 0xa0 || u == 0x1680
        || (0x2000 <= u && u <= 0x200a) || u == 0x2028 || u == 0x2029 || u == 0x202f
        || u == 0x205f || u == 0x3000
}

/// Counts lines, words, bytes and characters of `content`, which must be
/// UTF-8 text. Lines end at `\n`; words are separated by white space.
pub fn count(content: &[u8]) -> (r: Result<FileInfo, CountError>)
    ensures
        r is Err <==> !valid_utf8(content@),
        r matches Ok(info) ==> (info.num_lines as nat, info.num_words as nat, info.num_bytes
            as nat, info.num_chars as nat) == info_of(content@),
{
    let text = match str_from_utf8(content) {
        Some(t) => t,
        None => {
            return Err(CountError::InvalidUtf8);
        },
    };
    let ghost s = text@;
    proof {
        encode_utf8_decode_utf8(s);
        lemma_encoding_not_shorter(s);
    }
    let num_bytes = content.len();
    let mut num_newlines: usize = 0;
    let mut num_words: usize = 0;
    let mut num_chars: usize = 0;
    let mut prev: char = '\n';
    for c in it: text.chars()
        invariant
            it.seq() == s,
            s.len() <= content@.len(),
            content@.len() <= usize::MAX,
            num_chars == it.index(),
            num_newlines == newlines(s.take(it.index() as int)),
            num_words == word_count(s.take(it.index() as int)),
            num_newlines <= num_chars,
            num_words <= num_chars,
            it.index() > 0 ==> prev == s[it.index() - 1],
            it.index() > 0 && prev != '\n' ==> num_newlines < num_chars,
    {
        let ghost i = it.index() as int;
        assert(s.take(i + 1).drop_last() =~= s.take(i));
        let ws = is_white_space(c);
        if c == '\n' {
            num_newlines = num_newlines + 1;
        }
        if !ws && (num_chars == 0 || is_white_space(prev)) {
            num_words = num_words + 1;
        }
        num_chars = num_chars + 1;
        prev = c;
    }
    assert(s.take(s.len() as int) =~= s);
    let num_lines = if num_chars > 0 && prev != '\n' {
        num_newlines + 1
    } else {
        num_newlines
    };
    Ok(FileInfo { num_lines, num_words, num_bytes, num_chars })
}

/// Decimal digits of `n`, most significant first, without leading zeros.
pub open spec fn decimal(n: nat) -> Seq<char>
    decreases n,
{
    let digit = seq!['0', '1', '2', '3', '4', '5', '6', '7', '8', '9'][(n % 10) as int];
    if n < 10 {
        seq![digit]
    } else {
        decimal(n / 10).push(digit)
    }
}

/// `s` padded on the left with spaces to at least `width` characters.
pub open spec fn right_aligned(s: Seq<char>, width: nat) -> Seq<char> {
    if s.len() >= width {
        s
    } else {
        Seq::new((width - s.len()) as nat, |i: int| ' ') + s
    }
}

/// Relies on `format!` with `{:>8}`: the decimal form of `value`, right
/// aligned with spaces in a field of eight characters.
#[verifier::external_body]
fn format_right8(value: usize) -> (r: String)
    ensures
        r@ == right_aligned(decimal(value as nat), 8),
{
    format!("{value:>8}")
}

/// One output column: the value right aligned in eight characters when
/// `show` holds, and nothing otherwise.
pub fn format_field(value: usize, show: bool) -> (r: String)
    ensures
        show ==> r@ == right_aligned(decimal(value as nat), 8),
        !show ==> r@ == Seq::<char>::empty(),
{
    if show {
        format_right8(value)
    } else {
        String::new()
    }
}

} // verus!
