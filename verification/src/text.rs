//! String helpers: lengths, words, lines and the longer of two slices.
//!
//! All contracts speak about the character view of a string (`s@`), so the
//! executable code walks characters, not bytes.

use vstd::prelude::*;
use vstd::string::StrSliceExecFns;
use vstd::string::StringExecFns;

verus! {

/// The index of the first occurrence of `stop` in `s` at or after `i`, or
/// the length of `s` if there is none.
pub open spec fn scan_to(s: Seq<char>, i: int, stop: char) -> int
    decreases s.len() - i,
    when 0 <= i <= s.len()
{
    if i >= s.len() {
        i
    } else if s[i] == stop {
        i
    } else {
        scan_to(s, i + 1, stop)
    }
}

/// Scanning never leaves the string, never steps back, and stops exactly at
/// the first occurrence of `stop`.
pub proof fn lemma_scan_to_bounds(s: Seq<char>, i: int, stop: char)
    requires
        0 <= i <= s.len(),
    ensures
        i <= scan_to(s, i, stop) <= s.len(),
        scan_to(s, i, stop) < s.len() ==> s[scan_to(s, i, stop)] == stop,
        forall|j: int| i <= j < scan_to(s, i, stop) ==> s[j] != stop,
    decreases s.len() - i,
{
    if i < s.len() && s[i] != stop {
        lemma_scan_to_bounds(s, i + 1, stop);
    }
}

/// The length of a string in characters.
pub fn calculate_length(s: &String) -> (r: usize)
    ensures
        r == s@.len(),
{
    s.as_str().unicode_len()
}

/// Appends `, world` to the string in place.
pub fn change_mut(some_string: &mut String)
    ensures
        final(some_string)@ == old(some_string)@ + ", world"@,
{
    some_string.append(", world");
}

/// Returns the owned string `hello`.
pub fn no_dangle() -> (r: String)
    ensures
        r@ == "hello"@,
{
    String::from_str("hello")
}

/// Walks the characters of `s` up to the first occurrence of `stop`.
fn scan_char(s: &str, stop: char) -> (r: usize)
    ensures
        r == scan_to(s@, 0, stop),
{
    let n = s.unicode_len();
    let mut i: usize = 0;
    while i < n
        invariant
            n == s@.len(),
            0 <= i <= n,
            scan_to(s@, 0, stop) == scan_to(s@, i as int, stop),
        decreases n - i,
    {
        if s.get_char(i) == stop {
            return i;
        }
        i = i + 1;
    }
    n
}

/// The index one past the first word of `s`: the position of the first
/// space, or the length of `s` if it holds none.
pub fn first_word(s: &str) -> (r: usize)
    ensures
        r == scan_to(s@, 0, ' '),
{
    scan_char(s, ' ')
}

/// The first word of `s`: everything before the first space, or all of `s`
/// if it holds none.
pub fn first_word_slice<'a>(s: &'a str) -> (r: &'a str)
    ensures
        r@ == s@.subrange(0, scan_to(s@, 0, ' ')),
{
    let end = first_word(s);
    proof {
        lemma_scan_to_bounds(s@, 0, ' ');
    }
    s.substring_char(0, end)
}

/// The longer of the two strings, measured in characters; `y` wins ties.
pub fn longest<'a>(x: &'a str, y: &'a str) -> (r: &'a str)
    ensures
        r@ == if x@.len() > y@.len() {
            x@
        } else {
            y@
        },
{
    if x.unicode_len() > y.unicode_len() {
        x
    } else {
        y
    }
}

/// An excerpt borrowed from a longer text.
pub struct ImportantExcerpt<'a> {
    pub part: &'a str,
}

impl<'a> ImportantExcerpt<'a> {
    /// The importance level every excerpt gets.
    pub fn level(&self) -> (r: i32)
        ensures
            r == 3,
    {
        3
    }

    /// Hands the excerpt's text back out.
    pub fn part(&self) -> (r: &str)
        ensures
            r@ == self.part@,
    {
        self.part
    }
}

/// The first line of `s`: everything before the first line feed, with a
/// carriage return directly before the line feed stripped as well.
pub open spec fn first_line(s: Seq<char>) -> Seq<char> {
    let e = scan_to(s, 0, '\n');
    let cut = if e < s.len() && e > 0 && s[e - 1] == '\r' {
        e - 1
    } else {
        e
    };
    s.subrange(0, cut)
}

/// The last character of the first line of `text`, or `None` when that line
/// is empty.
pub fn last_char_of_first_line(text: &str) -> (r: Option<char>)
    ensures
        r == if first_line(text@).len() == 0 {
            None::<char>
        } else {
            Some(first_line(text@).last())
        },
{
    let n = text.unicode_len();
    let e = scan_char(text, '\n');
    proof {
        lemma_scan_to_bounds(text@, 0, '\n');
    }
    let cut = if e < n && e > 0 && text.get_char(e - 1) == '\r' {
        e - 1
    } else {
        e
    };
    if cut == 0 {
        None
    } else {
        Some(text.get_char(cut - 1))
    }
}

} // verus!
