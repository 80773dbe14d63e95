//! Characters and spaces: what the reading of an attribute's argument rests
//! on.

use vstd::prelude::*;
use vstd::string::*;

verus! {

/// Whether `c` separates the words of an attribute argument: a character with
/// the Unicode property `White_Space`.
pub open spec fn is_space(c: char) -> bool {
    let n = c as u32;
    ||| 0x09 <= n <= 0x0d
    ||| n == 0x20
    ||| n == 0x85
    ||| n == 0xa0
    ||| n == 0x1680
    ||| 0x2000 <= n <= 0x200a
    ||| n == 0x2028
    ||| n == 0x2029
    ||| n == 0x202f
    ||| n == 0x205f
    ||| n == 0x3000
}

/// Decides `is_space`.
pub fn space(c: char) -> (r: bool)
    ensures
        r == is_space(c),
{
    let n: u32 = c as u32;
    (0x09 <= n && n <= 0x0d) || n == 0x20 || n == 0x85 || n == 0xa0 || n == 0x1680 || (0x2000 <= n
        && n <= 0x200a) || n == 0x2028 || n == 0x2029 || n == 0x202f || n == 0x205f || n == 0x3000
}

/// The characters of `s`, one by one.
pub fn chars_of(s: &str) -> (r: Vec<char>)
    ensures
        r@ == s@,
{
    let n: usize = s.unicode_len();
    let mut out: Vec<char> = Vec::new();
    let mut i: usize = 0;
    while i < n
        invariant
            n == s@.len(),
            i <= n,
            out@ == s@.subrange(0, i as int),
        decreases n - i,
    {
        out.push(s.get_char(i));
        i = i + 1;
    }
    out
}

/// The first index at or after `from` whose character is no space, the length
/// of `s` where only spaces follow.
pub open spec fn word_start(s: Seq<char>, from: int) -> int
    decreases s.len() - from,
{
    if 0 <= from < s.len() && is_space(s[from]) {
        word_start(s, from + 1)
    } else {
        from
    }
}

/// The end of the last word that ends at or before `to`: the least index
/// from which only spaces stand up to `to`.
pub open spec fn word_end(s: Seq<char>, to: int) -> int
    decreases to,
{
    if 0 < to <= s.len() && is_space(s[to - 1]) {
        word_end(s, to - 1)
    } else {
        to
    }
}

/// `s` without the spaces at its two ends.
pub open spec fn trimmed(s: Seq<char>) -> Seq<char> {
    let start = word_start(s, 0);
    if start == s.len() {
        Seq::empty()
    } else {
        s.subrange(start, word_end(s, s.len() as int))
    }
}

/// A word's end never lies before a character of it.
pub proof fn lemma_word_end_after(s: Seq<char>, i: int, to: int)
    requires
        0 <= i < to <= s.len(),
        !is_space(s[i]),
    ensures
        i < word_end(s, to),
    decreases to,
{
    if is_space(s[to - 1]) {
        lemma_word_end_after(s, i, to - 1);
    }
}

/// Where only spaces stand from `from` on, no word starts before the end.
pub proof fn lemma_word_start_of_spaces(s: Seq<char>, from: int)
    requires
        0 <= from <= s.len(),
        forall|i: int| from <= i < s.len() ==> is_space(s[i]),
    ensures
        word_start(s, from) == s.len(),
    decreases s.len() - from,
{
    if from < s.len() {
        lemma_word_start_of_spaces(s, from + 1);
    }
}

/// Steps over the spaces that begin at `from`.
pub fn skip_spaces(s: &Vec<char>, from: usize) -> (r: usize)
    requires
        from <= s.len(),
    ensures
        r == word_start(s@, from as int),
        from <= r <= s.len(),
        r < s.len() ==> !is_space(s@[r as int]),
{
    let mut i: usize = from;
    while i < s.len() && space(s[i])
        invariant
            from <= i <= s.len(),
            word_start(s@, from as int) == word_start(s@, i as int),
        decreases s.len() - i,
    {
        i = i + 1;
    }
    i
}

/// Steps back over the spaces that end at `to`.
pub fn skip_spaces_back(s: &Vec<char>, to: usize) -> (r: usize)
    requires
        to <= s.len(),
    ensures
        r == word_end(s@, to as int),
        r <= to,
        r > 0 ==> !is_space(s@[r - 1]),
{
    let mut i: usize = to;
    while i > 0 && space(s[i - 1])
        invariant
            i <= to <= s.len(),
            word_end(s@, to as int) == word_end(s@, i as int),
        decreases i,
    {
        i = i - 1;
    }
    i
}

} // verus!
