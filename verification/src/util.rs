//! Text helpers: ASCII case folding, case-insensitive comparison,
//! whitespace trimming, and first-letter capitalisation of raw input.

use vstd::prelude::*;
use vstd::string::*;

verus! {

/// An ASCII lowercase letter.
pub open spec fn is_ascii_lower(c: char) -> bool {
    'a' <= c && c <= 'z'
}

/// An ASCII uppercase letter.
pub open spec fn is_ascii_upper(c: char) -> bool {
    'A' <= c && c <= 'Z'
}

/// ASCII lowercase folding of one character; everything but `A`..`Z` is kept.
pub open spec fn lower_char(c: char) -> char {
    if is_ascii_upper(c) {
        ((c as u32) + 32) as char
    } else {
        c
    }
}

/// ASCII uppercase folding of one character; everything but `a`..`z` is kept.
pub open spec fn upper_char(c: char) -> char {
    if is_ascii_lower(c) {
        ((c as u32) - 32) as char
    } else {
        c
    }
}

/// ASCII lowercase folding of a whole character sequence.
pub open spec fn lower_seq(s: Seq<char>) -> Seq<char> {
    Seq::new(s.len(), |i: int| lower_char(s[i]))
}

/// A sequence with its first character folded to ASCII uppercase; the empty
/// sequence is kept as it is.
pub open spec fn ucfirst(s: Seq<char>) -> Seq<char> {
    if s.len() == 0 {
        s
    } else {
        seq![upper_char(s[0])] + s.drop_first()
    }
}

/// The four ASCII whitespace characters that surround raw command-line input.
pub open spec fn is_space_char(c: char) -> bool {
    c == ' ' || c == '\t' || c == '\n' || c == '\r'
}

/// A sequence with its leading whitespace removed.
pub open spec fn trim_front(s: Seq<char>) -> Seq<char>
    decreases s.len(),
{
    if s.len() > 0 && is_space_char(s[0]) {
        trim_front(s.drop_first())
    } else {
        s
    }
}

/// A sequence with its trailing whitespace removed.
pub open spec fn trim_back(s: Seq<char>) -> Seq<char>
    decreases s.len(),
{
    if s.len() > 0 && is_space_char(s.last()) {
        trim_back(s.drop_last())
    } else {
        s
    }
}

/// A sequence with both surrounding stretches of whitespace removed.
pub open spec fn trim_spec(s: Seq<char>) -> Seq<char> {
    trim_back(trim_front(s))
}

/// Executable ASCII lowercase folding of one character.
pub fn to_lower_char(c: char) -> (r: char)
    ensures
        r == lower_char(c),
{
    match c {
        'A' => 'a',
        'B' => 'b',
        'C' => 'c',
        'D' => 'd',
        'E' => 'e',
        'F' => 'f',
        'G' => 'g',
        'H' => 'h',
        'I' => 'i',
        'J' => 'j',
        'K' => 'k',
        'L' => 'l',
        'M' => 'm',
        'N' => 'n',
        'O' => 'o',
        'P' => 'p',
        'Q' => 'q',
        'R' => 'r',
        'S' => 's',
        'T' => 't',
        'U' => 'u',
        'V' => 'v',
        'W' => 'w',
        'X' => 'x',
        'Y' => 'y',
        'Z' => 'z',
        _ => c,
    }
}

/// The one-character uppercase replacement of an ASCII lowercase letter,
/// or `None` where the character has no such replacement.
fn upper_str_of(c: char) -> (r: Option<&'static str>)
    ensures
        match r {
            Some(t) => is_ascii_lower(c) && t@ == seq![upper_char(c)],
            None => !is_ascii_lower(c),
        },
{
    match c {
        'a' => {
            proof { reveal_strlit("A"); }
            Some("A")
        },
        'b' => {
            proof { reveal_strlit("B"); }
            Some("B")
        },
        'c' => {
            proof { reveal_strlit("C"); }
            Some("C")
        },
        'd' => {
            proof { reveal_strlit("D"); }
            Some("D")
        },
        'e' => {
            proof { reveal_strlit("E"); }
            Some("E")
        },
        'f' => {
            proof { reveal_strlit("F"); }
            Some("F")
        },
        'g' => {
            proof { reveal_strlit("G"); }
            Some("G")
        },
        'h' => {
            proof { reveal_strlit("H"); }
            Some("H")
        },
        'i' => {
            proof { reveal_strlit("I"); }
            Some("I")
        },
        'j' => {
            proof { reveal_strlit("J"); }
            Some("J")
        },
        'k' => {
            proof { reveal_strlit("K"); }
            Some("K")
        },
        'l' => {
            proof { reveal_strlit("L"); }
            Some("L")
        },
        'm' => {
            proof { reveal_strlit("M"); }
            Some("M")
        },
        'n' => {
            proof { reveal_strlit("N"); }
            Some("N")
        },
        'o' => {
            proof { reveal_strlit("O"); }
            Some("O")
        },
        'p' => {
            proof { reveal_strlit("P"); }
            Some("P")
        },
        'q' => {
            proof { reveal_strlit("Q"); }
            Some("Q")
        },
        'r' => {
            proof { reveal_strlit("R"); }
            Some("R")
        },
        's' => {
            proof { reveal_strlit("S"); }
            Some("S")
        },
        't' => {
            proof { reveal_strlit("T"); }
            Some("T")
        },
        'u' => {
            proof { reveal_strlit("U"); }
            Some("U")
        },
        'v' => {
            proof { reveal_strlit("V"); }
            Some("V")
        },
        'w' => {
            proof { reveal_strlit("W"); }
            Some("W")
        },
        'x' => {
            proof { reveal_strlit("X"); }
            Some("X")
        },
        'y' => {
            proof { reveal_strlit("Y"); }
            Some("Y")
        },
        'z' => {
            proof { reveal_strlit("Z"); }
            Some("Z")
        },
        _ => None,
    }
}

/// Folds the first letter of a string to uppercase, so that raw category
/// input can be matched against the capitalised vocabulary. Only an ASCII
/// letter is folded; any other first character, and the empty string, are
/// kept as they are.
pub fn uppercase_converter(s: &mut String)
    ensures
        final(s)@ == ucfirst(old(s)@),
{
    let n = s.as_str().unicode_len();
    if n == 0 {
        return;
    }
    let c = s.as_str().get_char(0);
    match upper_str_of(c) {
        Some(u) => {
            let rest = s.as_str().substring_char(1, n);
            let r = String::from_str(u).concat(rest);
            proof {
                assert(r@ =~= ucfirst(old(s)@));
            }
            *s = r;
        },
        None => {
            proof {
                assert(seq![upper_char(old(s)@[0])] + old(s)@.drop_first() =~= old(s)@);
            }
        },
    }
}

/// Character-for-character equality of two string slices.
pub fn str_eq(a: &str, b: &str) -> (r: bool)
    ensures
        r == (a@ == b@),
{
    let na = a.unicode_len();
    let nb = b.unicode_len();
    if na != nb {
        return false;
    }
    let mut i: usize = 0;
    loop
        invariant
            0 <= i <= na,
            na == a@.len(),
            nb == b@.len(),
            na == nb,
            forall|k: int| 0 <= k < i ==> a@[k] == b@[k],
        decreases na - i,
    {
        if i == na {
            proof {
                assert(a@ =~= b@);
            }
            return true;
        }
        if a.get_char(i) != b.get_char(i) {
            return false;
        }
        i = i + 1;
    }
}

/// Equality of two string slices up to ASCII case.
pub fn eq_ignore_case(a: &str, b: &str) -> (r: bool)
    ensures
        r == (lower_seq(a@) == lower_seq(b@)),
{
    let na = a.unicode_len();
    let nb = b.unicode_len();
    if na != nb {
        proof {
            assert(lower_seq(a@).len() == a@.len());
            assert(lower_seq(b@).len() == b@.len());
        }
        return false;
    }
    let mut i: usize = 0;
    loop
        invariant
            0 <= i <= na,
            na == a@.len(),
            nb == b@.len(),
            na == nb,
            forall|k: int| 0 <= k < i ==> lower_char(a@[k]) == lower_char(b@[k]),
        decreases na - i,
    {
        if i == na {
            proof {
                assert(lower_seq(a@) =~= lower_seq(b@));
            }
            return true;
        }
        if to_lower_char(a.get_char(i)) != to_lower_char(b.get_char(i)) {
            proof {
                assert(lower_seq(a@)[i as int] != lower_seq(b@)[i as int]);
            }
            return false;
        }
        i = i + 1;
    }
}

/// Executable test for the four ASCII whitespace characters.
pub fn is_space(c: char) -> (r: bool)
    ensures
        r == is_space_char(c),
{
    match c {
        ' ' => true,
        '\t' => true,
        '\n' => true,
        '\r' => true,
        _ => false,
    }
}

/// The index of the first character that is not whitespace.
fn first_non_space(s: &str) -> (i: usize)
    ensures
        0 <= i <= s@.len(),
        forall|k: int| 0 <= k < i ==> is_space_char(s@[k]),
        i < s@.len() ==> !is_space_char(s@[i as int]),
{
    let n = s.unicode_len();
    let mut i: usize = 0;
    loop
        invariant
            0 <= i <= n,
            n == s@.len(),
            forall|k: int| 0 <= k < i ==> is_space_char(s@[k]),
        decreases n - i,
    {
        if i == n {
            return i;
        }
        if !is_space(s.get_char(i)) {
            return i;
        }
        i = i + 1;
    }
}

/// The index just past the last non-whitespace character at or after `from`.
fn last_non_space_from(s: &str, from: usize) -> (j: usize)
    requires
        from <= s@.len(),
    ensures
        from <= j <= s@.len(),
        forall|k: int| j <= k < s@.len() ==> is_space_char(s@[k]),
        j > from ==> !is_space_char(s@[j - 1]),
{
    let n = s.unicode_len();
    let mut j: usize = n;
    loop
        invariant
            from <= j <= n,
            n == s@.len(),
            forall|k: int| j <= k < n ==> is_space_char(s@[k]),
        decreases j,
    {
        if j == from {
            return j;
        }
        if !is_space(s.get_char(j - 1)) {
            return j;
        }
        j = j - 1;
    }
}

proof fn lemma_trim_front_at(s: Seq<char>, i: int)
    requires
        0 <= i <= s.len(),
        forall|k: int| 0 <= k < i ==> is_space_char(s[k]),
        i < s.len() ==> !is_space_char(s[i]),
    ensures
        trim_front(s) == s.subrange(i, s.len() as int),
    decreases i,
{
    if i == 0 {
        assert(s.subrange(0, s.len() as int) =~= s);
    } else {
        lemma_trim_front_at(s.drop_first(), i - 1);
        assert(s.drop_first().subrange(i - 1, s.drop_first().len() as int) =~= s.subrange(
            i,
            s.len() as int,
        ));
    }
}

proof fn lemma_trim_back_at(s: Seq<char>, j: int)
    requires
        0 <= j <= s.len(),
        forall|k: int| j <= k < s.len() ==> is_space_char(s[k]),
        j > 0 ==> !is_space_char(s[j - 1]),
    ensures
        trim_back(s) == s.subrange(0, j),
    decreases s.len() - j,
{
    if j == s.len() {
        assert(s.subrange(0, s.len() as int) =~= s);
    } else {
        lemma_trim_back_at(s.drop_last(), j);
        assert(s.drop_last().subrange(0, j) =~= s.subrange(0, j));
    }
}

/// The string with its surrounding ASCII whitespace removed.
pub fn trim_spaces(s: &str) -> (r: String)
    ensures
        r@ == trim_spec(s@),
{
    let i = first_non_space(s);
    let j = last_non_space_from(s, i);
    let out = s.substring_char(i, j).to_owned();
    proof {
        lemma_trim_front_at(s@, i as int);
        let t = s@.subrange(i as int, s@.len() as int);
        lemma_trim_back_at(t, j - i);
        assert(t.subrange(0, j - i) =~= s@.subrange(i as int, j as int));
    }
    out
}

} // verus!
