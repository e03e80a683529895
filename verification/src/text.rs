//! Searching in sequences of characters: the few operations on text that the
//! request parser is built from, each with its meaning as a spec function.

use vstd::prelude::*;

verus! {

/// Whether `c` is white space: one of the code points with the Unicode property
/// `White_Space`.
pub open spec fn is_space(c: char) -> bool {
    let u = c as u32;
    ||| 0x09 <= u <= 0x0D
    ||| u == 0x20
    ||| u == 0x85
    ||| u == 0xA0
    ||| u == 0x1680
    ||| 0x2000 <= u <= 0x200A
    ||| u == 0x2028
    ||| u == 0x2029
    ||| u == 0x202F
    ||| u == 0x205F
    ||| u == 0x3000
}

/// Where `c` first stands in `s`; the length of `s` where it does not occur.
pub open spec fn position(s: Seq<char>, c: char) -> int
    decreases s.len(),
{
    if s.len() == 0 || s[0] == c {
        0
    } else {
        1 + position(s.skip(1), c)
    }
}

/// How many characters `s` begins with that are not white space.
pub open spec fn leading_word(s: Seq<char>) -> int
    decreases s.len(),
{
    if s.len() > 0 && !is_space(s[0]) {
        1 + leading_word(s.skip(1))
    } else {
        0
    }
}

/// The piece with index `n` (from 0) of `s` cut at each `sep`, or `None` where
/// `s` holds fewer than `n` separators.
pub open spec fn piece(s: Seq<char>, sep: char, n: nat) -> Option<Seq<char>>
    decreases n,
{
    let cut = position(s, sep);
    if n == 0 {
        Some(s.take(cut))
    } else if 0 <= cut < s.len() {
        piece(s.skip(cut + 1), sep, (n - 1) as nat)
    } else {
        None
    }
}

/// Where `pat` first occurs in `s`, or `None`.
pub open spec fn first_occurrence(s: Seq<char>, pat: Seq<char>) -> Option<int>
    decreases s.len(),
{
    if pat.is_prefix_of(s) {
        Some(0)
    } else if s.len() == 0 {
        None
    } else {
        match first_occurrence(s.skip(1), pat) {
            Some(at) => Some(at + 1),
            None => None,
        }
    }
}

/// The last piece of `s` cut at each occurrence of `pat`, the occurrences taken
/// from the left and without overlap: all of `s` where `pat` does not occur.
pub open spec fn last_piece(s: Seq<char>, pat: Seq<char>) -> Seq<char>
    decreases s.len(),
{
    match first_occurrence(s, pat) {
        Some(at) => if pat.len() > 0 && 0 <= at && at + pat.len() <= s.len() {
            last_piece(s.skip(at + pat.len()), pat)
        } else {
            s
        },
        None => s,
    }
}

/// `position` finds the first `c`: nothing before it is `c`, and it is `c`
/// unless it is the end of `s`.
pub proof fn position_is_first(s: Seq<char>, c: char)
    ensures
        0 <= position(s, c) <= s.len(),
        forall|i: int| 0 <= i < position(s, c) ==> s[i] != c,
        position(s, c) < s.len() ==> s[position(s, c)] == c,
    decreases s.len(),
{
    if s.len() == 0 || s[0] == c {
    } else {
        let rest = s.skip(1);
        position_is_first(rest, c);
        assert forall|i: int| 0 <= i < position(s, c) implies s[i] != c by {
            if i > 0 {
                assert(rest[i - 1] == s[i]);
            }
        }
        if position(rest, c) < rest.len() {
            assert(rest[position(rest, c)] == s[position(rest, c) + 1]);
        }
    }
}

/// `leading_word` is the length of the longest run without white space that `s`
/// begins with.
pub proof fn leading_word_is_longest(s: Seq<char>)
    ensures
        0 <= leading_word(s) <= s.len(),
        forall|i: int| 0 <= i < leading_word(s) ==> !is_space(s[i]),
        leading_word(s) < s.len() ==> is_space(s[leading_word(s)]),
    decreases s.len(),
{
    if s.len() > 0 && !is_space(s[0]) {
        let rest = s.skip(1);
        leading_word_is_longest(rest);
        assert forall|i: int| 0 <= i < leading_word(s) implies !is_space(s[i]) by {
            if i > 0 {
                assert(rest[i - 1] == s[i]);
            }
        }
        if leading_word(rest) < rest.len() {
            assert(rest[leading_word(rest)] == s[leading_word(rest) + 1]);
        }
    }
}

/// `first_occurrence` finds the leftmost place where `pat` stands in `s`.
pub proof fn first_occurrence_is_leftmost(s: Seq<char>, pat: Seq<char>)
    ensures
        match first_occurrence(s, pat) {
            Some(at) => {
                &&& 0 <= at <= s.len()
                &&& pat.is_prefix_of(s.skip(at))
                &&& forall|i: int| 0 <= i < at ==> !pat.is_prefix_of(#[trigger] s.skip(i))
            },
            None => forall|i: int| 0 <= i <= s.len() ==> !pat.is_prefix_of(#[trigger] s.skip(i)),
        },
    decreases s.len(),
{
    assert(s.skip(0) =~= s);
    if pat.is_prefix_of(s) {
    } else if s.len() == 0 {
    } else {
        let rest = s.skip(1);
        first_occurrence_is_leftmost(rest, pat);
        assert forall|i: int| 0 <= i <= rest.len() implies #[trigger] rest.skip(i) =~= s.skip(
            i + 1,
        ) by {}
        match first_occurrence(rest, pat) {
            Some(at) => {
                assert(rest.skip(at) =~= s.skip(at + 1));
                assert forall|i: int| 0 <= i < at + 1 implies !pat.is_prefix_of(
                    #[trigger] s.skip(i),
                ) by {
                    if i > 0 {
                        assert(rest.skip(i - 1) =~= s.skip(i));
                    }
                }
            },
            None => {
                assert forall|i: int| 0 <= i <= s.len() implies !pat.is_prefix_of(
                    #[trigger] s.skip(i),
                ) by {
                    if i > 0 {
                        assert(rest.skip(i - 1) =~= s.skip(i));
                    }
                }
            },
        }
    }
}

/// The characters of `s`, in order.
pub fn chars_of(s: &str) -> (chars: Vec<char>)
    ensures
        chars@ == s@,
{
    let mut chars: Vec<char> = Vec::new();
    for c in rest: s.chars()
        invariant
            rest.seq() == s@,
            chars@ == s@.take(rest.index() as int),
    {
        chars.push(c);
    }
    chars
}

/// Tells whether `c` is white space.
pub fn is_whitespace(c: char) -> (space: bool)
    ensures
        space == is_space(c),
{
    let u: u32 = c as u32;
    (0x09 <= u && u <= 0x0D) || u == 0x20 || u == 0x85 || u == 0xA0 || u == 0x1680 || (0x2000 <= u
        && u <= 0x200A) || u == 0x2028 || u == 0x2029 || u == 0x202F || u == 0x205F || u == 0x3000
}

/// Finds the first `c` in `s` at or after `from`; the result is the length of
/// `s` where there is none.
pub fn find_char(s: &[char], from: usize, c: char) -> (at: usize)
    requires
        from <= s.len(),
    ensures
        from <= at <= s.len(),
        at == from + position(s@.skip(from as int), c),
{
    let mut i: usize = from;
    while i < s.len()
        invariant
            from <= i <= s.len(),
            position(s@.skip(from as int), c) == (i - from) + position(s@.skip(i as int), c),
        decreases s.len() - i,
    {
        if s[i] == c {
            return i;
        }
        assert(s@.skip(i as int).skip(1) =~= s@.skip(i + 1));
        i = i + 1;
    }
    i
}

/// Skips the characters that stand in `s` at `from` and are not white space.
pub fn skip_word(s: &[char], from: usize) -> (at: usize)
    requires
        from <= s.len(),
    ensures
        from <= at <= s.len(),
        at == from + leading_word(s@.skip(from as int)),
{
    let mut i: usize = from;
    while i < s.len()
        invariant
            from <= i <= s.len(),
            leading_word(s@.skip(from as int)) == (i - from) + leading_word(s@.skip(i as int)),
        decreases s.len() - i,
    {
        if is_whitespace(s[i]) {
            return i;
        }
        assert(s@.skip(i as int).skip(1) =~= s@.skip(i + 1));
        i = i + 1;
    }
    i
}

/// Tells whether `pat` stands in `s` at `from`.
pub fn starts_with_at(s: &[char], from: usize, pat: &[char]) -> (found: bool)
    requires
        from <= s.len(),
    ensures
        found == pat@.is_prefix_of(s@.skip(from as int)),
{
    if pat.len() > s.len() - from {
        return false;
    }
    let ghost rest = s@.skip(from as int);
    let mut k: usize = 0;
    while k < pat.len()
        invariant
            k <= pat.len(),
            from + pat.len() <= s.len(),
            rest == s@.skip(from as int),
            forall|j: int| 0 <= j < k ==> pat@[j] == rest[j],
        decreases pat.len() - k,
    {
        if s[from + k] != pat[k] {
            assert(rest.subrange(0, pat@.len() as int)[k as int] == rest[k as int]);
            return false;
        }
        k = k + 1;
    }
    assert(pat@ =~= rest.subrange(0, pat@.len() as int));
    true
}

/// Finds the first place at or after `from` where `pat` stands in `s`.
pub fn find(s: &[char], from: usize, pat: &[char]) -> (at: Option<usize>)
    requires
        from <= s.len(),
    ensures
        match at {
            Some(i) => {
                &&& from <= i
                &&& i + pat.len() <= s.len()
                &&& first_occurrence(s@.skip(from as int), pat@) == Some(i - from)
            },
            None => first_occurrence(s@.skip(from as int), pat@).is_none(),
        },
{
    let mut i: usize = from;
    loop
        invariant
            from <= i <= s.len(),
            first_occurrence(s@.skip(from as int), pat@) == match first_occurrence(
                s@.skip(i as int),
                pat@,
            ) {
                Some(at) => Some(at + (i - from)),
                None => None,
            },
        decreases s.len() - i,
    {
        if starts_with_at(s, i, pat) {
            return Some(i);
        }
        if i == s.len() {
            return None;
        }
        assert(s@.skip(i as int).skip(1) =~= s@.skip(i + 1));
        i = i + 1;
    }
}

/// Finds the piece with index `n` of `s` cut at each `sep`: where it begins and
/// where it ends.
pub fn find_piece(s: &[char], sep: char, n: usize) -> (bounds: Option<(usize, usize)>)
    ensures
        match bounds {
            Some((begin, end)) => {
                &&& begin <= end <= s.len()
                &&& piece(s@, sep, n as nat) == Some(s@.subrange(begin as int, end as int))
            },
            None => piece(s@, sep, n as nat).is_none(),
        },
{
    let mut begin: usize = 0;
    let mut k: usize = 0;
    assert(s@.skip(0) =~= s@);
    while k < n
        invariant
            k <= n,
            begin <= s.len(),
            piece(s@, sep, n as nat) == piece(s@.skip(begin as int), sep, (n - k) as nat),
        decreases n - k,
    {
        let cut = find_char(s, begin, sep);
        if cut == s.len() {
            return None;
        }
        assert(s@.skip(begin as int).skip(cut - begin + 1) =~= s@.skip(cut + 1));
        begin = cut + 1;
        k = k + 1;
    }
    let end = find_char(s, begin, sep);
    assert(s@.skip(begin as int).take(end - begin) =~= s@.subrange(begin as int, end as int));
    Some((begin, end))
}

/// Finds where the last piece of `s` begins, `s` cut at each occurrence of `pat`.
pub fn find_last_piece(s: &[char], pat: &[char]) -> (begin: usize)
    ensures
        begin <= s.len(),
        s@.skip(begin as int) == last_piece(s@, pat@),
{
    assert(s@.skip(0) =~= s@);
    if pat.len() == 0 {
        return 0;
    }
    let mut begin: usize = 0;
    loop
        invariant
            begin <= s.len(),
            pat.len() > 0,
            last_piece(s@, pat@) == last_piece(s@.skip(begin as int), pat@),
        decreases s.len() - begin,
    {
        match find(s, begin, pat) {
            None => {
                return begin;
            },
            Some(at) => {
                assert(s@.skip(begin as int).skip(at - begin + pat.len()) =~= s@.skip(
                    at + pat.len(),
                ));
                begin = at + pat.len();
            },
        }
    }
}

} // verus!
