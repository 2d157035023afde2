//! Character-level helpers on strings: conversion between `&str`, `String`
//! and `Vec<char>`, and the whitespace, trimming and line-splitting rules of
//! Rust's string slices stated over `Seq<char>`.
use vstd::prelude::*;

verus! {

/// Appends one character to a `String` (std `String::push`).
#[verifier::external_body]
pub fn push_char(s: &mut String, c: char)
    ensures
        final(s)@ == old(s)@.push(c),
{
    s.push(c);
}

/// The characters of `s`, in order.
pub fn chars_of(s: &str) -> (v: Vec<char>)
    ensures
        v@ == s@,
{
    let mut v: Vec<char> = Vec::new();
    for c in it: s.chars()
        invariant
            v@ == it.seq().take(it.index() as int),
            it.seq() == s@,
    {
        v.push(c);
    }
    v
}

} // verus!

verus! {

/// Rust's `char::is_whitespace`: the Unicode `White_Space` property.
pub open spec fn is_white_space(c: char) -> bool {
    let u = c as u32;
    ||| (0x9 <= u && u <= 0xd)
    ||| u == 0x20
    ||| u == 0x85
    ||| u == 0xa0
    ||| u == 0x1680
    ||| (0x2000 <= u && u <= 0x200a)
    ||| u == 0x2028
    ||| u == 0x2029
    ||| u == 0x202f
    ||| u == 0x205f
    ||| u == 0x3000
}

/// Whether `c` is an ASCII decimal digit.
pub open spec fn is_digit(c: char) -> bool {
    '0' as u32 <= c as u32 && c as u32 <= '9' as u32
}

/// The value of an ASCII decimal digit.
pub open spec fn digit_value(c: char) -> nat {
    (c as u32 - '0' as u32) as nat
}

/// `s` with its leading whitespace removed (`str::trim_start`).
pub open spec fn trim_start(s: Seq<char>) -> Seq<char>
    decreases s.len(),
{
    if s.len() == 0 {
        s
    } else if is_white_space(s[0]) {
        trim_start(s.drop_first())
    } else {
        s
    }
}

/// `s` with its trailing whitespace removed (`str::trim_end`).
pub open spec fn trim_end(s: Seq<char>) -> Seq<char>
    decreases s.len(),
{
    if s.len() == 0 {
        s
    } else if is_white_space(s.last()) {
        trim_end(s.drop_last())
    } else {
        s
    }
}

/// `s` with leading and trailing whitespace removed (`str::trim`).
pub open spec fn trim(s: Seq<char>) -> Seq<char> {
    trim_end(trim_start(s))
}

proof fn lemma_trim_start_append(s: Seq<char>, t: Seq<char>)
    ensures
        trim_start(s + t) == (if trim_start(s).len() == 0 {
            trim_start(t)
        } else {
            trim_start(s) + t
        }),
    decreases s.len(),
{
    if s.len() == 0 {
        assert(s + t =~= t);
    } else {
        assert((s + t)[0] == s[0]);
        assert((s + t).drop_first() =~= s.drop_first() + t);
        if is_white_space(s[0]) {
            lemma_trim_start_append(s.drop_first(), t);
        }
    }
}

/// A trailing space does not change what a text trims to.
pub proof fn lemma_trim_trailing_space(n: Seq<char>)
    ensures
        trim(n + seq![' ']) == trim(n),
{
    lemma_trim_start_append(n, seq![' ']);
    assert(is_white_space(' '));
    if trim_start(n).len() == 0 {
        assert(trim_start(seq![' ']) =~= Seq::<char>::empty()) by {
            assert(seq![' '].drop_first() =~= Seq::<char>::empty());
            assert(trim_start(Seq::<char>::empty()) == Seq::<char>::empty());
            assert(is_white_space(seq![' '][0]));
        }
        assert(trim_end(trim_start(n)) == trim_end(Seq::<char>::empty())) by {
            assert(trim_start(n) =~= Seq::<char>::empty());
        }
    } else {
        let u = trim_start(n);
        assert((u + seq![' ']).last() == ' ');
        assert((u + seq![' ']).drop_last() =~= u);
    }
}

/// The pieces of `s` between occurrences of `sep` (`str::split` with a char
/// pattern): one more piece than there are separators.
pub open spec fn split_char(s: Seq<char>, sep: char) -> Seq<Seq<char>>
    decreases s.len(),
{
    if s.len() == 0 {
        seq![Seq::<char>::empty()]
    } else {
        let p = split_char(s.drop_last(), sep);
        if s.last() == sep {
            p.push(Seq::<char>::empty())
        } else {
            p.update(p.len() - 1, p.last().push(s.last()))
        }
    }
}

/// `s` without one trailing carriage return, if it has one.
pub open spec fn strip_cr(s: Seq<char>) -> Seq<char> {
    if s.len() > 0 && s.last() == '\r' {
        s.drop_last()
    } else {
        s
    }
}

/// The lines of `s` (`str::lines`): the text is split at each `'\n'`, a
/// `'\r'` just before a `'\n'` belongs to the line ending, and a final empty
/// piece after the last line ending (or of an empty text) is not a line.
pub open spec fn lines(s: Seq<char>) -> Seq<Seq<char>> {
    let p = split_char(s, '\n');
    let n = if p.last().len() == 0 { p.len() - 1 } else { p.len() as int };
    Seq::new(n as nat, |i: int| if i < p.len() - 1 { strip_cr(p[i]) } else { p[i] })
}

/// Splitting a text at a separator gives at least one piece.
pub proof fn lemma_split_char_len(s: Seq<char>, sep: char)
    ensures
        split_char(s, sep).len() >= 1,
    decreases s.len(),
{
    if s.len() > 0 {
        lemma_split_char_len(s.drop_last(), sep);
    }
}

/// Whether `c` is whitespace in the sense of `char::is_whitespace`.
pub fn char_is_whitespace(c: char) -> (r: bool)
    ensures
        r == is_white_space(c),
{
    let u = c as u32;
    (0x9 <= u && u <= 0xd) || u == 0x20 || u == 0x85 || u == 0xa0 || u == 0x1680 || (0x2000 <= u
        && u <= 0x200a) || u == 0x2028 || u == 0x2029 || u == 0x202f || u == 0x205f || u == 0x3000
}

/// Whether `c` is an ASCII decimal digit (`char::is_ascii_digit`).
pub fn char_is_digit(c: char) -> (r: bool)
    ensures
        r == is_digit(c),
{
    '0' as u32 <= c as u32 && c as u32 <= '9' as u32
}

/// The elements `from..to` of `v`.
pub fn sub_chars(v: &Vec<char>, from: usize, to: usize) -> (r: Vec<char>)
    requires
        from <= to <= v.len(),
    ensures
        r@ == v@.subrange(from as int, to as int),
{
    let mut r: Vec<char> = Vec::new();
    let mut i = from;
    while i < to
        invariant
            from <= i <= to <= v.len(),
            r@ == v@.subrange(from as int, i as int),
        decreases to - i,
    {
        r.push(v[i]);
        i += 1;
    }
    r
}

/// The bounds of `v` once leading and trailing whitespace are cut off.
pub fn trim_bounds(v: &Vec<char>) -> (r: (usize, usize))
    ensures
        r.0 <= r.1 <= v.len(),
        v@.subrange(r.0 as int, r.1 as int) == trim(v@),
{
    let mut i: usize = 0;
    assert(v@.skip(0) == v@);
    while i < v.len() && char_is_whitespace(v[i])
        invariant
            i <= v.len(),
            trim_start(v@) == trim_start(v@.skip(i as int)),
        decreases v.len() - i,
    {
        assert(v@.skip(i as int).drop_first() == v@.skip(i + 1));
        i += 1;
    }
    assert(trim_start(v@) == v@.skip(i as int));
    let mut j: usize = v.len();
    assert(v@.skip(i as int) == v@.subrange(i as int, j as int));
    while j > i && char_is_whitespace(v[j - 1])
        invariant
            i <= j <= v.len(),
            trim(v@) == trim_end(v@.subrange(i as int, j as int)),
        decreases j,
    {
        assert(v@.subrange(i as int, j as int).drop_last() == v@.subrange(i as int, j - 1));
        j -= 1;
    }
    (i, j)
}

/// `v` with leading and trailing whitespace removed.
pub fn trim_chars(v: &Vec<char>) -> (r: Vec<char>)
    ensures
        r@ == trim(v@),
{
    let (a, b) = trim_bounds(v);
    sub_chars(v, a, b)
}

/// The text of `v` as a `String`.
pub fn string_of(v: &Vec<char>) -> (s: String)
    ensures
        s@ == v@,
{
    let mut s = String::new();
    let mut i: usize = 0;
    while i < v.len()
        invariant
            i <= v.len(),
            s@ == v@.take(i as int),
        decreases v.len() - i,
    {
        push_char(&mut s, v[i]);
        assert(v@.take(i + 1) == v@.take(i as int).push(v@[i as int]));
        i += 1;
    }
    assert(v@.take(v.len() as int) == v@);
    s
}

/// The texts held by a sequence of character vectors.
pub open spec fn pieces_view(v: Seq<Vec<char>>) -> Seq<Seq<char>> {
    Seq::new(v.len(), |i: int| v[i]@)
}

/// The pieces of `v` between occurrences of `sep`.
pub fn split_chars(v: &Vec<char>, sep: char) -> (r: Vec<Vec<char>>)
    ensures
        pieces_view(r@) == split_char(v@, sep),
{
    let mut pieces: Vec<Vec<char>> = Vec::new();
    let mut cur: Vec<char> = Vec::new();
    let mut i: usize = 0;
    while i < v.len()
        invariant
            i <= v.len(),
            pieces_view(pieces@).push(cur@) == split_char(v@.take(i as int), sep),
        decreases v.len() - i,
    {
        let ghost prev = v@.take(i as int);
        assert(v@.take(i + 1).drop_last() == prev);
        proof { lemma_split_char_len(prev, sep); }
        if v[i] == sep {
            let ghost old_pieces = pieces@;
            let ghost done_v = cur@;
            pieces.push(cur);
            cur = Vec::new();
            assert(pieces_view(pieces@) =~= pieces_view(old_pieces).push(done_v));
            assert(pieces_view(pieces@).push(cur@) =~= split_char(v@.take(i + 1), sep));
        } else {
            cur.push(v[i]);
            assert(pieces_view(pieces@).push(cur@) =~= split_char(v@.take(i + 1), sep));
        }
        i += 1;
    }
    assert(v@.take(v.len() as int) == v@);
    let ghost old_pieces = pieces@;
    let ghost cur_v = cur@;
    pieces.push(cur);
    assert(pieces_view(pieces@) =~= pieces_view(old_pieces).push(cur_v));
    pieces
}

/// A copy of `v`.
pub fn copy_chars(v: &Vec<char>) -> (r: Vec<char>)
    ensures
        r@ == v@,
{
    let r = sub_chars(v, 0, v.len());
    assert(v@.subrange(0, v.len() as int) == v@);
    r
}

/// The lines of `v`, as `str::lines` splits them.
pub fn lines_of(v: &Vec<char>) -> (r: Vec<Vec<char>>)
    ensures
        pieces_view(r@) == lines(v@),
{
    let p = split_chars(v, '\n');
    proof { lemma_split_char_len(v@, '\n'); }
    let last = p.len() - 1;
    let n = if p[last].len() == 0 { last } else { p.len() };
    let ghost pv = split_char(v@, '\n');
    assert(pv.len() == p.len());
    assert(pv[last as int] == p[last as int]@);
    let mut r: Vec<Vec<char>> = Vec::new();
    let mut i: usize = 0;
    while i < n
        invariant
            i <= n <= p.len(),
            last == p.len() - 1,
            pv == pieces_view(p@),
            n == (if pv.last().len() == 0 { pv.len() - 1 } else { pv.len() as int }),
            pieces_view(r@) =~= lines(v@).take(i as int),
            pv == split_char(v@, '\n'),
        decreases n - i,
    {
        let piece: &Vec<char> = &p[i];
        assert(piece@ == pv[i as int]);
        let line = if i < last && piece.len() > 0 && piece[piece.len() - 1] == '\r' {
            sub_chars(piece, 0, piece.len() - 1)
        } else {
            copy_chars(piece)
        };
        assert(piece@.subrange(0, piece.len() - 1) == piece@.drop_last());
        let ghost before = r@;
        r.push(line);
        assert(pieces_view(r@) =~= pieces_view(before).push(line@));
        assert(line@ == lines(v@)[i as int]);
        assert(lines(v@).take(i + 1) =~= lines(v@).take(i as int).push(lines(v@)[i as int]));
        i += 1;
    }
    assert(lines(v@).take(n as int) =~= lines(v@));
    r
}

/// Whether the text of `v` equals the text of `s`.
pub fn chars_eq_str(v: &Vec<char>, s: &str) -> (r: bool)
    ensures
        r == (v@ == s@),
{
    let n = s.unicode_len();
    if n != v.len() {
        return false;
    }
    let mut i: usize = 0;
    while i < n
        invariant
            i <= n == v.len() == s@.len(),
            v@.take(i as int) == s@.take(i as int),
        decreases n - i,
    {
        if v[i] != s.get_char(i) {
            return false;
        }
        assert(v@.take(i + 1) =~= s@.take(i + 1));
        i += 1;
    }
    assert(v@ =~= v@.take(n as int));
    assert(s@ =~= s@.take(n as int));
    true
}

/// Whether `c` is an ASCII letter or digit.
pub open spec fn is_ascii_alnum(c: char) -> bool {
    ||| is_digit(c)
    ||| ('a' as u32 <= c as u32 && c as u32 <= 'z' as u32)
    ||| ('A' as u32 <= c as u32 && c as u32 <= 'Z' as u32)
}

/// Whether `c` is an ASCII character.
pub open spec fn is_ascii_char(c: char) -> bool {
    (c as u32) < 128
}

/// Whether every character of `s` is ASCII.
pub open spec fn all_ascii(s: Seq<char>) -> bool {
    forall|i: int| 0 <= i < s.len() ==> is_ascii_char(#[trigger] s[i])
}

/// `c` with an ASCII capital letter mapped to its small letter.
pub open spec fn ascii_lower_char(c: char) -> char {
    if 'A' as u32 <= c as u32 && c as u32 <= 'Z' as u32 {
        ((c as u32) + 32) as char
    } else {
        c
    }
}

/// `s` with ASCII capital letters mapped to small letters.
pub open spec fn ascii_lower(s: Seq<char>) -> Seq<char> {
    s.map_values(|c: char| ascii_lower_char(c))
}

/// What `char::is_alphanumeric` answers for a character beyond ASCII (the
/// Unicode `Alphabetic` or `Numeric` properties).
pub uninterp spec fn alphanumeric_beyond_ascii(c: char) -> bool;

/// What `char::is_alphanumeric` answers for `c`: on ASCII, whether it is a
/// letter or a digit.
pub open spec fn alphanumeric(c: char) -> bool {
    if (c as u32) < 128 {
        is_ascii_alnum(c)
    } else {
        alphanumeric_beyond_ascii(c)
    }
}

/// What `str::to_lowercase` returns for a text (the Unicode lowercase
/// mapping).
pub uninterp spec fn lowercase(s: Seq<char>) -> Seq<char>;

/// std's `char::is_alphanumeric`. The contract claims that the answer is a
/// function of `c` alone, and that on an ASCII character it holds exactly of
/// the letters and digits; the Unicode tables beyond ASCII are left unstated.
#[verifier::external_body]
pub fn char_is_alphanumeric(c: char) -> (r: bool)
    ensures
        r == (if (c as u32) < 128 {
            is_ascii_alnum(c)
        } else {
            alphanumeric_beyond_ascii(c)
        }),
{
    c.is_alphanumeric()
}

/// std's `str::to_lowercase`. The contract claims that the result is a
/// function of the text alone, and that an all-ASCII text is mapped letter by
/// letter to small letters; the Unicode mapping beyond ASCII is left unstated.
#[verifier::external_body]
pub fn str_to_lowercase(s: &str) -> (r: String)
    ensures
        r@ == lowercase(s@),
        all_ascii(s@) ==> r@ == ascii_lower(s@),
{
    s.to_lowercase()
}

/// The lowercase form of a text: letter by letter on an all-ASCII text, the
/// Unicode mapping otherwise.
pub open spec fn lower_text(s: Seq<char>) -> Seq<char> {
    if all_ascii(s) {
        ascii_lower(s)
    } else {
        lowercase(s)
    }
}

/// Two characters with the same ASCII lowercase form are both whitespace or
/// both not.
proof fn lemma_lower_char_white(a: char, b: char)
    requires
        ascii_lower_char(a) == ascii_lower_char(b),
    ensures
        is_white_space(a) == is_white_space(b),
{
    let ua = a as u32;
    let ub = b as u32;
    if 'A' as u32 <= ua && ua <= 'Z' as u32 {
        assert(((ua + 32) as char) as u32 == ua + 32);
    }
    if 'A' as u32 <= ub && ub <= 'Z' as u32 {
        assert(((ub + 32) as char) as u32 == ub + 32);
    }
}

/// Two ASCII texts that differ only in the case of their letters trim at the
/// front to texts that again differ only in the case of their letters.
proof fn lemma_trim_start_case(s: Seq<char>, t: Seq<char>)
    requires
        all_ascii(s),
        all_ascii(t),
        ascii_lower(s) == ascii_lower(t),
    ensures
        all_ascii(trim_start(s)),
        all_ascii(trim_start(t)),
        ascii_lower(trim_start(s)) == ascii_lower(trim_start(t)),
    decreases s.len(),
{
    assert(s.len() == ascii_lower(s).len() && t.len() == ascii_lower(t).len());
    if s.len() > 0 {
        assert(ascii_lower(s)[0] == ascii_lower(t)[0]);
        assert(ascii_lower(s)[0] == ascii_lower_char(s[0]) && ascii_lower(t)[0] == ascii_lower_char(t[0]));
        assert(is_ascii_char(s[0]) && is_ascii_char(t[0]));
        lemma_lower_char_white(s[0], t[0]);
        if is_white_space(s[0]) {
            let s1 = s.drop_first();
            let t1 = t.drop_first();
            assert forall|i: int| 0 <= i < s1.len() implies is_ascii_char(#[trigger] s1[i]) by {
                assert(s1[i] == s[i + 1]);
            }
            assert forall|i: int| 0 <= i < t1.len() implies is_ascii_char(#[trigger] t1[i]) by {
                assert(t1[i] == t[i + 1]);
            }
            assert(ascii_lower(s1) =~= ascii_lower(s).drop_first());
            assert(ascii_lower(t1) =~= ascii_lower(t).drop_first());
            lemma_trim_start_case(s1, t1);
        }
    }
}

/// The same at the end.
proof fn lemma_trim_end_case(s: Seq<char>, t: Seq<char>)
    requires
        all_ascii(s),
        all_ascii(t),
        ascii_lower(s) == ascii_lower(t),
    ensures
        all_ascii(trim_end(s)),
        all_ascii(trim_end(t)),
        ascii_lower(trim_end(s)) == ascii_lower(trim_end(t)),
    decreases s.len(),
{
    assert(s.len() == ascii_lower(s).len() && t.len() == ascii_lower(t).len());
    if s.len() > 0 {
        let n = s.len() - 1;
        assert(ascii_lower(s)[n] == ascii_lower(t)[n]);
        assert(ascii_lower(s)[n] == ascii_lower_char(s[n]) && ascii_lower(t)[n] == ascii_lower_char(t[n]));
        assert(is_ascii_char(s[n]) && is_ascii_char(t[n]));
        lemma_lower_char_white(s[n], t[n]);
        if is_white_space(s.last()) {
            let s1 = s.drop_last();
            let t1 = t.drop_last();
            assert forall|i: int| 0 <= i < s1.len() implies is_ascii_char(#[trigger] s1[i]) by {
                assert(s1[i] == s[i]);
            }
            assert forall|i: int| 0 <= i < t1.len() implies is_ascii_char(#[trigger] t1[i]) by {
                assert(t1[i] == t[i]);
            }
            assert(ascii_lower(s1) =~= ascii_lower(s).drop_last());
            assert(ascii_lower(t1) =~= ascii_lower(t).drop_last());
            lemma_trim_end_case(s1, t1);
        }
    }
}

/// Two ASCII texts that differ only in the case of their letters trim to
/// texts with the same lowercase form.
pub proof fn lemma_trim_ignores_case(s: Seq<char>, t: Seq<char>)
    requires
        all_ascii(s),
        all_ascii(t),
        ascii_lower(s) == ascii_lower(t),
    ensures
        lower_text(trim(s)) == lower_text(trim(t)),
{
    lemma_trim_start_case(s, t);
    lemma_trim_end_case(trim_start(s), trim_start(t));
}

/// The lowercase form of the text of `v`.
pub fn lowercase_chars(v: &Vec<char>) -> (r: Vec<char>)
    ensures
        r@ == lowercase(v@),
        all_ascii(v@) ==> r@ == ascii_lower(v@),
        r@ == lower_text(v@),
{
    let s = string_of(v);
    let l = str_to_lowercase(s.as_str());
    chars_of(l.as_str())
}

/// The number that a string of decimal digits spells.
pub open spec fn decimal_value(s: Seq<char>) -> nat
    decreases s.len(),
{
    if s.len() == 0 {
        0
    } else {
        decimal_value(s.drop_last()) * 10 + digit_value(s.last())
    }
}

/// A longer string of digits spells a number at least as large.
pub proof fn lemma_value_prefix_monotone(s: Seq<char>, i: nat)
    requires
        i <= s.len(),
    ensures
        decimal_value(s) >= decimal_value(s.take(i as int)),
    decreases s.len(),
{
    if s.len() > i {
        lemma_value_prefix_monotone(s.drop_last(), i);
        assert(s.drop_last().take(i as int) == s.take(i as int));
    } else {
        assert(s.take(i as int) == s);
    }
}

/// Whether every character of `s` is an ASCII digit.
pub open spec fn all_digits(s: Seq<char>) -> bool {
    forall|i: int| 0 <= i < s.len() ==> is_digit(#[trigger] s[i])
}

/// The number `s` spells as std's `from_str` for an unsigned integer type
/// with largest value `max` reads it: an optional `+`, then at least one
/// ASCII digit and nothing else, and a value no larger than `max`.
pub open spec fn parse_unsigned(s: Seq<char>, max: nat) -> Option<nat> {
    let d = if s.len() > 0 && s[0] == '+' { s.drop_first() } else { s };
    if d.len() == 0 || !all_digits(d) || decimal_value(d) > max {
        None
    } else {
        Some(decimal_value(d))
    }
}

/// Reads an unsigned number no larger than `max` from `v`.
pub fn parse_unsigned_chars(v: &Vec<char>, max: u64) -> (r: Option<u64>)
    ensures
        match r {
            Some(n) => parse_unsigned(v@, max as nat) == Some(n as nat),
            None => parse_unsigned(v@, max as nat) is None,
        },
{
    let start: usize = if v.len() > 0 && v[0] == '+' { 1 } else { 0 };
    let ghost d = if v@.len() > 0 && v@[0] == '+' { v@.drop_first() } else { v@ };
    assert(d == v@.skip(start as int));
    if start == v.len() {
        return None;
    }
    let mut value: u64 = 0;
    let mut i: usize = start;
    assert(d.take(0) =~= Seq::<char>::empty());
    while i < v.len()
        invariant
            start <= i <= v.len(),
            start < v.len(),
            d == v@.skip(start as int),
            d == (if v@.len() > 0 && v@[0] == '+' { v@.drop_first() } else { v@ }),
            value <= max,
            decimal_value(d.take(i - start)) == value,
            all_digits(d.take(i - start)),
        decreases v.len() - i,
    {
        let c = v[i];
        if !char_is_digit(c) {
            assert(!is_digit(d[i - start]));
            assert(!all_digits(d));
            return None;
        }
        let dig = ((c as u32) - ('0' as u32)) as u64;
        let ghost t = d.take(i - start + 1);
        assert(t.drop_last() == d.take(i - start));
        assert(t.last() == c);
        if (value as u128) * 10 + (dig as u128) > max as u128 {
            proof {
                lemma_value_prefix_monotone(d, (i - start + 1) as nat);
            }
            return None;
        }
        value = value * 10 + dig;
        assert(all_digits(t));
        i += 1;
    }
    assert(d.take(v.len() - start) == d);
    Some(value)
}

/// The character of a digit below `base`, small letters above nine.
pub open spec fn digit_char(d: nat) -> char {
    if d < 10 {
        (('0' as u32) + d) as char
    } else {
        (('a' as u32) + (d - 10)) as char
    }
}

/// The digits of `n` in `base` (2 to 16), most significant first, without
/// leading zeros (`0` for zero).
pub open spec fn digits_in_base(n: nat, base: nat) -> Seq<char>
    decreases n,
{
    if base < 2 || n < base {
        seq![digit_char(n)]
    } else {
        proof {
            vstd::arithmetic::div_mod::lemma_div_decreases(n as int, base as int);
        }
        digits_in_base(n / base, base).push(digit_char(n % base))
    }
}

/// Appends to `s` the digits of `n` in `base` (`{}` for base 10, `{:x}` for
/// base 16).
pub fn push_digits(s: &mut String, n: u64, base: u64)
    requires
        2 <= base <= 16,
    ensures
        final(s)@ == old(s)@ + digits_in_base(n as nat, base as nat),
    decreases n,
{
    if n >= base {
        proof {
            vstd::arithmetic::div_mod::lemma_div_decreases(n as int, base as int);
        }
        push_digits(s, n / base, base);
    }
    let d = n % base;
    let c = if d < 10 {
        char_from_code(('0' as u32) + (d as u32))
    } else {
        char_from_code(('a' as u32) + (d as u32) - 10)
    };
    assert(c == digit_char(d as nat));
    let ghost before = s@;
    push_char(s, c);
    proof {
        if n < base {
            vstd::arithmetic::div_mod::lemma_small_mod(n as nat, base as nat);
        }
        if n >= base {
            assert(digits_in_base(n as nat, base as nat) == digits_in_base((n / base) as nat, base as nat).push(digit_char((n % base) as nat)));
        }
    }
    assert(s@ =~= old(s)@ + digits_in_base(n as nat, base as nat));
}

/// The character with code `u`, for an ASCII code.
pub fn char_from_code(u: u32) -> (c: char)
    requires
        u < 128,
    ensures
        c == u as char,
{
    assert(0 <= u < 128);
    u as u8 as char
}

/// `s` followed by the text of `t`.
pub fn push_str(s: &mut String, t: &str)
    ensures
        final(s)@ == old(s)@ + t@,
{
    s.append(t);
}

/// What `String::from_utf8_lossy` makes of `b`: its text, each invalid
/// sequence replaced by U+FFFD.
pub uninterp spec fn utf8_lossy(b: Seq<u8>) -> Seq<char>;

/// std's `String::from_utf8_lossy`. The contract claims that the result is a
/// function of the bytes alone and that valid UTF-8 is decoded as it is; how
/// invalid sequences are replaced is left unstated.
#[verifier::external_body]
pub fn string_from_utf8_lossy(b: &[u8]) -> (s: String)
    ensures
        s@ == utf8_lossy(b@),
        vstd::utf8::valid_utf8(b@) ==> s@ == vstd::utf8::decode_utf8(b@),
{
    String::from_utf8_lossy(b).into_owned()
}

/// The decimal text of `n` (`{}` of an `i32`).
pub open spec fn int_text(n: int) -> Seq<char> {
    if n < 0 {
        "-"@ + digits_in_base((-n) as nat, 10)
    } else {
        digits_in_base(n as nat, 10)
    }
}

/// Appends the decimal text of `n`.
pub fn push_i32(s: &mut String, n: i32)
    ensures
        final(s)@ == old(s)@ + int_text(n as int),
{
    if n < 0 {
        push_str(s, "-");
        let m: u64 = (0i64 - (n as i64)) as u64;
        push_digits(s, m, 10);
        assert(s@ =~= old(s)@ + int_text(n as int));
    } else {
        push_digits(s, n as u64, 10);
    }
}

} // verus!
