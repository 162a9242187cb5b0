//! Text handling shared by every planner: concatenation, argument lists,
//! decimal and hexadecimal rendering, and the handful of scans (prefix,
//! suffix, search, trim, split) that the planners apply to paths, command
//! output and inventory fields.  Every function is specified over `Seq<char>`.

use vstd::prelude::*;
use vstd::string::*;

verus! {

/// `p` occurs in `s` starting at position `i`.
pub open spec fn matches_at(s: Seq<char>, i: int, p: Seq<char>) -> bool {
    0 <= i && i + p.len() <= s.len() && s.subrange(i, i + p.len()) == p
}

pub open spec fn is_prefix(p: Seq<char>, s: Seq<char>) -> bool {
    matches_at(s, 0, p)
}

pub open spec fn is_suffix(p: Seq<char>, s: Seq<char>) -> bool {
    matches_at(s, s.len() - p.len(), p)
}

/// `needle` occurs somewhere in `hay`.
pub open spec fn occurs_in(needle: Seq<char>, hay: Seq<char>) -> bool {
    exists|i: int| matches_at(hay, i, needle)
}

/// The characters that count as white space (Unicode `White_Space`).
pub open spec fn is_space(c: char) -> bool {
    let n = c as u32;
    (0x09 <= n <= 0x0d) || n == 0x20 || n == 0x85 || n == 0xa0 || n == 0x1680 || (0x2000 <= n
        <= 0x200a) || n == 0x2028 || n == 0x2029 || n == 0x202f || n == 0x205f || n == 0x3000
}

/// First position at or after `i` that holds no white space (the length if none).
pub open spec fn skip_spaces(s: Seq<char>, i: int) -> int
    decreases s.len() - i,
{
    if 0 <= i < s.len() && is_space(s[i]) {
        skip_spaces(s, i + 1)
    } else {
        i
    }
}

/// Smallest end `j >= from` such that nothing but white space lies in `[j, end)`.
pub open spec fn drop_spaces(s: Seq<char>, from: int, end: int) -> int
    decreases end,
{
    if 0 <= from < end <= s.len() && is_space(s[end - 1]) {
        drop_spaces(s, from, end - 1)
    } else {
        end
    }
}

/// `s` without leading and trailing white space.
pub open spec fn trimmed(s: Seq<char>) -> Seq<char> {
    let a = skip_spaces(s, 0);
    let b = drop_spaces(s, a, s.len() as int);
    s.subrange(a, b)
}

/// First position at or after `i` that holds `c` (the length if none).
pub open spec fn find_char(s: Seq<char>, c: char, i: int) -> int
    decreases s.len() - i,
{
    if 0 <= i < s.len() && s[i] != c {
        find_char(s, c, i + 1)
    } else {
        i
    }
}

/// One past the last position before `end` that holds `c` (0 if none).
pub open spec fn after_last_char(s: Seq<char>, c: char, end: int) -> int
    decreases end,
{
    if 0 < end <= s.len() && s[end - 1] != c {
        after_last_char(s, c, end - 1)
    } else {
        end
    }
}

/// What follows the last `c` in `s`; all of `s` where `c` does not occur.
pub open spec fn last_segment(s: Seq<char>, c: char) -> Seq<char> {
    s.subrange(after_last_char(s, c, s.len() as int), s.len() as int)
}

/// What precedes the first `c` in `s`; all of `s` where `c` does not occur.
pub open spec fn first_segment(s: Seq<char>, c: char) -> Seq<char> {
    s.subrange(0, find_char(s, c, 0))
}

/// What follows the first `c` in `s`, if `c` occurs.
pub open spec fn rest_after_first(s: Seq<char>, c: char) -> Option<Seq<char>> {
    let k = find_char(s, c, 0);
    if k < s.len() {
        Some(s.subrange(k + 1, s.len() as int))
    } else {
        None
    }
}

/// What precedes the last `c` in `s`; all of `s` where `c` does not occur.
pub open spec fn without_last_segment(s: Seq<char>, c: char) -> Seq<char> {
    let k = after_last_char(s, c, s.len() as int);
    if k == 0 {
        s
    } else {
        s.subrange(0, k - 1)
    }
}

/// `s` from position `i` on, with every occurrence of `from` replaced by
/// `to`, scanning left to right.  An empty `from` occurs nowhere.
pub open spec fn replaced_from(s: Seq<char>, from: Seq<char>, to: Seq<char>, i: int) -> Seq<char>
    decreases s.len() - i,
{
    if i < 0 || i >= s.len() {
        Seq::<char>::empty()
    } else if from.len() > 0 && matches_at(s, i, from) {
        to + replaced_from(s, from, to, i + from.len())
    } else {
        seq![s[i]] + replaced_from(s, from, to, i + 1)
    }
}

pub open spec fn replaced(s: Seq<char>, from: Seq<char>, to: Seq<char>) -> Seq<char> {
    replaced_from(s, from, to, 0)
}

/// Position reached by stepping over repeated copies of `p` from `i` on.
pub open spec fn skip_copies(s: Seq<char>, p: Seq<char>, i: int) -> int
    decreases s.len() - i,
{
    if p.len() > 0 && matches_at(s, i, p) {
        skip_copies(s, p, i + p.len())
    } else {
        i
    }
}

/// End reached by stepping back over repeated copies of `p` that end at `end`.
pub open spec fn drop_copies(s: Seq<char>, p: Seq<char>, end: int) -> int
    decreases end,
{
    if p.len() > 0 && end <= s.len() && matches_at(s, end - p.len(), p) {
        drop_copies(s, p, end - p.len())
    } else {
        end
    }
}

pub open spec fn without_leading(s: Seq<char>, p: Seq<char>) -> Seq<char> {
    s.subrange(skip_copies(s, p, 0), s.len() as int)
}

pub open spec fn without_trailing(s: Seq<char>, p: Seq<char>) -> Seq<char> {
    s.subrange(0, drop_copies(s, p, s.len() as int))
}

/// The pieces of `s` cut at every `c` from position `k` on, the first of
/// them starting at `start`.
pub open spec fn pieces_from(s: Seq<char>, c: char, start: int, k: int) -> Seq<Seq<char>>
    decreases s.len() - k,
{
    if k < 0 || k >= s.len() {
        seq![s.subrange(start, s.len() as int)]
    } else if s[k] == c {
        seq![s.subrange(start, k)] + pieces_from(s, c, k + 1, k + 1)
    } else {
        pieces_from(s, c, start, k + 1)
    }
}

/// `s` cut at every `c`: always at least one piece.
pub open spec fn pieces(s: Seq<char>, c: char) -> Seq<Seq<char>> {
    pieces_from(s, c, 0, 0)
}

/// The first `n` of `parts`, with `sep` between neighbours.
pub open spec fn joined_upto(parts: Seq<Seq<char>>, sep: Seq<char>, n: int) -> Seq<char>
    decreases n,
{
    if n <= 0 {
        Seq::<char>::empty()
    } else if n == 1 {
        parts[0]
    } else {
        joined_upto(parts, sep, n - 1) + sep + parts[n - 1]
    }
}

/// The first `n` of `parts`, one after another.
pub open spec fn concat_upto(parts: Seq<Seq<char>>, n: int) -> Seq<char>
    decreases n,
{
    if n <= 0 {
        Seq::<char>::empty()
    } else {
        concat_upto(parts, n - 1) + parts[n - 1]
    }
}

/// The parts one after another.
pub open spec fn concat(parts: Seq<Seq<char>>) -> Seq<char> {
    concat_upto(parts, parts.len() as int)
}

pub open spec fn joined(parts: Seq<Seq<char>>, sep: Seq<char>) -> Seq<char> {
    joined_upto(parts, sep, parts.len() as int)
}

/// First position at or after `i` that holds white space (the length if none).
pub open spec fn word_end(s: Seq<char>, i: int) -> int
    decreases s.len() - i,
{
    if 0 <= i < s.len() && !is_space(s[i]) {
        word_end(s, i + 1)
    } else {
        i
    }
}

/// The word number `n` (from 0) among the white-space separated words that
/// start at or after `i`.
pub open spec fn word_from(s: Seq<char>, n: nat, i: int) -> Option<Seq<char>>
    decreases n,
{
    let a = skip_spaces(s, i);
    if a < 0 || a >= s.len() {
        None
    } else if n == 0 {
        Some(s.subrange(a, word_end(s, a)))
    } else {
        word_from(s, (n - 1) as nat, word_end(s, a))
    }
}

pub open spec fn word(s: Seq<char>, n: nat) -> Option<Seq<char>> {
    word_from(s, n, 0)
}

pub open spec fn digit_char(d: int) -> char {
    if d == 0 {
        '0'
    } else if d == 1 {
        '1'
    } else if d == 2 {
        '2'
    } else if d == 3 {
        '3'
    } else if d == 4 {
        '4'
    } else if d == 5 {
        '5'
    } else if d == 6 {
        '6'
    } else if d == 7 {
        '7'
    } else if d == 8 {
        '8'
    } else {
        '9'
    }
}

/// Upper-case hexadecimal digit.
pub open spec fn hex_char(d: int) -> char {
    if d < 10 {
        digit_char(d)
    } else if d == 10 {
        'A'
    } else if d == 11 {
        'B'
    } else if d == 12 {
        'C'
    } else if d == 13 {
        'D'
    } else if d == 14 {
        'E'
    } else {
        'F'
    }
}

/// Decimal digits of `n`, most significant first, without padding.
pub open spec fn decimal(n: nat) -> Seq<char>
    decreases n,
{
    if n < 10 {
        seq![digit_char(n as int)]
    } else {
        decimal(n / 10) + seq![digit_char((n % 10) as int)]
    }
}

/// Two upper-case hexadecimal digits.
pub open spec fn hex_pair(b: u8) -> Seq<char> {
    seq![hex_char(b as int / 16), hex_char(b as int % 16)]
}

pub open spec fn is_digit(c: char) -> bool {
    0x30 <= (c as u32) <= 0x39
}

pub open spec fn digit_value(c: char) -> int {
    (c as u32) as int - 0x30
}

pub open spec fn all_digits(s: Seq<char>) -> bool {
    forall|i: int| 0 <= i < s.len() ==> is_digit(#[trigger] s[i])
}

/// Value of the first `n` characters of `s` read as decimal digits.
pub open spec fn digits_value(s: Seq<char>, n: int) -> int
    decreases n,
{
    if n <= 0 {
        0
    } else {
        digits_value(s, n - 1) * 10 + digit_value(s[n - 1])
    }
}

/// The number that `s` denotes: decimal digits, optionally after one `+`,
/// and no larger than `u32::MAX`.
pub open spec fn number(s: Seq<char>) -> Option<u32> {
    let body = if s.len() > 0 && s[0] == '+' {
        s.skip(1)
    } else {
        s
    };
    if body.len() > 0 && all_digits(body) && digits_value(body, body.len() as int) <= u32::MAX {
        Some(digits_value(body, body.len() as int) as u32)
    } else {
        None
    }
}

pub fn join2(a: &str, b: &str) -> (r: String)
    ensures
        r@ == a@ + b@,
{
    let mut r = String::from_str(a);
    r.append(b);
    r
}

pub fn join3(a: &str, b: &str, c: &str) -> (r: String)
    ensures
        r@ == a@ + b@ + c@,
{
    let mut r = String::from_str(a);
    r.append(b);
    r.append(c);
    r
}

pub fn join4(a: &str, b: &str, c: &str, d: &str) -> (r: String)
    ensures
        r@ == a@ + b@ + c@ + d@,
{
    let mut r = String::from_str(a);
    r.append(b);
    r.append(c);
    r.append(d);
    r
}

pub fn join5(a: &str, b: &str, c: &str, d: &str, e: &str) -> (r: String)
    ensures
        r@ == a@ + b@ + c@ + d@ + e@,
{
    let mut r = String::from_str(a);
    r.append(b);
    r.append(c);
    r.append(d);
    r.append(e);
    r
}

/// Whether two texts hold the same characters.
pub fn same(a: &str, b: &str) -> (r: bool)
    ensures
        r == (a@ == b@),
{
    let n = a.unicode_len();
    if n != b.unicode_len() {
        return false;
    }
    let r = found_at(a, 0, b);
    proof {
        if r {
            assert(a@.subrange(0, n as int) =~= a@);
        } else {
            assert(b@.subrange(0, n as int) =~= b@);
        }
    }
    r
}

/// Whether `p` occurs in `s` at position `i`.
pub fn found_at(s: &str, i: usize, p: &str) -> (r: bool)
    ensures
        r == matches_at(s@, i as int, p@),
{
    let m = s.unicode_len();
    let n = p.unicode_len();
    if i > m || n > m - i {
        return false;
    }
    let mut k: usize = 0;
    while k < n
        invariant
            k <= n,
            n == p@.len(),
            m == s@.len(),
            i + n <= m,
            forall|j: int| 0 <= j < k ==> s@[i + j] == p@[j],
        decreases n - k,
    {
        if s.get_char(i + k) != p.get_char(k) {
            assert(s@.subrange(i as int, i + n)[k as int] == s@[i + k]);
            return false;
        }
        k += 1;
    }
    assert(s@.subrange(i as int, i + n) =~= p@);
    true
}

pub fn starts_with(s: &str, p: &str) -> (r: bool)
    ensures
        r == is_prefix(p@, s@),
{
    found_at(s, 0, p)
}

pub fn ends_with(s: &str, p: &str) -> (r: bool)
    ensures
        r == is_suffix(p@, s@),
{
    let m = s.unicode_len();
    let n = p.unicode_len();
    if n > m {
        return false;
    }
    found_at(s, m - n, p)
}

pub fn contains(hay: &str, needle: &str) -> (r: bool)
    ensures
        r == occurs_in(needle@, hay@),
{
    let m = hay.unicode_len();
    let mut i: usize = 0;
    while i < m
        invariant
            m == hay@.len(),
            i <= m,
            forall|j: int| 0 <= j < i ==> !matches_at(hay@, j, needle@),
        decreases m - i,
    {
        if found_at(hay, i, needle) {
            return true;
        }
        i += 1;
    }
    found_at(hay, m, needle)
}

/// `s` without the prefix `p`, where it has that prefix.
pub fn strip_prefix(s: &str, p: &str) -> (r: Option<String>)
    ensures
        r is Some == is_prefix(p@, s@),
        r matches Some(t) ==> t@ == s@.subrange(p@.len() as int, s@.len() as int),
{
    if found_at(s, 0, p) {
        Some(String::from_str(s.substring_char(p.unicode_len(), s.unicode_len())))
    } else {
        None
    }
}

/// `s` without the suffix `p`, where it has that suffix.
pub fn strip_suffix(s: &str, p: &str) -> (r: Option<String>)
    ensures
        r is Some == is_suffix(p@, s@),
        r matches Some(t) ==> t@ == s@.subrange(0, s@.len() - p@.len()),
{
    let m = s.unicode_len();
    let n = p.unicode_len();
    if n <= m && found_at(s, m - n, p) {
        Some(String::from_str(s.substring_char(0, m - n)))
    } else {
        None
    }
}

pub fn space(c: char) -> (r: bool)
    ensures
        r == is_space(c),
{
    let n: u32 = c as u32;
    (0x09 <= n && n <= 0x0d) || n == 0x20 || n == 0x85 || n == 0xa0 || n == 0x1680 || (0x2000 <= n
        && n <= 0x200a) || n == 0x2028 || n == 0x2029 || n == 0x202f || n == 0x205f || n
        == 0x3000
}

pub fn trim(s: &str) -> (r: String)
    ensures
        r@ == trimmed(s@),
{
    let m = s.unicode_len();
    let mut a: usize = 0;
    while a < m && space(s.get_char(a))
        invariant
            a <= m,
            m == s@.len(),
            skip_spaces(s@, 0) == skip_spaces(s@, a as int),
        decreases m - a,
    {
        a += 1;
    }
    let mut b: usize = m;
    while a < b && space(s.get_char(b - 1))
        invariant
            a <= b <= m,
            m == s@.len(),
            drop_spaces(s@, a as int, m as int) == drop_spaces(s@, a as int, b as int),
        decreases b,
    {
        b -= 1;
    }
    String::from_str(s.substring_char(a, b))
}

/// Position of the first `c` at or after `i`, or the length.
pub fn position(s: &str, c: char, i: usize) -> (k: usize)
    requires
        i <= s@.len(),
    ensures
        k == find_char(s@, c, i as int),
        i <= k <= s@.len(),
{
    let m = s.unicode_len();
    let mut k: usize = i;
    while k < m && s.get_char(k) != c
        invariant
            i <= k <= m,
            m == s@.len(),
            find_char(s@, c, i as int) == find_char(s@, c, k as int),
        decreases m - k,
    {
        k += 1;
    }
    k
}

/// One past the position of the last `c`, or 0.
pub fn last_position(s: &str, c: char) -> (k: usize)
    ensures
        k == after_last_char(s@, c, s@.len() as int),
        k <= s@.len(),
{
    let m = s.unicode_len();
    let mut k: usize = m;
    while k > 0 && s.get_char(k - 1) != c
        invariant
            k <= m,
            m == s@.len(),
            after_last_char(s@, c, m as int) == after_last_char(s@, c, k as int),
        decreases k,
    {
        k -= 1;
    }
    k
}

pub fn after_last(s: &str, c: char) -> (r: String)
    ensures
        r@ == last_segment(s@, c),
{
    let k = last_position(s, c);
    String::from_str(s.substring_char(k, s.unicode_len()))
}

pub fn before_first(s: &str, c: char) -> (r: String)
    ensures
        r@ == first_segment(s@, c),
{
    let k = position(s, c, 0);
    String::from_str(s.substring_char(0, k))
}

pub fn after_first(s: &str, c: char) -> (r: Option<String>)
    ensures
        r is Some == rest_after_first(s@, c) is Some,
        r matches Some(t) ==> rest_after_first(s@, c) == Some(t@),
{
    let m = s.unicode_len();
    let k = position(s, c, 0);
    if k < m {
        Some(String::from_str(s.substring_char(k + 1, m)))
    } else {
        None
    }
}

pub fn before_last(s: &str, c: char) -> (r: String)
    ensures
        r@ == without_last_segment(s@, c),
{
    let k = last_position(s, c);
    if k == 0 {
        String::from_str(s)
    } else {
        String::from_str(s.substring_char(0, k - 1))
    }
}

pub fn replace(s: &str, from: &str, to: &str) -> (r: String)
    ensures
        r@ == replaced(s@, from@, to@),
{
    let m = s.unicode_len();
    let n = from.unicode_len();
    let mut out = String::new();
    let mut i: usize = 0;
    while i < m
        invariant
            i <= m,
            m == s@.len(),
            n == from@.len(),
            replaced(s@, from@, to@) == out@ + replaced_from(s@, from@, to@, i as int),
        decreases m - i,
    {
        let ghost before = out@;
        if n > 0 && found_at(s, i, from) {
            out.append(to);
            assert(before + (to@ + replaced_from(s@, from@, to@, i + n)) =~= before + to@
                + replaced_from(s@, from@, to@, i + n));
            i += n;
        } else {
            out.append(s.substring_char(i, i + 1));
            assert(s@.subrange(i as int, i + 1) =~= seq![s@[i as int]]);
            assert(before + (seq![s@[i as int]] + replaced_from(s@, from@, to@, i + 1)) =~= before
                + seq![s@[i as int]] + replaced_from(s@, from@, to@, i + 1));
            i += 1;
        }
    }
    assert(out@ + Seq::<char>::empty() =~= out@);
    out
}

pub fn trim_start_matches(s: &str, p: &str) -> (r: String)
    ensures
        r@ == without_leading(s@, p@),
{
    let m = s.unicode_len();
    let n = p.unicode_len();
    let mut i: usize = 0;
    while n > 0 && found_at(s, i, p)
        invariant
            i <= m,
            m == s@.len(),
            n == p@.len(),
            skip_copies(s@, p@, 0) == skip_copies(s@, p@, i as int),
        decreases m - i,
    {
        i += n;
    }
    String::from_str(s.substring_char(i, m))
}

pub fn trim_end_matches(s: &str, p: &str) -> (r: String)
    ensures
        r@ == without_trailing(s@, p@),
{
    let m = s.unicode_len();
    let n = p.unicode_len();
    let mut e: usize = m;
    while n > 0 && n <= e && found_at(s, e - n, p)
        invariant
            e <= m,
            m == s@.len(),
            n == p@.len(),
            drop_copies(s@, p@, m as int) == drop_copies(s@, p@, e as int),
        decreases e,
    {
        e -= n;
    }
    String::from_str(s.substring_char(0, e))
}

pub fn split(s: &str, c: char) -> (r: Vec<String>)
    ensures
        r.deep_view() == pieces(s@, c),
{
    let m = s.unicode_len();
    let mut out: Vec<String> = Vec::new();
    let mut start: usize = 0;
    let mut k: usize = 0;
    assert(out.deep_view() =~= Seq::<Seq<char>>::empty());
    while k < m
        invariant
            start <= k <= m,
            m == s@.len(),
            pieces(s@, c) == out.deep_view() + pieces_from(s@, c, start as int, k as int),
        decreases m - k,
    {
        if s.get_char(k) == c {
            let ghost before = out.deep_view();
            out.push(String::from_str(s.substring_char(start, k)));
            assert(out.deep_view() =~= before.push(s@.subrange(start as int, k as int)));
            assert(before + (seq![s@.subrange(start as int, k as int)] + pieces_from(
                s@,
                c,
                k + 1,
                k + 1,
            )) =~= out.deep_view() + pieces_from(s@, c, k + 1, k + 1));
            start = k + 1;
        }
        k += 1;
    }
    let ghost before = out.deep_view();
    out.push(String::from_str(s.substring_char(start, m)));
    assert(out.deep_view() =~= before + seq![s@.subrange(start as int, m as int)]);
    out
}

pub fn join(parts: &Vec<String>, sep: &str) -> (r: String)
    ensures
        r@ == joined(parts.deep_view(), sep@),
{
    let mut out = String::new();
    let mut i: usize = 0;
    while i < parts.len()
        invariant
            i <= parts.len(),
            out@ == joined_upto(parts.deep_view(), sep@, i as int),
        decreases parts.len() - i,
    {
        let ghost before = out@;
        if i > 0 {
            out.append(sep);
        }
        out.append(parts[i].as_str());
        assert(parts.deep_view()[i as int] == parts[i as int]@);
        assert(Seq::<char>::empty() + parts[i as int]@ =~= parts[i as int]@);
        i += 1;
    }
    out
}

/// The parts one after another.
pub fn glue(parts: &Vec<String>) -> (r: String)
    ensures
        r@ == concat(parts.deep_view()),
{
    let mut out = String::new();
    let mut i: usize = 0;
    while i < parts.len()
        invariant
            i <= parts.len(),
            out@ == concat_upto(parts.deep_view(), i as int),
        decreases parts.len() - i,
    {
        out.append(parts[i].as_str());
        assert(parts.deep_view()[i as int] == parts[i as int]@);
        i += 1;
    }
    out
}

/// The white-space separated word number `n`, counted from 0.
pub fn nth_word(s: &str, n: usize) -> (r: Option<String>)
    ensures
        r is Some == word(s@, n as nat) is Some,
        r matches Some(t) ==> word(s@, n as nat) == Some(t@),
{
    let m = s.unicode_len();
    let mut left: usize = n;
    let mut i: usize = 0;
    loop
        invariant
            i <= m,
            m == s@.len(),
            word(s@, n as nat) == word_from(s@, left as nat, i as int),
        decreases left,
    {
        let mut a: usize = i;
        while a < m && space(s.get_char(a))
            invariant
                i <= a <= m,
                m == s@.len(),
                skip_spaces(s@, i as int) == skip_spaces(s@, a as int),
            decreases m - a,
        {
            a += 1;
        }
        if a >= m {
            return None;
        }
        let mut b: usize = a;
        while b < m && !space(s.get_char(b))
            invariant
                a <= b <= m,
                m == s@.len(),
                word_end(s@, a as int) == word_end(s@, b as int),
            decreases m - b,
        {
            b += 1;
        }
        if left == 0 {
            return Some(String::from_str(s.substring_char(a, b)));
        }
        left -= 1;
        i = b;
    }
}

fn digit_text(d: u64) -> (r: &'static str)
    requires
        d < 16,
    ensures
        r@ == seq![hex_char(d as int)],
{
    proof {
        reveal_strlit("0");
        reveal_strlit("1");
        reveal_strlit("2");
        reveal_strlit("3");
        reveal_strlit("4");
        reveal_strlit("5");
        reveal_strlit("6");
        reveal_strlit("7");
        reveal_strlit("8");
        reveal_strlit("9");
        reveal_strlit("A");
        reveal_strlit("B");
        reveal_strlit("C");
        reveal_strlit("D");
        reveal_strlit("E");
        reveal_strlit("F");
    }
    let r = if d == 0 {
        "0"
    } else if d == 1 {
        "1"
    } else if d == 2 {
        "2"
    } else if d == 3 {
        "3"
    } else if d == 4 {
        "4"
    } else if d == 5 {
        "5"
    } else if d == 6 {
        "6"
    } else if d == 7 {
        "7"
    } else if d == 8 {
        "8"
    } else if d == 9 {
        "9"
    } else if d == 10 {
        "A"
    } else if d == 11 {
        "B"
    } else if d == 12 {
        "C"
    } else if d == 13 {
        "D"
    } else if d == 14 {
        "E"
    } else {
        "F"
    };
    assert(r@ =~= seq![hex_char(d as int)]);
    r
}

pub fn u64_to_string(n: u64) -> (r: String)
    ensures
        r@ == decimal(n as nat),
    decreases n,
{
    if n < 10 {
        String::from_str(digit_text(n))
    } else {
        let mut s = u64_to_string(n / 10);
        s.append(digit_text(n % 10));
        s
    }
}

pub fn hex_byte(b: u8) -> (r: String)
    ensures
        r@ == hex_pair(b),
{
    let hi: u64 = (b / 16) as u64;
    let lo: u64 = (b % 16) as u64;
    let mut s = String::from_str(digit_text(hi));
    s.append(digit_text(lo));
    assert(s@ =~= hex_pair(b));
    s
}

proof fn lemma_digits_value_grows(s: Seq<char>, n: int, m: int)
    requires
        0 <= n <= m <= s.len(),
        all_digits(s),
    ensures
        0 <= digits_value(s, n) <= digits_value(s, m),
    decreases m,
{
    if m > 0 {
        assert(is_digit(s[m - 1]));
        if n < m {
            lemma_digits_value_grows(s, n, m - 1);
        } else {
            lemma_digits_value_grows(s, n - 1, m - 1);
        }
    }
}

/// Reads `s` as a number that fits `u32`.
pub fn parse_u32(s: &str) -> (r: Option<u32>)
    ensures
        r == number(s@),
{
    let m = s.unicode_len();
    let start: usize = if m > 0 && s.get_char(0) == '+' {
        1
    } else {
        0
    };
    let ghost body = if start == 1 {
        s@.skip(1)
    } else {
        s@
    };
    assert(body.len() == m - start);
    if start == m {
        return None;
    }
    let mut acc: u64 = 0;
    let mut i: usize = start;
    while i < m
        invariant
            start <= i <= m,
            m == s@.len(),
            body.len() == m - start,
            body.len() > 0,
            body == if s@.len() > 0 && s@[0] == '+' {
                s@.skip(1)
            } else {
                s@
            },
            forall|j: int| 0 <= j < body.len() ==> body[j] == s@[j + start],
            forall|j: int| 0 <= j < i - start ==> is_digit(#[trigger] body[j]),
            acc == digits_value(body, i - start),
            acc <= u32::MAX,
        decreases m - i,
    {
        let c = s.get_char(i);
        let v: u32 = c as u32;
        assert(body[i - start] == c);
        if v < 0x30 || v > 0x39 {
            assert(!is_digit(body[i - start]));
            return None;
        }
        let next: u64 = acc * 10 + (v - 0x30) as u64;
        assert(next == digits_value(body, i - start + 1));
        if next > 0xffff_ffff {
            proof {
                if all_digits(body) {
                    lemma_digits_value_grows(body, i - start + 1, body.len() as int);
                }
            }
            return None;
        }
        acc = next;
        i += 1;
    }
    assert(all_digits(body));
    Some(acc as u32)
}

/// The value of the first `n` characters depends on them alone.
proof fn lemma_digits_value_of_prefix(s: Seq<char>, t: Seq<char>, n: int)
    requires
        0 <= n <= s.len(),
        n <= t.len(),
        forall|i: int| 0 <= i < n ==> s[i] == t[i],
    ensures
        digits_value(s, n) == digits_value(t, n),
    decreases n,
{
    if n > 0 {
        lemma_digits_value_of_prefix(s, t, n - 1);
    }
}

/// A number written in decimal is made of digits and reads back as
/// itself.
pub proof fn lemma_decimal_reads_back(k: nat)
    ensures
        decimal(k).len() > 0,
        all_digits(decimal(k)),
        digits_value(decimal(k), decimal(k).len() as int) == k,
    decreases k,
{
    if k < 10 {
        let s = decimal(k);
        assert(s.len() == 1);
        assert(s[0] == digit_char(k as int));
        assert(is_digit(s[0]) && digit_value(s[0]) == k);
        assert(digits_value(s, 1) == digits_value(s, 0) * 10 + digit_value(s[0]));
    } else {
        lemma_decimal_reads_back(k / 10);
        let head = decimal(k / 10);
        let d = digit_char((k % 10) as int);
        let s = decimal(k);
        assert(s == head + seq![d]);
        assert(s.len() == head.len() + 1);
        assert(s[head.len() as int] == d);
        assert(is_digit(d) && digit_value(d) == k % 10);
        assert forall|i: int| 0 <= i < s.len() implies is_digit(#[trigger] s[i]) by {
            if i < head.len() {
                assert(s[i] == head[i]);
            }
        }
        lemma_digits_value_of_prefix(s, head, head.len() as int);
        assert(digits_value(s, s.len() as int) == digits_value(s, head.len() as int) * 10
            + digit_value(s[head.len() as int]));
    }
}

/// A number that fits `u32`, written in decimal, is read as that number.
pub proof fn lemma_number_of_decimal(k: u32)
    ensures
        number(decimal(k as nat)) == Some(k),
{
    lemma_decimal_reads_back(k as nat);
    let s = decimal(k as nat);
    assert(is_digit(s[0]));
    assert(s[0] != '+');
}

} // verus!
