//! Character-level building blocks shared by the codecs: conversion between
//! strings and character vectors, decimal integers, prefixes and splitting.
//!
//! Every contract is stated over `Seq<char>`, the view of a string.

use vstd::prelude::*;

verus! {

/// `String::push` appends one character and changes nothing else.
pub assume_specification[ String::push ](s: &mut String, ch: char)
    ensures
        final(s)@ == old(s)@.push(ch),
;

/// The characters of a string slice, in order.
pub fn to_chars(s: &str) -> (r: Vec<char>)
    ensures
        r@ == s@,
{
    let mut out: Vec<char> = Vec::new();
    for c in it: s.chars()
        invariant
            out@ == s@.take(it.index() as int),
            it.seq() == s@,
    {
        out.push(c);
    }
    out
}

/// The string made of the characters `v[from..to]`.
pub fn to_text(v: &Vec<char>, from: usize, to: usize) -> (r: String)
    requires
        from <= to <= v.len(),
    ensures
        r@ == v@.subrange(from as int, to as int),
{
    let mut out = String::new();
    let mut i: usize = from;
    while i < to
        invariant
            from <= i <= to <= v.len(),
            out@ == v@.subrange(from as int, i as int),
        decreases to - i,
    {
        out.push(v[i]);
        i += 1;
    }
    out
}

/// Whether `pattern` occurs in `s` at position `at`.
pub open spec fn occurs_at(s: Seq<char>, at: int, pattern: Seq<char>) -> bool {
    &&& 0 <= at
    &&& at + pattern.len() <= s.len()
    &&& s.subrange(at, at + pattern.len()) == pattern
}

/// Whether `pattern` occurs anywhere in `s`.
pub open spec fn occurs(s: Seq<char>, pattern: Seq<char>) -> bool {
    exists|at: int| occurs_at(s, at, pattern)
}

/// Whether `s` ends with `pattern`.
pub open spec fn ends_with(s: Seq<char>, pattern: Seq<char>) -> bool {
    occurs_at(s, s.len() - pattern.len(), pattern)
}

/// Tests whether `pattern` occurs in `s` at position `at`.
pub fn matches_at(s: &Vec<char>, at: usize, pattern: &Vec<char>) -> (r: bool)
    ensures
        r == occurs_at(s@, at as int, pattern@),
{
    if at > s.len() || pattern.len() > s.len() - at {
        return false;
    }
    let mut i: usize = 0;
    while i < pattern.len()
        invariant
            at + pattern.len() <= s.len(),
            i <= pattern.len(),
            forall|j: int| 0 <= j < i ==> s@[at + j] == pattern@[j],
        decreases pattern.len() - i,
    {
        if s[at + i] != pattern[i] {
            proof {
                let window = s@.subrange(at as int, at + pattern.len());
                assert(window[i as int] != pattern@[i as int]);
            }
            return false;
        }
        i += 1;
    }
    assert(s@.subrange(at as int, at + pattern.len()) =~= pattern@);
    true
}

/// Whether `at` is the first position at which `pattern` occurs in `s`.
pub open spec fn first_at(s: Seq<char>, at: int, pattern: Seq<char>) -> bool {
    &&& occurs_at(s, at, pattern)
    &&& forall|k: int| 0 <= k < at ==> !occurs_at(s, k, pattern)
}

/// The first position at which `pattern` occurs in `s`, if it occurs.
pub open spec fn first_occurrence(s: Seq<char>, pattern: Seq<char>) -> Option<int> {
    if exists|at: int| first_at(s, at, pattern) {
        Some(choose|at: int| first_at(s, at, pattern))
    } else {
        None
    }
}

/// A first position is the only one.
pub proof fn lemma_first_occurrence(s: Seq<char>, at: int, pattern: Seq<char>)
    requires
        first_at(s, at, pattern),
    ensures
        first_occurrence(s, pattern) == Some(at),
{
    let chosen = choose|k: int| first_at(s, k, pattern);
    assert(first_at(s, chosen, pattern));
    assert(chosen == at) by {
        if chosen < at {
            assert(!occurs_at(s, chosen, pattern));
        }
        if at < chosen {
            assert(!occurs_at(s, at, pattern));
        }
    }
}

/// Finds the first position at which `pattern` occurs in `s`.
pub fn find(s: &Vec<char>, pattern: &Vec<char>) -> (r: Option<usize>)
    ensures
        r is Some == occurs(s@, pattern@),
        match r {
            Some(at) => first_at(s@, at as int, pattern@) && first_occurrence(s@, pattern@) == Some(
                at as int,
            ),
            None => first_occurrence(s@, pattern@) is None,
        },
{
    if pattern.len() > s.len() {
        return None;
    }
    let last: usize = s.len() - pattern.len();
    let mut at: usize = 0;
    loop
        invariant
            last == s.len() - pattern.len(),
            at <= last,
            forall|k: int| 0 <= k < at ==> !occurs_at(s@, k, pattern@),
        decreases last - at,
    {
        if matches_at(s, at, pattern) {
            proof {
                lemma_first_occurrence(s@, at as int, pattern@);
            }
            return Some(at);
        }
        if at == last {
            return None;
        }
        at += 1;
    }
}

/// Tests whether `pattern` occurs anywhere in `s`.
pub fn contains(s: &Vec<char>, pattern: &Vec<char>) -> (r: bool)
    ensures
        r == occurs(s@, pattern@),
{
    find(s, pattern).is_some()
}

/// The pieces of `s` between occurrences of `sep`; an empty `s` has one
/// empty piece, and `n` separators make `n + 1` pieces.
pub open spec fn split(s: Seq<char>, sep: char) -> Seq<Seq<char>>
    decreases s.len(),
{
    if s.len() == 0 {
        seq![Seq::empty()]
    } else {
        let before = split(s.drop_last(), sep);
        if s.last() == sep {
            before.push(Seq::empty())
        } else {
            before.drop_last().push(before.last().push(s.last()))
        }
    }
}

/// A split always has at least one piece.
pub proof fn lemma_split_nonempty(s: Seq<char>, sep: char)
    ensures
        split(s, sep).len() >= 1,
    decreases s.len(),
{
    if s.len() > 0 {
        lemma_split_nonempty(s.drop_last(), sep);
    }
}

/// The pieces of two texts joined by a separator are the pieces of the first
/// and then those of the second.
pub proof fn lemma_split_joined(head: Seq<char>, tail: Seq<char>, sep: char)
    ensures
        split(head.push(sep) + tail, sep) == split(head, sep) + split(tail, sep),
    decreases tail.len(),
{
    let whole = head.push(sep) + tail;
    if tail.len() == 0 {
        assert(whole.drop_last() =~= head);
        assert(split(head, sep).push(Seq::empty()) =~= split(head, sep) + split(tail, sep));
    } else {
        let shorter = tail.drop_last();
        assert(whole.drop_last() =~= head.push(sep) + shorter);
        assert(whole.last() == tail.last());
        lemma_split_joined(head, shorter, sep);
        lemma_split_nonempty(shorter, sep);
        let before = split(head, sep) + split(shorter, sep);
        if tail.last() == sep {
            assert(before.push(Seq::empty()) =~= split(head, sep) + split(tail, sep));
        } else {
            assert(before.drop_last() =~= split(head, sep) + split(shorter, sep).drop_last());
            assert(before.last() == split(shorter, sep).last());
            assert(before.drop_last().push(before.last().push(tail.last())) =~= split(head, sep)
                + split(tail, sep));
        }
    }
}

/// The views of a vector of character vectors.
pub open spec fn pieces_view(v: Seq<Vec<char>>) -> Seq<Seq<char>> {
    Seq::new(v.len(), |i: int| v[i]@)
}

/// Splits `s[from..to]` at every `sep`.
pub fn split_chars(s: &Vec<char>, from: usize, to: usize, sep: char) -> (r: Vec<Vec<char>>)
    requires
        from <= to <= s.len(),
    ensures
        pieces_view(r@) == split(s@.subrange(from as int, to as int), sep),
        r.len() >= 1,
{
    let mut done: Vec<Vec<char>> = Vec::new();
    let mut current: Vec<char> = Vec::new();
    let mut i: usize = from;
    assert(s@.subrange(from as int, from as int) =~= Seq::<char>::empty());
    assert(pieces_view(done@).push(current@) =~= seq![Seq::<char>::empty()]);
    while i < to
        invariant
            from <= i <= to <= s.len(),
            pieces_view(done@).push(current@) == split(s@.subrange(from as int, i as int), sep),
        decreases to - i,
    {
        let c = s[i];
        proof {
            let next = s@.subrange(from as int, i + 1);
            assert(next.drop_last() =~= s@.subrange(from as int, i as int));
            assert(next.last() == c);
            assert(pieces_view(done@).push(current@).drop_last() =~= pieces_view(done@));
        }
        if c == sep {
            let ghost before = pieces_view(done@);
            let ghost piece = current@;
            done.push(current);
            current = Vec::new();
            assert(pieces_view(done@) =~= before.push(piece));
        } else {
            current.push(c);
        }
        i += 1;
    }
    let ghost before = pieces_view(done@);
    done.push(current);
    assert(pieces_view(done@) =~= before.push(current@));
    done
}

/// The character that stands for the digit `d`.
pub open spec fn digit_char(d: int) -> char {
    if d == 0 {
        '0'
    } else if d == 1 {
        '1'
    } else if d == 2 {
        '2'
    } else if d == 3 {
        '3'
    } else if d == 4 {
        '4'
    } else if d == 5 {
        '5'
    } else if d == 6 {
        '6'
    } else if d == 7 {
        '7'
    } else if d == 8 {
        '8'
    } else {
        '9'
    }
}

/// The decimal digits of a natural number, most significant first, without
/// leading zeros.
pub open spec fn digits(n: nat) -> Seq<char>
    decreases n,
{
    if n < 10 {
        seq![digit_char(n as int)]
    } else {
        digits(n / 10).push(digit_char((n % 10) as int))
    }
}

/// The decimal notation of an integer: a minus sign for a negative number,
/// then its digits.
pub open spec fn decimal(n: int) -> Seq<char> {
    if n < 0 {
        seq!['-'] + digits((-n) as nat)
    } else {
        digits(n as nat)
    }
}

fn digit_of(d: u64) -> (c: char)
    requires
        d < 10,
    ensures
        c == digit_char(d as int),
{
    if d == 0 {
        '0'
    } else if d == 1 {
        '1'
    } else if d == 2 {
        '2'
    } else if d == 3 {
        '3'
    } else if d == 4 {
        '4'
    } else if d == 5 {
        '5'
    } else if d == 6 {
        '6'
    } else if d == 7 {
        '7'
    } else if d == 8 {
        '8'
    } else {
        '9'
    }
}

/// Appends the decimal digits of `n` to `out`.
pub fn push_digits(out: &mut String, n: u64)
    ensures
        final(out)@ == old(out)@ + digits(n as nat),
    decreases n,
{
    if n >= 10 {
        push_digits(out, n / 10);
    }
    out.push(digit_of(n % 10));
    assert(old(out)@ + digits(n as nat) =~= if n < 10 {
        old(out)@.push(digit_char(n as int))
    } else {
        (old(out)@ + digits((n / 10) as nat)).push(digit_char((n % 10) as int))
    });
}

/// Appends the decimal notation of `n` to `out`.
pub fn push_decimal(out: &mut String, n: i64)
    ensures
        final(out)@ == old(out)@ + decimal(n as int),
{
    if n < 0 {
        out.push('-');
        let magnitude: u64 = (-(n + 1)) as u64 + 1;
        push_digits(out, magnitude);
        assert(old(out)@.push('-') + digits(magnitude as nat) =~= old(out)@ + decimal(n as int));
    } else {
        push_digits(out, n as u64);
    }
}

/// Appends every character of `s` to `out`.
pub fn push_str(out: &mut String, s: &str)
    ensures
        final(out)@ == old(out)@ + s@,
{
    out.append(s);
}

/// The decimal notation of a signed integer.
pub fn i64_to_string(n: i64) -> (r: String)
    ensures
        r@ == decimal(n as int),
{
    let mut out = String::new();
    push_decimal(&mut out, n);
    assert(Seq::<char>::empty() + decimal(n as int) =~= decimal(n as int));
    out
}

/// The decimal notation of an unsigned integer.
pub fn u64_to_string(n: u64) -> (r: String)
    ensures
        r@ == decimal(n as int),
{
    let mut out = String::new();
    push_digits(&mut out, n);
    assert(Seq::<char>::empty() + digits(n as nat) =~= digits(n as nat));
    out
}

/// The value of a decimal digit, if `c` is one.
pub open spec fn digit_value(c: char) -> Option<nat> {
    if c == '0' {
        Some(0)
    } else if c == '1' {
        Some(1)
    } else if c == '2' {
        Some(2)
    } else if c == '3' {
        Some(3)
    } else if c == '4' {
        Some(4)
    } else if c == '5' {
        Some(5)
    } else if c == '6' {
        Some(6)
    } else if c == '7' {
        Some(7)
    } else if c == '8' {
        Some(8)
    } else if c == '9' {
        Some(9)
    } else {
        None
    }
}

/// The number that a non-empty run of decimal digits writes; `None` for an
/// empty sequence or one that holds anything but digits.
pub open spec fn digits_value(s: Seq<char>) -> Option<nat>
    decreases s.len(),
{
    if s.len() == 0 {
        None
    } else if s.len() == 1 {
        digit_value(s[0])
    } else {
        match (digits_value(s.drop_last()), digit_value(s.last())) {
            (Some(high), Some(low)) => Some(high * 10 + low),
            _ => None,
        }
    }
}

/// The integer that `s` writes: an optional sign, `+` or `-`, followed by at
/// least one decimal digit and nothing else.
pub open spec fn integer_value(s: Seq<char>) -> Option<int> {
    if s.len() > 0 && s[0] == '-' {
        match digits_value(s.drop_first()) {
            Some(v) => Some(-(v as int)),
            None => None,
        }
    } else if s.len() > 0 && s[0] == '+' {
        match digits_value(s.drop_first()) {
            Some(v) => Some(v as int),
            None => None,
        }
    } else {
        match digits_value(s) {
            Some(v) => Some(v as int),
            None => None,
        }
    }
}

/// The 64-bit integer that `s` writes, if it writes one in range.
pub open spec fn i64_value(s: Seq<char>) -> Option<i64> {
    match integer_value(s) {
        Some(v) => if i64::MIN <= v <= i64::MAX {
            Some(v as i64)
        } else {
            None
        },
        None => None,
    }
}

/// The 32-bit integer that `s` writes, if it writes one in range.
pub open spec fn i32_value(s: Seq<char>) -> Option<i32> {
    match integer_value(s) {
        Some(v) => if i32::MIN <= v <= i32::MAX {
            Some(v as i32)
        } else {
            None
        },
        None => None,
    }
}

fn value_of(c: char) -> (r: Option<u64>)
    ensures
        r is Some == digit_value(c) is Some,
        r matches Some(d) ==> d < 10 && digit_value(c) == Some(d as nat),
{
    if c == '0' {
        Some(0)
    } else if c == '1' {
        Some(1)
    } else if c == '2' {
        Some(2)
    } else if c == '3' {
        Some(3)
    } else if c == '4' {
        Some(4)
    } else if c == '5' {
        Some(5)
    } else if c == '6' {
        Some(6)
    } else if c == '7' {
        Some(7)
    } else if c == '8' {
        Some(8)
    } else if c == '9' {
        Some(9)
    } else {
        None
    }
}

/// A run of digits is worth at least as much as any of its non-empty prefixes,
/// and a prefix that is no run of digits spoils the whole.
proof fn lemma_digits_prefix(s: Seq<char>, k: int)
    requires
        1 <= k <= s.len(),
    ensures
        digits_value(s.take(k)) is None ==> digits_value(s) is None,
        digits_value(s) matches Some(whole) ==> digits_value(s.take(k))->0 <= whole,
    decreases s.len(),
{
    if k == s.len() {
        assert(s.take(k) =~= s);
    } else {
        assert(s.len() >= 2);
        assert(s.drop_last().take(k) =~= s.take(k));
        lemma_digits_prefix(s.drop_last(), k);
    }
}

/// Reads the run of digits `s[from..]`, as long as its value stays at or
/// below `limit`.
fn read_digits(s: &Vec<char>, from: usize, limit: u64) -> (r: Option<u64>)
    requires
        from <= s.len(),
        9 <= limit <= 0x8000_0000_0000_0000,
    ensures
        r matches Some(v) ==> digits_value(s@.skip(from as int)) == Some(v as nat) && v <= limit,
        r is None ==> (digits_value(s@.skip(from as int)) matches Some(v) ==> v > limit),
{
    let ghost run = s@.skip(from as int);
    if from == s.len() {
        return None;
    }
    let mut acc: u64 = 0;
    let mut i: usize = from;
    while i < s.len()
        invariant
            from <= i <= s.len(),
            from < s.len(),
            run == s@.skip(from as int),
            9 <= limit <= 0x8000_0000_0000_0000,
            acc <= limit,
            i > from ==> digits_value(run.take(i - from)) == Some(acc as nat),
            i == from ==> acc == 0,
        decreases s.len() - i,
    {
        let ghost seen = run.take(i - from);
        let ghost next = run.take(i + 1 - from);
        proof {
            assert(next.drop_last() =~= seen);
            assert(next.last() == s@[i as int]);
            lemma_digits_prefix(run, i + 1 - from);
        }
        match value_of(s[i]) {
            None => {
                return None;
            },
            Some(d) => {
                if acc > (limit - d) / 10 {
                    assert(acc * 10 + d > limit);
                    return None;
                }
                acc = acc * 10 + d;
            },
        }
        i += 1;
    }
    assert(run.take(s.len() - from) =~= run);
    Some(acc)
}

/// Reads a signed 64-bit integer in decimal notation.
pub fn parse_i64(s: &str) -> (r: Option<i64>)
    ensures
        r == i64_value(s@),
{
    let chars = to_chars(s);
    if chars.len() > 0 && chars[0] == '-' {
        assert(chars@.skip(1) =~= chars@.drop_first());
        match read_digits(&chars, 1, 0x8000_0000_0000_0000) {
            Some(v) => if v == 0x8000_0000_0000_0000 {
                Some(i64::MIN)
            } else {
                Some(-(v as i64))
            },
            None => None,
        }
    } else if chars.len() > 0 && chars[0] == '+' {
        assert(chars@.skip(1) =~= chars@.drop_first());
        match read_digits(&chars, 1, 0x7fff_ffff_ffff_ffff) {
            Some(v) => Some(v as i64),
            None => None,
        }
    } else {
        assert(chars@.skip(0) =~= chars@);
        match read_digits(&chars, 0, 0x7fff_ffff_ffff_ffff) {
            Some(v) => Some(v as i64),
            None => None,
        }
    }
}

/// Reads a signed 32-bit integer in decimal notation.
pub fn parse_i32(s: &str) -> (r: Option<i32>)
    ensures
        r == i32_value(s@),
{
    match parse_i64(s) {
        Some(v) => if -0x8000_0000 <= v && v <= 0x7fff_ffff {
            Some(v as i32)
        } else {
            None
        },
        None => None,
    }
}

} // verus!
