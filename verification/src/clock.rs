//! Reading a duration out of the banner that the engine prints about a
//! file: the line that names it, and the clock time on that line.

use vstd::prelude::*;
use crate::text::{chars_of, digit_value, is_digit, matches_at, numeral_value, occurs_at};
use crate::words::{is_whitespace, whitespace};

verus! {

/// The first position from `from` on at which `s` holds `c`; the length of
/// `s` where it holds none.
pub open spec fn index_of(s: Seq<char>, c: char, from: int) -> int
    decreases s.len() - from,
{
    if from < 0 || from >= s.len() {
        s.len() as int
    } else if s[from] == c {
        from
    } else {
        index_of(s, c, from + 1)
    }
}

/// The first position from `from` on at which `needle` stands in `hay`.
pub open spec fn find_from(hay: Seq<char>, needle: Seq<char>, from: int) -> Option<int>
    decreases hay.len() - from,
{
    if from < 0 || from + needle.len() > hay.len() {
        None
    } else if occurs_at(hay, needle, from) {
        Some(from)
    } else if from >= hay.len() {
        None
    } else {
        find_from(hay, needle, from + 1)
    }
}

/// The first position at which `needle` stands in `hay`.
pub open spec fn find_text(hay: Seq<char>, needle: Seq<char>) -> Option<int> {
    find_from(hay, needle, 0)
}

/// Every character of `s` is a decimal digit.
pub open spec fn all_digits(s: Seq<char>) -> bool {
    forall|i: int| 0 <= i < s.len() ==> is_digit(#[trigger] s[i])
}

/// The number that `s` writes, where `s` is one or more digits and the
/// number fits 64 bits.
pub open spec fn whole_value(s: Seq<char>) -> Option<nat> {
    if s.len() > 0 && all_digits(s) && numeral_value(s) <= u64::MAX {
        Some(numeral_value(s))
    } else {
        None
    }
}

/// The value of the digits `f` after a decimal point, where the first is
/// worth `unit`; digits worth less than one are dropped.
pub open spec fn fraction_value(f: Seq<char>, unit: nat) -> nat
    decreases f.len(),
{
    if f.len() == 0 || unit == 0 {
        0
    } else {
        (digit_value(f[0]) * unit + fraction_value(f.drop_first(), unit / 10)) as nat
    }
}

/// The microseconds that `s` writes as seconds: digits, then optionally a
/// point and more digits.
pub open spec fn seconds_value(s: Seq<char>) -> Option<nat> {
    let dot = index_of(s, '.', 0);
    let whole = s.subrange(0, dot);
    let fraction = if dot < s.len() {
        s.subrange(dot + 1, s.len() as int)
    } else {
        Seq::<char>::empty()
    };
    match whole_value(whole) {
        Some(w) => if all_digits(fraction) {
            Some(w * 1_000_000 + fraction_value(fraction, 100_000))
        } else {
            None
        },
        None => None,
    }
}

/// The microseconds that `t` writes as a clock time: hours, minutes and
/// seconds with exactly two colons between them, where the whole fits 64
/// bits.
pub open spec fn clock_value(t: Seq<char>) -> Option<nat> {
    let first = index_of(t, ':', 0);
    let second = index_of(t, ':', first + 1);
    if first >= t.len() || second >= t.len() || index_of(t, ':', second + 1) < t.len() {
        None
    } else {
        match (
            whole_value(t.subrange(0, first)),
            whole_value(t.subrange(first + 1, second)),
            seconds_value(t.subrange(second + 1, t.len() as int)),
        ) {
            (Some(h), Some(m), Some(s)) => {
                let total = (h * 3600 + m * 60) * 1_000_000 + s;
                if total <= u64::MAX {
                    Some(total)
                } else {
                    None
                }
            },
            _ => None,
        }
    }
}

/// The first position from `from` on at which `s` holds no white space.
pub open spec fn skip_blank(s: Seq<char>, from: int) -> int
    decreases s.len() - from,
{
    if from < 0 || from >= s.len() {
        s.len() as int
    } else if !whitespace(s[from]) {
        from
    } else {
        skip_blank(s, from + 1)
    }
}

/// The end of `s` before `to` without the white space that stands there,
/// but not before `floor`.
pub open spec fn end_blank(s: Seq<char>, to: int, floor: int) -> int
    decreases to,
{
    if to <= floor || to > s.len() || to <= 0 {
        floor
    } else if !whitespace(s[to - 1]) {
        to
    } else {
        end_blank(s, to - 1, floor)
    }
}

/// `s` without the white space at its ends.
pub open spec fn trim_text(s: Seq<char>) -> Seq<char> {
    let from = skip_blank(s, 0);
    s.subrange(from, end_blank(s, s.len() as int, from))
}

/// What follows the first `marker` in `line`, up to the next `marker` if
/// there is one.
pub open spec fn piece_after(line: Seq<char>, marker: Seq<char>) -> Option<Seq<char>> {
    match find_text(line, marker) {
        None => None,
        Some(at) => {
            let after = line.subrange(at + marker.len(), line.len() as int);
            match find_text(after, marker) {
                Some(stop) => Some(after.subrange(0, stop)),
                None => Some(after),
            }
        },
    }
}

/// The duration that a line of the banner names: the clock time between
/// `Duration:`, or `duration:` where the line does not hold the former,
/// and the next comma.
pub open spec fn line_duration(line: Seq<char>) -> Option<nat> {
    let marker = if find_text(line, "Duration:"@) is Some {
        "Duration:"@
    } else {
        "duration:"@
    };
    match piece_after(line, marker) {
        None => None,
        Some(piece) => clock_value(trim_text(piece.subrange(0, index_of(piece, ',', 0)))),
    }
}

/// The duration that a banner names: that of its first line that names
/// one.
pub open spec fn banner_value(text: Seq<char>) -> Option<nat>
    decreases text.len(),
{
    let end = index_of(text, '\n', 0);
    match line_duration(text.subrange(0, end)) {
        Some(d) => Some(d),
        None => if end < 0 || end >= text.len() {
            None
        } else {
            banner_value(text.subrange(end + 1, text.len() as int))
        },
    }
}

/// The number inside an outcome.
pub open spec fn as_nat(r: Option<u64>) -> Option<nat> {
    match r {
        Some(v) => Some(v as nat),
        None => None,
    }
}

/// The first position from `from` on at which `s` holds `c`.
pub fn position_of(s: &Vec<char>, c: char, from: usize) -> (at: usize)
    requires
        from <= s.len(),
    ensures
        at == index_of(s@, c, from as int),
        from <= at <= s.len(),
{
    let mut i: usize = from;
    while i < s.len()
        invariant
            from <= i <= s.len(),
            index_of(s@, c, from as int) == index_of(s@, c, i as int),
        decreases s.len() - i,
    {
        if s[i] == c {
            return i;
        }
        i += 1;
    }
    i
}

/// The characters of `s` from `from` up to `to`.
pub fn part(s: &Vec<char>, from: usize, to: usize) -> (out: Vec<char>)
    requires
        from <= to <= s.len(),
    ensures
        out@ == s@.subrange(from as int, to as int),
{
    let mut out: Vec<char> = Vec::new();
    let mut i: usize = from;
    while i < to
        invariant
            from <= i <= to <= s.len(),
            out@ == s@.subrange(from as int, i as int),
        decreases to - i,
    {
        out.push(s[i]);
        assert(out@ =~= s@.subrange(from as int, i + 1));
        i += 1;
    }
    assert(out@ =~= s@.subrange(from as int, to as int));
    out
}

fn digit_number(c: char) -> (d: Option<u8>)
    ensures
        match d {
            Some(v) => is_digit(c) && v == digit_value(c) && v < 10,
            None => !is_digit(c),
        },
{
    if c == '0' {
        Some(0)
    } else if c == '1' {
        Some(1)
    } else if c == '2' {
        Some(2)
    } else if c == '3' {
        Some(3)
    } else if c == '4' {
        Some(4)
    } else if c == '5' {
        Some(5)
    } else if c == '6' {
        Some(6)
    } else if c == '7' {
        Some(7)
    } else if c == '8' {
        Some(8)
    } else if c == '9' {
        Some(9)
    } else {
        None
    }
}

proof fn lemma_numeral_grows(s: Seq<char>, k: int)
    requires
        all_digits(s),
        0 <= k <= s.len(),
    ensures
        numeral_value(s.take(k)) <= numeral_value(s),
    decreases s.len() - k,
{
    if k < s.len() {
        lemma_numeral_grows(s, k + 1);
        assert(s.take(k + 1).drop_last() =~= s.take(k));
        assert(is_digit(s[k]));
    } else {
        assert(s.take(k) =~= s);
    }
}

/// Reads one or more digits as a number that fits 64 bits.
pub fn parse_whole(s: &Vec<char>) -> (r: Option<u64>)
    ensures
        as_nat(r) == whole_value(s@),
{
    if s.len() == 0 {
        return None;
    }
    let mut value: u64 = 0;
    let mut i: usize = 0;
    assert(s@.take(0) =~= Seq::<char>::empty());
    while i < s.len()
        invariant
            i <= s.len(),
            s.len() > 0,
            forall|k: int| 0 <= k < i ==> is_digit(#[trigger] s@[k]),
            value == numeral_value(s@.take(i as int)),
        decreases s.len() - i,
    {
        proof {
            assert(s@.take(i + 1).drop_last() =~= s@.take(i as int));
        }
        let d: u64 = match digit_number(s[i]) {
            Some(d) => d as u64,
            None => {
                return None;
            },
        };
        if value > (u64::MAX - d) / 10 {
            proof {
                if all_digits(s@) {
                    lemma_numeral_grows(s@, i + 1);
                }
            }
            return None;
        }
        value = value * 10 + d;
        i += 1;
    }
    assert(s@.take(i as int) =~= s@);
    Some(value)
}

proof fn lemma_fraction_bound(f: Seq<char>, unit: nat)
    requires
        all_digits(f),
        unit == 0 || unit == 1 || unit == 10 || unit == 100 || unit == 1_000 || unit == 10_000
            || unit == 100_000,
    ensures
        fraction_value(f, unit) < 10 * unit || (unit == 0 && fraction_value(f, unit) == 0),
    decreases f.len(),
{
    if f.len() > 0 && unit > 0 {
        assert(is_digit(f[0]));
        assert(all_digits(f.drop_first())) by {
            assert forall|i: int| 0 <= i < f.drop_first().len() implies is_digit(
                #[trigger] f.drop_first()[i],
            ) by {
                assert(f.drop_first()[i] == f[i + 1]);
            }
        }
        lemma_fraction_bound(f.drop_first(), unit / 10);
    }
}

/// Reads the digits after a decimal point as microseconds.
pub fn parse_fraction(f: &Vec<char>) -> (r: Option<u64>)
    ensures
        match r {
            Some(v) => all_digits(f@) && v == fraction_value(f@, 100_000) && v < 1_000_000,
            None => !all_digits(f@),
        },
{
    let mut value: u64 = 0;
    let mut unit: u64 = 100_000;
    let mut i: usize = 0;
    assert(f@.skip(0) =~= f@);
    while i < f.len()
        invariant
            i <= f.len(),
            unit == 0 || unit == 1 || unit == 10 || unit == 100 || unit == 1_000 || unit == 10_000
                || unit == 100_000,
            forall|k: int| 0 <= k < i ==> is_digit(#[trigger] f@[k]),
            value + fraction_value(f@.skip(i as int), unit as nat) == fraction_value(
                f@,
                100_000,
            ),
            value + (if unit > 0 { 10 * unit } else { 1 }) <= 1_000_000,
        decreases f.len() - i,
    {
        let d: u64 = match digit_number(f[i]) {
            Some(d) => d as u64,
            None => {
                return None;
            },
        };
        proof {
            assert(f@.skip(i as int).drop_first() =~= f@.skip(i + 1));
            assert(f@.skip(i as int)[0] == f@[i as int]);
            assert(d * unit <= 9 * unit) by (nonlinear_arith)
                requires
                    d <= 9,
            ;
        }
        value = value + d * unit;
        unit = unit / 10;
        i += 1;
    }
    assert(f@.skip(i as int) =~= Seq::<char>::empty());
    Some(value)
}

/// Reads seconds, with or without a fraction, as microseconds.
pub fn parse_seconds(s: &Vec<char>) -> (r: Option<u128>)
    ensures
        match r {
            Some(v) => seconds_value(s@) == Some(v as nat) && v <= u64::MAX * 1_000_000
                + 999_999,
            None => seconds_value(s@) is None,
        },
{
    let dot: usize = position_of(s, '.', 0);
    let whole = part(s, 0, dot);
    let fraction = if dot < s.len() {
        part(s, dot + 1, s.len())
    } else {
        Vec::new()
    };
    let w: u64 = match parse_whole(&whole) {
        Some(w) => w,
        None => {
            return None;
        },
    };
    let f: u64 = match parse_fraction(&fraction) {
        Some(f) => f,
        None => {
            return None;
        },
    };
    Some(w as u128 * 1_000_000 + f as u128)
}

/// Reads a clock time of hours, minutes and seconds as microseconds.
pub fn parse_clock_time(t: &Vec<char>) -> (r: Option<u64>)
    ensures
        as_nat(r) == clock_value(t@),
{
    let first: usize = position_of(t, ':', 0);
    if first >= t.len() {
        return None;
    }
    let second: usize = position_of(t, ':', first + 1);
    if second >= t.len() {
        return None;
    }
    if position_of(t, ':', second + 1) < t.len() {
        return None;
    }
    let hours = part(t, 0, first);
    let minutes = part(t, first + 1, second);
    let seconds = part(t, second + 1, t.len());
    let h: u64 = match parse_whole(&hours) {
        Some(h) => h,
        None => {
            return None;
        },
    };
    let m: u64 = match parse_whole(&minutes) {
        Some(m) => m,
        None => {
            return None;
        },
    };
    let s: u128 = match parse_seconds(&seconds) {
        Some(s) => s,
        None => {
            return None;
        },
    };
    let total: u128 = (h as u128 * 3600 + m as u128 * 60) * 1_000_000 + s;
    if total <= u64::MAX as u128 {
        Some(total as u64)
    } else {
        None
    }
}

/// `s` without the white space at its ends.
pub fn trim(s: &Vec<char>) -> (out: Vec<char>)
    ensures
        out@ == trim_text(s@),
{
    let mut from: usize = 0;
    while from < s.len() && is_whitespace(s[from])
        invariant
            from <= s.len(),
            skip_blank(s@, 0) == skip_blank(s@, from as int),
        decreases s.len() - from,
    {
        from += 1;
    }
    let mut to: usize = s.len();
    while to > from && is_whitespace(s[to - 1])
        invariant
            from <= to <= s.len(),
            end_blank(s@, s@.len() as int, from as int) == end_blank(s@, to as int, from as int),
        decreases to,
    {
        to -= 1;
    }
    part(s, from, to)
}

/// The position inside an outcome.
pub open spec fn as_int(r: Option<usize>) -> Option<int> {
    match r {
        Some(v) => Some(v as int),
        None => None,
    }
}

/// The first position at which `needle` stands in `hay`.
pub fn find(hay: &Vec<char>, needle: &Vec<char>) -> (r: Option<usize>)
    ensures
        as_int(r) == find_text(hay@, needle@),
        r matches Some(at) ==> at + needle.len() <= hay.len(),
{
    if needle.len() > hay.len() {
        return None;
    }
    let last: usize = hay.len() - needle.len();
    let mut at: usize = 0;
    while at < last
        invariant
            last == hay.len() - needle.len(),
            at <= last,
            find_text(hay@, needle@) == find_from(hay@, needle@, at as int),
        decreases last - at,
    {
        if matches_at(hay, needle, at) {
            return Some(at);
        }
        at += 1;
    }
    if matches_at(hay, needle, last) {
        Some(last)
    } else {
        assert(find_from(hay@, needle@, last + 1) is None);
        None
    }
}

/// What follows the first `marker` in `line`, up to the next `marker`.
pub fn take_after(line: &Vec<char>, marker: &Vec<char>) -> (r: Option<Vec<char>>)
    ensures
        match r {
            Some(piece) => piece_after(line@, marker@) == Some(piece@),
            None => piece_after(line@, marker@) is None,
        },
{
    let at: usize = match find(line, marker) {
        Some(at) => at,
        None => {
            return None;
        },
    };
    let after = part(line, at + marker.len(), line.len());
    match find(&after, marker) {
        Some(stop) => Some(part(&after, 0, stop)),
        None => Some(after),
    }
}

/// The duration that one line of the banner names, if it names one.
pub fn duration_in_line(line: &Vec<char>) -> (r: Option<u64>)
    ensures
        as_nat(r) == line_duration(line@),
{
    let upper = chars_of("Duration:");
    let lower = chars_of("duration:");
    let marker = if find(line, &upper).is_some() {
        upper
    } else {
        lower
    };
    let piece: Vec<char> = match take_after(line, &marker) {
        Some(piece) => piece,
        None => {
            return None;
        },
    };
    let comma: usize = position_of(&piece, ',', 0);
    let time = trim(&part(&piece, 0, comma));
    parse_clock_time(&time)
}

/// The duration that the banner of the engine names for a file, in
/// microseconds, if it names one.
pub fn banner_duration(stderr: &str) -> (r: Option<u64>)
    ensures
        as_nat(r) == banner_value(stderr@),
{
    let text = chars_of(stderr);
    let mut from: usize = 0;
    assert(text@.subrange(0, text@.len() as int) =~= text@);
    loop
        invariant
            from <= text.len(),
            text@ == stderr@,
            banner_value(stderr@) == banner_value(text@.subrange(from as int, text@.len() as int)),
        decreases text.len() - from,
    {
        let ghost rest = text@.subrange(from as int, text@.len() as int);
        let end: usize = position_of(&text, '\n', from);
        let line = part(&text, from, end);
        proof {
            lemma_index_of_shift(text@, '\n', from as int, from as int);
            assert(rest.subrange(0, end - from) =~= line@);
        }
        if let Some(d) = duration_in_line(&line) {
            return Some(d);
        }
        if end >= text.len() {
            return None;
        }
        proof {
            assert(rest.subrange(end - from + 1, rest.len() as int) =~= text@.subrange(
                end + 1,
                text@.len() as int,
            ));
        }
        from = end + 1;
    }
}

proof fn lemma_index_of_shift(s: Seq<char>, c: char, from: int, at: int)
    requires
        0 <= from <= at <= s.len(),
    ensures
        index_of(s.subrange(from, s.len() as int), c, at - from) == index_of(s, c, at) - from,
    decreases s.len() - at,
{
    let rest = s.subrange(from, s.len() as int);
    if at < s.len() {
        assert(rest[at - from] == s[at]);
        if s[at] != c {
            lemma_index_of_shift(s, c, from, at + 1);
        }
    }
}

/// The microseconds that `text` writes as seconds, white space at its ends
/// aside, where they fit 64 bits.
pub open spec fn seconds_text_value(text: Seq<char>) -> Option<nat> {
    match seconds_value(trim_text(text)) {
        Some(v) => if v <= u64::MAX {
            Some(v)
        } else {
            None
        },
        None => None,
    }
}

/// Reads a text that writes seconds, as a probe prints them, as
/// microseconds.
pub fn seconds_in_text(text: &str) -> (r: Option<u64>)
    ensures
        as_nat(r) == seconds_text_value(text@),
{
    let chars = chars_of(text);
    seconds_in_chars(&chars)
}

fn seconds_in_chars(chars: &Vec<char>) -> (r: Option<u64>)
    ensures
        as_nat(r) == seconds_text_value(chars@),
{
    match parse_seconds(&trim(chars)) {
        Some(v) => {
            if v <= u64::MAX as u128 {
                Some(v as u64)
            } else {
                None
            }
        },
        None => None,
    }
}

/// The latest of the times that the lines of `text` write, each in
/// seconds; zero where no line writes one.
pub open spec fn latest_value(text: Seq<char>) -> nat
    decreases text.len(),
{
    let end = index_of(text, '\n', 0);
    let here = match seconds_text_value(text.subrange(0, end)) {
        Some(v) => v,
        None => 0,
    };
    if end < 0 || end >= text.len() {
        here
    } else {
        let later = latest_value(text.subrange(end + 1, text.len() as int));
        if here >= later {
            here
        } else {
            later
        }
    }
}

/// The latest of the times that the lines of `text` write, in
/// microseconds: the duration of a stream whose packets are listed one to
/// a line. Nothing where no line writes a time after zero.
pub fn latest_time(text: &str) -> (r: Option<u64>)
    ensures
        match r {
            Some(v) => v > 0 && v == latest_value(text@),
            None => latest_value(text@) == 0,
        },
{
    let chars = chars_of(text);
    let mut best: u64 = 0;
    let mut from: usize = 0;
    assert(chars@.subrange(0, chars@.len() as int) =~= chars@);
    loop
        invariant
            from <= chars.len(),
            chars@ == text@,
            latest_value(text@) == (if best >= latest_value(
                chars@.subrange(from as int, chars@.len() as int),
            ) {
                best as nat
            } else {
                latest_value(chars@.subrange(from as int, chars@.len() as int))
            }),
        decreases chars.len() - from,
    {
        let ghost rest = chars@.subrange(from as int, chars@.len() as int);
        let end: usize = position_of(&chars, '\n', from);
        let line = part(&chars, from, end);
        proof {
            lemma_index_of_shift(chars@, '\n', from as int, from as int);
            assert(rest.subrange(0, end - from) =~= line@);
            if end < chars.len() {
                assert(rest.subrange(end - from + 1, rest.len() as int) =~= chars@.subrange(
                    end + 1,
                    chars@.len() as int,
                ));
            }
        }
        if let Some(v) = seconds_in_chars(&line) {
            if v > best {
                best = v;
            }
        }
        if end >= chars.len() {
            return if best > 0 {
                Some(best)
            } else {
                None
            };
        }
        from = end + 1;
    }
}

} // verus!
