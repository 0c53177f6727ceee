//! Settings as the environment gives them (name and text), and the parsing
//! of their values: integers and booleans as Rust's `FromStr` reads them,
//! and comma-separated lists.

use vstd::prelude::*;
use crate::text::{chars_of, string_of, white_space, is_whitespace, owned, str_eq, lowercase, to_lowercase, decimal_text, digit_char};

verus! {

/// Named settings, as read from the environment.
#[derive(Debug, Clone)]
pub struct Settings {
    /// Each setting's name and value, in the order they were read.
    pub entries: Vec<(String, String)>,
}

/// The value of the first setting with this name.
pub open spec fn lookup(entries: Seq<(String, String)>, name: Seq<char>) -> Option<Seq<char>>
    decreases entries.len(),
{
    if entries.len() == 0 {
        None
    } else if entries[0].0@ == name {
        Some(entries[0].1@)
    } else {
        lookup(entries.drop_first(), name)
    }
}

/// The view of an optional text.
pub open spec fn opt_chars(s: Option<&str>) -> Option<Seq<char>> {
    match s {
        Some(t) => Some(t@),
        None => None,
    }
}

impl Settings {
    /// No settings.
    pub fn empty() -> (s: Self)
        ensures
            s.entries@.len() == 0,
    {
        Settings { entries: Vec::new() }
    }

    /// The value of the setting with this name, if it is set.
    pub fn get(&self, name: &str) -> (r: Option<&str>)
        ensures
            opt_chars(r) == lookup(self.entries@, name@),
    {
        let mut i: usize = 0;
        assert(self.entries@.skip(0) =~= self.entries@);
        while i < self.entries.len()
            invariant
                i <= self.entries@.len(),
                lookup(self.entries@, name@) == lookup(self.entries@.skip(i as int), name@),
            decreases self.entries@.len() - i,
        {
            assert(self.entries@.skip(i as int)[0] == self.entries@[i as int]);
            assert(self.entries@.skip(i as int).drop_first() =~= self.entries@.skip(i + 1));
            if crate::text::str_eq(self.entries[i].0.as_str(), name) {
                return Some(self.entries[i].1.as_str());
            }
            i = i + 1;
        }
        assert(self.entries@.skip(i as int).len() == 0);
        None
    }
}

/// An ASCII decimal digit.
pub open spec fn is_digit(c: char) -> bool {
    '0' <= c <= '9'
}

/// Every character is a decimal digit.
pub open spec fn all_digits(d: Seq<char>) -> bool {
    forall|i: int| 0 <= i < d.len() ==> is_digit(#[trigger] d[i])
}

/// The value of a string of decimal digits.
pub open spec fn digits_value(d: Seq<char>) -> int
    decreases d.len(),
{
    if d.len() == 0 { 0 } else { 10 * digits_value(d.drop_last()) + (d.last() as int - 48) }
}

/// The integer a text denotes in the syntax of Rust's `FromStr` for
/// integers: an optional `+` (or, for signed types, `-`) and then one or more
/// decimal digits, nothing else.
pub open spec fn integer_text(s: Seq<char>, signed: bool) -> Option<int> {
    if s.len() == 0 {
        None
    } else if s[0] == '+' || (signed && s[0] == '-') {
        let d = s.drop_first();
        if d.len() > 0 && all_digits(d) {
            Some(if s[0] == '-' { -digits_value(d) } else { digits_value(d) })
        } else {
            None
        }
    } else if all_digits(s) {
        Some(digits_value(s))
    } else {
        None
    }
}

/// What `FromStr` of an integer type ranging over `lo..=hi` makes of a text.
pub open spec fn parsed_integer(s: Seq<char>, signed: bool, lo: int, hi: int) -> Option<int> {
    match integer_text(s, signed) {
        Some(v) => if lo <= v <= hi { Some(v) } else { None },
        None => None,
    }
}

/// The decimal text of a number is a nonempty string of digits denoting it.
pub proof fn lemma_decimal_text_value(n: nat)
    ensures
        decimal_text(n).len() > 0,
        all_digits(decimal_text(n)),
        digits_value(decimal_text(n)) == n,
    decreases n,
{
    assert((digit_char(n % 10) as int) == 48 + n % 10);
    if n < 10 {
        assert(decimal_text(n) == seq![digit_char(n)]);
        assert(decimal_text(n).drop_last() =~= Seq::<char>::empty());
        assert(digits_value(Seq::<char>::empty()) == 0);
        assert(decimal_text(n).last() == digit_char(n));
        assert(n % 10 == n);
    } else {
        lemma_decimal_text_value(n / 10);
        let d = decimal_text(n / 10);
        assert(decimal_text(n).drop_last() =~= d);
        assert(decimal_text(n).last() == digit_char(n % 10));
        assert(digits_value(decimal_text(n)) == 10 * digits_value(d) + (digit_char(n % 10) as int - 48));
        assert(n == 10 * (n / 10) + n % 10);
        assert forall|i: int| 0 <= i < decimal_text(n).len() implies is_digit(#[trigger] decimal_text(n)[i]) by {
            if i < d.len() {
                assert(decimal_text(n)[i] == d[i]);
            }
        }
    }
}

/// The decimal text of a `u64` reads back as that `u64`.
pub proof fn lemma_u64_text_round_trip(n: u64)
    ensures
        parsed_u64(decimal_text(n as nat)) == Some(n as int),
{
    lemma_decimal_text_value(n as nat);
    let d = decimal_text(n as nat);
    assert(is_digit(d[0]));
}

/// The value of digits is not negative.
proof fn lemma_digits_value_nonneg(d: Seq<char>)
    requires
        all_digits(d),
    ensures
        digits_value(d) >= 0,
    decreases d.len(),
{
    if d.len() > 0 {
        assert(is_digit(d[d.len() - 1]));
        lemma_digits_value_nonneg(d.drop_last());
    }
}

/// The bound beyond which a value is too large for every type parsed here.
const PARSE_CAP: i128 = 36893488147419103232;

/// Parse a text as an integer of the type ranging over `lo..=hi`.
pub fn parse_integer(s: &str, signed: bool, lo: i128, hi: i128) -> (r: Option<i128>)
    requires
        -18446744073709551616 <= lo <= hi <= 18446744073709551616,
    ensures
        match r {
            Some(v) => parsed_integer(s@, signed, lo as int, hi as int) == Some(v as int),
            None => parsed_integer(s@, signed, lo as int, hi as int) is None,
        },
{
    let v = chars_of(s);
    if v.len() == 0 {
        return None;
    }
    let negative = signed && v[0] == '-';
    let k: usize = if v[0] == '+' || negative { 1 } else { 0 };
    if k == 1 && v.len() == 1 {
        return None;
    }
    let ghost d = v@.skip(k as int);
    assert(k == 1 ==> d =~= s@.drop_first());
    assert(k == 0 ==> d =~= s@);
    let mut acc: i128 = 0;
    let mut capped = false;
    let mut i: usize = k;
    while i < v.len()
        invariant
            k <= i <= v@.len(),
            v@ == s@,
            s@.len() > 0,
            k == 1 || k == 0,
            (k == 1) == (s@[0] == '+' || (signed && s@[0] == '-')),
            negative == (signed && s@[0] == '-'),
            k == 1 ==> s@.len() > 1,
            d == v@.skip(k as int),
            k == 1 ==> d == s@.drop_first(),
            k == 0 ==> d == s@,
            all_digits(v@.subrange(k as int, i as int)),
            !capped ==> acc == digits_value(v@.subrange(k as int, i as int)) && 0 <= acc <= PARSE_CAP,
            capped ==> digits_value(v@.subrange(k as int, i as int)) > PARSE_CAP,
        decreases v@.len() - i,
    {
        let c = v[i];
        if !('0' <= c && c <= '9') {
            assert(d[i - k] == c);
            assert(!is_digit(d[i - k]));
            assert(!all_digits(d));
            return None;
        }
        let ghost prev = v@.subrange(k as int, i as int);
        let ghost next = v@.subrange(k as int, i + 1);
        assert(next.drop_last() =~= prev);
        assert(next.last() == c);
        assert(all_digits(next));
        proof { lemma_digits_value_nonneg(prev); }
        if !capped {
            acc = acc * 10 + (c as u32 as i128 - 48);
            if acc > PARSE_CAP {
                capped = true;
            }
        }
        i = i + 1;
    }
    assert(v@.subrange(k as int, v@.len() as int) =~= d);
    if capped {
        return None;
    }
    let value = if negative { -acc } else { acc };
    if lo <= value && value <= hi { Some(value) } else { None }
}

/// What `FromStr` of `u64` makes of a text.
pub open spec fn parsed_u64(s: Seq<char>) -> Option<int> {
    parsed_integer(s, false, 0, u64::MAX as int)
}

/// Parse a text as a `u64`.
pub fn parse_u64(s: &str) -> (r: Option<u64>)
    ensures
        match r {
            Some(v) => parsed_u64(s@) == Some(v as int),
            None => parsed_u64(s@) is None,
        },
{
    match parse_integer(s, false, 0, 18446744073709551615) {
        Some(v) => Some(v as u64),
        None => None,
    }
}

/// What `FromStr` of `u32` makes of a text.
pub open spec fn parsed_u32(s: Seq<char>) -> Option<int> {
    parsed_integer(s, false, 0, u32::MAX as int)
}

/// Parse a text as a `u32`.
pub fn parse_u32(s: &str) -> (r: Option<u32>)
    ensures
        match r {
            Some(v) => parsed_u32(s@) == Some(v as int),
            None => parsed_u32(s@) is None,
        },
{
    match parse_integer(s, false, 0, 4294967295) {
        Some(v) => Some(v as u32),
        None => None,
    }
}

/// What `FromStr` of `u16` makes of a text.
pub open spec fn parsed_u16(s: Seq<char>) -> Option<int> {
    parsed_integer(s, false, 0, u16::MAX as int)
}

/// Parse a text as a `u16`.
pub fn parse_u16(s: &str) -> (r: Option<u16>)
    ensures
        match r {
            Some(v) => parsed_u16(s@) == Some(v as int),
            None => parsed_u16(s@) is None,
        },
{
    match parse_integer(s, false, 0, 65535) {
        Some(v) => Some(v as u16),
        None => None,
    }
}

/// What `FromStr` of `i32` makes of a text.
pub open spec fn parsed_i32(s: Seq<char>) -> Option<int> {
    parsed_integer(s, true, i32::MIN as int, i32::MAX as int)
}

/// Parse a text as an `i32`.
pub fn parse_i32(s: &str) -> (r: Option<i32>)
    ensures
        match r {
            Some(v) => parsed_i32(s@) == Some(v as int),
            None => parsed_i32(s@) is None,
        },
{
    match parse_integer(s, true, -2147483648, 2147483647) {
        Some(v) => Some(v as i32),
        None => None,
    }
}

/// What `FromStr` of `i64` makes of a text.
pub open spec fn parsed_i64(s: Seq<char>) -> Option<int> {
    parsed_integer(s, true, i64::MIN as int, i64::MAX as int)
}

/// Parse a text as an `i64`.
pub fn parse_i64(s: &str) -> (r: Option<i64>)
    ensures
        match r {
            Some(v) => parsed_i64(s@) == Some(v as int),
            None => parsed_i64(s@) is None,
        },
{
    match parse_integer(s, true, -9223372036854775808, 9223372036854775807) {
        Some(v) => Some(v as i64),
        None => None,
    }
}

/// What `FromStr` of `usize` makes of a text.
pub open spec fn parsed_usize(s: Seq<char>) -> Option<int> {
    parsed_integer(s, false, 0, usize::MAX as int)
}

/// Parse a text as a `usize`.
pub fn parse_usize(s: &str) -> (r: Option<usize>)
    ensures
        match r {
            Some(v) => parsed_usize(s@) == Some(v as int),
            None => parsed_usize(s@) is None,
        },
{
    match parse_integer(s, false, 0, usize::MAX as i128) {
        Some(v) => Some(v as usize),
        None => None,
    }
}

/// What `FromStr` of `bool` makes of a text: exactly `true` or `false`.
pub open spec fn parsed_bool(s: Seq<char>) -> Option<bool> {
    if s == "true"@ { Some(true) } else if s == "false"@ { Some(false) } else { None }
}

/// Parse a text as a `bool`.
pub fn parse_bool(s: &str) -> (r: Option<bool>)
    ensures
        r == parsed_bool(s@),
{
    if crate::text::str_eq(s, "true") {
        Some(true)
    } else if crate::text::str_eq(s, "false") {
        Some(false)
    } else {
        None
    }
}


/// The text without its leading white space.
pub open spec fn trim_start_ws(s: Seq<char>) -> Seq<char>
    decreases s.len(),
{
    if s.len() > 0 && white_space(s[0]) { trim_start_ws(s.drop_first()) } else { s }
}

/// The text without its trailing white space.
pub open spec fn trim_end_ws(s: Seq<char>) -> Seq<char>
    decreases s.len(),
{
    if s.len() > 0 && white_space(s.last()) { trim_end_ws(s.drop_last()) } else { s }
}

/// The text without leading and trailing white space, as `str::trim` gives it.
pub open spec fn trim_ws(s: Seq<char>) -> Seq<char> {
    trim_end_ws(trim_start_ws(s))
}

/// The characters of `v` from `a` up to `b`, without leading and trailing
/// white space.
pub(crate) fn trimmed_between(v: &Vec<char>, a: usize, b: usize) -> (r: String)
    requires
        a <= b <= v@.len(),
    ensures
        r@ == trim_ws(v@.subrange(a as int, b as int)),
{
    let ghost seg = v@.subrange(a as int, b as int);
    let mut lo: usize = a;
    assert(v@.subrange(lo as int, b as int) =~= seg);
    while lo < b && is_whitespace(v[lo])
        invariant
            a <= lo <= b <= v@.len(),
            seg == v@.subrange(a as int, b as int),
            trim_start_ws(seg) == trim_start_ws(v@.subrange(lo as int, b as int)),
        decreases b - lo,
    {
        assert(v@.subrange(lo as int, b as int).drop_first() =~= v@.subrange(lo + 1, b as int));
        lo = lo + 1;
    }
    assert(trim_start_ws(seg) == v@.subrange(lo as int, b as int));
    let mut hi: usize = b;
    while hi > lo && is_whitespace(v[hi - 1])
        invariant
            a <= lo <= hi <= b <= v@.len(),
            trim_ws(seg) == trim_end_ws(v@.subrange(lo as int, hi as int)),
        decreases hi - lo,
    {
        assert(v@.subrange(lo as int, hi as int).drop_last() =~= v@.subrange(lo as int, hi - 1));
        hi = hi - 1;
    }
    assert(trim_end_ws(v@.subrange(lo as int, hi as int)) == v@.subrange(lo as int, hi as int));
    let mut w: Vec<char> = Vec::new();
    let mut i: usize = lo;
    while i < hi
        invariant
            lo <= i <= hi <= v@.len(),
            w@ == v@.subrange(lo as int, i as int),
        decreases hi - i,
    {
        w.push(v[i]);
        assert(v@.subrange(lo as int, i + 1) =~= v@.subrange(lo as int, i as int).push(v@[i as int]));
        i = i + 1;
    }
    string_of(&w)
}

/// The text without leading and trailing white space (as `str::trim`).
pub fn trim_text(s: &str) -> (r: String)
    ensures
        r@ == trim_ws(s@),
{
    let v = chars_of(s);
    assert(v@.subrange(0, v@.len() as int) =~= s@);
    trimmed_between(&v, 0, v.len())
}

/// The pieces of a text split at every `,` (one piece for a text with none).
pub open spec fn split_commas(s: Seq<char>) -> Seq<Seq<char>>
    decreases s.len(),
{
    if s.len() == 0 {
        seq![Seq::empty()]
    } else {
        let pieces = split_commas(s.drop_last());
        if s.last() == ',' {
            pieces.push(Seq::empty())
        } else {
            pieces.update(pieces.len() - 1, pieces.last().push(s.last()))
        }
    }
}

/// The pieces trimmed, the empty ones left out.
pub open spec fn kept(pieces: Seq<Seq<char>>) -> Seq<Seq<char>>
    decreases pieces.len(),
{
    if pieces.len() == 0 {
        Seq::empty()
    } else {
        let k = kept(pieces.drop_last());
        let t = trim_ws(pieces.last());
        if t.len() > 0 { k.push(t) } else { k }
    }
}

/// The items of a comma-separated list: the pieces between commas, trimmed,
/// empty ones left out.
pub open spec fn comma_list(s: Seq<char>) -> Seq<Seq<char>> {
    kept(split_commas(s))
}

/// A text split at every comma is never without pieces.
proof fn lemma_split_nonempty(s: Seq<char>)
    ensures
        split_commas(s).len() >= 1,
    decreases s.len(),
{
    if s.len() > 0 {
        lemma_split_nonempty(s.drop_last());
    }
}

/// The items of a comma-separated list.
pub fn split_list(s: &str) -> (items: Vec<String>)
    ensures
        items@.map_values(|t: String| t@) == comma_list(s@),
{
    let v = chars_of(s);
    let mut out: Vec<String> = Vec::new();
    let mut start: usize = 0;
    let mut i: usize = 0;
    assert(v@.take(0) =~= Seq::<char>::empty());
    assert(v@.subrange(0, 0) =~= Seq::<char>::empty());
    while i < v.len()
        invariant
            start <= i <= v@.len(),
            v@ == s@,
            split_commas(v@.take(i as int)).len() >= 1,
            split_commas(v@.take(i as int)).last() == v@.subrange(start as int, i as int),
            out@.map_values(|t: String| t@) == kept(split_commas(v@.take(i as int)).drop_last()),
        decreases v@.len() - i,
    {
        let ghost pieces = split_commas(v@.take(i as int));
        assert(v@.take(i + 1).drop_last() =~= v@.take(i as int));
        assert(v@.take(i + 1).last() == v@[i as int]);
        if v[i] == ',' {
            let t = trimmed_between(&v, start, i);
            if t.as_str().is_empty() {
                assert(kept(pieces) == kept(pieces.drop_last()));
            } else {
                out.push(t);
                assert(kept(pieces) == kept(pieces.drop_last()).push(trim_ws(pieces.last())));
            }
            assert(split_commas(v@.take(i + 1)).drop_last() =~= pieces);
            assert(out@.map_values(|t: String| t@) =~= kept(pieces));
            start = i + 1;
            assert(v@.subrange(start as int, i + 1) =~= Seq::<char>::empty());
        } else {
            assert(split_commas(v@.take(i + 1)).drop_last() =~= pieces.drop_last());
            assert(v@.subrange(start as int, i + 1) =~= v@.subrange(start as int, i as int).push(v@[i as int]));
        }
        proof { lemma_split_nonempty(v@.take(i + 1)); }
        i = i + 1;
    }
    assert(v@.take(v@.len() as int) =~= s@);
    let ghost pieces = split_commas(s@);
    let t = trimmed_between(&v, start, v.len());
    if !t.as_str().is_empty() {
        out.push(t);
        assert(out@.map_values(|t: String| t@) =~= kept(pieces));
    } else {
        assert(kept(pieces) == kept(pieces.drop_last()));
    }
    out
}


/// The text of a setting, or the default where it is not set.
pub open spec fn text_or(text: Option<Seq<char>>, default: Seq<char>) -> Seq<char> {
    match text {
        Some(t) => t,
        None => default,
    }
}

/// The number a setting's text parses to, or the default where the setting
/// is not set or does not parse.
pub open spec fn number_or(text: Option<Seq<char>>, parse: spec_fn(Seq<char>) -> Option<int>, default: int) -> int {
    match text {
        Some(t) => match parse(t) {
            Some(v) => v,
            None => default,
        },
        None => default,
    }
}

/// A flag that is on exactly where the setting reads `true` in any case,
/// and takes the default where it is not set.
pub open spec fn true_flag(text: Option<Seq<char>>, default: bool) -> bool {
    match text {
        Some(t) => lowercase(t) == "true"@,
        None => default,
    }
}

/// A flag that is off exactly where the setting reads `false` in any case,
/// and takes the default where it is not set.
pub open spec fn unless_false_flag(text: Option<Seq<char>>, default: bool) -> bool {
    match text {
        Some(t) => lowercase(t) != "false"@,
        None => default,
    }
}

impl Settings {
    /// The text of a setting, or the default.
    pub fn text(&self, name: &str, default: &str) -> (s: String)
        ensures
            s@ == text_or(lookup(self.entries@, name@), default@),
    {
        match self.get(name) {
            Some(t) => owned(t),
            None => owned(default),
        }
    }

    /// The text of a setting, where it is set.
    pub fn optional_text(&self, name: &str) -> (s: Option<String>)
        ensures
            match s {
                Some(t) => lookup(self.entries@, name@) == Some(t@),
                None => lookup(self.entries@, name@) is None,
            },
    {
        match self.get(name) {
            Some(t) => Some(owned(t)),
            None => None,
        }
    }

    /// A `u64` setting, or the default.
    pub fn u64_or(&self, name: &str, default: u64) -> (v: u64)
        ensures
            v == number_or(lookup(self.entries@, name@), |t: Seq<char>| parsed_u64(t), default as int),
    {
        match self.get(name) {
            Some(t) => match parse_u64(t) {
                Some(v) => v,
                None => default,
            },
            None => default,
        }
    }

    /// A `u32` setting, or the default.
    pub fn u32_or(&self, name: &str, default: u32) -> (v: u32)
        ensures
            v == number_or(lookup(self.entries@, name@), |t: Seq<char>| parsed_u32(t), default as int),
    {
        match self.get(name) {
            Some(t) => match parse_u32(t) {
                Some(v) => v,
                None => default,
            },
            None => default,
        }
    }

    /// A `u16` setting, or the default.
    pub fn u16_or(&self, name: &str, default: u16) -> (v: u16)
        ensures
            v == number_or(lookup(self.entries@, name@), |t: Seq<char>| parsed_u16(t), default as int),
    {
        match self.get(name) {
            Some(t) => match parse_u16(t) {
                Some(v) => v,
                None => default,
            },
            None => default,
        }
    }

    /// A `usize` setting, or the default.
    pub fn usize_or(&self, name: &str, default: usize) -> (v: usize)
        ensures
            v == number_or(lookup(self.entries@, name@), |t: Seq<char>| parsed_usize(t), default as int),
    {
        match self.get(name) {
            Some(t) => match parse_usize(t) {
                Some(v) => v,
                None => default,
            },
            None => default,
        }
    }

    /// An `i32` setting, or the default.
    pub fn i32_or(&self, name: &str, default: i32) -> (v: i32)
        ensures
            v == number_or(lookup(self.entries@, name@), |t: Seq<char>| parsed_i32(t), default as int),
    {
        match self.get(name) {
            Some(t) => match parse_i32(t) {
                Some(v) => v,
                None => default,
            },
            None => default,
        }
    }

    /// An `i64` setting, or the default.
    pub fn i64_or(&self, name: &str, default: i64) -> (v: i64)
        ensures
            v == number_or(lookup(self.entries@, name@), |t: Seq<char>| parsed_i64(t), default as int),
    {
        match self.get(name) {
            Some(t) => match parse_i64(t) {
                Some(v) => v,
                None => default,
            },
            None => default,
        }
    }

    /// A `bool` setting in `FromStr` syntax (`true` or `false`), or the default.
    pub fn bool_or(&self, name: &str, default: bool) -> (v: bool)
        ensures
            v == match lookup(self.entries@, name@) {
                Some(t) => match parsed_bool(t) {
                    Some(b) => b,
                    None => default,
                },
                None => default,
            },
    {
        match self.get(name) {
            Some(t) => match parse_bool(t) {
                Some(v) => v,
                None => default,
            },
            None => default,
        }
    }

    /// A flag that is on where the setting reads `true` in any case.
    pub fn true_flag(&self, name: &str, default: bool) -> (v: bool)
        ensures
            v == true_flag(lookup(self.entries@, name@), default),
    {
        match self.get(name) {
            Some(t) => {
                let lower = to_lowercase(t);
                str_eq(lower.as_str(), "true")
            },
            None => default,
        }
    }

    /// A flag that is off where the setting reads `false` in any case.
    pub fn unless_false_flag(&self, name: &str, default: bool) -> (v: bool)
        ensures
            v == unless_false_flag(lookup(self.entries@, name@), default),
    {
        match self.get(name) {
            Some(t) => {
                let lower = to_lowercase(t);
                !str_eq(lower.as_str(), "false")
            },
            None => default,
        }
    }

    /// The items of a comma-separated list setting; none where it is not set.
    pub fn list(&self, name: &str) -> (items: Vec<String>)
        ensures
            items@.map_values(|t: String| t@) == match lookup(self.entries@, name@) {
                Some(t) => comma_list(t),
                None => Seq::<Seq<char>>::empty(),
            },
    {
        match self.get(name) {
            Some(t) => split_list(t),
            None => {
                let v: Vec<String> = Vec::new();
                assert(v@.map_values(|t: String| t@) =~= Seq::<Seq<char>>::empty());
                v
            },
        }
    }
}

} // verus!
