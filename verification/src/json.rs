//! A verified parser for the flat JSON objects that the capture process
//! emits: one object per line whose members are scalar values (strings
//! with the single-character escapes, integers, decimal fractions with
//! an optional exponent, booleans, null). Nested values and `\uXXXX`
//! escapes are outside the records' shape and make a line undecodable,
//! which the tagger treats as a dropped record; numbers are valued in
//! thousandths, truncated toward zero.
//!
//! Every executable function mirrors a spec-level parse function over
//! the line's character sequence, so callers reason entirely in terms
//! of the spec parser.

use vstd::prelude::*;
use vstd::string::StrSliceExecFns;

verus! {

/// A scalar member value of a decoded object.
pub enum JsonValue {
    Null,
    Bool(bool),
    /// An integer token, at most eighteen significant digits.
    Int(i64),
    /// A token with a fractional part or an exponent, in thousandths,
    /// truncated toward zero.
    Milli(i64),
    Str(String),
}

/// Spec-level value of a scalar member.
pub enum JsonValueV {
    Null,
    Bool(bool),
    Int(int),
    Milli(int),
    Str(Seq<char>),
}

impl View for JsonValue {
    type V = JsonValueV;

    open spec fn view(&self) -> JsonValueV {
        match self {
            JsonValue::Null => JsonValueV::Null,
            JsonValue::Bool(b) => JsonValueV::Bool(*b),
            JsonValue::Int(n) => JsonValueV::Int(*n as int),
            JsonValue::Milli(m) => JsonValueV::Milli(*m as int),
            JsonValue::Str(t) => JsonValueV::Str(t@),
        }
    }
}

/// The spec view of a decoded member list.
pub open spec fn pairs_view(v: Seq<(String, JsonValue)>) -> Seq<(Seq<char>, JsonValueV)> {
    Seq::new(v.len(), |k: int| (v[k].0@, v[k].1@))
}

pub open spec fn is_json_ws(c: char) -> bool {
    c == ' ' || c == '\t' || c == '\n' || c == '\r'
}

pub open spec fn is_json_digit(c: char) -> bool {
    48 <= (c as u32) && (c as u32) <= 57
}

pub open spec fn digit_val(c: char) -> int {
    (c as u32) - 48
}

/// First index at or after `i` that does not hold whitespace.
pub open spec fn spec_skip_ws(s: Seq<char>, i: nat) -> nat
    decreases s.len() - i,
{
    if i < s.len() && is_json_ws(s[i as int]) {
        spec_skip_ws(s, i + 1)
    } else {
        i
    }
}

/// The character that a single-character escape stands for, if the
/// escape is one this grammar supports (`\uXXXX` is not).
pub open spec fn spec_escape_char(c: char) -> Option<char> {
    if c == '"' {
        Some('"')
    } else if c == '\\' {
        Some('\\')
    } else if c == '/' {
        Some('/')
    } else if c == 'b' {
        Some('\u{0008}')
    } else if c == 'f' {
        Some('\u{000C}')
    } else if c == 'n' {
        Some('\n')
    } else if c == 'r' {
        Some('\r')
    } else if c == 't' {
        Some('\t')
    } else {
        None
    }
}

/// The contents and the index just past a string body starting at `i`
/// (the opening quote already consumed): plain characters and the
/// single-character escapes; `\uXXXX` escapes and raw control
/// characters make the string, and so the line, undecodable.
pub open spec fn spec_scan_string(s: Seq<char>, i: nat) -> Option<(Seq<char>, nat)>
    decreases s.len() - i,
{
    if i >= s.len() {
        None
    } else if s[i as int] == '"' {
        Some((Seq::empty(), (i + 1) as nat))
    } else if s[i as int] == '\\' {
        if i + 1 < s.len() {
            match spec_escape_char(s[i as int + 1]) {
                None => None,
                Some(c) => match spec_scan_string(s, i + 2) {
                    None => None,
                    Some((t, e)) => Some((seq![c] + t, e)),
                },
            }
        } else {
            None
        }
    } else if (s[i as int] as u32) < 32 {
        None
    } else {
        match spec_scan_string(s, i + 1) {
            None => None,
            Some((t, e)) => Some((seq![s[i as int]] + t, e)),
        }
    }
}

/// Accumulates a run of digits left to right. Scanning stops once the
/// accumulator reaches seventeen significant digits, so a well-formed
/// number token carries at most eighteen.
pub open spec fn spec_scan_digits(s: Seq<char>, i: nat, acc: int, cnt: nat) -> (int, nat, nat)
    decreases s.len() - i,
{
    if i < s.len() && is_json_digit(s[i as int]) && acc < 100000000000000000 {
        spec_scan_digits(s, i + 1, acc * 10 + digit_val(s[i as int]), cnt + 1)
    } else {
        (acc, cnt, i)
    }
}

/// First index at or after `i` that does not hold a digit.
pub open spec fn spec_digits_end(s: Seq<char>, i: nat) -> nat
    decreases s.len() - i,
{
    if i < s.len() && is_json_digit(s[i as int]) {
        spec_digits_end(s, i + 1)
    } else {
        i
    }
}

/// Shifts the value `m` left by `t` decimal digits, pulling each new
/// low digit from the fraction span `[fs, fe)` and zeroes once the
/// span is exhausted. A value that would pass eighteen digits makes
/// the token undecodable.
pub open spec fn spec_shift_into(s: Seq<char>, fs: nat, fe: nat, m: int, t: nat) -> Option<int>
    decreases t,
{
    if t == 0 {
        Some(m)
    } else if m >= 100000000000000000 {
        None
    } else {
        let d = if fs < fe {
            digit_val(s[fs as int])
        } else {
            0
        };
        spec_shift_into(s, fs + 1, fe, m * 10 + d, (t - 1) as nat)
    }
}

/// Shifts the value `m` right by `t` decimal digits, truncating.
pub open spec fn spec_shift_down(m: int, t: nat) -> int
    decreases t,
{
    if t == 0 {
        m
    } else {
        spec_shift_down(m / 10, (t - 1) as nat)
    }
}

/// The value of a token whose exponent part starts at `i` (just past
/// the `e`): an optional sign and at most two digits, confined to
/// -12..=12. The token's value in thousandths comes from shifting the
/// whole part `whole` by the exponent plus three, pulling digits from
/// the fraction span `[fs, fe)` and truncating toward zero.
pub open spec fn spec_parse_exponent_value(
    s: Seq<char>,
    i: nat,
    neg: bool,
    whole: int,
    fs: nat,
    fe: nat,
) -> Option<(JsonValueV, nat)> {
    let eneg = i < s.len() && s[i as int] == '-';
    let epos = i < s.len() && s[i as int] == '+';
    let es: nat = if eneg || epos {
        i + 1
    } else {
        i
    };
    let (ev, ecnt, j) = spec_scan_digits(s, es, 0, 0);
    if ecnt == 0 || ecnt > 2 || ev > 12 {
        None
    } else {
        let shift = if eneg {
            3 - ev
        } else {
            3 + ev
        };
        if shift >= 0 {
            match spec_shift_into(s, fs, fe, whole, shift as nat) {
                None => None,
                Some(m) => Some(
                    (
                        JsonValueV::Milli(
                            if neg {
                                -m
                            } else {
                                m
                            },
                        ),
                        j,
                    ),
                ),
            }
        } else {
            let m = spec_shift_down(whole, (-shift) as nat);
            Some(
                (
                    JsonValueV::Milli(
                        if neg {
                            -m
                        } else {
                            m
                        },
                    ),
                    j,
                ),
            )
        }
    }
}

/// A number token at `i`: optional minus, digits, an optional fraction
/// and an optional exponent, valued in thousandths (truncated toward
/// zero). Tokens of more than eighteen digits, values whose
/// thousandths pass eighteen digits, and exponents of more than two
/// digits or outside -12..=12 are rejected.
pub open spec fn spec_parse_number(s: Seq<char>, i: nat) -> Option<(JsonValueV, nat)> {
    let neg = i < s.len() && s[i as int] == '-';
    let start: nat = if neg {
        i + 1
    } else {
        i
    };
    let (acc, cnt, j) = spec_scan_digits(s, start, 0, 0);
    if cnt == 0 || (j < s.len() && is_json_digit(s[j as int])) {
        None
    } else {
        let has_frac = j < s.len() && s[j as int] == '.';
        let fs: nat = if has_frac {
            j + 1
        } else {
            j
        };
        let fe = if has_frac {
            spec_digits_end(s, fs)
        } else {
            fs
        };
        if has_frac && fe == fs {
            None
        } else if fe < s.len() && (s[fe as int] == 'e' || s[fe as int] == 'E') {
            spec_parse_exponent_value(s, fe + 1, neg, acc, fs, fe)
        } else if has_frac {
            match spec_shift_into(s, fs, fe, acc, 3) {
                None => None,
                Some(m) => Some(
                    (
                        JsonValueV::Milli(
                            if neg {
                                -m
                            } else {
                                m
                            },
                        ),
                        fe,
                    ),
                ),
            }
        } else {
            Some(
                (
                    JsonValueV::Int(
                        if neg {
                            -acc
                        } else {
                            acc
                        },
                    ),
                    j,
                ),
            )
        }
    }
}

/// A scalar value at `i`: string, number, `true`, `false` or `null`.
pub open spec fn spec_parse_value(s: Seq<char>, i: nat) -> Option<(JsonValueV, nat)> {
    if i >= s.len() {
        None
    } else {
        let c = s[i as int];
        if c == '"' {
            match spec_scan_string(s, i + 1) {
                None => None,
                Some((t, j)) => Some((JsonValueV::Str(t), j)),
            }
        } else if c == '-' || is_json_digit(c) {
            spec_parse_number(s, i)
        } else if c == 't' {
            if s.len() - i >= 4 && s[i as int + 1] == 'r' && s[i as int + 2] == 'u' && s[i as int + 3] == 'e' {
                Some((JsonValueV::Bool(true), (i + 4) as nat))
            } else {
                None
            }
        } else if c == 'f' {
            if s.len() - i >= 5 && s[i as int + 1] == 'a' && s[i as int + 2] == 'l' && s[i as int + 3] == 's' && s[i as int + 4]
                == 'e' {
                Some((JsonValueV::Bool(false), (i + 5) as nat))
            } else {
                None
            }
        } else if c == 'n' {
            if s.len() - i >= 4 && s[i as int + 1] == 'u' && s[i as int + 2] == 'l' && s[i as int + 3] == 'l' {
                Some((JsonValueV::Null, (i + 4) as nat))
            } else {
                None
            }
        } else {
            None
        }
    }
}

/// A non-empty member list at `i` (first key expected at `i`), ending
/// just past the closing brace.
pub open spec fn spec_parse_pair_list(s: Seq<char>, i: nat) -> Option<
    (Seq<(Seq<char>, JsonValueV)>, nat),
>
    decreases s.len() - i,
{
    if i < s.len() && s[i as int] == '"' {
        match spec_scan_string(s, i + 1) {
            None => None,
            Some((key, j)) => {
                let j2 = spec_skip_ws(s, j);
                if j2 < s.len() && s[j2 as int] == ':' {
                    let j3 = spec_skip_ws(s, j2 + 1);
                    match spec_parse_value(s, j3) {
                        None => None,
                        Some((v, j4)) => {
                            let j5 = spec_skip_ws(s, j4);
                            if j5 < s.len() && s[j5 as int] == ',' {
                                let j6 = spec_skip_ws(s, j5 + 1);
                                if i < j6 <= s.len() {
                                    match spec_parse_pair_list(s, j6) {
                                        None => None,
                                        Some((rest, j7)) => Some((seq![(key, v)] + rest, j7)),
                                    }
                                } else {
                                    None
                                }
                            } else if j5 < s.len() && s[j5 as int] == '}' {
                                Some((seq![(key, v)], (j5 + 1) as nat))
                            } else {
                                None
                            }
                        },
                    }
                } else {
                    None
                }
            },
        }
    } else {
        None
    }
}

/// The member list of an object whose opening brace stands just before
/// `i`, ending just past the closing brace.
pub open spec fn spec_parse_members(s: Seq<char>, i: nat) -> Option<
    (Seq<(Seq<char>, JsonValueV)>, nat),
> {
    let j = spec_skip_ws(s, i);
    if j < s.len() && s[j as int] == '}' {
        Some((Seq::empty(), (j + 1) as nat))
    } else {
        spec_parse_pair_list(s, j)
    }
}

/// A whole line: one object, nothing but whitespace around it.
pub open spec fn spec_parse_object(s: Seq<char>) -> Option<Seq<(Seq<char>, JsonValueV)>> {
    let i = spec_skip_ws(s, 0);
    if i < s.len() && s[i as int] == '{' {
        match spec_parse_members(s, i + 1) {
            None => None,
            Some((pairs, j)) => {
                if spec_skip_ws(s, j) == s.len() {
                    Some(pairs)
                } else {
                    None
                }
            },
        }
    } else {
        None
    }
}

/// The value of the first member named `key`, if any.
pub open spec fn spec_lookup(pairs: Seq<(Seq<char>, JsonValueV)>, key: Seq<char>) -> Option<
    JsonValueV,
>
    decreases pairs.len(),
{
    if pairs.len() == 0 {
        None
    } else if pairs[0].0 == key {
        Some(pairs[0].1)
    } else {
        spec_lookup(pairs.drop_first(), key)
    }
}

/// Finds the first member named `key` in a decoded object.
pub fn lookup<'a>(pairs: &'a Vec<(String, JsonValue)>, key: &str) -> (r: Option<&'a JsonValue>)
    ensures
        match r {
            Some(v) => spec_lookup(pairs_view(pairs@), key@) == Some(v@),
            None => spec_lookup(pairs_view(pairs@), key@) is None,
        },
{
    let ghost all = pairs_view(pairs@);
    proof {
        assert(all.skip(0) =~= all);
    }
    let mut i: usize = 0;
    while i < pairs.len()
        invariant
            i <= pairs@.len(),
            all == pairs_view(pairs@),
            spec_lookup(all, key@) == spec_lookup(all.skip(i as int), key@),
        decreases pairs@.len() - i,
    {
        let p = &pairs[i];
        if crate::text::str_eq(p.0.as_str(), key) {
            proof {
                assert(all.skip(i as int)[0] == (p.0@, p.1@));
            }
            return Some(&p.1);
        }
        proof {
            assert(all.skip(i as int)[0] == (p.0@, p.1@));
            assert(all.skip(i as int).drop_first() =~= all.skip(i as int + 1));
        }
        i = i + 1;
    }
    proof {
        assert(all.skip(pairs@.len() as int).len() == 0);
    }
    None
}

fn is_json_ws_exec(c: char) -> (r: bool)
    ensures
        r == is_json_ws(c),
{
    c == ' ' || c == '\t' || c == '\n' || c == '\r'
}

fn is_json_digit_exec(c: char) -> (r: bool)
    ensures
        r == is_json_digit(c),
{
    let u = c as u32;
    48 <= u && u <= 57
}

fn skip_ws(s: &str, i: usize) -> (r: usize)
    requires
        i <= s@.len(),
    ensures
        r == spec_skip_ws(s@, i as nat),
        i <= r <= s@.len(),
{
    let len = s.unicode_len();
    let mut j = i;
    while j < len && is_json_ws_exec(s.get_char(j))
        invariant
            i <= j <= len,
            len == s@.len(),
            spec_skip_ws(s@, i as nat) == spec_skip_ws(s@, j as nat),
        decreases len - j,
    {
        j = j + 1;
    }
    j
}

fn escape_str(c: char) -> (r: Option<&'static str>)
    ensures
        match r {
            Some(t) => spec_escape_char(c) == Some(t@[0]) && t@.len() == 1,
            None => spec_escape_char(c) is None,
        },
{
    proof {
        reveal_strlit("\"");
        reveal_strlit("\\");
        reveal_strlit("/");
        reveal_strlit("\u{0008}");
        reveal_strlit("\u{000C}");
        reveal_strlit("\n");
        reveal_strlit("\r");
        reveal_strlit("\t");
    }
    if c == '"' {
        Some("\"")
    } else if c == '\\' {
        Some("\\")
    } else if c == '/' {
        Some("/")
    } else if c == 'b' {
        Some("\u{0008}")
    } else if c == 'f' {
        Some("\u{000C}")
    } else if c == 'n' {
        Some("\n")
    } else if c == 'r' {
        Some("\r")
    } else if c == 't' {
        Some("\t")
    } else {
        None
    }
}

fn parse_string_body(s: &str, i: usize) -> (r: Option<(String, usize)>)
    requires
        i <= s@.len(),
    ensures
        match r {
            Some(p) => spec_scan_string(s@, i as nat) == Some((p.0@, p.1 as nat)) && i < p.1
                <= s@.len(),
            None => spec_scan_string(s@, i as nat) is None,
        },
{
    let len = s.unicode_len();
    let mut j = i;
    let mut acc = String::new();
    proof {
        match spec_scan_string(s@, i as nat) {
            Some((t, _e)) => {
                assert(acc@ + t =~= t);
            },
            None => {},
        }
    }
    loop
        invariant
            i <= j <= len,
            len == s@.len(),
            match spec_scan_string(s@, j as nat) {
                Some((t, e)) => spec_scan_string(s@, i as nat) == Some((acc@ + t, e)),
                None => spec_scan_string(s@, i as nat) is None,
            },
        decreases len - j,
    {
        if j >= len {
            return None;
        }
        let c = s.get_char(j);
        if c == '"' {
            proof {
                assert(acc@ + Seq::<char>::empty() =~= acc@);
            }
            return Some((acc, j + 1));
        }
        if c == '\\' {
            if j + 1 >= len {
                return None;
            }
            match escape_str(s.get_char(j + 1)) {
                None => {
                    return None;
                },
                Some(t) => {
                    proof {
                        match spec_scan_string(s@, j as nat + 2) {
                            Some((t2, _e)) => {
                                assert((acc@ + t@) + t2 =~= acc@ + (seq![t@[0]] + t2));
                            },
                            None => {},
                        }
                    }
                    acc.append(t);
                    j = j + 2;
                },
            }
        } else if (c as u32) < 32 {
            return None;
        } else {
            let t = s.substring_char(j, j + 1);
            proof {
                assert(t@ =~= seq![s@[j as int]]);
                match spec_scan_string(s@, j as nat + 1) {
                    Some((t2, _e)) => {
                        assert((acc@ + t@) + t2 =~= acc@ + (seq![s@[j as int]] + t2));
                    },
                    None => {},
                }
            }
            acc.append(t);
            j = j + 1;
        }
    }
}

fn scan_digits(s: &str, i: usize) -> (r: (u64, usize, usize))
    requires
        i <= s@.len(),
    ensures
        spec_scan_digits(s@, i as nat, 0, 0) == (r.0 as int, r.1 as nat, r.2 as nat),
        i <= r.2 <= s@.len(),
        r.1 == r.2 - i,
        r.0 < 1000000000000000000,
{
    let len = s.unicode_len();
    let mut j = i;
    let mut acc: u64 = 0;
    let mut cnt: usize = 0;
    while j < len && is_json_digit_exec(s.get_char(j)) && acc < 100000000000000000
        invariant
            i <= j <= len,
            len == s@.len(),
            cnt == j - i,
            acc < 1000000000000000000,
            spec_scan_digits(s@, i as nat, 0, 0) == spec_scan_digits(
                s@,
                j as nat,
                acc as int,
                cnt as nat,
            ),
        decreases len - j,
    {
        let d = (s.get_char(j) as u32 - 48) as u64;
        acc = acc * 10 + d;
        cnt = cnt + 1;
        j = j + 1;
    }
    (acc, cnt, j)
}

fn digits_end(s: &str, i: usize) -> (r: usize)
    requires
        i <= s@.len(),
    ensures
        r == spec_digits_end(s@, i as nat),
        i <= r <= s@.len(),
        forall|x: int| i <= x < r ==> is_json_digit(s@[x]),
{
    let len = s.unicode_len();
    let mut j = i;
    while j < len && is_json_digit_exec(s.get_char(j))
        invariant
            i <= j <= len,
            len == s@.len(),
            forall|x: int| i <= x < j ==> is_json_digit(s@[x]),
            spec_digits_end(s@, i as nat) == spec_digits_end(s@, j as nat),
        decreases len - j,
    {
        j = j + 1;
    }
    j
}

fn shift_into(s: &str, fs: usize, fe: usize, m0: u64, t: usize) -> (r: Option<u64>)
    requires
        fs <= fe <= s@.len(),
        m0 < 1000000000000000000,
        forall|x: int| fs <= x < fe ==> is_json_digit(s@[x]),
    ensures
        match r {
            Some(v) => spec_shift_into(s@, fs as nat, fe as nat, m0 as int, t as nat) == Some(
                v as int,
            ) && v < 1000000000000000000,
            None => spec_shift_into(s@, fs as nat, fe as nat, m0 as int, t as nat) is None,
        },
{
    let mut m = m0;
    let mut f = fs;
    let mut rem = t;
    let ghost mut g: nat = fs as nat;
    loop
        invariant
            fs <= f <= fe <= s@.len(),
            g >= f as nat,
            f < fe ==> g == f as nat,
            g > f as nat ==> f == fe,
            m < 1000000000000000000,
            forall|x: int| fs <= x < fe ==> is_json_digit(s@[x]),
            spec_shift_into(s@, fs as nat, fe as nat, m0 as int, t as nat) == spec_shift_into(
                s@,
                g,
                fe as nat,
                m as int,
                rem as nat,
            ),
        decreases rem,
    {
        if rem == 0 {
            return Some(m);
        }
        if m >= 100000000000000000 {
            return None;
        }
        let d: u64;
        if f < fe {
            d = ((s.get_char(f) as u32) - 48) as u64;
            f = f + 1;
        } else {
            d = 0;
        }
        proof {
            g = g + 1;
        }
        m = m * 10 + d;
        rem = rem - 1;
    }
}

fn shift_down(m0: u64, t: usize) -> (r: u64)
    ensures
        r as int == spec_shift_down(m0 as int, t as nat),
        r <= m0,
{
    let mut m = m0;
    let mut rem = t;
    loop
        invariant
            m <= m0,
            spec_shift_down(m0 as int, t as nat) == spec_shift_down(m as int, rem as nat),
        decreases rem,
    {
        if rem == 0 {
            return m;
        }
        m = m / 10;
        rem = rem - 1;
    }
}

fn parse_number(s: &str, i: usize) -> (r: Option<(JsonValue, usize)>)
    requires
        i <= s@.len(),
    ensures
        match r {
            Some(p) => spec_parse_number(s@, i as nat) == Some((p.0@, p.1 as nat)) && i < p.1
                <= s@.len(),
            None => spec_parse_number(s@, i as nat) is None,
        },
{
    let len = s.unicode_len();
    let neg = i < len && s.get_char(i) == '-';
    let start = if neg {
        i + 1
    } else {
        i
    };
    let (acc, cnt, j) = scan_digits(s, start);
    if cnt == 0 || (j < len && is_json_digit_exec(s.get_char(j))) {
        return None;
    }
    let has_frac = j < len && s.get_char(j) == '.';
    let fs = if has_frac {
        j + 1
    } else {
        j
    };
    let fe = if has_frac {
        digits_end(s, fs)
    } else {
        fs
    };
    if has_frac && fe == fs {
        return None;
    }
    if fe < len && (s.get_char(fe) == 'e' || s.get_char(fe) == 'E') {
        let mut es = fe + 1;
        let eneg = es < len && s.get_char(es) == '-';
        let epos = es < len && s.get_char(es) == '+';
        if eneg || epos {
            es = es + 1;
        }
        let (ev, ecnt, j2) = scan_digits(s, es);
        if ecnt == 0 || ecnt > 2 || ev > 12 {
            return None;
        }
        let shifted = if !eneg {
            shift_into(s, fs, fe, acc, 3 + ev as usize)
        } else if ev <= 3 {
            shift_into(s, fs, fe, acc, 3 - ev as usize)
        } else {
            Some(shift_down(acc, ev as usize - 3))
        };
        match shifted {
            None => None,
            Some(m) => {
                let v = m as i64;
                Some(
                    (
                        JsonValue::Milli(
                            if neg {
                                -v
                            } else {
                                v
                            },
                        ),
                        j2,
                    ),
                )
            },
        }
    } else if has_frac {
        match shift_into(s, fs, fe, acc, 3) {
            None => None,
            Some(m) => {
                let v = m as i64;
                Some(
                    (
                        JsonValue::Milli(
                            if neg {
                                -v
                            } else {
                                v
                            },
                        ),
                        fe,
                    ),
                )
            },
        }
    } else {
        let m = acc as i64;
        let v = if neg {
            -m
        } else {
            m
        };
        Some((JsonValue::Int(v), j))
    }
}

fn parse_value(s: &str, i: usize) -> (r: Option<(JsonValue, usize)>)
    requires
        i <= s@.len(),
    ensures
        match r {
            Some(p) => spec_parse_value(s@, i as nat) == Some((p.0@, p.1 as nat)) && i < p.1
                <= s@.len(),
            None => spec_parse_value(s@, i as nat) is None,
        },
{
    let len = s.unicode_len();
    if i >= len {
        return None;
    }
    let c = s.get_char(i);
    if c == '"' {
        match parse_string_body(s, i + 1) {
            None => None,
            Some((t, j)) => Some((JsonValue::Str(t), j)),
        }
    } else if c == '-' || is_json_digit_exec(c) {
        parse_number(s, i)
    } else if c == 't' {
        if len - i >= 4 && s.get_char(i + 1) == 'r' && s.get_char(i + 2) == 'u' && s.get_char(i + 3)
            == 'e' {
            Some((JsonValue::Bool(true), i + 4))
        } else {
            None
        }
    } else if c == 'f' {
        if len - i >= 5 && s.get_char(i + 1) == 'a' && s.get_char(i + 2) == 'l' && s.get_char(i + 3)
            == 's' && s.get_char(i + 4) == 'e' {
            Some((JsonValue::Bool(false), i + 5))
        } else {
            None
        }
    } else if c == 'n' {
        if len - i >= 4 && s.get_char(i + 1) == 'u' && s.get_char(i + 2) == 'l' && s.get_char(i + 3)
            == 'l' {
            Some((JsonValue::Null, i + 4))
        } else {
            None
        }
    } else {
        None
    }
}

fn parse_pair_list(s: &str, i: usize) -> (r: Option<(Vec<(String, JsonValue)>, usize)>)
    requires
        i <= s@.len(),
    ensures
        match r {
            Some(p) => spec_parse_pair_list(s@, i as nat) == Some((pairs_view(p.0@), p.1 as nat))
                && i < p.1 <= s@.len(),
            None => spec_parse_pair_list(s@, i as nat) is None,
        },
    decreases s@.len() - i,
{
    let len = s.unicode_len();
    if !(i < len && s.get_char(i) == '"') {
        return None;
    }
    let (key, j) = match parse_string_body(s, i + 1) {
        None => {
            return None;
        },
        Some(p) => p,
    };
    let j2 = skip_ws(s, j);
    if !(j2 < len && s.get_char(j2) == ':') {
        return None;
    }
    let j3 = skip_ws(s, j2 + 1);
    let (v, j4) = match parse_value(s, j3) {
        None => {
            return None;
        },
        Some(p) => p,
    };
    let j5 = skip_ws(s, j4);
    if j5 < len && s.get_char(j5) == ',' {
        let j6 = skip_ws(s, j5 + 1);
        match parse_pair_list(s, j6) {
            None => None,
            Some((mut rest, j7)) => {
                let ghost rest0 = rest@;
                rest.insert(0, (key, v));
                proof {
                    assert(pairs_view(rest@) =~= seq![(key@, v@)] + pairs_view(rest0));
                }
                Some((rest, j7))
            },
        }
    } else if j5 < len && s.get_char(j5) == '}' {
        let mut one: Vec<(String, JsonValue)> = Vec::new();
        one.push((key, v));
        proof {
            assert(pairs_view(one@) =~= seq![(key@, v@)]);
        }
        Some((one, j5 + 1))
    } else {
        None
    }
}

fn parse_members(s: &str, i: usize) -> (r: Option<(Vec<(String, JsonValue)>, usize)>)
    requires
        i <= s@.len(),
    ensures
        match r {
            Some(p) => spec_parse_members(s@, i as nat) == Some((pairs_view(p.0@), p.1 as nat))
                && p.1 <= s@.len(),
            None => spec_parse_members(s@, i as nat) is None,
        },
{
    let len = s.unicode_len();
    let j = skip_ws(s, i);
    if j < len && s.get_char(j) == '}' {
        let empty: Vec<(String, JsonValue)> = Vec::new();
        proof {
            assert(pairs_view(empty@) =~= Seq::<(Seq<char>, JsonValueV)>::empty());
        }
        Some((empty, j + 1))
    } else {
        parse_pair_list(s, j)
    }
}

/// Parses a whole line as one flat JSON object, yielding its members in
/// order of appearance.
pub fn parse_object(s: &str) -> (r: Option<Vec<(String, JsonValue)>>)
    ensures
        match r {
            Some(v) => spec_parse_object(s@) == Some(pairs_view(v@)),
            None => spec_parse_object(s@) is None,
        },
{
    let len = s.unicode_len();
    let i = skip_ws(s, 0);
    if !(i < len && s.get_char(i) == '{') {
        return None;
    }
    match parse_members(s, i + 1) {
        None => None,
        Some((pairs, j)) => {
            let k = skip_ws(s, j);
            if k == len {
                Some(pairs)
            } else {
                None
            }
        },
    }
}

} // verus!
