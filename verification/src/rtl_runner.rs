//! Source-reader stage: the capture subprocess prints one record per
//! line; only lines that look like a single JSON object (after trimming
//! surrounding whitespace, they start with `{` and end with `}`) are
//! forwarded downstream as candidate raw records. Spawning the process
//! and reading its output is runtime plumbing and stays outside the
//! library; the accept/discard decision is made here.

use vstd::prelude::*;
use vstd::string::StrSliceExecFns;

verus! {

/// How to start the capture subprocess: executable path and arguments.
#[derive(Clone)]
pub struct RtlRunnerConfig {
    pub path: String,
    pub args: Vec<String>,
}

/// The source-reader stage; owns nothing but its process specification.
#[derive(Clone)]
pub struct RtlRunner {
    pub config: RtlRunnerConfig,
}

/// Whitespace as trimmed from the ends of a raw line: the Unicode
/// `White_Space` set, the characters `str::trim` removes.
pub open spec fn is_trim_ws(c: char) -> bool {
    (0x09 <= (c as u32) && (c as u32) <= 0x0D) || (c as u32) == 0x20 || (c as u32) == 0x85 || (
    c as u32) == 0xA0 || (c as u32) == 0x1680 || (0x2000 <= (c as u32) && (c as u32) <= 0x200A)
        || (c as u32) == 0x2028 || (c as u32) == 0x2029 || (c as u32) == 0x202F || (c as u32)
        == 0x205F || (c as u32) == 0x3000
}

/// `s` with leading whitespace removed.
pub open spec fn spec_trim_start(s: Seq<char>) -> Seq<char>
    decreases s.len(),
{
    if s.len() > 0 && is_trim_ws(s[0]) {
        spec_trim_start(s.drop_first())
    } else {
        s
    }
}

/// `s` with trailing whitespace removed.
pub open spec fn spec_trim_end(s: Seq<char>) -> Seq<char>
    decreases s.len(),
{
    if s.len() > 0 && is_trim_ws(s.last()) {
        spec_trim_end(s.drop_last())
    } else {
        s
    }
}

/// `s` with whitespace removed from both ends.
pub open spec fn spec_trim(s: Seq<char>) -> Seq<char> {
    spec_trim_end(spec_trim_start(s))
}

/// The candidate raw record carried by a line, if any: the trimmed line
/// exactly when it starts with `{` and ends with `}`.
pub open spec fn spec_candidate(s: Seq<char>) -> Option<Seq<char>> {
    let t = spec_trim(s);
    if t.len() > 0 && t[0] == '{' && t[t.len() - 1] == '}' {
        Some(t)
    } else {
        None
    }
}

proof fn lemma_trim_start_subrange(s: Seq<char>, lo: int)
    requires
        0 <= lo <= s.len(),
        forall|j: int| 0 <= j < lo ==> is_trim_ws(s[j]),
        lo < s.len() ==> !is_trim_ws(s[lo]),
    ensures
        spec_trim_start(s) =~= s.subrange(lo, s.len() as int),
    decreases lo,
{
    if lo == 0 {
    } else {
        lemma_trim_start_subrange(s.drop_first(), lo - 1);
    }
}

proof fn lemma_trim_end_subrange(s: Seq<char>, hi: int)
    requires
        0 <= hi <= s.len(),
        forall|j: int| hi <= j < s.len() ==> is_trim_ws(s[j]),
        hi > 0 ==> !is_trim_ws(s[hi - 1]),
    ensures
        spec_trim_end(s) =~= s.subrange(0, hi),
    decreases s.len() - hi,
{
    if hi == s.len() {
    } else {
        lemma_trim_end_subrange(s.drop_last(), hi);
    }
}

impl RtlRunner {
    /// Filters one raw output line: returns the trimmed line exactly when
    /// it has the shape of a single JSON object, and `None` for every
    /// line that the reader must discard.
    pub fn candidate_record(line: &str) -> (r: Option<String>)
        ensures
            match r {
                Some(t) => spec_candidate(line@) == Some(t@),
                None => spec_candidate(line@) is None,
            },
    {
        let len = line.unicode_len();
        let mut lo: usize = 0;
        while lo < len && is_trim_ws_exec(line.get_char(lo))
            invariant
                len == line@.len(),
                lo <= len,
                forall|j: int| 0 <= j < lo ==> is_trim_ws(line@[j]),
            decreases len - lo,
        {
            lo = lo + 1;
        }
        if lo == len {
            // all whitespace: the trimmed line is empty
            proof {
                lemma_trim_start_subrange(line@, lo as int);
                assert(spec_trim_start(line@).len() == 0);
            }
            return None;
        }
        let mut hi: usize = len;
        while hi > lo && is_trim_ws_exec(line.get_char(hi - 1))
            invariant
                len == line@.len(),
                lo < len,
                lo <= hi <= len,
                forall|j: int| hi <= j < len ==> is_trim_ws(line@[j]),
            decreases hi,
        {
            hi = hi - 1;
        }
        if hi == lo {
            // cannot happen: the character at lo is not whitespace, so the
            // trailing scan stops at or after it; a discard is harmless
            return None;
        }
        proof {
            lemma_trim_start_subrange(line@, lo as int);
            let t = line@.subrange(lo as int, len as int);
            lemma_trim_end_subrange(t, hi - lo);
            assert(t.subrange(0, hi - lo) =~= line@.subrange(lo as int, hi as int));
            assert(spec_trim(line@) =~= line@.subrange(lo as int, hi as int));
        }
        let first = line.get_char(lo);
        let last = line.get_char(hi - 1);
        if first == '{' && last == '}' {
            let t = line.substring_char(lo, hi);
            Some(t.to_owned())
        } else {
            None
        }
    }
}

/// Executable mirror of [`is_trim_ws`].
fn is_trim_ws_exec(c: char) -> (r: bool)
    ensures
        r == is_trim_ws(c),
{
    let u = c as u32;
    (0x09 <= u && u <= 0x0D) || u == 0x20 || u == 0x85 || u == 0xA0 || u == 0x1680 || (0x2000 <= u
        && u <= 0x200A) || u == 0x2028 || u == 0x2029 || u == 0x202F || u == 0x205F || u == 0x3000
}

} // verus!
