//! What the drivers learn from the system: CPU count, SMT support and per-CPU state,
//! given as the text of the files they come from.

use vstd::prelude::*;

use super::util::{find_char, find_from};
use super::steam_deck::oc_limits::OverclockLimits;

verus! {

pub const CPU_PRESENT_PATH: &'static str = "/sys/devices/system/cpu/present";

pub const CPU_SMT_PATH: &'static str = "/sys/devices/system/cpu/smt/control";

/// What was read of one CPU: its online file (as a number) and its governor.
#[derive(Debug, Clone)]
pub struct CpuReading {
    pub online: Option<u8>,
    pub governor: Option<String>,
}

/// Facts about the system, read once by the program around the library.
#[derive(Debug, Clone)]
pub struct SystemInfo {
    /// Trimmed contents of the CPU present file, when readable.
    pub cpu_present: Option<String>,
    /// Trimmed contents of the SMT control file, when readable.
    pub smt_control: Option<String>,
    /// Per-CPU readings, by CPU index.
    pub cpus: Vec<CpuReading>,
    /// Steam Deck limits from the limits file, when it exists and parses.
    pub oc_limits: Option<OverclockLimits>,
    /// Whether a RyzenAdj handle could be opened.
    pub ryzenadj_available: bool,
}

/// Whether a character is a decimal digit.
pub open spec fn is_digit(c: char) -> bool {
    '0' <= c <= '9'
}

/// The value of a string of decimal digits.
pub open spec fn digits_value(s: Seq<char>) -> int
    decreases s.len(),
{
    if s.len() == 0 {
        0
    } else {
        digits_value(s.drop_last()) * 10 + (s.last() as int - '0' as int)
    }
}

/// Whether a string is a non-empty run of decimal digits.
pub open spec fn all_digits(s: Seq<char>) -> bool {
    s.len() > 0 && forall|i: int| 0 <= i < s.len() ==> is_digit(#[trigger] s[i])
}

/// The number a string spells in decimal (an optional `+` then digits), if it does.
pub open spec fn decimal(s: Seq<char>) -> Option<int> {
    if s.len() > 0 && s[0] == '+' && all_digits(s.drop_first()) {
        Some(digits_value(s.drop_first()))
    } else if all_digits(s) {
        Some(digits_value(s))
    } else {
        None
    }
}

/// The `usize` a string spells, as `str::parse::<usize>` reads it.
pub open spec fn parse_usize_spec(s: Seq<char>) -> Option<usize> {
    match decimal(s) {
        Some(v) => if v <= usize::MAX { Some(v as usize) } else { None },
        None => None,
    }
}

proof fn lemma_digits_value_prefix(s: Seq<char>, k: int)
    requires
        0 <= k <= s.len(),
        forall|i: int| 0 <= i < s.len() ==> is_digit(#[trigger] s[i]),
    ensures
        digits_value(s) >= digits_value(s.take(k)),
        digits_value(s.take(k)) >= 0,
    decreases s.len(),
{
    if s.len() > 0 {
        if k == s.len() {
            assert(s.take(k) =~= s);
            lemma_digits_value_prefix(s.drop_last(), k - 1);
            assert(s.drop_last().take(k - 1) =~= s.drop_last());
        } else {
            lemma_digits_value_prefix(s.drop_last(), k);
            assert(s.drop_last().take(k) =~= s.take(k));
            lemma_digits_value_prefix(s.drop_last(), s.len() - 1);
            assert(s.drop_last().take(s.len() - 1) =~= s.drop_last());
        }
    }
}

/// Read a run of digits starting at `start`, up to the end of the string.
fn parse_digits(s: &str, start: usize) -> (r: Option<usize>)
    requires
        start <= s@.len(),
    ensures
        ({
            let t = s@.skip(start as int);
            r == if all_digits(t) && digits_value(t) <= usize::MAX { Some(digits_value(t) as usize) } else { None }
        }),
{
    let n = s.unicode_len();
    let ghost t = s@.skip(start as int);
    if start == n {
        return None;
    }
    let mut acc: usize = 0;
    let mut i = start;
    while i < n
        invariant
            n == s@.len(),
            start < n,
            t == s@.skip(start as int),
            start <= i <= n,
            forall|j: int| 0 <= j < i - start ==> is_digit(#[trigger] t[j]),
            acc as int == digits_value(t.take(i - start)),
        decreases n - i,
    {
        let c = s.get_char(i);
        if !('0' <= c && c <= '9') {
            assert(!is_digit(t[i - start]));
            return None;
        }
        let d = (c as u32 - '0' as u32) as usize;
        assert(t.take(i - start + 1).drop_last() =~= t.take(i - start));
        assert(t.take(i - start + 1).last() == c);
        if acc > (usize::MAX - d) / 10 {
            proof {
                assert(acc * 10 + d > usize::MAX) by (nonlinear_arith)
                    requires acc > (usize::MAX - d) / 10, d <= 9;
                if all_digits(t) {
                    lemma_digits_value_prefix(t, i - start + 1);
                }
            }
            return None;
        }
        assert(acc * 10 + d <= usize::MAX) by (nonlinear_arith)
            requires acc <= (usize::MAX - d) / 10, d <= 9;
        acc = acc * 10 + d;
        i = i + 1;
    }
    assert(t.take(n - start) =~= t);
    Some(acc)
}

/// Read a `usize` the way `str::parse::<usize>` does.
pub fn parse_usize(s: &str) -> (r: Option<usize>)
    ensures
        r == parse_usize_spec(s@),
{
    let n = s.unicode_len();
    if n > 0 && s.get_char(0) == '+' {
        let r = parse_digits(s, 1);
        proof {
            assert(s@.skip(1) =~= s@.drop_first());
        }
        r
    } else {
        let r = parse_digits(s, 0);
        proof {
            assert(s@.skip(0) =~= s@);
        }
        r
    }
}

/// The number of CPUs a CPU present range (such as `0-7`) describes: one more than its end.
pub open spec fn cpu_count_of(data: Seq<char>) -> Option<int> {
    let dash = find_from(data, '-', 0);
    if dash < data.len() {
        match parse_usize_spec(data.skip(dash + 1)) {
            Some(m) => Some(m + 1),
            None => None,
        }
    } else {
        None
    }
}

/// The CPU present range to go by: the one read, or that of the Steam Deck when none could be read.
pub open spec fn present_or_default(present: Option<Seq<char>>) -> Seq<char> {
    match present {
        Some(p) => p,
        None => "0-7"@,
    }
}

/// Whether a CPU present range ends at the largest `usize`, which leaves no count to give.
pub open spec fn present_overflows(present: Option<Seq<char>>) -> bool {
    let data = present_or_default(present);
    let dash = find_from(data, '-', 0);
    dash < data.len() && parse_usize_spec(data.skip(dash + 1)) == Some(usize::MAX)
}

/// The number of CPUs, from the CPU present range (`None` when it cannot be parsed).
pub fn cpu_count(present: Option<&str>) -> (r: Option<usize>)
    requires
        !present_overflows(match present { Some(p) => Some(p@), None => None }),
    ensures
        ({
            let data = present_or_default(match present { Some(p) => Some(p@), None => None });
            match cpu_count_of(data) {
                Some(c) => r == Some(c as usize),
                None => r is None,
            }
        }),
{
    let data: &str = match present {
        Some(p) => p,
        None => "0-7",
    };
    let n = data.unicode_len();
    let dash = find_char(data, '-', 0);
    if dash < n {
        let rest = data.substring_char(dash + 1, n);
        proof {
            assert(rest@ =~= data@.skip(dash + 1));
        }
        match parse_usize(rest) {
            Some(max_cpu) => Some(max_cpu + 1),
            None => None,
        }
    } else {
        None
    }
}

/// Test `present_overflows`.
pub fn present_overflows_check(present: Option<&str>) -> (r: bool)
    ensures
        r == present_overflows(match present { Some(p) => Some(p@), None => None }),
{
    let data: &str = match present {
        Some(p) => p,
        None => "0-7",
    };
    let n = data.unicode_len();
    let dash = find_char(data, '-', 0);
    if dash < n {
        let rest = data.substring_char(dash + 1, n);
        proof {
            assert(rest@ =~= data@.skip(dash + 1));
        }
        match parse_usize(rest) {
            Some(max_cpu) => max_cpu == usize::MAX,
            None => false,
        }
    } else {
        false
    }
}

/// Whether a character is white space in Unicode's sense (as `char::is_whitespace`).
pub open spec fn is_white_space(c: char) -> bool {
    ||| '\u{9}' <= c <= '\u{d}'
    ||| c == ' '
    ||| c == '\u{85}'
    ||| c == '\u{a0}'
    ||| c == '\u{1680}'
    ||| '\u{2000}' <= c <= '\u{200a}'
    ||| c == '\u{2028}'
    ||| c == '\u{2029}'
    ||| c == '\u{202f}'
    ||| c == '\u{205f}'
    ||| c == '\u{3000}'
}

fn is_white_space_exec(c: char) -> (r: bool)
    ensures
        r == is_white_space(c),
{
    ('\u{9}' <= c && c <= '\u{d}') || c == ' ' || c == '\u{85}' || c == '\u{a0}' || c == '\u{1680}'
        || ('\u{2000}' <= c && c <= '\u{200a}') || c == '\u{2028}' || c == '\u{2029}' || c == '\u{202f}'
        || c == '\u{205f}' || c == '\u{3000}'
}

/// `s` without leading and trailing white space, given as the bounds `(a, b)` of what remains.
pub open spec fn trimmed_bounds(s: Seq<char>, a: int, b: int) -> bool {
    &&& 0 <= a <= b <= s.len()
    &&& forall|j: int| 0 <= j < a ==> is_white_space(#[trigger] s[j])
    &&& forall|j: int| b <= j < s.len() ==> is_white_space(#[trigger] s[j])
    &&& a < b ==> !is_white_space(s[a]) && !is_white_space(s[b - 1])
}

/// `s` without leading and trailing white space (as `str::trim`).
pub open spec fn trim_spec(s: Seq<char>) -> Seq<char> {
    let (a, b) = choose|a: int, b: int| trimmed_bounds(s, a, b);
    s.subrange(a, b)
}

proof fn lemma_trim_unique(s: Seq<char>, a: int, b: int)
    requires
        trimmed_bounds(s, a, b),
    ensures
        trim_spec(s) == s.subrange(a, b),
{
    let (a2, b2) = choose|a2: int, b2: int| trimmed_bounds(s, a2, b2);
    assert(trimmed_bounds(s, a2, b2));
    if a < b {
        if a2 < a {
            assert(is_white_space(s[a2]));
            assert(a2 < b2 ==> !is_white_space(s[a2]));
            assert(!(a2 < b2)) by {
                if a2 < b2 {
                    assert(!is_white_space(s[a2]));
                }
            }
            assert(is_white_space(s[a]));
        }
        if a < a2 {
            assert(is_white_space(s[a]));
        }
        if b2 < b {
            assert(is_white_space(s[b - 1]));
        }
        if b < b2 {
            assert(is_white_space(s[b2 - 1]));
        }
    } else {
        if a2 < b2 {
            if a2 < a {
                assert(is_white_space(s[a2]));
            } else {
                assert(a2 >= b);
                assert(is_white_space(s[a2]));
            }
        }
    }
    assert(s.subrange(a, b) =~= s.subrange(a2, b2));
}

/// Strip leading and trailing white space.
pub fn trim(s: &str) -> (r: &str)
    ensures
        r@ == trim_spec(s@),
{
    let n = s.unicode_len();
    let mut a: usize = 0;
    while a < n && is_white_space_exec(s.get_char(a))
        invariant
            n == s@.len(),
            a <= n,
            forall|j: int| 0 <= j < a ==> is_white_space(#[trigger] s@[j]),
        decreases n - a,
    {
        a = a + 1;
    }
    let mut b: usize = n;
    while b > a && is_white_space_exec(s.get_char(b - 1))
        invariant
            n == s@.len(),
            a <= b <= n,
            forall|j: int| 0 <= j < a ==> is_white_space(#[trigger] s@[j]),
            forall|j: int| b <= j < n ==> is_white_space(#[trigger] s@[j]),
            a < n ==> !is_white_space(s@[a as int]),
        decreases b - a,
    {
        b = b - 1;
    }
    proof {
        lemma_trim_unique(s@, a as int, b as int);
    }
    s.substring_char(a, b)
}

/// Whether a text reads `on`, ignoring the case of its letters.
pub open spec fn reads_on(s: Seq<char>) -> bool {
    s.len() == 2 && (s[0] == 'o' || s[0] == 'O') && (s[1] == 'n' || s[1] == 'N')
}

/// SMT status and capability from the SMT control file: capable when the file could be read,
/// on when it reads `on`.
pub fn smt_capabilities(control: Option<&str>) -> (r: (bool, bool))
    ensures
        r == match control {
            Some(c) => (reads_on(trim_spec(c@)), true),
            None => (false, false),
        },
{
    match control {
        Some(c) => {
            let t = trim(c);
            let on = t.unicode_len() == 2 && (t.get_char(0) == 'o' || t.get_char(0) == 'O')
                && (t.get_char(1) == 'n' || t.get_char(1) == 'N');
            (on, true)
        },
        None => (false, false),
    }
}

/// What the drivers go by, worked out from the facts read off the system.
#[derive(Debug, Clone)]
pub struct SystemFacts {
    pub cpu_count: Option<usize>,
    pub smt_status: bool,
    pub smt_capable: bool,
    pub oc_limits: OverclockLimits,
    /// Whether `oc_limits` are the stock Steam Deck limits (no limits file was used).
    pub oc_is_default: bool,
    pub cpus: Vec<CpuReading>,
    /// Whether a RyzenAdj handle could be opened.
    pub ryzenadj_available: bool,
}

/// The view of an optional string.
pub open spec fn opt_str_view(o: Option<String>) -> Option<Seq<char>> {
    match o {
        Some(s) => Some(s@),
        None => None,
    }
}

impl SystemInfo {
    /// Whether the CPU present range leaves a CPU count to give.
    pub open spec fn well_formed(&self) -> bool {
        !present_overflows(opt_str_view(self.cpu_present))
    }
}

impl SystemInfo {
    /// Test `well_formed`.
    pub fn is_well_formed(&self) -> (r: bool)
        ensures
            r == self.well_formed(),
    {
        match &self.cpu_present {
            Some(p) => !present_overflows_check(Some(p.as_str())),
            None => !present_overflows_check(None),
        }
    }
}

impl SystemFacts {
    /// Work out the facts: CPU count, SMT support and the Steam Deck limits in force.
    pub fn from_info(info: SystemInfo) -> (r: Self)
        requires
            info.well_formed(),
        ensures
            match cpu_count_of(present_or_default(opt_str_view(info.cpu_present))) {
                Some(c) => r.cpu_count == Some(c as usize),
                None => r.cpu_count is None,
            },
            (r.smt_status, r.smt_capable) == match info.smt_control {
                Some(c) => (reads_on(trim_spec(c@)), true),
                None => (false, false),
            },
            match info.oc_limits {
                Some(l) => r.oc_limits == l && !r.oc_is_default,
                None => super::steam_deck::oc_limits::is_stock(r.oc_limits) && r.oc_is_default,
            },
            r.cpus == info.cpus,
            r.ryzenadj_available == info.ryzenadj_available,
    {
        let cpu_count = match &info.cpu_present {
            Some(p) => cpu_count(Some(p.as_str())),
            None => cpu_count(None),
        };
        let (smt_status, smt_capable) = match &info.smt_control {
            Some(c) => smt_capabilities(Some(c.as_str())),
            None => smt_capabilities(None),
        };
        let (oc_limits, oc_is_default) = OverclockLimits::load_or_default(info.oc_limits);
        SystemFacts {
            cpu_count,
            smt_status,
            smt_capable,
            oc_limits,
            oc_is_default,
            cpus: info.cpus,
            ryzenadj_available: info.ryzenadj_available,
        }
    }
}

} // verus!
