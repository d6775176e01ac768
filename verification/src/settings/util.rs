use vstd::prelude::*;

use crate::persist::CpuJson;

verus! {

/// Whether each even CPU below `n` agrees on being online with the odd CPU right after it.
pub open spec fn pairs_agree_below(onlines: Seq<bool>, n: int) -> bool {
    forall|j: int| 0 <= j < n && j % 2 == 0 ==> #[trigger] onlines[j] == onlines[j + 1]
}

/// Whether every even CPU and the odd CPU right after it agree on being online.
pub open spec fn pairs_agree(onlines: Seq<bool>) -> bool {
    pairs_agree_below(onlines, onlines.len() as int)
}

/// The online flags of persisted CPU settings.
pub open spec fn json_onlines(cpus: Seq<CpuJson>) -> Seq<bool> {
    cpus.map_values(|c: CpuJson| c.online)
}

/// Guess whether SMT was enabled when the CPU settings were saved:
/// SMT is assumed on when each pair of sibling threads shares its online state.
pub fn guess_smt(cpus: &Vec<CpuJson>) -> (guess: bool)
    requires
        cpus@.len() % 2 == 0,
    ensures
        guess == pairs_agree(json_onlines(cpus@)),
{
    let ghost onlines = json_onlines(cpus@);
    let mut guess = true;
    let mut i: usize = 0;
    while i < cpus.len()
        invariant
            cpus@.len() % 2 == 0,
            onlines == json_onlines(cpus@),
            i % 2 == 0,
            i <= cpus@.len(),
            guess == pairs_agree_below(onlines, i as int),
        decreases cpus@.len() - i,
    {
        let same = cpus[i].online == cpus[i + 1].online;
        proof {
            assert(onlines[i as int] == cpus@[i as int].online);
            assert(onlines[i + 1] == cpus@[i + 1].online);
            if guess && same {
                assert forall|j: int| 0 <= j < i + 2 && j % 2 == 0 implies #[trigger] onlines[j] == onlines[j + 1] by {
                    if j < i {
                        assert(pairs_agree_below(onlines, i as int));
                    }
                }
            }
            if !same {
                assert(!pairs_agree_below(onlines, i + 2));
            }
            if !guess {
                let j = choose|j: int| 0 <= j < i && j % 2 == 0 && !(#[trigger] onlines[j] == onlines[j + 1]);
                assert(!(onlines[j] == onlines[j + 1]));
            }
        }
        guess = guess && same;
        i = i + 2;
    }
    guess
}

/// `r` is the first index at or after `from` where `ch` stands in `s`, or `s.len()` when there is none.
pub open spec fn first_at_or_after(s: Seq<char>, ch: char, from: int, r: int) -> bool {
    &&& from <= r <= s.len()
    &&& forall|j: int| from <= j < r ==> s[j] != ch
    &&& r < s.len() ==> s[r] == ch
}

/// The first index at or after `from` where `ch` stands in `s`, or `s.len()` when there is none.
pub open spec fn find_from(s: Seq<char>, ch: char, from: int) -> int {
    choose|r: int| first_at_or_after(s, ch, from, r)
}

pub(crate) proof fn lemma_find_from_unique(s: Seq<char>, ch: char, from: int, r: int)
    requires
        first_at_or_after(s, ch, from, r),
    ensures
        find_from(s, ch, from) == r,
{
    let q = find_from(s, ch, from);
    assert(first_at_or_after(s, ch, from, q));
    if q < r {
        assert(s[q] == ch);
    } else if r < q {
        assert(s[r] == ch);
    }
}

/// The first index at or after `from` where `ch` stands in `s`, or its length when there is none.
pub fn find_char(s: &str, ch: char, from: usize) -> (r: usize)
    requires
        from <= s@.len(),
    ensures
        first_at_or_after(s@, ch, from as int, r as int),
        r == find_from(s@, ch, from as int),
{
    let n = s.unicode_len();
    let mut i = from;
    while i < n
        invariant
            n == s@.len(),
            from <= i <= n,
            forall|j: int| from <= j < i ==> s@[j] != ch,
        decreases n - i,
    {
        if s.get_char(i) == ch {
            proof {
                lemma_find_from_unique(s@, ch, from as int, i as int);
            }
            return i;
        }
        i = i + 1;
    }
    proof {
        lemma_find_from_unique(s@, ch, from as int, n as int);
    }
    n
}

/// Whether two strings hold the same characters.
pub fn str_eq(a: &str, b: &str) -> (r: bool)
    ensures
        r == (a@ == b@),
{
    let n = a.unicode_len();
    if n != b.unicode_len() {
        return false;
    }
    let mut i: usize = 0;
    while i < n
        invariant
            n == a@.len(),
            n == b@.len(),
            i <= n,
            forall|j: int| 0 <= j < i ==> a@[j] == b@[j],
        decreases n - i,
    {
        if a.get_char(i) != b.get_char(i) {
            return false;
        }
        i = i + 1;
    }
    assert(a@ =~= b@);
    true
}

/// `x` brought into `[min, max]`.
pub open spec fn spec_clamp(x: u64, min: u64, max: u64) -> u64 {
    if x < min {
        min
    } else if x > max {
        max
    } else {
        x
    }
}

/// Bring `x` into `[min, max]`.
pub fn clamp(x: u64, min: u64, max: u64) -> (r: u64)
    requires
        min <= max,
    ensures
        r == spec_clamp(x, min, max),
        min <= r <= max,
{
    if x < min {
        min
    } else if x > max {
        max
    } else {
        x
    }
}

/// A predicate that holds of everything.
pub fn always_satisfied<X>(_x: &X) -> (r: bool)
    ensures
        r,
{
    true
}

/// The decimal digit of a number below ten.
pub open spec fn digit_char(d: nat) -> char {
    if d == 0 { '0' } else if d == 1 { '1' } else if d == 2 { '2' } else if d == 3 { '3' }
    else if d == 4 { '4' } else if d == 5 { '5' } else if d == 6 { '6' } else if d == 7 { '7' }
    else if d == 8 { '8' } else { '9' }
}

/// The decimal text of a number, as `Display` writes it.
pub open spec fn decimal_text(n: nat) -> Seq<char>
    decreases n,
{
    if n < 10 {
        seq![digit_char(n)]
    } else {
        decimal_text(n / 10).push(digit_char(n % 10))
    }
}

fn digit_str(d: usize) -> (c: &'static str)
    requires
        d < 10,
    ensures
        c@ == seq![digit_char(d as nat)],
{
    proof {
        reveal_strlit("0");
        reveal_strlit("1");
        reveal_strlit("2");
        reveal_strlit("3");
        reveal_strlit("4");
        reveal_strlit("5");
        reveal_strlit("6");
        reveal_strlit("7");
        reveal_strlit("8");
        reveal_strlit("9");
    }
    let c = if d == 0 { "0" } else if d == 1 { "1" } else if d == 2 { "2" } else if d == 3 { "3" }
        else if d == 4 { "4" } else if d == 5 { "5" } else if d == 6 { "6" } else if d == 7 { "7" }
        else if d == 8 { "8" } else { "9" };
    assert(c@ =~= seq![digit_char(d as nat)]);
    c
}

/// The decimal text of a number.
pub fn usize_to_decimal(n: usize) -> (r: String)
    ensures
        r@ == decimal_text(n as nat),
    decreases n,
{
    if n < 10 {
        let s = String::from_str(digit_str(n));
        assert(s@ =~= decimal_text(n as nat));
        s
    } else {
        let s = usize_to_decimal(n / 10).concat(digit_str(n % 10));
        assert(s@ =~= decimal_text(n as nat));
        s
    }
}

/// `path` with `file` below it: joined with one `/` (none when `path` is empty or ends in one).
pub open spec fn joined(path: Seq<char>, file: Seq<char>) -> Seq<char> {
    if path.len() == 0 || path.last() == '/' { path + file } else { path + seq!['/'] + file }
}

/// `file` below the directory `path`.
pub fn join_path(path: &str, file: &str) -> (r: String)
    ensures
        r@ == joined(path@, file@),
{
    let n = path.unicode_len();
    proof {
        reveal_strlit("/");
    }
    let s = if n > 0 && path.get_char(n - 1) != '/' {
        String::from_str(path).concat("/")
    } else {
        String::from_str(path)
    };
    let r = s.concat(file);
    assert(r@ =~= joined(path@, file@));
    r
}

/// The online file of CPU `index`.
pub fn cpu_online_path(index: usize) -> (r: String)
    ensures
        r@ == "/sys/devices/system/cpu/cpu"@ + decimal_text(index as nat) + "/online"@,
{
    let s = String::from_str("/sys/devices/system/cpu/cpu");
    let d = usize_to_decimal(index);
    s.concat(d.as_str()).concat("/online")
}

/// The scaling governor file of CPU `index`.
pub fn cpu_governor_path(index: usize) -> (r: String)
    ensures
        r@ == "/sys/devices/system/cpu/cpu"@ + decimal_text(index as nat) + "/cpufreq/scaling_governor"@,
{
    let s = String::from_str("/sys/devices/system/cpu/cpu");
    let d = usize_to_decimal(index);
    s.concat(d.as_str()).concat("/cpufreq/scaling_governor")
}

/// The pieces of `s` between the occurrences of `c`, in order, empty pieces included (as
/// `str::split` with a character gives them).
pub open spec fn split_on(s: Seq<char>, c: char) -> Seq<Seq<char>>
    decreases s.len(),
{
    if s.len() == 0 {
        seq![Seq::<char>::empty()]
    } else {
        let rest = split_on(s.drop_last(), c);
        if s.last() == c {
            rest.push(Seq::<char>::empty())
        } else {
            rest.update(rest.len() - 1, rest.last().push(s.last()))
        }
    }
}

proof fn lemma_split_on_len(s: Seq<char>, c: char)
    ensures
        split_on(s, c).len() >= 1,
    decreases s.len(),
{
    if s.len() > 0 {
        lemma_split_on_len(s.drop_last(), c);
    }
}

/// The governors a CPU offers, from the text of its available-governors file: the words
/// between single spaces.
pub fn split_governors(text: &str) -> (r: Vec<String>)
    ensures
        r.deep_view() == split_on(text@, ' '),
{
    let n = text.unicode_len();
    let mut out: Vec<String> = Vec::new();
    let mut start: usize = 0;
    let mut i: usize = 0;
    assert(text@.take(0) =~= Seq::<char>::empty());
    assert(out.deep_view() + seq![text@.subrange(0, 0)] =~= split_on(text@.take(0), ' '));
    while i < n
        invariant
            n == text@.len(),
            start <= i <= n,
            out.deep_view() + seq![text@.subrange(start as int, i as int)] == split_on(text@.take(i as int), ' '),
        decreases n - i,
    {
        let ghost before = out.deep_view();
        proof {
            assert(text@.take(i as int + 1).drop_last() =~= text@.take(i as int));
            assert(text@.take(i as int + 1).last() == text@[i as int]);
            lemma_split_on_len(text@.take(i as int), ' ');
        }
        if text.get_char(i) == ' ' {
            let ghost old_start = start;
            let piece = String::from_str(text.substring_char(start, i));
            out.push(piece);
            start = i + 1;
            assert(out.deep_view() =~= before + seq![text@.subrange(old_start as int, i as int)]);
            assert(text@.subrange(start as int, i as int + 1) =~= Seq::<char>::empty());
            assert(out.deep_view() + seq![text@.subrange(start as int, i as int + 1)]
                =~= (before + seq![text@.subrange(old_start as int, i as int)]).push(Seq::<char>::empty()));
        } else {
            assert(text@.subrange(start as int, i as int + 1) =~= text@.subrange(start as int, i as int).push(text@[i as int]));
            assert(out.deep_view() + seq![text@.subrange(start as int, i as int + 1)]
                =~= split_on(text@.take(i as int + 1), ' '));
        }
        i = i + 1;
    }
    let ghost before = out.deep_view();
    let last = String::from_str(text.substring_char(start, n));
    out.push(last);
    assert(text@.take(n as int) =~= text@);
    assert(out.deep_view() =~= before + seq![text@.subrange(start as int, n as int)]);
    out
}

/// The available governors file of CPU `index`.
pub fn cpu_available_governors_path(index: usize) -> (r: String)
    ensures
        r@ == "/sys/devices/system/cpu/cpu"@ + decimal_text(index as nat) + "/cpufreq/scaling_available_governors"@,
{
    let s = String::from_str("/sys/devices/system/cpu/cpu");
    let d = usize_to_decimal(index);
    s.concat(d.as_str()).concat("/cpufreq/scaling_available_governors")
}

/// The limits cache file in the settings directory.
pub fn limits_path(settings_dir: &str) -> (r: String)
    ensures
        r@ == joined(settings_dir@, crate::consts::LIMITS_FILE@),
{
    join_path(settings_dir, crate::consts::LIMITS_FILE)
}

} // verus!
