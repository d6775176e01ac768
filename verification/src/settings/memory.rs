//! Memory settings: transparent hugepages.

use vstd::prelude::*;

use crate::persist::MemoryJson;
use crate::settings::util::{find_char, find_from, first_at_or_after, lemma_find_from_unique};

verus! {

/// Attribute file of the transparent hugepages mode.
pub const MM_TRANSPARENT_HUGEPAGES_ENABLED_PATH: &'static str = "/sys/kernel/mm/transparent_hugepage/enabled";

/// Options for transparent hugepages.
#[derive(Debug, PartialEq, Eq, Clone, Copy, Structural)]
pub enum TransparentHugepages {
    Always,
    MAdvise,
    /// Do not use - https://serverfault.com/a/896131
    Never,
}

/// Error for parsing a transparent hugepages option.
pub enum TransparentHugepagesParseError {
    UnknownOption(String),
}

/// The option named by an exact string.
pub open spec fn thp_from_name(s: Seq<char>) -> Option<TransparentHugepages> {
    if s == "always"@ {
        Some(TransparentHugepages::Always)
    } else if s == "madvise"@ {
        Some(TransparentHugepages::MAdvise)
    } else if s == "never"@ {
        Some(TransparentHugepages::Never)
    } else {
        None
    }
}

/// The text between the first `[` and the first `]` after it (or the end).
pub open spec fn bracketed(s: Seq<char>) -> Seq<char> {
    let open = find_from(s, '[', 0);
    s.subrange(open + 1, find_from(s, ']', open + 1))
}

/// The text that names the option: the bracketed part of sysfs output such as
/// `always [madvise] never` when the text holds both brackets, else the whole text.
pub open spec fn thp_selected_text(s: Seq<char>) -> Seq<char> {
    if s.contains('[') && s.contains(']') {
        bracketed(s)
    } else {
        s
    }
}

/// The name of an option.
pub open spec fn thp_name(t: TransparentHugepages) -> Seq<char> {
    match t {
        TransparentHugepages::Always => "always"@,
        TransparentHugepages::MAdvise => "madvise"@,
        TransparentHugepages::Never => "never"@,
    }
}

fn thp_by_name(s: &str) -> (r: Option<TransparentHugepages>)
    ensures
        r == thp_from_name(s@),
{
    if crate::settings::util::str_eq(s, "always") {
        Some(TransparentHugepages::Always)
    } else if crate::settings::util::str_eq(s, "madvise") {
        Some(TransparentHugepages::MAdvise)
    } else if crate::settings::util::str_eq(s, "never") {
        Some(TransparentHugepages::Never)
    } else {
        None
    }
}

impl TransparentHugepages {
    /// Parse an option, either its plain name or sysfs output with the selected option in brackets.
    pub fn from_str(s: &str) -> (r: Result<TransparentHugepages, TransparentHugepagesParseError>)
        ensures
            match r {
                Ok(t) => thp_from_name(thp_selected_text(s@)) == Some(t),
                Err(TransparentHugepagesParseError::UnknownOption(e)) => thp_from_name(thp_selected_text(s@)) is None
                    && e@ == thp_selected_text(s@),
            },
    {
        let n = s.unicode_len();
        let open = find_char(s, '[', 0);
        let close = find_char(s, ']', 0);
        proof {
            if open < n {
                assert(s@[open as int] == '[');
            }
            if close < n {
                assert(s@[close as int] == ']');
            }
            if s@.contains('[') {
                let k = choose|k: int| 0 <= k < s@.len() && s@[k] == '[';
                assert(!(k < open));
            }
            if s@.contains(']') {
                let k = choose|k: int| 0 <= k < s@.len() && s@[k] == ']';
                assert(!(k < close));
            }
        }
        if open < n && close < n {
            let end = find_char(s, ']', open + 1);
            let inner = s.substring_char(open + 1, end);
            match thp_by_name(inner) {
                Some(t) => Ok(t),
                None => Err(TransparentHugepagesParseError::UnknownOption(inner.to_owned())),
            }
        } else {
            match thp_by_name(s) {
                Some(t) => Ok(t),
                None => Err(TransparentHugepagesParseError::UnknownOption(s.to_owned())),
            }
        }
    }

    /// The name of the option, as the kernel spells it.
    pub fn to_string(&self) -> (r: String)
        ensures
            r@ == thp_name(*self),
    {
        match self {
            TransparentHugepages::Always => String::from_str("always"),
            TransparentHugepages::MAdvise => String::from_str("madvise"),
            TransparentHugepages::Never => String::from_str("never"),
        }
    }
}

impl Default for TransparentHugepages {
    fn default() -> (r: Self)
        ensures
            r == TransparentHugepages::MAdvise,
    {
        TransparentHugepages::MAdvise
    }
}

/// Parsing the name of an option gives that option back (so `from_str` of `to_string()` does).
pub proof fn thp_name_roundtrip(t: TransparentHugepages)
    ensures
        thp_from_name(thp_selected_text(thp_name(t))) == Some(t),
{
    reveal_strlit("always");
    reveal_strlit("madvise");
    reveal_strlit("never");
    let s = thp_name(t);
    assert(!s.contains('[')) by {
        if s.contains('[') {
            let k = choose|k: int| 0 <= k < s.len() && s[k] == '[';
            assert(s[k] != '[');
        }
    }
    match t {
        TransparentHugepages::Always => {},
        TransparentHugepages::MAdvise => {
            assert("madvise"@ != "always"@) by {
                assert("madvise"@.len() != "always"@.len());
            }
        },
        TransparentHugepages::Never => {
            assert("never"@ != "always"@) by {
                assert("never"@.len() != "always"@.len());
            }
            assert("never"@ != "madvise"@) by {
                assert("never"@.len() != "madvise"@.len());
            }
        },
    }
}

/// The sysfs text that lists every option with `t` bracketed as the selected one.
pub open spec fn thp_sysfs_text(t: TransparentHugepages) -> Seq<char> {
    match t {
        TransparentHugepages::Always => "[always] madvise never"@,
        TransparentHugepages::MAdvise => "always [madvise] never"@,
        TransparentHugepages::Never => "always madvise [never]"@,
    }
}

/// Parsing the sysfs text that selects an option gives that option back.
pub proof fn thp_sysfs_roundtrip(t: TransparentHugepages)
    ensures
        thp_from_name(thp_selected_text(thp_sysfs_text(t))) == Some(t),
{
    reveal_strlit("[always] madvise never");
    reveal_strlit("always [madvise] never");
    reveal_strlit("always madvise [never]");
    reveal_strlit("always");
    reveal_strlit("madvise");
    reveal_strlit("never");
    let s = thp_sysfs_text(t);
    let (open, close): (int, int) = match t {
        TransparentHugepages::Always => (0, 7),
        TransparentHugepages::MAdvise => (7, 15),
        TransparentHugepages::Never => (15, 21),
    };
    assert(s[open] == '[' && s[close] == ']');
    assert(s.contains('[') && s.contains(']'));
    assert(first_at_or_after(s, '[', 0, open));
    lemma_find_from_unique(s, '[', 0, open);
    assert(first_at_or_after(s, ']', open + 1, close));
    lemma_find_from_unique(s, ']', open + 1, close);
    assert(bracketed(s) =~= thp_name(t));
    thp_name_roundtrip(t);
    assert(thp_selected_text(thp_name(t)) == thp_name(t)) by {
        if thp_name(t).contains('[') {
            let k = choose|k: int| 0 <= k < thp_name(t).len() && thp_name(t)[k] == '[';
            assert(thp_name(t)[k] != '[');
        }
    }
}

/// Bookkeeping of what the memory driver wrote.
#[derive(Debug, Clone, Copy)]
pub struct MemoryState {
    pub transparent_hugepages_set: bool,
}

/// Memory settings.
#[derive(Debug, Clone, Copy)]
pub struct Memory {
    pub transparent_hugepages: Option<TransparentHugepages>,
    pub state: MemoryState,
}

/// The option a persisted text names, if any.
pub open spec fn thp_from_text(s: Seq<char>) -> Option<TransparentHugepages> {
    thp_from_name(thp_selected_text(s))
}

impl Memory {
    /// Read persisted memory settings; an option that does not parse is dropped.
    pub fn from_json(other: MemoryJson, _version: u64) -> (r: Self)
        ensures
            r.transparent_hugepages == match other.transparent_hugepages {
                Some(v) => thp_from_text(v@),
                None => None,
            },
            !r.state.transparent_hugepages_set,
    {
        let thp = match other.transparent_hugepages {
            Some(v) => match TransparentHugepages::from_str(v.as_str()) {
                Ok(t) => Some(t),
                Err(_) => None,
            },
            None => None,
        };
        Memory { transparent_hugepages: thp, state: MemoryState { transparent_hugepages_set: false } }
    }

    /// The settings found on the system: the mode read from the kernel, or the default one
    /// when it could not be read.
    pub fn system_default(read: Option<TransparentHugepages>) -> (r: Self)
        ensures
            r.transparent_hugepages == Some(match read {
                Some(t) => t,
                None => TransparentHugepages::MAdvise,
            }),
            !r.state.transparent_hugepages_set,
    {
        let thp = match read {
            Some(t) => t,
            None => TransparentHugepages::default(),
        };
        Memory { transparent_hugepages: Some(thp), state: MemoryState { transparent_hugepages_set: false } }
    }

    /// Decide what to write to the kernel: the chosen mode, or the default one once when a
    /// chosen mode was unset, or nothing.
    pub fn set_all(&mut self) -> (w: Option<TransparentHugepages>)
        ensures
            final(self).transparent_hugepages == old(self).transparent_hugepages,
            match old(self).transparent_hugepages {
                Some(t) => w == Some(t) && final(self).state.transparent_hugepages_set,
                None => if old(self).state.transparent_hugepages_set {
                    w == Some(TransparentHugepages::MAdvise) && !final(self).state.transparent_hugepages_set
                } else {
                    w is None && !final(self).state.transparent_hugepages_set
                },
            },
    {
        if let Some(thp) = self.transparent_hugepages {
            self.state.transparent_hugepages_set = true;
            Some(thp)
        } else if self.state.transparent_hugepages_set {
            self.state.transparent_hugepages_set = false;
            Some(TransparentHugepages::default())
        } else {
            None
        }
    }

    /// Apply the settings: what to write to the kernel.
    pub fn on_set(&mut self) -> (w: Option<TransparentHugepages>)
        ensures
            final(self).transparent_hugepages == old(self).transparent_hugepages,
            match old(self).transparent_hugepages {
                Some(t) => w == Some(t) && final(self).state.transparent_hugepages_set,
                None => if old(self).state.transparent_hugepages_set {
                    w == Some(TransparentHugepages::MAdvise) && !final(self).state.transparent_hugepages_set
                } else {
                    w is None && !final(self).state.transparent_hugepages_set
                },
            },
    {
        self.set_all()
    }

    /// Re-apply the settings after resume, without changing the bookkeeping.
    pub fn on_resume(&self) -> (w: Option<TransparentHugepages>)
        ensures
            match self.transparent_hugepages {
                Some(t) => w == Some(t),
                None => if self.state.transparent_hugepages_set {
                    w == Some(TransparentHugepages::MAdvise)
                } else {
                    w is None
                },
            },
    {
        let mut copy = *self;
        copy.set_all()
    }

    /// The persisted form of these settings.
    pub fn json(&self) -> (r: MemoryJson)
        ensures
            r.transparent_hugepages matches Some(s) ==> self.transparent_hugepages matches Some(t) && s@ == thp_name(t),
            r.transparent_hugepages is None <==> self.transparent_hugepages is None,
    {
        MemoryJson {
            transparent_hugepages: match self.transparent_hugepages {
                Some(t) => Some(t.to_string()),
                None => None,
            },
        }
    }
}

} // verus!
