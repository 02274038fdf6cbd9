//! Choice of the log level for this library's own messages, driven by
//! the `RUST_LOG` environment value the host process reads: either the
//! whole value is a level name, or a comma-separated list of
//! `module=level` settings carries one for this library.

use vstd::prelude::*;
use crate::text::seq_contains;
use crate::text::split_all;
use crate::text::split_all_spec;
use crate::text::str_contains;

verus! {

/// A logging verbosity level, ordered from silent to chattiest.
#[derive(Clone, Copy, Debug, PartialEq, Eq, Structural)]
pub enum LogLevel {
    Off,
    Error,
    Warn,
    Info,
    Debug,
    Trace,
}

/// `c` with an ASCII capital letter folded to its small form.
pub open spec fn lower_char(c: char) -> char {
    match c {
        'A' => 'a',
        'B' => 'b',
        'C' => 'c',
        'D' => 'd',
        'E' => 'e',
        'F' => 'f',
        'G' => 'g',
        'H' => 'h',
        'I' => 'i',
        'J' => 'j',
        'K' => 'k',
        'L' => 'l',
        'M' => 'm',
        'N' => 'n',
        'O' => 'o',
        'P' => 'p',
        'Q' => 'q',
        'R' => 'r',
        'S' => 's',
        'T' => 't',
        'U' => 'u',
        'V' => 'v',
        'W' => 'w',
        'X' => 'x',
        'Y' => 'y',
        'Z' => 'z',
        _ => c,
    }
}

/// Whether two texts agree up to ASCII case.
pub open spec fn eq_ignore_case(a: Seq<char>, b: Seq<char>) -> bool {
    a.map_values(|c: char| lower_char(c)) == b.map_values(|c: char| lower_char(c))
}

/// Whether two string slices agree up to ASCII case.
pub fn str_eq_ignore_case(a: &str, b: &str) -> (r: bool)
    ensures
        r == eq_ignore_case(a@, b@),
{
    let na = a.unicode_len();
    let nb = b.unicode_len();
    if na != nb {
        proof {
            assert(a@.map_values(|c: char| lower_char(c)).len() == na);
            assert(b@.map_values(|c: char| lower_char(c)).len() == nb);
        }
        return false;
    }
    let mut i: usize = 0;
    while i < na
        invariant
            0 <= i <= na,
            na == a@.len(),
            na == b@.len(),
            forall|j: int| 0 <= j < i ==> lower_char(a@[j]) == lower_char(b@[j]),
        decreases na - i,
    {
        if to_lower(a.get_char(i)) != to_lower(b.get_char(i)) {
            proof {
                assert(a@.map_values(|c: char| lower_char(c))[i as int] == lower_char(
                    a@[i as int],
                ));
                assert(b@.map_values(|c: char| lower_char(c))[i as int] == lower_char(
                    b@[i as int],
                ));
            }
            return false;
        }
        i = i + 1;
    }
    proof {
        assert(a@.map_values(|c: char| lower_char(c)) =~= b@.map_values(
            |c: char| lower_char(c),
        ));
    }
    true
}

/// `c` with an ASCII capital letter folded to its small form.
pub fn to_lower(c: char) -> (r: char)
    ensures
        r == lower_char(c),
{
    match c {
        'A' => 'a',
        'B' => 'b',
        'C' => 'c',
        'D' => 'd',
        'E' => 'e',
        'F' => 'f',
        'G' => 'g',
        'H' => 'h',
        'I' => 'i',
        'J' => 'j',
        'K' => 'k',
        'L' => 'l',
        'M' => 'm',
        'N' => 'n',
        'O' => 'o',
        'P' => 'p',
        'Q' => 'q',
        'R' => 'r',
        'S' => 's',
        'T' => 't',
        'U' => 'u',
        'V' => 'v',
        'W' => 'w',
        'X' => 'x',
        'Y' => 'y',
        'Z' => 'z',
        _ => c,
    }
}

/// The level a text names, compared without regard to ASCII case; or
/// nothing when it names none.
pub open spec fn level_of_spec(s: Seq<char>) -> Option<LogLevel> {
    if eq_ignore_case(s, "off"@) {
        Some(LogLevel::Off)
    } else if eq_ignore_case(s, "error"@) {
        Some(LogLevel::Error)
    } else if eq_ignore_case(s, "warn"@) {
        Some(LogLevel::Warn)
    } else if eq_ignore_case(s, "info"@) {
        Some(LogLevel::Info)
    } else if eq_ignore_case(s, "debug"@) {
        Some(LogLevel::Debug)
    } else if eq_ignore_case(s, "trace"@) {
        Some(LogLevel::Trace)
    } else {
        None
    }
}

/// Parse a level name, ignoring ASCII case.
pub fn parse_level(s: &str) -> (r: Option<LogLevel>)
    ensures
        r == level_of_spec(s@),
{
    if str_eq_ignore_case(s, "off") {
        Some(LogLevel::Off)
    } else if str_eq_ignore_case(s, "error") {
        Some(LogLevel::Error)
    } else if str_eq_ignore_case(s, "warn") {
        Some(LogLevel::Warn)
    } else if str_eq_ignore_case(s, "info") {
        Some(LogLevel::Info)
    } else if str_eq_ignore_case(s, "debug") {
        Some(LogLevel::Debug)
    } else if str_eq_ignore_case(s, "trace") {
        Some(LogLevel::Trace)
    } else {
        None
    }
}

/// The module name whose setting in the list is this library's.
pub open spec fn module_filter_name() -> Seq<char> {
    "lala_lib"@
}

/// Index of the first piece that mentions this library, or
/// `pieces.len()` when none does.
pub open spec fn first_mentioning_idx(pieces: Seq<Seq<char>>) -> int
    decreases pieces.len(),
{
    if pieces.len() == 0 {
        0
    } else if seq_contains(pieces[0], module_filter_name()) {
        0
    } else {
        1 + first_mentioning_idx(pieces.drop_first())
    }
}

pub proof fn lemma_first_mentioning_at(pieces: Seq<Seq<char>>, i: int)
    requires
        0 <= i <= pieces.len(),
        forall|j: int| 0 <= j < i ==> !seq_contains(pieces[j], module_filter_name()),
        i < pieces.len() ==> seq_contains(pieces[i], module_filter_name()),
    ensures
        first_mentioning_idx(pieces) == i,
    decreases pieces.len(),
{
    if pieces.len() == 0 {
    } else if seq_contains(pieces[0], module_filter_name()) {
        assert(i == 0) by {
            if i > 0 {
                assert(!seq_contains(pieces[0], module_filter_name()));
            }
        }
    } else {
        assert(i >= 1);
        let t = pieces.drop_first();
        assert forall|j: int| 0 <= j < i - 1 implies !seq_contains(
            t[j],
            module_filter_name(),
        ) by {
            assert(t[j] == pieces[j + 1]);
        }
        assert(i - 1 < t.len() ==> t[i - 1] == pieces[i]);
        lemma_first_mentioning_at(t, i - 1);
    }
}

/// The level chosen for this library's messages from the environment
/// value: no value means the default; a value that names a level whole
/// is taken; otherwise the first comma-separated piece mentioning this
/// library is read as `module=level`, and anything unreadable falls
/// back to the default.
pub open spec fn log_level_spec(env: Option<Seq<char>>) -> LogLevel {
    match env {
        None => LogLevel::Info,
        Some(s) => match level_of_spec(s) {
            Some(l) => l,
            None => {
                let pieces = split_all_spec(s, ',');
                let k = first_mentioning_idx(pieces);
                if k == pieces.len() {
                    LogLevel::Info
                } else {
                    let setting = split_all_spec(pieces[k], '=');
                    if setting.len() < 2 {
                        LogLevel::Info
                    } else {
                        match level_of_spec(setting[1]) {
                            Some(l) => l,
                            None => LogLevel::Info,
                        }
                    }
                }
            },
        },
    }
}

/// Choose the level for this library's messages, as `log_level_spec`
/// describes, from the `RUST_LOG` environment value if any.
pub fn log_level_for(env_value: Option<&str>) -> (l: LogLevel)
    ensures
        ({
            let env = match env_value {
                Some(s) => Some(s@),
                None => None::<Seq<char>>,
            };
            l == log_level_spec(env)
        }),
{
    let s = match env_value {
        None => {
            return LogLevel::Info;
        },
        Some(s) => s,
    };
    match parse_level(s) {
        Some(l) => l,
        None => {
            let pieces = split_all(s, ',');
            let ghost piece_views = crate::text::views_of(pieces@);
            let mut k: usize = 0;
            while k < pieces.len()
                invariant
                    0 <= k <= pieces.len(),
                    piece_views == crate::text::views_of(pieces@),
                    forall|j: int| 0 <= j < k ==> !seq_contains(
                        piece_views[j],
                        module_filter_name(),
                    ),
                ensures
                    0 <= k <= pieces.len(),
                    piece_views == crate::text::views_of(pieces@),
                    forall|j: int| 0 <= j < k ==> !seq_contains(
                        piece_views[j],
                        module_filter_name(),
                    ),
                    k < pieces@.len() ==> seq_contains(piece_views[k as int], module_filter_name()),
                decreases pieces.len() - k,
            {
                if str_contains(pieces[k].as_str(), "lala_lib") {
                    proof {
                        assert(piece_views[k as int] == pieces@[k as int]@);
                    }
                    break;
                }
                proof {
                    assert(piece_views[k as int] == pieces@[k as int]@);
                }
                k = k + 1;
            }
            proof {
                lemma_first_mentioning_at(piece_views, k as int);
            }
            if k == pieces.len() {
                return LogLevel::Info;
            }
            let setting = split_all(pieces[k].as_str(), '=');
            if setting.len() < 2 {
                return LogLevel::Info;
            }
            match parse_level(setting[1].as_str()) {
                Some(l) => l,
                None => LogLevel::Info,
            }
        },
    }
}

/// The level applied to every other module's messages.
pub fn global_log_level() -> (l: LogLevel)
    ensures
        l == LogLevel::Warn,
{
    LogLevel::Warn
}

} // verus!
