//! The agent's settings: the log level and the modules to run.
use crate::text::{split_at_char, split_on, str_equal};
use vstd::hash_set::StringHashSet;
use vstd::prelude::*;

verus! {

/// The most detailed level of messages that the log shows.
#[derive(Clone, Copy, Debug, PartialEq, Eq)]
pub enum LogLevel {
    Trace,
    Debug,
    Info,
    Warn,
    Error,
}

/// The level that a setting names: `trace`, `debug`, `info`, `warn` or
/// `error`; any other value, or none, means `info`.
pub open spec fn spec_log_level(setting: Option<Seq<char>>) -> LogLevel {
    match setting {
        Some(v) => if v == seq!['t', 'r', 'a', 'c', 'e'] {
            LogLevel::Trace
        } else if v == seq!['d', 'e', 'b', 'u', 'g'] {
            LogLevel::Debug
        } else if v == seq!['i', 'n', 'f', 'o'] {
            LogLevel::Info
        } else if v == seq!['w', 'a', 'r', 'n'] {
            LogLevel::Warn
        } else if v == seq!['e', 'r', 'r', 'o', 'r'] {
            LogLevel::Error
        } else {
            LogLevel::Info
        },
        None => LogLevel::Info,
    }
}

/// The log level that a setting names; see `spec_log_level`.
pub fn log_level(setting: Option<&str>) -> (level: LogLevel)
    ensures
        level == spec_log_level(match setting {
            Some(v) => Some(v@),
            None => None,
        }),
{
    match setting {
        None => LogLevel::Info,
        Some(level) => {
            let trace = "trace";
            let debug = "debug";
            let info = "info";
            let warn = "warn";
            let error = "error";
            proof {
                reveal_strlit("trace");
                reveal_strlit("debug");
                reveal_strlit("info");
                reveal_strlit("warn");
                reveal_strlit("error");
            }
            assert(trace@ =~= seq!['t', 'r', 'a', 'c', 'e']);
            assert(debug@ =~= seq!['d', 'e', 'b', 'u', 'g']);
            assert(info@ =~= seq!['i', 'n', 'f', 'o']);
            assert(warn@ =~= seq!['w', 'a', 'r', 'n']);
            assert(error@ =~= seq!['e', 'r', 'r', 'o', 'r']);
            if str_equal(level, trace) {
                LogLevel::Trace
            } else if str_equal(level, debug) {
                LogLevel::Debug
            } else if str_equal(level, info) {
                LogLevel::Info
            } else if str_equal(level, warn) {
                LogLevel::Warn
            } else if str_equal(level, error) {
                LogLevel::Error
            } else {
                LogLevel::Info
            }
        },
    }
}

/// The set of the strings in `vec`.
pub fn vec_to_set(vec: Vec<String>) -> (set: StringHashSet)
    ensures
        set@ == vec.deep_view().to_set(),
{
    let mut set = StringHashSet::new();
    let n = vec.len();
    let mut i: usize = 0;
    assert(vec.deep_view().take(0).to_set() =~= Set::<Seq<char>>::empty());
    while i < n
        invariant
            n == vec.len(),
            i <= n,
            set@ == vec.deep_view().take(i as int).to_set(),
        decreases n - i,
    {
        let item = vec[i].clone();
        let ghost before = vec.deep_view().take(i as int);
        assert(vec.deep_view().take(i as int + 1) =~= before.push(vec[i as int]@));
        set.insert(item);
        assert(set@ =~= before.push(vec[i as int]@).to_set()) by {
            assert forall|s: Seq<char>| #[trigger] set@.contains(s) == before.push(
                vec[i as int]@,
            ).contains(s) by {
                if before.push(vec[i as int]@).contains(s) && s != vec[i as int]@ {
                    let k = choose|k: int|
                        0 <= k < before.push(vec[i as int]@).len() && before.push(
                            vec[i as int]@,
                        )[k] == s;
                    assert(before[k] == s);
                }
                if before.contains(s) {
                    let k = choose|k: int| 0 <= k < before.len() && before[k] == s;
                    assert(before.push(vec[i as int]@)[k] == s);
                }
                assert(before.push(vec[i as int]@)[before.len() as int] == vec[i as int]@);
            }
        }
        i = i + 1;
    }
    assert(vec.deep_view().take(n as int) =~= vec.deep_view());
    set
}

/// The modules that a comma-separated setting names; no setting names only
/// the empty string.
pub fn enabled_modules(setting: Option<&str>) -> (modules: StringHashSet)
    ensures
        modules@ == split_on(
            match setting {
                Some(v) => v@,
                None => Seq::<char>::empty(),
            },
            ',',
        ).to_set(),
{
    let text = match setting {
        Some(v) => v,
        None => "",
    };
    proof {
        reveal_strlit("");
    }
    assert(setting is None ==> text@ =~= Seq::<char>::empty());
    vec_to_set(split_at_char(text, ','))
}

} // verus!
