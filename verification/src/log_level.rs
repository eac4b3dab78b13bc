//! The log level that the command line asks for.
//!
//! `--verbose` and `-v` ask for `info`, `-vv` for `debug`, and `-vvv` or
//! more `v`s for `trace`; the first argument that asks for a level decides,
//! and without one the level is `warn`. Arguments are taken as the bytes
//! that the operating system hands over.

use vstd::prelude::*;

verus! {

/// A level of log output, from the least to the most verbose.
#[derive(Debug, Clone, Copy, PartialEq, Eq, Structural)]
pub enum LogLevel {
    Warn,
    Info,
    Debug,
    Trace,
}

impl LogLevel {
    /// The name of the level as the log filter spells it.
    pub open spec fn name(self) -> Seq<char> {
        match self {
            LogLevel::Warn => "warn"@,
            LogLevel::Info => "info"@,
            LogLevel::Debug => "debug"@,
            LogLevel::Trace => "trace"@,
        }
    }

    /// The name of the level as the log filter spells it.
    pub fn as_str(self) -> (s: &'static str)
        ensures
            s@ == self.name(),
    {
        match self {
            LogLevel::Warn => "warn",
            LogLevel::Info => "info",
            LogLevel::Debug => "debug",
            LogLevel::Trace => "trace",
        }
    }
}

/// The bytes of `--verbose`.
pub open spec fn verbose_flag() -> Seq<u8> {
    seq![45u8, 45u8, 118u8, 101u8, 114u8, 98u8, 111u8, 115u8, 101u8]
}

/// Whether `arg` is a `-` followed by nothing but `v`s.
pub open spec fn is_v_flag(arg: Seq<u8>) -> bool {
    &&& arg.len() >= 1
    &&& arg[0] == 45u8
    &&& forall|i: int| 1 <= i < arg.len() ==> arg[i] == 118u8
}

/// The level that one argument asks for, if it asks for one.
pub open spec fn arg_level(arg: Seq<u8>) -> Option<LogLevel> {
    if arg == verbose_flag() {
        Some(LogLevel::Info)
    } else if is_v_flag(arg) {
        let count = arg.len() - 1;
        if count == 1 {
            Some(LogLevel::Info)
        } else if count == 2 {
            Some(LogLevel::Debug)
        } else if count >= 3 {
            Some(LogLevel::Trace)
        } else {
            None
        }
    } else {
        None
    }
}

/// The level that the arguments ask for: that of the first argument that
/// asks for one, else `Warn`.
pub open spec fn log_level_of(args: Seq<Seq<u8>>) -> LogLevel
    decreases args.len(),
{
    if args.len() == 0 {
        LogLevel::Warn
    } else {
        match arg_level(args[0]) {
            Some(level) => level,
            None => log_level_of(args.drop_first()),
        }
    }
}

/// Whether `arg` is `--verbose`.
fn is_verbose_flag(arg: &Vec<u8>) -> (r: bool)
    ensures
        r == (arg@ == verbose_flag()),
{
    let flag: [u8; 9] = [45u8, 45u8, 118u8, 101u8, 114u8, 98u8, 111u8, 115u8, 101u8];
    assert(flag@ == verbose_flag());
    if arg.len() != 9 {
        return false;
    }
    let mut i: usize = 0;
    while i < 9
        invariant
            arg@.len() == 9,
            flag@ == verbose_flag(),
            i <= 9,
            forall|j: int| 0 <= j < i ==> arg@[j] == flag@[j],
        decreases 9 - i,
    {
        if arg[i] != flag[i] {
            return false;
        }
        i += 1;
    }
    assert(arg@ =~= verbose_flag());
    true
}

/// The level that one argument asks for, if it asks for one.
pub fn level_of_arg(arg: &Vec<u8>) -> (r: Option<LogLevel>)
    ensures
        r == arg_level(arg@),
{
    if is_verbose_flag(arg) {
        return Some(LogLevel::Info);
    }
    if arg.len() == 0 || arg[0] != 45u8 {
        return None;
    }
    let mut count: usize = 0;
    while count < arg.len() - 1
        invariant
            arg@ != verbose_flag(),
            arg@.len() >= 1,
            arg@[0] == 45u8,
            count + 1 <= arg@.len(),
            forall|i: int| 1 <= i < count + 1 ==> arg@[i] == 118u8,
        decreases arg@.len() - count,
    {
        if arg[count + 1] != 118u8 {
            assert(!is_v_flag(arg@));
            return None;
        }
        count += 1;
    }
    assert(is_v_flag(arg@));
    if count == 1 {
        Some(LogLevel::Info)
    } else if count == 2 {
        Some(LogLevel::Debug)
    } else if count >= 3 {
        Some(LogLevel::Trace)
    } else {
        None
    }
}

/// The name of the log level that the command line arguments `args` (the
/// program's name left out) ask for.
pub fn get_log_level(args: &Vec<Vec<u8>>) -> (r: &'static str)
    ensures
        r@ == log_level_of(args.deep_view()).name(),
{
    let ghost all = args.deep_view();
    let mut i: usize = 0;
    assert(all.skip(0) =~= all);
    while i < args.len()
        invariant
            all == args.deep_view(),
            i <= args.len(),
            log_level_of(all) == log_level_of(all.skip(i as int)),
        decreases args.len() - i,
    {
        let level = level_of_arg(&args[i]);
        assert(all.skip(i as int)[0] == args@[i as int]@);
        match level {
            Some(l) => {
                return l.as_str();
            },
            None => {
                assert(all.skip(i as int).drop_first() =~= all.skip(i + 1));
            },
        }
        i += 1;
    }
    assert(all.skip(i as int).len() == 0);
    LogLevel::Warn.as_str()
}

/// The first argument that asks for a level decides, whatever follows it.
pub proof fn lemma_first_request_decides(before: Seq<Seq<u8>>, arg: Seq<u8>, after: Seq<Seq<u8>>)
    requires
        forall|i: int| 0 <= i < before.len() ==> arg_level(#[trigger] before[i]) is None,
        arg_level(arg) is Some,
    ensures
        log_level_of(before + seq![arg] + after) == arg_level(arg)->0,
    decreases before.len(),
{
    let all = before + seq![arg] + after;
    if before.len() == 0 {
        assert(all[0] == arg);
    } else {
        assert(all[0] == before[0]);
        assert(all.drop_first() =~= before.drop_first() + seq![arg] + after);
        lemma_first_request_decides(before.drop_first(), arg, after);
    }
}

/// Arguments that ask for no level give `Warn`.
pub proof fn lemma_default_is_warn(args: Seq<Seq<u8>>)
    requires
        forall|i: int| 0 <= i < args.len() ==> arg_level(#[trigger] args[i]) is None,
    ensures
        log_level_of(args) == LogLevel::Warn,
    decreases args.len(),
{
    if args.len() > 0 {
        assert(arg_level(args[0]) is None);
        lemma_default_is_warn(args.drop_first());
    }
}

} // verus!
