//! The command line of the program.
//!
//! `ogle [OPTIONS] [--] COMMAND...`, where the options are `-p N` /
//! `--period N` (seconds to sleep between runs, 1 when not given; also
//! written `-pN`, `-p=N` and `--period=N`), `-z` / `--until-success`,
//! `-e` / `--until-failure`, `-h` / `--help` and `-V` / `--version`.
//! Short options may be bundled in one word (`-zp5`). Options stand before
//! the command; `--`, or the first word that is not an option, starts the
//! command, which takes every word after it.

use vstd::prelude::*;

use crate::process_wrapper::copy_strings;
use crate::process_wrapper::Cmd;
use crate::process_wrapper::ExitSts;

verus! {

/// The parsed command line.
#[derive(Debug)]
pub struct Cli {
    /// Seconds to sleep between runs.
    pub period: u32,
    /// Stop once the command succeeds.
    pub until_success: bool,
    /// Stop once the command fails.
    pub until_failure: bool,
    /// The command to run, and its arguments.
    pub command: Vec<String>,
}

/// Why a command line was refused.
#[derive(Debug, Clone, Copy, PartialEq, Eq, Structural)]
pub enum CliError {
    /// No command to run was given.
    MissingCommand,
    /// The period option ends the line, without its value.
    MissingValue,
    /// The period is not a decimal number that fits 32 bits.
    InvalidPeriod,
    /// A word starts with `-` but is no option.
    UnknownOption,
    /// Help was asked for.
    Help,
    /// The version was asked for.
    Version,
}

/// What a command line says.
pub ghost struct CliArgs {
    pub period: nat,
    pub until_success: bool,
    pub until_failure: bool,
    pub command: Seq<Seq<char>>,
}

/// Whether `c` is an ASCII digit.
pub open spec fn is_digit(c: char) -> bool {
    '0' <= c <= '9'
}

/// The value of a string of decimal digits.
pub open spec fn digits_value(s: Seq<char>) -> nat
    decreases s.len(),
{
    if s.len() == 0 {
        0
    } else {
        digits_value(s.drop_last()) * 10 + ((s.last() as u32) - 48) as nat
    }
}

/// A period: one or more decimal digits whose value fits 32 bits.
pub open spec fn period_of(s: Seq<char>) -> Option<nat> {
    if s.len() > 0 && (forall|i: int| 0 <= i < s.len() ==> is_digit(#[trigger] s[i]))
        && digits_value(s) <= 4294967295 {
        Some(digits_value(s))
    } else {
        None
    }
}

/// The options after a period value `v`; `next` tells whether the value
/// was the next word.
pub open spec fn with_period(acc: CliArgs, v: Seq<char>, next: bool) -> Result<
    (CliArgs, bool),
    CliError,
> {
    match period_of(v) {
        Some(p) => Ok((CliArgs { period: p, ..acc }, next)),
        None => Err(CliError::InvalidPeriod),
    }
}

/// A long option `--name`, with `next` the word after it, if any: the
/// options after it, and whether it took the next word as its value.
pub open spec fn long_option(name: Seq<char>, acc: CliArgs, next: Option<Seq<char>>) -> Result<
    (CliArgs, bool),
    CliError,
> {
    if name == "until-success"@ {
        Ok((CliArgs { until_success: true, ..acc }, false))
    } else if name == "until-failure"@ {
        Ok((CliArgs { until_failure: true, ..acc }, false))
    } else if name == "help"@ {
        Err(CliError::Help)
    } else if name == "version"@ {
        Err(CliError::Version)
    } else if name == "period"@ {
        match next {
            Some(v) => with_period(acc, v, true),
            None => Err(CliError::MissingValue),
        }
    } else if name.len() >= 7 && name.take(7) == "period="@ {
        with_period(acc, name.skip(7), false)
    } else {
        Err(CliError::UnknownOption)
    }
}

/// The short options of the word `a` from its `j`-th character on, with
/// `next` the word after it, if any: the options after them, and whether
/// the last took the next word as its value.
pub open spec fn short_options(a: Seq<char>, j: int, acc: CliArgs, next: Option<Seq<char>>) -> Result<
    (CliArgs, bool),
    CliError,
>
    decreases a.len() - j,
{
    if j >= a.len() || j < 0 {
        Ok((acc, false))
    } else if a[j] == 'z' {
        short_options(a, j + 1, CliArgs { until_success: true, ..acc }, next)
    } else if a[j] == 'e' {
        short_options(a, j + 1, CliArgs { until_failure: true, ..acc }, next)
    } else if a[j] == 'h' {
        Err(CliError::Help)
    } else if a[j] == 'V' {
        Err(CliError::Version)
    } else if a[j] == 'p' {
        if j + 1 < a.len() {
            if a[j + 1] == '=' {
                with_period(acc, a.skip(j + 2), false)
            } else {
                with_period(acc, a.skip(j + 1), false)
            }
        } else {
            match next {
                Some(v) => with_period(acc, v, true),
                None => Err(CliError::MissingValue),
            }
        }
    } else {
        Err(CliError::UnknownOption)
    }
}

/// The word after `args[i]`, if any.
pub open spec fn next_word(args: Seq<Seq<char>>, i: int) -> Option<Seq<char>> {
    if 0 <= i + 1 < args.len() {
        Some(args[i + 1])
    } else {
        None
    }
}

/// The command line from `args[i]` on, with the options seen before it
/// in `acc`.
pub open spec fn parse_from(args: Seq<Seq<char>>, i: int, acc: CliArgs) -> Result<
    CliArgs,
    CliError,
>
    decreases args.len() + 1 - i,
{
    if i >= args.len() || i < 0 {
        Err(CliError::MissingCommand)
    } else {
        let a = args[i];
        if a == "--"@ {
            if i + 1 < args.len() {
                Ok(CliArgs { command: args.skip(i + 1), ..acc })
            } else {
                Err(CliError::MissingCommand)
            }
        } else if a.len() > 2 && a[0] == '-' && a[1] == '-' {
            match long_option(a.skip(2), acc, next_word(args, i)) {
                Ok((acc2, took)) => parse_from(
                    args,
                    i + 1 + if took {
                        1int
                    } else {
                        0int
                    },
                    acc2,
                ),
                Err(e) => Err(e),
            }
        } else if a.len() > 1 && a[0] == '-' {
            match short_options(a, 1, acc, next_word(args, i)) {
                Ok((acc2, took)) => parse_from(
                    args,
                    i + 1 + if took {
                        1int
                    } else {
                        0int
                    },
                    acc2,
                ),
                Err(e) => Err(e),
            }
        } else {
            Ok(CliArgs { command: args.skip(i), ..acc })
        }
    }
}

/// What a whole command line says; its first word names the program.
pub open spec fn parse_args(args: Seq<Seq<char>>) -> Result<CliArgs, CliError> {
    parse_from(
        args,
        1,
        CliArgs { period: 1, until_success: false, until_failure: false, command: Seq::empty() },
    )
}

fn str_is(a: &str, b: &str) -> (r: bool)
    ensures
        r == (a@ == b@),
{
    let n = a.unicode_len();
    if n != b.unicode_len() {
        return false;
    }
    let mut i: usize = 0;
    while i < n
        invariant
            n == a@.len(),
            n == b@.len(),
            i <= n,
            a@.take(i as int) == b@.take(i as int),
        decreases n - i,
    {
        if a.get_char(i) != b.get_char(i) {
            assert(a@[i as int] != b@[i as int]);
            return false;
        }
        assert(a@.take(i + 1) =~= a@.take(i as int).push(a@[i as int]));
        assert(b@.take(i + 1) =~= b@.take(i as int).push(b@[i as int]));
        i = i + 1;
    }
    assert(a@ =~= a@.take(n as int));
    assert(b@ =~= b@.take(n as int));
    true
}

proof fn lemma_digits_value_grows(s: Seq<char>, k: int)
    requires
        0 <= k <= s.len(),
        forall|i: int| 0 <= i < s.len() ==> is_digit(#[trigger] s[i]),
    ensures
        digits_value(s.take(k)) <= digits_value(s),
    decreases s.len() - k,
{
    if k < s.len() {
        lemma_digits_value_grows(s, k + 1);
        assert(s.take(k + 1).drop_last() =~= s.take(k));
    } else {
        assert(s.take(k) =~= s);
    }
}

fn parse_period(s: &str) -> (r: Option<u32>)
    ensures
        r matches Some(v) ==> period_of(s@) == Some(v as nat),
        r is None ==> period_of(s@) is None,
{
    let n = s.unicode_len();
    if n == 0 {
        return None;
    }
    let mut v: u64 = 0;
    let mut i: usize = 0;
    while i < n
        invariant
            n == s@.len(),
            i <= n,
            v == digits_value(s@.take(i as int)),
            v <= 4294967295,
            forall|j: int| 0 <= j < i ==> is_digit(#[trigger] s@[j]),
        decreases n - i,
    {
        let c = s.get_char(i);
        if !(c >= '0' && c <= '9') {
            return None;
        }
        assert(s@.take(i + 1).drop_last() =~= s@.take(i as int));
        v = v * 10 + (c as u32 - 48) as u64;
        i = i + 1;
        if v > 4294967295 {
            proof {
                if forall|j: int| 0 <= j < s@.len() ==> is_digit(#[trigger] s@[j]) {
                    lemma_digits_value_grows(s@, i as int);
                }
            }
            return None;
        }
    }
    assert(s@.take(n as int) =~= s@);
    Some(v as u32)
}

/// Options seen so far.
#[derive(Clone, Copy)]
struct Opts {
    period: u32,
    until_success: bool,
    until_failure: bool,
}

spec fn args_of(o: Opts) -> CliArgs {
    CliArgs {
        period: o.period as nat,
        until_success: o.until_success,
        until_failure: o.until_failure,
        command: Seq::empty(),
    }
}

spec fn step_view(r: Result<(Opts, bool), CliError>) -> Result<(CliArgs, bool), CliError> {
    match r {
        Ok((o, took)) => Ok((args_of(o), took)),
        Err(e) => Err(e),
    }
}

spec fn word_view(w: Option<&str>) -> Option<Seq<char>> {
    match w {
        Some(x) => Some(x@),
        None => None,
    }
}

fn period_option(o: Opts, v: &str, next: bool) -> (r: Result<(Opts, bool), CliError>)
    ensures
        step_view(r) == with_period(args_of(o), v@, next),
        r matches Ok((_, took)) ==> took == next,
{
    match parse_period(v) {
        Some(p) => Ok((Opts { period: p, ..o }, next)),
        None => Err(CliError::InvalidPeriod),
    }
}

fn long_option_of(name: &str, o: Opts, next: Option<&str>) -> (r: Result<(Opts, bool), CliError>)
    ensures
        step_view(r) == long_option(name@, args_of(o), word_view(next)),
        r matches Ok((_, took)) && took ==> next is Some,
{
    if str_is(name, "until-success") {
        Ok((Opts { until_success: true, ..o }, false))
    } else if str_is(name, "until-failure") {
        Ok((Opts { until_failure: true, ..o }, false))
    } else if str_is(name, "help") {
        Err(CliError::Help)
    } else if str_is(name, "version") {
        Err(CliError::Version)
    } else if str_is(name, "period") {
        match next {
            Some(v) => period_option(o, v, true),
            None => Err(CliError::MissingValue),
        }
    } else {
        let n = name.unicode_len();
        if n >= 7 && str_is(name.substring_char(0, 7), "period=") {
            assert(name@.subrange(0, 7) =~= name@.take(7));
            let v = name.substring_char(7, n);
            assert(v@ =~= name@.skip(7));
            period_option(o, v, false)
        } else {
            Err(CliError::UnknownOption)
        }
    }
}

fn short_options_of(a: &str, o: Opts, next: Option<&str>) -> (r: Result<(Opts, bool), CliError>)
    ensures
        step_view(r) == short_options(a@, 1, args_of(o), word_view(next)),
        r matches Ok((_, took)) && took ==> next is Some,
{
    let n = a.unicode_len();
    let mut j: usize = 1;
    let mut cur = o;
    while j < n
        invariant
            n == a@.len(),
            1 <= j,
            short_options(a@, 1, args_of(o), word_view(next)) == short_options(
                a@,
                j as int,
                args_of(cur),
                word_view(next),
            ),
        decreases n - j,
    {
        let c = a.get_char(j);
        if c == 'z' {
            cur = Opts { until_success: true, ..cur };
            j = j + 1;
        } else if c == 'e' {
            cur = Opts { until_failure: true, ..cur };
            j = j + 1;
        } else if c == 'h' {
            return Err(CliError::Help);
        } else if c == 'V' {
            return Err(CliError::Version);
        } else if c == 'p' {
            if j + 1 < n {
                let from = if a.get_char(j + 1) == '=' {
                    j + 2
                } else {
                    j + 1
                };
                let v = a.substring_char(from, n);
                assert(v@ =~= a@.skip(from as int));
                return period_option(cur, v, false);
            } else {
                return match next {
                    Some(v) => period_option(cur, v, true),
                    None => Err(CliError::MissingValue),
                };
            }
        } else {
            return Err(CliError::UnknownOption);
        }
    }
    Ok((cur, false))
}

fn words_from(args: &Vec<&str>, start: usize) -> (r: Vec<String>)
    requires
        start <= args.len(),
    ensures
        r@.map_values(|w: String| w@) == args@.map_values(|a: &str| a@).skip(start as int),
{
    let ghost v = args@.map_values(|a: &str| a@);
    let mut command: Vec<String> = Vec::new();
    let mut j: usize = start;
    while j < args.len()
        invariant
            v == args@.map_values(|a: &str| a@),
            start <= j <= args.len(),
            command@.map_values(|w: String| w@) =~= v.subrange(start as int, j as int),
        decreases args.len() - j,
    {
        let w = String::from_str(args[j]);
        assert(w@ == v[j as int]);
        let ghost before = command@;
        command.push(w);
        assert(command@ == before.push(w));
        assert(command@.map_values(|w: String| w@) =~= before.map_values(|w: String| w@).push(w@));
        j = j + 1;
    }
    assert(v.subrange(start as int, args.len() as int) =~= v.skip(start as int));
    command
}

impl Cli {
    /// What this command line says.
    pub open spec fn args(&self) -> CliArgs {
        CliArgs {
            period: self.period as nat,
            until_success: self.until_success,
            until_failure: self.until_failure,
            command: self.command@.map_values(|w: String| w@),
        }
    }

    /// Parses a command line whose first word names the program.
    pub fn try_parse_from(args: Vec<&str>) -> (r: Result<Cli, CliError>)
        ensures
            r matches Ok(c) ==> parse_args(args@.map_values(|a: &str| a@)) == Ok::<
                CliArgs,
                CliError,
            >(c.args()),
            r matches Err(e) ==> parse_args(args@.map_values(|a: &str| a@)) == Err::<
                CliArgs,
                CliError,
            >(e),
    {
        let ghost v = args@.map_values(|a: &str| a@);
        let mut o = Opts { period: 1, until_success: false, until_failure: false };
        let mut i: usize = 1;
        while i < args.len()
            invariant
                v == args@.map_values(|a: &str| a@),
                1 <= i,
                parse_args(v) == parse_from(v, i as int, args_of(o)),
            decreases args.len() + 1 - i,
        {
            let a = args[i];
            assert(v[i as int] == a@);
            let next = if i + 1 < args.len() {
                assert(v[i + 1] == args@[i + 1]@);
                Some(args[i + 1])
            } else {
                None
            };
            assert(word_view(next) == next_word(v, i as int));
            let n = a.unicode_len();
            let step = if str_is(a, "--") {
                if i + 1 < args.len() {
                    let command = words_from(&args, i + 1);
                    return Ok(
                        Cli {
                            period: o.period,
                            until_success: o.until_success,
                            until_failure: o.until_failure,
                            command,
                        },
                    );
                } else {
                    return Err(CliError::MissingCommand);
                }
            } else if n > 2 && a.get_char(0) == '-' && a.get_char(1) == '-' {
                let name = a.substring_char(2, n);
                assert(name@ =~= a@.skip(2));
                long_option_of(name, o, next)
            } else if n > 1 && a.get_char(0) == '-' {
                short_options_of(a, o, next)
            } else {
                let command = words_from(&args, i);
                return Ok(
                    Cli {
                        period: o.period,
                        until_success: o.until_success,
                        until_failure: o.until_failure,
                        command,
                    },
                );
            };
            match step {
                Ok((o2, took)) => {
                    o = o2;
                    i = if took {
                        i + 2
                    } else {
                        i + 1
                    };
                },
                Err(e) => {
                    return Err(e);
                },
            }
        }
        Err(CliError::MissingCommand)
    }

    /// Whether to stop after a run that ended with `sts`: when asked to
    /// loop until success and it succeeded, or until failure and it failed.
    /// A run that ended without an exit status counts as failed.
    pub fn should_stop(&self, sts: Option<ExitSts>) -> (r: bool)
        ensures
            r == ((self.until_success && sts == Some(ExitSts::Success)) || (self.until_failure
                && sts != Some(ExitSts::Success))),
    {
        let success = match sts {
            Some(e) => e.success(),
            None => false,
        };
        (self.until_success && success) || (self.until_failure && !success)
    }

    /// The command to run.
    pub fn get_cmd(&self) -> (r: Cmd)
        ensures
            r@ == self.args().command,
    {
        Cmd::new(copy_strings(&self.command))
    }
}

} // verus!
