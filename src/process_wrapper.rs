//! The command to run, its exit status, and the events of a run.

use vstd::prelude::*;

use crate::text::int_text;
use crate::text::push_int;

verus! {

/// The words of a command line joined with single spaces.
pub open spec fn join_words(words: Seq<Seq<char>>) -> Seq<char>
    decreases words.len(),
{
    if words.len() == 0 {
        Seq::empty()
    } else if words.len() == 1 {
        words[0]
    } else {
        join_words(words.drop_last()) + seq![' '] + words.last()
    }
}

/// The words of a command line: the program and its arguments.
#[derive(Debug)]
pub struct Cmd {
    words: Vec<String>,
}

impl View for Cmd {
    type V = Seq<Seq<char>>;

    closed spec fn view(&self) -> Seq<Seq<char>> {
        self.words@.map_values(|w: String| w@)
    }
}

/// Copies strings one by one.
pub fn copy_strings(v: &Vec<String>) -> (r: Vec<String>)
    ensures
        r@.map_values(|w: String| w@) == v@.map_values(|w: String| w@),
{
    let mut r: Vec<String> = Vec::new();
    let mut i: usize = 0;
    while i < v.len()
        invariant
            i <= v.len(),
            r@.map_values(|w: String| w@) =~= v@.map_values(|w: String| w@).take(i as int),
        decreases v.len() - i,
    {
        let w = v[i].clone();
        let ghost before = r@;
        r.push(w);
        assert(r@ == before.push(w));
        assert(w@ == v@[i as int]@);
        assert(r@.map_values(|w: String| w@) =~= before.map_values(|w: String| w@).push(w@));
        i = i + 1;
        assert(r@.map_values(|w: String| w@) =~= v@.map_values(|w: String| w@).take(i as int));
    }
    assert(v@.map_values(|w: String| w@).take(v.len() as int) =~= v@.map_values(|w: String| w@));
    r
}

impl Cmd {
    /// The command with these words.
    pub fn new(words: Vec<String>) -> (r: Cmd)
        ensures
            r@ == words@.map_values(|w: String| w@),
    {
        Cmd { words }
    }

    /// A copy of the words.
    pub fn words(&self) -> (r: Vec<String>)
        ensures
            r@.map_values(|w: String| w@) == self@,
    {
        copy_strings(&self.words)
    }

    /// A copy of the command.
    pub fn copy(&self) -> (r: Cmd)
        ensures
            r@ == self@,
    {
        Cmd { words: copy_strings(&self.words) }
    }

    /// The command line as shown to the user: the words joined with spaces.
    pub fn to_text(&self) -> (r: String)
        ensures
            r@ == join_words(self@),
    {
        let mut s = String::new();
        let mut i: usize = 0;
        while i < self.words.len()
            invariant
                i <= self.words.len(),
                s@ == join_words(self@.take(i as int)),
            decreases self.words.len() - i,
        {
            if i > 0 {
                proof {
                    reveal_strlit(" ");
                }
                s.append(" ");
            }
            s.append(self.words[i].as_str());
            assert(self@.take(i + 1).drop_last() =~= self@.take(i as int));
            i = i + 1;
            assert(s@ =~= join_words(self@.take(i as int)));
        }
        assert(self@.take(self.words.len() as int) =~= self@);
        s
    }
}

/// How a process ended.
#[derive(Debug, Clone, Copy, PartialEq, Eq, Structural)]
pub enum ExitSts {
    /// Exited with code zero.
    Success,
    /// Exited with a nonzero code.
    Code(u8),
    /// Killed by a signal.
    Signal(i32),
}

/// How a process ended, from what the system reports: success; else the
/// exit code, cut to its low byte; else the signal; `None` when the report
/// has none of them.
pub open spec fn exit_from_parts(success: bool, code: Option<i32>, signal: Option<i32>) -> Option<
    ExitSts,
> {
    if success {
        Some(ExitSts::Success)
    } else if code is Some {
        Some(ExitSts::Code((code->0 as int % 256) as u8))
    } else if signal is Some {
        Some(ExitSts::Signal(signal->0))
    } else {
        None
    }
}

/// The text of an exit status.
pub open spec fn exit_text(e: ExitSts) -> Seq<char> {
    match e {
        ExitSts::Success => "success"@,
        ExitSts::Code(c) => "code "@ + int_text(c as int),
        ExitSts::Signal(s) => "signal "@ + int_text(s as int),
    }
}

impl ExitSts {
    /// Whether the process exited with code zero.
    pub fn success(&self) -> (r: bool)
        ensures
            r == (*self == ExitSts::Success),
    {
        match self {
            ExitSts::Success => true,
            _ => false,
        }
    }

    /// How a process ended, from the three facts the system reports.
    pub fn from_parts(success: bool, code: Option<i32>, signal: Option<i32>) -> (r: Option<ExitSts>)
        ensures
            r == exit_from_parts(success, code, signal),
    {
        if success {
            Some(ExitSts::Success)
        } else if let Some(c) = code {
            let low: u8 = (c & 255) as u8;
            assert(low == (c as int % 256) as u8) by (bit_vector)
                requires
                    low == (c & 255) as u8,
            ;
            Some(ExitSts::Code(low))
        } else if let Some(s) = signal {
            Some(ExitSts::Signal(s))
        } else {
            None
        }
    }

    /// `success`, `code N` or `signal N`.
    pub fn to_text(&self) -> (r: String)
        ensures
            r@ == exit_text(*self),
    {
        match self {
            ExitSts::Success => String::from_str("success"),
            ExitSts::Code(c) => {
                let mut s = String::from_str("code ");
                push_int(&mut s, *c as i64);
                s
            },
            ExitSts::Signal(n) => {
                let mut s = String::from_str("signal ");
                push_int(&mut s, *n as i64);
                s
            },
        }
    }
}

/// One event of a run, as the multiplexer hands it on.
#[derive(Debug)]
pub enum StreamItem {
    /// A line that the process wrote on its standard output.
    LineOut(String),
    /// A line that the process wrote on its standard error.
    LineErr(String),
    /// The process ended.
    Done(ExitSts),
    /// Reading from the process failed; the text describes how.
    Error(String),
    /// The refresh period passed.
    Tick,
}

impl StreamItem {
    /// Whether this is the event that ends a run.
    pub open spec fn is_done(&self) -> bool {
        self is Done
    }
}

} // verus!
