//! The text of the status line: spinner, progress bar and countdown.

use vstd::prelude::*;

use crate::text::dec_text;
use crate::text::int_text;
use crate::text::push_dec;
use crate::text::push_int;
use crate::time_wrapper::whole_seconds;
use crate::time_wrapper::Duration;
use crate::time_wrapper::Instant;

verus! {

/// The four positions of the spinner.
pub open spec fn is_spinner(c: char) -> bool {
    c == '/' || c == '-' || c == '\\' || c == '|'
}

/// The position that follows `c`.
pub open spec fn next_spinner(c: char) -> char {
    if c == '/' {
        '-'
    } else if c == '-' {
        '\\'
    } else if c == '\\' {
        '|'
    } else {
        '/'
    }
}

/// Advances the spinner one position and returns the new position.
pub fn spinner_get(spinner: &mut char) -> (r: char)
    requires
        is_spinner(*old(spinner)),
    ensures
        *final(spinner) == next_spinner(*old(spinner)),
        r == *final(spinner),
        is_spinner(r),
{
    *spinner = if *spinner == '/' {
        '-'
    } else if *spinner == '-' {
        '\\'
    } else if *spinner == '\\' {
        '|'
    } else {
        '/'
    };
    *spinner
}

fn push_spinner(s: &mut String, c: char)
    requires
        is_spinner(c),
    ensures
        final(s)@ == old(s)@.push(c),
{
    proof {
        reveal_strlit("/");
        reveal_strlit("-");
        reveal_strlit("\\");
        reveal_strlit("|");
    }
    if c == '/' {
        s.append("/");
    } else if c == '-' {
        s.append("-");
    } else if c == '\\' {
        s.append("\\");
    } else {
        s.append("|");
    }
    assert(final(s)@ =~= old(s)@.push(c));
}

/// `n` copies of `c`.
pub open spec fn repeat(c: char, n: nat) -> Seq<char> {
    Seq::new(n, |i: int| c)
}

fn push_repeat(s: &mut String, piece: &str, n: usize)
    requires
        piece@.len() == 1,
    ensures
        final(s)@ == old(s)@ + repeat(piece@[0], n as nat),
{
    let mut i: usize = 0;
    while i < n
        invariant
            i <= n,
            piece@.len() == 1,
            s@ == old(s)@ + repeat(piece@[0], i as nat),
        decreases n - i,
    {
        s.append(piece);
        i = i + 1;
        assert(s@ =~= old(s)@ + repeat(piece@[0], i as nat));
    }
}

/// The count of unchanged runs in front of the status, when there is one.
pub open spec fn prefix_text(unchanged_runs: nat) -> Seq<char> {
    if unchanged_runs == 0 {
        Seq::empty()
    } else {
        "unchanged "@ + dec_text(unchanged_runs) + ", "@
    }
}

/// `unchanged N, ` for `N` unchanged runs, nothing when there are none.
pub fn get_prefix(unchanged_runs: u32) -> (r: String)
    ensures
        r@ == prefix_text(unchanged_runs as nat),
{
    let mut s = String::new();
    if unchanged_runs != 0 {
        s.append("unchanged ");
        push_dec(&mut s, unchanged_runs as u64);
        s.append(", ");
    }
    assert(s@ =~= prefix_text(unchanged_runs as nat));
    s
}

/// The status while sleeping `sleep_ms` until `left_ms` from now: a
/// countdown in seconds when the sleep is longer than a second.
pub open spec fn sleeping_text(
    unchanged_runs: nat,
    sleep_ms: int,
    left_ms: int,
    spinner: char,
) -> Seq<char> {
    if whole_seconds(sleep_ms) > 1 {
        prefix_text(unchanged_runs) + "sleeping for "@ + int_text(whole_seconds(left_ms) + 1)
            + "s ["@ + seq![spinner] + "]"@
    } else {
        prefix_text(unchanged_runs) + "sleeping ["@ + seq![spinner] + "]"@
    }
}

/// The status line while sleeping between runs.
pub fn progbar_sleeping(
    unchanged_runs: u32,
    sleep: &Duration,
    now: &Instant,
    deadline: &Instant,
    spinner: char,
) -> (r: String)
    requires
        is_spinner(spinner),
    ensures
        r@ == sleeping_text(
            unchanged_runs as nat,
            sleep.ms(),
            deadline.ms() - now.ms(),
            spinner,
        ),
{
    let mut s = get_prefix(unchanged_runs);
    if sleep.num_seconds() > 1 {
        let left = deadline.sub(now);
        let secs = left.num_seconds();
        s.append("sleeping for ");
        push_int(&mut s, secs + 1);
        s.append("s [");
    } else {
        s.append("sleeping [");
    }
    push_spinner(&mut s, spinner);
    s.append("]");
    assert(s@ =~= sleeping_text(
        unchanged_runs as nat,
        sleep.ms(),
        deadline.ms() - now.ms(),
        spinner,
    ));
    s
}

/// The status while running, without a bar.
pub open spec fn short_running_text(unchanged_runs: nat, spinner: char) -> Seq<char> {
    prefix_text(unchanged_runs) + "running ["@ + seq![spinner] + "]"@
}

/// The size of the bar: one slot per refresh period of the previous run,
/// held to what the width leaves beside the text.
pub open spec fn bar_size(width: int, overhead: int, slots: int) -> int {
    if slots + overhead > width {
        if width >= overhead {
            width - overhead
        } else {
            0
        }
    } else {
        slots
    }
}

/// The filled part of a bar of `size` slots after `elapsed_ms` of a run
/// expected to take `expected_ms`: the elapsed fraction of the slots,
/// rounded up.
pub open spec fn bar_fill(size: int, elapsed_ms: int, expected_ms: int) -> int {
    if elapsed_ms >= expected_ms {
        size
    } else if elapsed_ms <= 0 {
        0
    } else {
        (size * elapsed_ms + expected_ms - 1) / expected_ms
    }
}

/// The status while running: a bar scaled to the previous run's duration
/// when there is one and room for it, else the spinner alone.
pub open spec fn running_text(
    width: int,
    unchanged_runs: nat,
    elapsed_ms: int,
    expected_ms: int,
    refresh_ms: int,
    spinner: char,
) -> Seq<char> {
    let head = prefix_text(unchanged_runs) + "running ["@;
    let tail = "] ["@ + seq![spinner] + "]"@;
    if expected_ms <= 0 || refresh_ms <= 0 {
        short_running_text(unchanged_runs, spinner)
    } else {
        let size = bar_size(width, (head.len() + tail.len() + 1) as int, expected_ms / refresh_ms);
        let left = bar_fill(size, elapsed_ms, expected_ms);
        let marker = if elapsed_ms > expected_ms {
            '='
        } else {
            '>'
        };
        if size <= 1 {
            short_running_text(unchanged_runs, spinner)
        } else {
            head + repeat('=', (if left >= 1 {
                left - 1
            } else {
                0
            }) as nat) + seq![marker] + repeat(' ', (size - left) as nat) + tail
        }
    }
}

/// The expected duration of a run: that of the previous run, zero when
/// there was none.
pub open spec fn expected_ms(duration: Option<Duration>) -> int {
    match duration {
        Some(d) => d.ms(),
        None => 0,
    }
}

/// The status line while running.
pub fn progbar_running(
    width: usize,
    unchanged_runs: u32,
    now: &Instant,
    start: &Instant,
    duration: Option<Duration>,
    refresh: &Duration,
    spinner: char,
) -> (r: String)
    requires
        is_spinner(spinner),
    ensures
        r@ == running_text(
            width as int,
            unchanged_runs as nat,
            now.ms() - start.ms(),
            expected_ms(duration),
            refresh.ms(),
            spinner,
        ),
{
    let expected: i64 = match duration {
        Some(d) => d.num_milliseconds(),
        None => 0,
    };
    let refresh_ms = refresh.num_milliseconds();
    let ghost spec_text = running_text(
        width as int,
        unchanged_runs as nat,
        now.ms() - start.ms(),
        expected_ms(duration),
        refresh.ms(),
        spinner,
    );
    let mut head = get_prefix(unchanged_runs);
    head.append("running [");
    if expected <= 0 || refresh_ms <= 0 {
        push_spinner(&mut head, spinner);
        head.append("]");
        assert(head@ =~= spec_text);
        return head;
    }
    let mut tail = String::from_str("] [");
    push_spinner(&mut tail, spinner);
    tail.append("]");
    let head_len = head.as_str().unicode_len();
    let tail_len = tail.as_str().unicode_len();
    let overhead: u128 = head_len as u128 + tail_len as u128 + 1;
    let slots: u128 = (expected / refresh_ms) as u128;
    let size: u128 = if slots + overhead > width as u128 {
        if width as u128 >= overhead {
            width as u128 - overhead
        } else {
            0
        }
    } else {
        slots
    };
    assert(size == bar_size(width as int, (head@.len() + tail@.len() + 1) as int, expected / refresh_ms));
    if size <= 1 {
        push_spinner(&mut head, spinner);
        head.append("]");
        assert(head@ =~= spec_text);
        return head;
    }
    let elapsed = now.sub(start).num_milliseconds();
    let left: u128 = if elapsed >= expected {
        size
    } else if elapsed <= 0 {
        0
    } else {
        assert(size <= width);
        assert(size * (elapsed as u128) < size * (expected as u128)) by (nonlinear_arith)
            requires
                0 < elapsed < expected,
                size > 1,
        ;
        assert(size * (elapsed as u128) <= 18446744073709551615u128 * 9223372036854775807u128)
            by (nonlinear_arith)
            requires
                0 < elapsed,
                size <= 18446744073709551615u128,
                elapsed <= 9223372036854775807u128,
        ;
        let l = (size * (elapsed as u128) + expected as u128 - 1) / (expected as u128);
        assert(l <= size) by (nonlinear_arith)
            requires
                l == (size * (elapsed as int) + expected as int - 1) / (expected as int),
                size * (elapsed as int) < size * (expected as int),
                expected > 0,
        ;
        l
    };
    assert(left == bar_fill(size as int, elapsed as int, expected as int));
    let mut s = head;
    let fill: usize = if left >= 1 {
        (left - 1) as usize
    } else {
        0
    };
    proof {
        reveal_strlit("=");
        reveal_strlit(">");
        reveal_strlit(" ");
    }
    push_repeat(&mut s, "=", fill);
    if elapsed > expected {
        s.append("=");
    } else {
        s.append(">");
    }
    push_repeat(&mut s, " ", (size - left) as usize);
    s.append(tail.as_str());
    assert(s@ =~= spec_text);
    s
}

} // verus!
