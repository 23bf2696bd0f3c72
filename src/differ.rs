//! Incremental comparison of a run's output lines with the previous run.

use vstd::prelude::*;

verus! {

/// The abstract state of a [`Differ`].
pub ghost struct DifferState {
    /// Whether the current run has diverged from the baseline.
    pub changed: bool,
    /// The baseline before divergence; the current run's lines after it.
    pub lines: Seq<Seq<char>>,
    /// Read cursor: the next baseline line to compare before divergence,
    /// the next line to hand out after it.
    pub pos: int,
}

/// What a push of `line` does to the state `s`.
pub open spec fn push_model(s: DifferState, line: Seq<char>) -> DifferState {
    if s.changed {
        DifferState { lines: s.lines.push(line), ..s }
    } else if s.pos < s.lines.len() && s.lines[s.pos] == line {
        DifferState { pos: s.pos + 1, ..s }
    } else {
        DifferState { changed: true, lines: s.lines.take(s.pos).push(line), pos: 0 }
    }
}

/// The state after pushing every line of `lines` in order.
pub open spec fn push_all_model(s: DifferState, lines: Seq<Seq<char>>) -> DifferState
    decreases lines.len(),
{
    if lines.len() == 0 {
        s
    } else {
        push_model(push_all_model(s, lines.drop_last()), lines.last())
    }
}

/// What a reset does: a new run begins with the kept lines as baseline.
pub open spec fn reset_model(s: DifferState) -> DifferState {
    DifferState { changed: false, pos: 0, ..s }
}

/// What the end of a run does: a run that matched a prefix of a longer
/// baseline has diverged, and keeps only its own lines.
pub open spec fn end_run_model(s: DifferState) -> DifferState {
    if !s.changed && s.pos < s.lines.len() {
        DifferState { changed: true, lines: s.lines.take(s.pos), pos: 0 }
    } else {
        s
    }
}

/// The lines that iteration still hands out.
pub open spec fn unread(s: DifferState) -> Seq<Seq<char>> {
    s.lines.skip(s.pos)
}

/// A run that starts from a reset keeps, when it ends without diverging,
/// its baseline with the run's lines as a prefix; when it diverged, exactly
/// the run's lines.
proof fn lemma_run_keeps_prefix(t: DifferState, run: Seq<Seq<char>>)
    requires
        !t.changed,
        t.pos == 0,
    ensures
        ({
            let u = push_all_model(t, run);
            &&& u.changed ==> u.lines == run && u.pos == 0
            &&& !u.changed ==> u.pos == run.len() && run.len() <= u.lines.len() && u.lines.take(
                run.len() as int,
            ) == run && u.lines == t.lines
        }),
    decreases run.len(),
{
    if run.len() > 0 {
        let m = run.drop_last();
        lemma_run_keeps_prefix(t, m);
        let v = push_all_model(t, m);
        if !v.changed {
            if v.pos < v.lines.len() && v.lines[v.pos] == run.last() {
                assert(v.lines.take(run.len() as int) =~= run);
            } else {
                assert(v.lines.take(v.pos).push(run.last()) =~= run);
            }
        } else {
            assert(m.push(run.last()) =~= run);
        }
    } else {
        assert(t.lines.take(0) =~= run);
    }
}

/// Pushing a prefix of the baseline after a reset matches line by line.
proof fn lemma_prefix_matches(t: DifferState, run: Seq<Seq<char>>, k: int)
    requires
        !t.changed,
        t.pos == 0,
        run.len() <= t.lines.len(),
        t.lines.take(run.len() as int) == run,
        0 <= k <= run.len(),
    ensures
        push_all_model(t, run.take(k)) == (DifferState { pos: k, ..t }),
    decreases k,
{
    if k > 0 {
        lemma_prefix_matches(t, run, k - 1);
        assert(run.take(k).drop_last() =~= run.take(k - 1));
        assert(t.lines[k - 1] == t.lines.take(run.len() as int)[k - 1]);
    } else {
        assert(run.take(0) =~= Seq::<Seq<char>>::empty());
    }
}

/// Running the same lines twice in a row, with a reset before each run,
/// never reports a change during the second run, whatever came before.
pub proof fn law_identical_runs_never_change(s: DifferState, run: Seq<Seq<char>>, k: int)
    requires
        0 <= k <= run.len(),
    ensures
        !push_all_model(reset_model(push_all_model(reset_model(s), run)), run.take(k)).changed,
{
    let t = reset_model(s);
    lemma_run_keeps_prefix(t, run);
    let u = reset_model(push_all_model(t, run));
    if push_all_model(t, run).changed {
        assert(u.lines.take(run.len() as int) =~= run);
    }
    lemma_prefix_matches(u, run, k);
}

/// After a reset onto `baseline`, a run `run` whose first difference from
/// the baseline is at index `i` (a differing line, or the first line past
/// the end of the baseline) reports no change for its first `i` lines, and
/// reports a change from line `i` on, with exactly the run's lines so far
/// left to hand out.
pub proof fn law_diverges_at_first_mismatch(
    baseline: Seq<Seq<char>>,
    run: Seq<Seq<char>>,
    i: int,
    k: int,
)
    requires
        0 <= i < run.len(),
        i <= baseline.len(),
        run.take(i) == baseline.take(i),
        i < baseline.len() ==> run[i] != baseline[i],
        0 <= k <= run.len(),
    ensures
        ({
            let s = push_all_model(
                DifferState { changed: false, lines: baseline, pos: 0 },
                run.take(k),
            );
            &&& k <= i ==> !s.changed
            &&& k > i ==> s.changed && s.pos == 0 && unread(s) == run.take(k)
        }),
    decreases k,
{
    let t = DifferState { changed: false, lines: baseline, pos: 0 };
    if k <= i {
        lemma_prefix_matches(t, baseline.take(i), k);
        assert(baseline.take(i).take(k) =~= run.take(k)) by {
            assert(run.take(i).take(k) =~= run.take(k));
        }
    } else {
        law_diverges_at_first_mismatch(baseline, run, i, k - 1);
        assert(run.take(k).drop_last() =~= run.take(k - 1));
        assert(run.take(k).last() == run[k - 1]);
        let p = push_all_model(t, run.take(k - 1));
        if k - 1 == i {
            lemma_prefix_matches(t, baseline.take(i), i);
            assert(baseline.take(i).take(i) =~= run.take(i));
            assert(p == (DifferState { pos: i, ..t }));
            assert(baseline.take(i).push(run[i]) =~= run.take(k));
        } else {
            assert(p.lines.skip(0) =~= p.lines);
            assert(p.lines.push(run[k - 1]) =~= run.take(k));
        }
        let q = push_all_model(t, run.take(k));
        assert(q.lines.skip(0) =~= q.lines);
    }
}

/// Compares the lines of the current run with those of the previous one.
#[derive(Debug)]
pub struct Differ {
    changed: bool,
    lines: Vec<String>,
    iline: usize,
}

impl View for Differ {
    type V = DifferState;

    closed spec fn view(&self) -> DifferState {
        DifferState {
            changed: self.changed,
            lines: self.lines@.map_values(|l: String| l@),
            pos: self.iline as int,
        }
    }
}

impl Differ {
    /// Internal consistency: the cursor stays within the lines.
    pub closed spec fn wf(&self) -> bool {
        self.iline <= self.lines.len()
    }

    /// An empty differ: no baseline, no divergence.
    pub fn new() -> (r: Differ)
        ensures
            r.wf(),
            r@ == (DifferState { changed: false, lines: Seq::empty(), pos: 0 }),
    {
        let r = Differ { changed: false, lines: Vec::new(), iline: 0 };
        assert(r@.lines =~= Seq::empty());
        r
    }

    /// Prepares for a new run, keeping the lines held as its baseline.
    pub fn reset(&mut self)
        requires
            old(self).wf(),
        ensures
            final(self).wf(),
            final(self)@ == reset_model(old(self)@),
    {
        self.changed = false;
        self.iline = 0;
    }

    /// Records one line of the current run.
    pub fn push(&mut self, line: String)
        requires
            old(self).wf(),
        ensures
            final(self).wf(),
            final(self)@ == push_model(old(self)@, line@),
    {
        let ghost l = line@;
        if self.changed {
            self.lines.push(line);
            assert(self@.lines =~= old(self)@.lines.push(l));
        } else if self.iline < self.lines.len() && self.lines[self.iline].eq(&line) {
            self.iline = self.iline + 1;
        } else {
            self.changed = true;
            self.lines.truncate(self.iline);
            self.lines.push(line);
            assert(self@.lines =~= old(self)@.lines.take(old(self).iline as int).push(l));
            self.iline = 0;
        }
    }

    /// Whether the current run has diverged from the baseline.
    pub fn has_changed(&self) -> (r: bool)
        ensures
            r == self@.changed,
    {
        self.changed
    }

    /// Whether baseline lines remain that the current run has not matched.
    pub fn has_unmatched(&self) -> (r: bool)
        requires
            self.wf(),
        ensures
            r == (!self@.changed && self@.pos < self@.lines.len()),
    {
        !self.changed && self.iline < self.lines.len()
    }

    /// Marks the end of the current run: a run shorter than its baseline
    /// has diverged, and its own lines become the lines held.
    pub fn end_run(&mut self)
        requires
            old(self).wf(),
        ensures
            final(self).wf(),
            final(self)@ == end_run_model(old(self)@),
    {
        if !self.changed && self.iline < self.lines.len() {
            self.changed = true;
            self.lines.truncate(self.iline);
            assert(self@.lines =~= old(self)@.lines.take(old(self).iline as int));
            self.iline = 0;
        }
    }

    /// Hands out the next line of the diverged run, if any is left.
    pub fn next(&mut self) -> (r: Option<String>)
        requires
            old(self).wf(),
            old(self)@.changed,
        ensures
            final(self).wf(),
            final(self)@.changed,
            final(self)@.lines == old(self)@.lines,
            unread(old(self)@).len() == 0 ==> r is None && final(self)@ == old(self)@,
            unread(old(self)@).len() > 0 ==> (r matches Some(l) && l@ == unread(old(self)@)[0]
                && final(self)@.pos == old(self)@.pos + 1),
    {
        if self.iline == self.lines.len() {
            None
        } else {
            let i = self.iline;
            self.iline = self.iline + 1;
            Some(self.lines[i].clone())
        }
    }

    /// Hands out every line of the diverged run that is left, in order.
    pub fn collect_lines(&mut self) -> (r: Vec<String>)
        requires
            old(self).wf(),
            old(self)@.changed,
        ensures
            final(self).wf(),
            final(self)@ == (DifferState { pos: old(self)@.lines.len() as int, ..old(self)@ }),
            r@.map_values(|l: String| l@) == unread(old(self)@),
    {
        let mut r: Vec<String> = Vec::new();
        while self.iline < self.lines.len()
            invariant
                self.wf(),
                self.changed,
                self.lines@ == old(self).lines@,
                old(self).iline <= self.iline,
                r@.map_values(|l: String| l@) =~= old(self)@.lines.subrange(
                    old(self).iline as int,
                    self.iline as int,
                ),
            decreases self.lines.len() - self.iline,
        {
            let i = self.iline;
            let l = self.lines[i].clone();
            let ghost before = r@;
            r.push(l);
            assert(r@ == before.push(l));
            assert(l@ == old(self)@.lines[i as int]);
            assert(r@.map_values(|l: String| l@) =~= before.map_values(|l: String| l@).push(l@));
            self.iline = self.iline + 1;
            assert(r@.map_values(|l: String| l@) =~= old(self)@.lines.subrange(
                old(self).iline as int,
                self.iline as int,
            ));
        }
        assert(self@.lines =~= old(self)@.lines);
        r
    }
}

} // verus!
