use vstd::prelude::*;

use crate::config::FileType;
use crate::pipeline::{spec_start, spec_step, CommandOutcome, ExecutionResult, PipelineState};
use crate::text::{normalize, normalize_seq};

verus! {

broadcast use vstd::seq_lib::group_to_multiset_ensures, vstd::multiset::group_multiset_axioms;

/// Whether a captured output is accepted for a sample: the recorded expected
/// output and the actual output agree exactly after normalization.
pub open spec fn outputs_match(expected: Seq<char>, actual: Seq<char>) -> bool {
    normalize_seq(expected) == normalize_seq(actual)
}

/// The verdict for one sample.
#[derive(Debug)]
pub enum Verdict {
    /// The normalized outputs agreed.
    Passed,
    /// Content mismatch; both strings are kept in normalized form, for
    /// display.
    Failed { expected: String, actual: String },
    /// The pipeline failed on `command` before producing output; there was
    /// no meaningful output to compare.
    Error { command: String },
}

/// Judges one sample's content: normalizes the recorded expected output and
/// the captured actual output the same way and compares them literally.
pub fn judge_output(expected: &str, actual: &str) -> (v: Verdict)
    ensures
        outputs_match(expected@, actual@) ==> v == Verdict::Passed,
        !outputs_match(expected@, actual@) ==> (v matches Verdict::Failed { expected: e, actual: a }
            && e@ == normalize_seq(expected@) && a@ == normalize_seq(actual@)),
{
    let e = normalize(expected);
    let a = normalize(actual);
    if e == a {
        Verdict::Passed
    } else {
        Verdict::Failed { expected: e, actual: a }
    }
}

/// Judges one sample from the pipeline's result: a failed compile or run is
/// its own verdict kind, distinct from a content mismatch.
pub fn judge_execution(expected: &str, result: ExecutionResult) -> (v: Verdict)
    ensures
        result matches ExecutionResult::Output(out) ==> (outputs_match(expected@, out@) ==> v
            == Verdict::Passed),
        result matches ExecutionResult::Output(out) ==> (!outputs_match(expected@, out@) ==> (
        v matches Verdict::Failed { expected: e, actual: a } && e@ == normalize_seq(expected@)
            && a@ == normalize_seq(out@))),
        result matches ExecutionResult::CompileError { command } ==> v == (Verdict::Error {
            command,
        }),
        result matches ExecutionResult::RunError { command } ==> v == (Verdict::Error { command }),
{
    match result {
        ExecutionResult::Output(out) => judge_output(expected, out.as_str()),
        ExecutionResult::CompileError { command } => Verdict::Error { command },
        ExecutionResult::RunError { command } => Verdict::Error { command },
    }
}

/// An echoing solution passes, whatever the toolchain: a pipeline run whose
/// commands succeed and whose run stage hands the sample input back
/// unchanged ends with that input as the pipeline's output, and the sample
/// is accepted whenever its input agrees with the recorded expected output
/// up to normalization.
pub proof fn lemma_echo_run_passes(
    ft: FileType,
    input: String,
    expected: Seq<char>,
    compile_out: String,
    cleanup: CommandOutcome,
)
    requires
        normalize_seq(input@) == normalize_seq(expected),
    ensures
        ({
            let start = spec_start(ft);
            let after_compile = if ft.compile is Some {
                spec_step(ft, start.0, CommandOutcome::Success(compile_out))
            } else {
                start
            };
            let after_run = spec_step(ft, after_compile.0, CommandOutcome::Success(input));
            let finished = if ft.after is Some {
                spec_step(ft, after_run.0, cleanup)
            } else {
                after_run
            };
            finished.0 == (PipelineState::Done { output: input }) && outputs_match(
                expected,
                input@,
            )
        }),
{
}

/// The aggregate of one judge run: counts only, no persisted state.
#[derive(Debug, PartialEq, Eq, Structural)]
pub struct RunSummary {
    pub passed: usize,
    pub failed: usize,
    pub errored: usize,
}

pub open spec fn count_passed(vs: Seq<Verdict>) -> nat
    decreases vs.len(),
{
    if vs.len() == 0 {
        0
    } else {
        count_passed(vs.drop_last()) + if vs.last() is Passed {
            1nat
        } else {
            0nat
        }
    }
}

pub open spec fn count_failed(vs: Seq<Verdict>) -> nat
    decreases vs.len(),
{
    if vs.len() == 0 {
        0
    } else {
        count_failed(vs.drop_last()) + if vs.last() is Failed {
            1nat
        } else {
            0nat
        }
    }
}

pub open spec fn count_errored(vs: Seq<Verdict>) -> nat
    decreases vs.len(),
{
    if vs.len() == 0 {
        0
    } else {
        count_errored(vs.drop_last()) + if vs.last() is Error {
            1nat
        } else {
            0nat
        }
    }
}

/// Sums a finished run up: how many samples passed, failed on content, or
/// could not be executed.
pub fn summarize(verdicts: &Vec<Verdict>) -> (s: RunSummary)
    ensures
        s.passed == count_passed(verdicts@),
        s.failed == count_failed(verdicts@),
        s.errored == count_errored(verdicts@),
{
    let n = verdicts.len();
    let mut passed: usize = 0;
    let mut failed: usize = 0;
    let mut errored: usize = 0;
    let mut i: usize = 0;
    proof {
        assert(verdicts@.take(0).len() == 0);
    }
    while i < n
        invariant
            i <= n,
            n == verdicts@.len(),
            passed + failed + errored == i,
            passed == count_passed(verdicts@.take(i as int)),
            failed == count_failed(verdicts@.take(i as int)),
            errored == count_errored(verdicts@.take(i as int)),
        decreases n - i,
    {
        proof {
            let t = verdicts@.take(i + 1);
            assert(t.drop_last() =~= verdicts@.take(i as int));
            assert(t.last() == verdicts@[i as int]);
        }
        match &verdicts[i] {
            Verdict::Passed => passed += 1,
            Verdict::Failed { .. } => failed += 1,
            Verdict::Error { .. } => errored += 1,
        }
        i += 1;
    }
    proof {
        assert(verdicts@.take(n as int) =~= verdicts@);
    }
    RunSummary { passed, failed, errored }
}

/// Whether `c` is a decimal digit.
pub open spec fn is_digit(c: char) -> bool {
    48 <= c as int && c as int <= 57
}

/// The value of a decimal digit.
pub open spec fn digit_of(c: char) -> int {
    c as int - 48
}

pub open spec fn all_digits(s: Seq<char>) -> bool {
    forall|k: int| 0 <= k < s.len() ==> is_digit(s[k])
}

/// The number a run of decimal digits denotes.
pub open spec fn digits_value(s: Seq<char>) -> int
    decreases s.len(),
{
    if s.len() == 0 {
        0
    } else {
        digits_value(s.drop_last()) * 10 + digit_of(s.last())
    }
}

proof fn lemma_digits_value_nonneg(s: Seq<char>)
    requires
        all_digits(s),
    ensures
        digits_value(s) >= 0,
    decreases s.len(),
{
    if s.len() > 0 {
        assert(all_digits(s.drop_last())) by {
            assert(forall|k: int| 0 <= k < s.len() - 1 ==> s.drop_last()[k] == s[k]);
        }
        lemma_digits_value_nonneg(s.drop_last());
    }
}

proof fn lemma_digits_value_monotone(s: Seq<char>, k: int)
    requires
        all_digits(s),
        0 <= k <= s.len(),
    ensures
        digits_value(s.take(k)) <= digits_value(s),
    decreases s.len(),
{
    if k < s.len() {
        assert(all_digits(s.drop_last())) by {
            assert(forall|m: int| 0 <= m < s.len() - 1 ==> s.drop_last()[m] == s[m]);
        }
        lemma_digits_value_monotone(s.drop_last(), k);
        assert(s.drop_last().take(k) =~= s.take(k));
        lemma_digits_value_nonneg(s.drop_last());
        assert(digits_value(s.drop_last()) * 10 >= digits_value(s.drop_last()));
        assert(digit_of(s.last()) >= 0);
    } else {
        assert(s.take(k) =~= s);
    }
}

/// Parses a testcase directory name as its decimal sample number. Names
/// that are not pure digit runs, and numbers too large for `u64`, are
/// rejected.
pub fn parse_testcase_id(name: &str) -> (r: Option<u64>)
    ensures
        match r {
            Some(n) => name@.len() > 0 && all_digits(name@) && n == digits_value(name@),
            None => name@.len() == 0 || !all_digits(name@) || digits_value(name@) > u64::MAX,
        },
{
    let n = name.unicode_len();
    if n == 0 {
        return None;
    }
    let mut val: u64 = 0;
    let mut i: usize = 0;
    proof {
        assert(name@.take(0).len() == 0);
    }
    while i < n
        invariant
            i <= n,
            n == name@.len(),
            all_digits(name@.take(i as int)),
            val == digits_value(name@.take(i as int)),
        decreases n - i,
    {
        let c = name.get_char(i);
        let u = c as u32;
        if u < 48 || u > 57 {
            assert(!is_digit(name@[i as int]));
            return None;
        }
        let d = (u - 48) as u64;
        proof {
            let t = name@.take(i + 1);
            assert(t.drop_last() =~= name@.take(i as int));
            assert(t.last() == name@[i as int]);
            assert(digit_of(name@[i as int]) == d as int);
        }
        let next = match val.checked_mul(10) {
            Some(v10) => v10.checked_add(d),
            None => None,
        };
        match next {
            Some(v) => {
                val = v;
            },
            None => {
                proof {
                    assert(digits_value(name@.take(i + 1)) > u64::MAX);
                    if all_digits(name@) {
                        lemma_digits_value_monotone(name@, i + 1);
                    }
                }
                return None;
            },
        }
        i += 1;
    }
    proof {
        assert(name@.take(n as int) =~= name@);
    }
    Some(val)
}

/// Sorts parsed testcase numbers ascending, so that verdicts come in a
/// deterministic order whatever order the directory listing produced.
pub fn sort_testcase_ids(ids: &Vec<u64>) -> (r: Vec<u64>)
    ensures
        r@.to_multiset() == ids@.to_multiset(),
        forall|i: int, j: int| 0 <= i < j < r@.len() ==> r@[i] <= r@[j],
{
    let mut work: Vec<u64> = Vec::new();
    let mut k: usize = 0;
    while k < ids.len()
        invariant
            k <= ids@.len(),
            work@ == ids@.take(k as int),
        decreases ids@.len() - k,
    {
        work.push(ids[k]);
        proof {
            assert(ids@.take(k as int).push(ids@[k as int]) =~= ids@.take(k + 1));
        }
        k += 1;
    }
    proof {
        assert(ids@.take(ids@.len() as int) =~= ids@);
    }
    let mut r: Vec<u64> = Vec::new();
    proof {
        assert(r@.to_multiset().add(work@.to_multiset()) =~= work@.to_multiset());
    }
    while work.len() > 0
        invariant
            r@.to_multiset().add(work@.to_multiset()) == ids@.to_multiset(),
            forall|i: int, j: int| 0 <= i < j < r@.len() ==> r@[i] <= r@[j],
            forall|i: int, j: int|
                0 <= i < r@.len() && 0 <= j < work@.len() ==> r@[i] <= work@[j],
        decreases work@.len(),
    {
        let mut m: usize = 0;
        let mut t: usize = 1;
        while t < work.len()
            invariant
                m < t <= work@.len(),
                work@.len() > 0,
                forall|j: int| 0 <= j < t ==> work@[m as int] <= work@[j],
            decreases work@.len() - t,
        {
            if work[t] < work[m] {
                m = t;
            }
            t += 1;
        }
        let ghost old_work = work@;
        let ghost old_r = r@;
        let v = work.remove(m);
        r.push(v);
        proof {
            assert(old_work.remove(m as int).to_multiset() =~= old_work.to_multiset().remove(v));
            assert(old_r.push(v).to_multiset() =~= old_r.to_multiset().insert(v));
            assert(r@.to_multiset().add(work@.to_multiset()) =~= ids@.to_multiset());
            assert forall|i: int, j: int|
                0 <= i < r@.len() && 0 <= j < work@.len() implies r@[i] <= work@[j] by {
                if j < m {
                    assert(work@[j] == old_work[j]);
                } else {
                    assert(work@[j] == old_work[j + 1]);
                }
                if i < old_r.len() {
                    assert(r@[i] == old_r[i]);
                } else {
                    assert(r@[i] == v);
                }
            }
        }
    }
    proof {
        assert(work@.to_multiset().len() == 0);
        assert(r@.to_multiset().add(work@.to_multiset()) =~= r@.to_multiset());
    }
    r
}

} // verus!
