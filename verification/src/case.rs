//! Per-submission case running: which executable runs the cases, which
//! arguments the runtime needs, and how verdicts accumulate under the
//! fail-fast rule.
//!
//! The host drives one [`CaseSession`] per submission: it runs a case, hands
//! the verdict to [`CaseSession::record`], and stops as soon as the session
//! halts.  The laws at the bottom pin the resulting verdict lists down for
//! both judging modes.

use vstd::prelude::*;

use crate::compile::Language;
use crate::compile::push_arg;
use crate::compile::strs_of;
use crate::judge::JudgeResult;
use crate::judge::JudgeStatus;

verus! {

use vstd::string::StringExecFns;

/// The program name of the interpreter that runs a submission's artifact, or
/// `None` for languages whose compiled artifact runs directly.
pub open spec fn spec_interpreter_name(language: Language) -> Option<Seq<char>> {
    match language {
        Language::Python => Some("python"@),
        Language::NodeJs => Some("deno"@),
        Language::Java => Some("java"@),
        _ => None,
    }
}

/// The interpreter to look up on `PATH` for this language, if any; compiled
/// languages run the workspace artifact directly.
pub fn interpreter_name(language: Language) -> (r: Option<&'static str>)
    ensures
        match spec_interpreter_name(language) {
            Some(name) => r matches Some(s) && s@ == name,
            None => r is None,
        },
{
    match language {
        Language::Python => Some("python"),
        Language::NodeJs => Some("deno"),
        Language::Java => Some("java"),
        _ => None,
    }
}

/// The decimal digit `d` as a character.
pub open spec fn spec_digit_char(d: int) -> char {
    if d == 0 {
        '0'
    } else if d == 1 {
        '1'
    } else if d == 2 {
        '2'
    } else if d == 3 {
        '3'
    } else if d == 4 {
        '4'
    } else if d == 5 {
        '5'
    } else if d == 6 {
        '6'
    } else if d == 7 {
        '7'
    } else if d == 8 {
        '8'
    } else {
        '9'
    }
}

/// The decimal representation of a non-negative integer, most significant
/// digit first, with no leading zeros (and `0` for zero).
pub open spec fn spec_decimal(n: int) -> Seq<char>
    decreases n,
{
    if n < 10 {
        seq![spec_digit_char(n)]
    } else {
        spec_decimal(n / 10).push(spec_digit_char(n % 10))
    }
}

/// The decimal digit `d`, which must be below ten, as a string.
fn digit_str(d: u64) -> (r: &'static str)
    requires
        d < 10,
    ensures
        r@ == seq![spec_digit_char(d as int)],
{
    proof {
        reveal_strlit("0");
        reveal_strlit("1");
        reveal_strlit("2");
        reveal_strlit("3");
        reveal_strlit("4");
        reveal_strlit("5");
        reveal_strlit("6");
        reveal_strlit("7");
        reveal_strlit("8");
        reveal_strlit("9");
    }
    match d {
        0 => "0",
        1 => "1",
        2 => "2",
        3 => "3",
        4 => "4",
        5 => "5",
        6 => "6",
        7 => "7",
        8 => "8",
        _ => "9",
    }
}

/// `n` written in decimal.
pub fn u64_to_string(n: u64) -> (s: String)
    ensures
        s@ == spec_decimal(n as int),
    decreases n,
{
    if n < 10 {
        String::from_str(digit_str(n))
    } else {
        let mut s = u64_to_string(n / 10);
        s.append(digit_str(n % 10));
        proof {
            assert(spec_decimal((n / 10) as int) + seq![spec_digit_char((n % 10) as int)]
                =~= spec_decimal((n / 10) as int).push(spec_digit_char((n % 10) as int)));
        }
        s
    }
}

/// The argument vector the runtime needs for this language, or `None` for a
/// language whose artifact takes no arguments.  The JavaScript runtime is
/// denied all file, environment, subprocess and foreign-function access and
/// has its old-generation heap capped from the memory budget.
pub open spec fn spec_runtime_args(
    language: Language,
    source: Seq<char>,
    memory_limit: u64,
) -> Option<Seq<Seq<char>>> {
    match language {
        Language::Python => Some(seq![source]),
        Language::NodeJs => Some(
            seq![
                "run"@,
                "--v8-flags=--max-old-space-size="@ + spec_decimal(memory_limit as int),
                "--deny-read=*"@,
                "--deny-write=*"@,
                "--deny-env=*"@,
                "--deny-run=*"@,
                "--deny-ffi=*"@,
                source,
            ],
        ),
        Language::Java => Some(seq!["Main"@]),
        _ => None,
    }
}

/// Build the runtime argument vector for one case run.
pub fn runtime_args(language: Language, source_path: &str, memory_limit: u64) -> (r: Option<
    Vec<String>,
>)
    ensures
        match spec_runtime_args(language, source_path@, memory_limit) {
            Some(argv) => r matches Some(args) && strs_of(args@) == argv,
            None => r is None,
        },
{
    let mut args: Vec<String> = Vec::new();
    proof {
        assert(strs_of(args@) =~= Seq::<Seq<char>>::empty());
    }
    match language {
        Language::Python => {
            push_arg(&mut args, source_path);
            proof {
                assert(strs_of(args@) =~= seq![source_path@]);
            }
            Some(args)
        },
        Language::NodeJs => {
            let mut flag = String::from_str("--v8-flags=--max-old-space-size=");
            let digits = u64_to_string(memory_limit);
            flag.append(digits.as_str());
            push_arg(&mut args, "run");
            push_arg(&mut args, flag.as_str());
            push_arg(&mut args, "--deny-read=*");
            push_arg(&mut args, "--deny-write=*");
            push_arg(&mut args, "--deny-env=*");
            push_arg(&mut args, "--deny-run=*");
            push_arg(&mut args, "--deny-ffi=*");
            push_arg(&mut args, source_path);
            proof {
                assert(strs_of(args@) =~= seq![
                    "run"@,
                    "--v8-flags=--max-old-space-size="@ + spec_decimal(memory_limit as int),
                    "--deny-read=*"@,
                    "--deny-write=*"@,
                    "--deny-env=*"@,
                    "--deny-run=*"@,
                    "--deny-ffi=*"@,
                    source_path@,
                ]);
            }
            Some(args)
        },
        Language::Java => {
            push_arg(&mut args, "Main");
            proof {
                assert(strs_of(args@) =~= seq!["Main"@]);
            }
            Some(args)
        },
        _ => None,
    }
}

/// The single-verdict list a failed compilation produces, carrying the
/// toolchain's diagnostics.
pub fn compile_failure_results(stderr: &str) -> (r: Vec<JudgeResult>)
    ensures
        r@.len() == 1,
        r@[0].status matches JudgeStatus::CompileError { message } && message@
            == "Failed to compile source code: "@ + stderr@,
        r@[0].time_used == 0,
        r@[0].memory_used == 0,
{
    let message = crate::compile::compile_error_message(stderr);
    let mut r: Vec<JudgeResult> = Vec::new();
    r.push(
        JudgeResult {
            status: JudgeStatus::CompileError { message },
            time_used: 0,
            memory_used: 0,
        },
    );
    r
}

/// The verdicts one submission run reports, given the verdicts its cases
/// would produce in order: all of them, or — under fail-fast — the prefix up
/// to and including the first non-accepted one.
pub open spec fn spec_run_results(fail_fast: bool, verdicts: Seq<JudgeResult>) -> Seq<JudgeResult>
    decreases verdicts.len(),
{
    if verdicts.len() == 0 {
        verdicts
    } else if fail_fast && !(verdicts[0].status is Accepted) {
        seq![verdicts[0]]
    } else {
        seq![verdicts[0]] + spec_run_results(fail_fast, verdicts.skip(1))
    }
}

/// The verdicts of one submission as they accumulate case by case.  Once the
/// session halts — under fail-fast, at the first non-accepted verdict — no
/// further case may be recorded (and the host must not create any further
/// case's output file).
pub struct CaseSession {
    /// Whether the first non-accepted verdict ends the run.
    pub fail_fast: bool,
    /// The verdicts recorded so far, in case order.
    pub results: Vec<JudgeResult>,
    /// Whether the run has ended early.
    pub halted: bool,
}

impl CaseSession {
    /// A fresh session with no verdicts yet.
    pub fn new(fail_fast: bool) -> (s: Self)
        ensures
            s.fail_fast == fail_fast,
            s.results@ == Seq::<JudgeResult>::empty(),
            !s.halted,
    {
        CaseSession { fail_fast, results: Vec::new(), halted: false }
    }

    /// Whether the run has ended early and no further case may run.
    pub fn is_halted(&self) -> (r: bool)
        ensures
            r == self.halted,
    {
        self.halted
    }

    /// Record the verdict of the case that just ran.  Under fail-fast, a
    /// non-accepted verdict halts the session.
    pub fn record(&mut self, result: JudgeResult)
        requires
            !old(self).halted,
        ensures
            final(self).fail_fast == old(self).fail_fast,
            final(self).results@ == old(self).results@.push(result),
            final(self).halted == (old(self).fail_fast && !(result.status is Accepted)),
    {
        let halt = self.fail_fast && !result.is_accepted();
        self.results.push(result);
        self.halted = halt;
    }

    /// Give up the session and keep its verdicts.
    pub fn finish(self) -> (r: Vec<JudgeResult>)
        ensures
            r@ == self.results@,
    {
        self.results
    }
}

/// Without fail-fast every case is judged: the report lists exactly one
/// verdict per case, in case order, whatever the verdicts are.
pub proof fn lemma_no_fail_fast_all_cases(verdicts: Seq<JudgeResult>)
    ensures
        spec_run_results(false, verdicts) == verdicts,
    decreases verdicts.len(),
{
    if verdicts.len() != 0 {
        lemma_no_fail_fast_all_cases(verdicts.skip(1));
        assert(seq![verdicts[0]] + verdicts.skip(1) =~= verdicts);
    }
}

/// Under fail-fast the report is the prefix of the cases' verdicts that ends
/// at the first non-accepted one: every verdict before the last is accepted;
/// if any case is rejected the report ends with the first rejected verdict,
/// and otherwise it lists every verdict.
pub proof fn lemma_fail_fast_stops_at_first_rejection(verdicts: Seq<JudgeResult>)
    ensures
        spec_run_results(true, verdicts).len() <= verdicts.len(),
        spec_run_results(true, verdicts) == verdicts.take(
            spec_run_results(true, verdicts).len() as int,
        ),
        forall|i: int|
            0 <= i < spec_run_results(true, verdicts).len() - 1 ==> (#[trigger] spec_run_results(
                true,
                verdicts,
            )[i]).status is Accepted,
        (exists|i: int| 0 <= i < verdicts.len() && !((#[trigger] verdicts[i]).status is Accepted))
            ==> !(spec_run_results(true, verdicts).last().status is Accepted),
        (forall|i: int| 0 <= i < verdicts.len() ==> (#[trigger] verdicts[i]).status is Accepted)
            ==> spec_run_results(true, verdicts) == verdicts,
    decreases verdicts.len(),
{
    let run = spec_run_results(true, verdicts);
    if verdicts.len() == 0 {
        assert(run =~= verdicts.take(run.len() as int));
    } else if !(verdicts[0].status is Accepted) {
        assert(run =~= verdicts.take(1));
    } else {
        lemma_fail_fast_stops_at_first_rejection(verdicts.skip(1));
        let tail = spec_run_results(true, verdicts.skip(1));
        assert(run =~= seq![verdicts[0]] + tail);
        assert(run == verdicts.take(run.len() as int)) by {
            assert(tail == verdicts.skip(1).take(tail.len() as int));
            assert(seq![verdicts[0]] + verdicts.skip(1).take(tail.len() as int) =~= verdicts.take(
                run.len() as int,
            ));
        }
        assert forall|i: int| 0 <= i < run.len() - 1 implies (#[trigger] run[i]).status
            is Accepted by {
            if i > 0 {
                assert(run[i] == tail[i - 1]);
            }
        }
        if exists|i: int| 0 <= i < verdicts.len() && !((#[trigger] verdicts[i]).status
            is Accepted) {
            let i = choose|i: int|
                0 <= i < verdicts.len() && !((#[trigger] verdicts[i]).status is Accepted);
            assert(verdicts.skip(1)[i - 1] == verdicts[i]);
            assert(run.last() == tail.last());
        }
        if forall|i: int| 0 <= i < verdicts.len() ==> (#[trigger] verdicts[i]).status is Accepted {
            assert forall|i: int| 0 <= i < verdicts.skip(1).len() implies (#[trigger] verdicts.skip(
                1,
            )[i]).status is Accepted by {
                assert(verdicts.skip(1)[i] == verdicts[i + 1]);
            }
            assert(seq![verdicts[0]] + verdicts.skip(1) =~= verdicts);
        }
    }
}

} // verus!
