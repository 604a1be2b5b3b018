//! The guarantees of the grading machine, stated and proved once over its
//! mathematical model.
//!
//! A run is the machine started by `start_model` and driven by a sequence
//! of answers, one per outstanding action, each answer saying whether that
//! action (a compile, a test run) succeeded. The proofs here pin down how
//! many compile attempts any run can ask for and what it ends in.

use vstd::prelude::*;
use crate::grading::ErrorModel;
use crate::grading::StateModel;
use crate::grading::start_model;
use crate::paths::joined_all;
use crate::paths::lemma_present_in_members;
use crate::paths::missing_from;
use crate::paths::present_in;

verus! {

/// The state after answering each outstanding action of `st` with the
/// successes listed in `evs`, first answer first.
pub open spec fn run_model(st: StateModel, evs: Seq<bool>) -> StateModel
    decreases evs.len(),
{
    if evs.len() == 0 {
        st
    } else {
        run_model(st.step(evs[0]), evs.drop_first())
    }
}

/// How many compile attempts the run asks for: the number of `Compile`
/// states among `st` and every state the answers of `evs` lead to.
pub open spec fn compile_attempts(st: StateModel, evs: Seq<bool>) -> nat
    decreases evs.len(),
{
    let here: nat = if st is Compile {
        1
    } else {
        0
    };
    if evs.len() == 0 {
        here
    } else {
        here + compile_attempts(st.step(evs[0]), evs.drop_first())
    }
}

/// Once grading has left compilation behind — it is testing, has passed
/// or has failed — no answer ever leads back to a compile.
pub proof fn lemma_no_compile_after_compiling(st: StateModel, evs: Seq<bool>)
    requires
        !(st is Compile),
    ensures
        compile_attempts(st, evs) == 0,
    decreases evs.len(),
{
    if evs.len() > 0 {
        lemma_no_compile_after_compiling(st.step(evs[0]), evs.drop_first());
    }
}

/// A failed task stays failed, whatever later answers say.
pub proof fn lemma_failed_is_final(e: ErrorModel, evs: Seq<bool>)
    ensures
        run_model(StateModel::Failed(e), evs) == StateModel::Failed(e),
    decreases evs.len(),
{
    if evs.len() > 0 {
        lemma_failed_is_final(e, evs.drop_first());
    }
}

/// A task with at least one mandatory file absent fails at once with
/// `MissingMandatoryFiles` carrying exactly the missing absolute paths,
/// stays failed whatever the answers, and never asks for a compile.
pub proof fn lemma_missing_mandatory_never_compiles(
    mandatory: Seq<Seq<char>>,
    optional: Seq<Seq<char>>,
    tests: Seq<Seq<char>>,
    repo: Seq<char>,
    grader: Seq<char>,
    files: Seq<Seq<char>>,
    evs: Seq<bool>,
)
    requires
        missing_from(joined_all(mandatory, repo), files).len() > 0,
    ensures
        start_model(mandatory, optional, tests, repo, grader, files) == StateModel::Failed(
            ErrorModel::MissingMandatoryFiles(missing_from(joined_all(mandatory, repo), files)),
        ),
        compile_attempts(start_model(mandatory, optional, tests, repo, grader, files), evs) == 0,
        run_model(start_model(mandatory, optional, tests, repo, grader, files), evs)
            == start_model(mandatory, optional, tests, repo, grader, files),
{
    let start = start_model(mandatory, optional, tests, repo, grader, files);
    lemma_no_compile_after_compiling(start, evs);
    lemma_failed_is_final(
        ErrorModel::MissingMandatoryFiles(missing_from(joined_all(mandatory, repo), files)),
        evs,
    );
}

/// When every mandatory and test file is present and the first compile
/// attempt succeeds, the optional-file retry is never attempted: the
/// whole run holds exactly one compile, and testing follows it.
pub proof fn lemma_first_success_no_retry(
    mandatory: Seq<Seq<char>>,
    optional: Seq<Seq<char>>,
    tests: Seq<Seq<char>>,
    repo: Seq<char>,
    grader: Seq<char>,
    files: Seq<Seq<char>>,
    evs: Seq<bool>,
)
    requires
        missing_from(joined_all(mandatory, repo), files).len() == 0,
        missing_from(joined_all(tests, grader), files).len() == 0,
        evs.len() > 0,
        evs[0],
    ensures
        compile_attempts(start_model(mandatory, optional, tests, repo, grader, files), evs) == 1,
        run_model(start_model(mandatory, optional, tests, repo, grader, files), evs)
            == run_model(StateModel::RunTests, evs.drop_first()),
{
    let start = start_model(mandatory, optional, tests, repo, grader, files);
    assert(start.step(true) == StateModel::RunTests);
    lemma_no_compile_after_compiling(StateModel::RunTests, evs.drop_first());
}

/// A task with every mandatory file present but some test file absent
/// from the grader folder fails at once with `MissingTestFiles` carrying
/// exactly the missing absolute paths, stays failed whatever the
/// answers, and never asks for a compile: test files are always
/// required.
pub proof fn lemma_missing_test_files_never_compiles(
    mandatory: Seq<Seq<char>>,
    optional: Seq<Seq<char>>,
    tests: Seq<Seq<char>>,
    repo: Seq<char>,
    grader: Seq<char>,
    files: Seq<Seq<char>>,
    evs: Seq<bool>,
)
    requires
        missing_from(joined_all(mandatory, repo), files).len() == 0,
        missing_from(joined_all(tests, grader), files).len() > 0,
    ensures
        start_model(mandatory, optional, tests, repo, grader, files) == StateModel::Failed(
            ErrorModel::MissingTestFiles(missing_from(joined_all(tests, grader), files)),
        ),
        compile_attempts(start_model(mandatory, optional, tests, repo, grader, files), evs) == 0,
        run_model(start_model(mandatory, optional, tests, repo, grader, files), evs)
            == start_model(mandatory, optional, tests, repo, grader, files),
{
    let start = start_model(mandatory, optional, tests, repo, grader, files);
    lemma_no_compile_after_compiling(start, evs);
    lemma_failed_is_final(
        ErrorModel::MissingTestFiles(missing_from(joined_all(tests, grader), files)),
        evs,
    );
}

/// When the first compile attempt fails and no optional file is present,
/// the task fails with `CompileFailed` and no second compile is
/// attempted.
pub proof fn lemma_fail_without_optional(
    mandatory: Seq<Seq<char>>,
    optional: Seq<Seq<char>>,
    tests: Seq<Seq<char>>,
    repo: Seq<char>,
    grader: Seq<char>,
    files: Seq<Seq<char>>,
    evs: Seq<bool>,
)
    requires
        missing_from(joined_all(mandatory, repo), files).len() == 0,
        missing_from(joined_all(tests, grader), files).len() == 0,
        present_in(joined_all(optional, repo), files).len() == 0,
        evs.len() > 0,
        !evs[0],
    ensures
        compile_attempts(start_model(mandatory, optional, tests, repo, grader, files), evs) == 1,
        run_model(start_model(mandatory, optional, tests, repo, grader, files), evs)
            == StateModel::Failed(ErrorModel::CompileFailed),
{
    let start = start_model(mandatory, optional, tests, repo, grader, files);
    assert(start.step(false) == StateModel::Failed(ErrorModel::CompileFailed));
    lemma_no_compile_after_compiling(StateModel::Failed(ErrorModel::CompileFailed), evs.drop_first());
    lemma_failed_is_final(ErrorModel::CompileFailed, evs.drop_first());
}

/// When the first compile attempt fails and optional files are present,
/// exactly one retry follows, compiling the mandatory files, then the
/// present optional files, then the test files, in that order; the whole
/// run holds exactly two compiles.
pub proof fn lemma_fail_with_optional_one_retry(
    mandatory: Seq<Seq<char>>,
    optional: Seq<Seq<char>>,
    tests: Seq<Seq<char>>,
    repo: Seq<char>,
    grader: Seq<char>,
    files: Seq<Seq<char>>,
    evs: Seq<bool>,
)
    requires
        missing_from(joined_all(mandatory, repo), files).len() == 0,
        missing_from(joined_all(tests, grader), files).len() == 0,
        present_in(joined_all(optional, repo), files).len() > 0,
        evs.len() > 0,
        !evs[0],
    ensures
        start_model(mandatory, optional, tests, repo, grader, files).step(false)
            == (StateModel::Compile {
                files: joined_all(mandatory, repo) + present_in(joined_all(optional, repo), files)
                    + joined_all(tests, grader),
                retry: None,
            }),
        compile_attempts(start_model(mandatory, optional, tests, repo, grader, files), evs) == 2,
{
    let start = start_model(mandatory, optional, tests, repo, grader, files);
    let retry_state = start.step(false);
    let evs1 = evs.drop_first();
    assert(compile_attempts(start, evs) == 1 + compile_attempts(retry_state, evs1));
    if evs1.len() > 0 {
        let after = retry_state.step(evs1[0]);
        assert(!(after is Compile));
        lemma_no_compile_after_compiling(after, evs1.drop_first());
        assert(compile_attempts(retry_state, evs1) == 1 + compile_attempts(after, evs1.drop_first()));
    } else {
        assert(compile_attempts(retry_state, evs1) == 1);
    }
}

/// An optional file absent from the filesystem is excluded from every
/// compile list — the first list holds no optional files at all, and the
/// retry list holds only present ones — and its absence never fails the
/// task: with the mandatory and test files present, grading starts with
/// a compile whatever the optional list names.
pub proof fn lemma_absent_optional_excluded(
    mandatory: Seq<Seq<char>>,
    optional: Seq<Seq<char>>,
    tests: Seq<Seq<char>>,
    repo: Seq<char>,
    grader: Seq<char>,
    files: Seq<Seq<char>>,
    p: Seq<char>,
)
    requires
        !files.contains(p),
    ensures
        !present_in(joined_all(optional, repo), files).contains(p),
        missing_from(joined_all(mandatory, repo), files).len() == 0 && missing_from(
            joined_all(tests, grader),
            files,
        ).len() == 0 ==> (start_model(mandatory, optional, tests, repo, grader, files) is Compile),
{
    if present_in(joined_all(optional, repo), files).contains(p) {
        lemma_present_in_members(joined_all(optional, repo), files, p);
    }
}

} // verus!
