//! Grading one task: resolving file lists against the submission, and the
//! compile-then-test sequence with its single optional-file retry.
//!
//! The decisions are a state machine. `GradingOption::grade_start`
//! resolves the task's file lists against a filesystem snapshot and yields
//! the opening state; each external action (a compiler run, a test run)
//! reports back only whether it succeeded, and `GradeState::step` moves to
//! the next state. A caller performs the actions and drives the machine;
//! every decision along the way is taken here.

use vstd::prelude::*;
use crate::fs::FsSnapshot;
use crate::paths::join_seq;
use crate::paths::joined_all;
use crate::paths::lemma_joined_all_step;
use crate::paths::lemma_present_in_push;
use crate::paths::missing_from;
use crate::paths::present_in;
use crate::paths::join_path;
use crate::paths::concat_lists;
use crate::project::ProjectMeta;
use crate::project::ProjectTask;
use crate::project::submission_root_seq;

verus! {

/// Why a task failed.
#[derive(Debug, PartialEq, Eq)]
pub enum GradeError {
    /// The submission root did not exist as a directory.
    SubmissionNotFound,
    /// One or more mandatory files were absent from the submission;
    /// carries their absolute paths, in task order.
    MissingMandatoryFiles(Vec<String>),
    /// One or more test files were absent from the grader folder; carries
    /// their absolute paths, in task order. Test files are always
    /// required, so their absence fails the task before any compile.
    MissingTestFiles(Vec<String>),
    /// The final compile attempt did not succeed.
    CompileFailed,
    /// The test binary did not report success.
    TestsFailed,
}

/// The mathematical value of a `GradeError`: paths as character sequences.
pub ghost enum ErrorModel {
    SubmissionNotFound,
    MissingMandatoryFiles(Seq<Seq<char>>),
    MissingTestFiles(Seq<Seq<char>>),
    CompileFailed,
    TestsFailed,
}

impl View for GradeError {
    type V = ErrorModel;

    open spec fn view(&self) -> ErrorModel {
        match self {
            GradeError::SubmissionNotFound => ErrorModel::SubmissionNotFound,
            GradeError::MissingMandatoryFiles(ps) => ErrorModel::MissingMandatoryFiles(
                ps.deep_view(),
            ),
            GradeError::MissingTestFiles(ps) => ErrorModel::MissingTestFiles(ps.deep_view()),
            GradeError::CompileFailed => ErrorModel::CompileFailed,
            GradeError::TestsFailed => ErrorModel::TestsFailed,
        }
    }
}

/// Where grading a task stands, and what is to be done next.
#[derive(Debug, PartialEq, Eq)]
pub enum GradeState {
    /// Run the compiler over `files`. If it fails and `retry` holds a
    /// list, compile that list next; with no `retry` the failure is final.
    Compile { files: Vec<String>, retry: Option<Vec<String>> },
    /// Compilation succeeded: run the produced test binary.
    RunTests,
    /// The task passed.
    Passed,
    /// The task failed.
    Failed(GradeError),
}

/// The mathematical value of a `GradeState`.
pub ghost enum StateModel {
    Compile { files: Seq<Seq<char>>, retry: Option<Seq<Seq<char>>> },
    RunTests,
    Passed,
    Failed(ErrorModel),
}

impl View for GradeState {
    type V = StateModel;

    open spec fn view(&self) -> StateModel {
        match self {
            GradeState::Compile { files, retry } => StateModel::Compile {
                files: files.deep_view(),
                retry: (match retry {
                    Some(r) => Some(r.deep_view()),
                    None => None,
                }),
            },
            GradeState::RunTests => StateModel::RunTests,
            GradeState::Passed => StateModel::Passed,
            GradeState::Failed(e) => StateModel::Failed(e@),
        }
    }
}

impl StateModel {
    /// One transition of the grading machine. `ok` reports whether the
    /// action the state called for (a compile, a test run) succeeded.
    /// A first compile failure falls back to the retry list when there is
    /// one and to `CompileFailed` when there is none; the retry itself
    /// has no further fallback. Terminal states do not move.
    pub open spec fn step(self, ok: bool) -> StateModel {
        match self {
            StateModel::Compile { files, retry } => {
                if ok {
                    StateModel::RunTests
                } else {
                    match retry {
                        Some(r) => StateModel::Compile { files: r, retry: None },
                        None => StateModel::Failed(ErrorModel::CompileFailed),
                    }
                }
            },
            StateModel::RunTests => {
                if ok {
                    StateModel::Passed
                } else {
                    StateModel::Failed(ErrorModel::TestsFailed)
                }
            },
            StateModel::Passed => StateModel::Passed,
            StateModel::Failed(e) => StateModel::Failed(e),
        }
    }
}

/// The state grading a task starts in, as a function of the task's three
/// name lists, the submission root, the grader folder, and the files
/// present on disk. With any mandatory file missing the task fails before
/// any compile; test files are always required, so with all mandatory
/// files present but any test file missing from the grader folder the
/// task likewise fails before any compile. Otherwise the first compile
/// list is the mandatory files then the test files, and the retry list —
/// present only when some optional file is present on disk — inserts
/// those optional files between the two.
pub open spec fn start_model(
    mandatory: Seq<Seq<char>>,
    optional: Seq<Seq<char>>,
    tests: Seq<Seq<char>>,
    repo: Seq<char>,
    grader: Seq<char>,
    files: Seq<Seq<char>>,
) -> StateModel {
    let m = joined_all(mandatory, repo);
    let miss_m = missing_from(m, files);
    let t = joined_all(tests, grader);
    let miss_t = missing_from(t, files);
    let o = present_in(joined_all(optional, repo), files);
    if miss_m.len() > 0 {
        StateModel::Failed(ErrorModel::MissingMandatoryFiles(miss_m))
    } else if miss_t.len() > 0 {
        StateModel::Failed(ErrorModel::MissingTestFiles(miss_t))
    } else {
        StateModel::Compile {
            files: m + t,
            retry: if o.len() == 0 {
                None
            } else {
                Some(m + o + t)
            },
        }
    }
}

impl GradeState {
    /// One transition of the grading machine, as `StateModel::step` says.
    pub fn step(self, ok: bool) -> (next: GradeState)
        ensures
            next@ == self@.step(ok),
    {
        match self {
            GradeState::Compile { files, retry } => {
                if ok {
                    GradeState::RunTests
                } else {
                    match retry {
                        Some(r) => GradeState::Compile { files: r, retry: None },
                        None => GradeState::Failed(GradeError::CompileFailed),
                    }
                }
            },
            GradeState::RunTests => {
                if ok {
                    GradeState::Passed
                } else {
                    GradeState::Failed(GradeError::TestsFailed)
                }
            },
            GradeState::Passed => GradeState::Passed,
            GradeState::Failed(e) => GradeState::Failed(e),
        }
    }
}

/// The per-task grading context: one task, the shared project metadata,
/// and the computed submission root.
#[derive(Debug)]
pub struct GradingOption<'a> {
    pub task: &'a ProjectTask,
    pub project: &'a ProjectMeta,
    pub repo: String,
}

impl<'a> GradingOption<'a> {
    /// Build the grading context for one task and one student. The
    /// submission root is the delivery folder, the login and the code
    /// name joined in that order, then canonicalized: the context keeps
    /// the canonical path that `fs` recorded for the joined one. When the
    /// joined path is not a directory in `fs` the task fails with
    /// `SubmissionNotFound` and nothing else is done.
    pub fn new(
        task: &'a ProjectTask,
        project: &'a ProjectMeta,
        login: &str,
        fs: &FsSnapshot,
    ) -> (r: Result<Self, GradeError>)
        ensures
            (match r {
                Ok(g) => {
                    &&& g.task == task
                    &&& g.project == project
                    &&& (exists|i: int|
                        0 <= i < fs.dirs_view().len() && (#[trigger] fs.dirs_view()[i]).0
                            == submission_root_seq(
                            project.delivery_folder@,
                            login@,
                            project.code_name@,
                        ) && g.repo@ == fs.dirs_view()[i].1)
                },
                Err(e) => {
                    &&& e@ == ErrorModel::SubmissionNotFound
                    &&& !fs.has_dir_spec(
                        submission_root_seq(project.delivery_folder@, login@, project.code_name@),
                    )
                },
            }),
    {
        let repo = project.submission_root(login);
        match fs.canon_dir(&repo) {
            None => Err(GradeError::SubmissionNotFound),
            Some(canon) => Ok(GradingOption { task, project, repo: canon }),
        }
    }

    /// Join every name onto `root`; with `prune_missing` set, keep only
    /// the joined paths that exist as files in `fs`, silently dropping
    /// the rest, and keep all of them otherwise. Order is preserved.
    pub fn mk_file_list(
        file_names: &Vec<String>,
        root: &String,
        prune_missing: bool,
        fs: &FsSnapshot,
    ) -> (r: Vec<String>)
        ensures
            prune_missing ==> r.deep_view() == present_in(
                joined_all(file_names.deep_view(), root@),
                fs.files_view(),
            ),
            !prune_missing ==> r.deep_view() == joined_all(file_names.deep_view(), root@),
    {
        let ghost names = file_names.deep_view();
        let mut r: Vec<String> = Vec::new();
        let mut i: usize = 0;
        while i < file_names.len()
            invariant
                i <= file_names.len(),
                names == file_names.deep_view(),
                prune_missing ==> r.deep_view() == present_in(
                    joined_all(names.take(i as int), root@),
                    fs.files_view(),
                ),
                !prune_missing ==> r.deep_view() == joined_all(names.take(i as int), root@),
            decreases file_names.len() - i,
        {
            let ghost r_before = r.deep_view();
            let joined = join_path(root.as_str(), file_names[i].as_str());
            proof {
                assert(names[i as int] == file_names[i as int]@);
                lemma_joined_all_step(names, root@, i as int);
                lemma_present_in_push(
                    joined_all(names.take(i as int), root@),
                    joined@,
                    fs.files_view(),
                );
            }
            if !prune_missing {
                r.push(joined);
                proof {
                    assert(r.deep_view() =~= joined_all(names.take(i as int + 1), root@));
                }
            } else if fs.has_file(&joined) {
                r.push(joined);
                proof {
                    assert(r.deep_view() =~= r_before.push(
                        join_seq(root@, names[i as int]),
                    ));
                }
            }
            i += 1;
        }
        proof {
            assert(names.take(names.len() as int) =~= names);
        }
        r
    }

    /// Resolve the task's file lists against `fs` and yield the state
    /// grading starts in, exactly as `start_model` says: with any
    /// mandatory file missing the task fails at once, carrying every
    /// missing absolute path in order; with all mandatory files present
    /// but any test file missing from the grader folder it likewise
    /// fails at once, test files being always required; otherwise the
    /// first compile list is the mandatory files then the test files,
    /// and the present optional files stand between the two in the
    /// single retry list, which exists only when at least one optional
    /// file is present.
    pub fn grade_start(&self, fs: &FsSnapshot) -> (st: GradeState)
        ensures
            st@ == start_model(
                self.task.mandatory_files.deep_view(),
                self.task.optional_files.deep_view(),
                self.task.test_files.deep_view(),
                self.repo@,
                self.project.grader_folder@,
                fs.files_view(),
            ),
    {
        let mandatory = Self::mk_file_list(&self.task.mandatory_files, &self.repo, false, fs);
        let missing = fs.missing_files(&self.task.mandatory_files, &self.repo);
        if missing.len() > 0 {
            return GradeState::Failed(GradeError::MissingMandatoryFiles(missing));
        }
        let missing_tests = fs.missing_files(&self.task.test_files, &self.project.grader_folder);
        if missing_tests.len() > 0 {
            return GradeState::Failed(GradeError::MissingTestFiles(missing_tests));
        }
        let optional = Self::mk_file_list(&self.task.optional_files, &self.repo, true, fs);
        let tests = Self::mk_file_list(
            &self.task.test_files,
            &self.project.grader_folder,
            false,
            fs,
        );
        let first = concat_lists(&mandatory, &tests);
        if optional.len() == 0 {
            GradeState::Compile { files: first, retry: None }
        } else {
            let with_optional = concat_lists(&concat_lists(&mandatory, &optional), &tests);
            GradeState::Compile { files: first, retry: Some(with_optional) }
        }
    }
}

} // verus!
