use grader::fs::FsSnapshot;
use grader::grading::GradeError;
use grader::grading::GradeState;
use grader::grading::GradingOption;
use grader::paths::join_path;
use grader::project::ProjectMeta;
use grader::project::ProjectSpec;
use grader::project::ProjectTask;

fn s(x: &str) -> String {
    x.to_string()
}

fn list(xs: &[&str]) -> Vec<String> {
    xs.iter().map(|x| x.to_string()).collect()
}

fn meta() -> ProjectMeta {
    ProjectMeta {
        name: s("Sample Project"),
        code_name: s("proj"),
        delivery_folder: s("/srv/delivery"),
        grader_folder: s("/srv/grader"),
        compile_args_base: list(&["-Wall", "-Wextra"]),
        compile_args_tail: list(&["-lm"]),
    }
}

fn task(mandatory: &[&str], optional: &[&str], tests: &[&str]) -> ProjectTask {
    ProjectTask {
        name: s("task"),
        mandatory_files: list(mandatory),
        optional_files: list(optional),
        test_files: list(tests),
    }
}

const ROOT: &str = "/srv/delivery/michel/proj";

fn snapshot(files: &[&str]) -> FsSnapshot {
    FsSnapshot { files: list(files), dirs: vec![(s(ROOT), s(ROOT))] }
}

#[test]
fn join_path_appends_separator_and_name() {
    assert_eq!(join_path("root", "a.c"), s("root/a.c"));
    assert_eq!(join_path("", "a.c"), s("/a.c"));
}

#[test]
fn submission_root_joins_delivery_login_code_name_in_order() {
    let m = meta();
    assert_eq!(m.submission_root("michel"), s("/srv/delivery/michel/proj"));
}

#[test]
fn new_succeeds_when_submission_root_exists() {
    let m = meta();
    let t = task(&["a.c"], &[], &["t.c"]);
    let fs = snapshot(&[]);
    let g = GradingOption::new(&t, &m, "michel", &fs).unwrap();
    assert_eq!(g.repo, s(ROOT));
}

#[test]
fn new_fails_with_submission_not_found_when_root_absent() {
    let m = meta();
    let t = task(&["a.c"], &[], &["t.c"]);
    let fs = FsSnapshot { files: Vec::new(), dirs: Vec::new() };
    let r = GradingOption::new(&t, &m, "michel", &fs);
    assert_eq!(r.unwrap_err(), GradeError::SubmissionNotFound);
}

#[test]
fn mk_file_list_without_pruning_keeps_every_name() {
    let fs = snapshot(&[]);
    let names = list(&["a.c", "b.c"]);
    let r = GradingOption::mk_file_list(&names, &s("root"), false, &fs);
    assert_eq!(r, list(&["root/a.c", "root/b.c"]));
}

#[test]
fn mk_file_list_with_pruning_keeps_only_present_files() {
    let fs = snapshot(&["root/b.c"]);
    let names = list(&["a.c", "b.c", "c.c"]);
    let r = GradingOption::mk_file_list(&names, &s("root"), true, &fs);
    assert_eq!(r, list(&["root/b.c"]));
}

#[test]
fn mk_file_list_of_no_names_is_empty() {
    let fs = snapshot(&[]);
    let r = GradingOption::mk_file_list(&Vec::new(), &s("root"), true, &fs);
    assert_eq!(r, Vec::<String>::new());
}

#[test]
fn are_garding_files_present_requires_every_test_file() {
    let grader = s("/srv/grader");
    let fs = FsSnapshot { files: list(&["/srv/grader/t1.c"]), dirs: Vec::new() };
    let all_there = task(&[], &[], &["t1.c"]);
    assert!(all_there.are_garding_files_present(&grader, &fs));
    let one_missing = task(&[], &[], &["t1.c", "t2.c"]);
    assert!(!one_missing.are_garding_files_present(&grader, &fs));
    let none_needed = task(&[], &[], &[]);
    assert!(none_needed.are_garding_files_present(&grader, &fs));
}

#[test]
fn are_garding_files_present_resolves_against_the_grader_folder() {
    // The raw relative name being present does not count: only the
    // grader-joined path does.
    let grader = s("/srv/grader");
    let fs = FsSnapshot { files: list(&["t1.c"]), dirs: Vec::new() };
    let t = task(&[], &[], &["t1.c"]);
    assert!(!t.are_garding_files_present(&grader, &fs));
}

#[test]
fn missing_mandatory_file_fails_before_any_compile() {
    let m = meta();
    let t = task(&["a.c", "b.c"], &["extra.c"], &["t.c"]);
    let fs = snapshot(&[
        "/srv/delivery/michel/proj/a.c",
        "/srv/grader/t.c",
    ]);
    let g = GradingOption::new(&t, &m, "michel", &fs).unwrap();
    let st = g.grade_start(&fs);
    assert_eq!(
        st,
        GradeState::Failed(GradeError::MissingMandatoryFiles(list(&[
            "/srv/delivery/michel/proj/b.c"
        ])))
    );
}

#[test]
fn missing_test_file_fails_before_any_compile() {
    // All mandatory files are present, but the grader folder lacks one
    // declared test file: the task fails at once with the missing
    // grader-joined paths, and no compile state is ever produced.
    let m = meta();
    let t = task(&["a.c"], &[], &["t.c", "t2.c"]);
    let fs = snapshot(&["/srv/delivery/michel/proj/a.c", "/srv/grader/t.c"]);
    let g = GradingOption::new(&t, &m, "michel", &fs).unwrap();
    let st = g.grade_start(&fs);
    assert_eq!(
        st,
        GradeState::Failed(GradeError::MissingTestFiles(list(&["/srv/grader/t2.c"])))
    );
}

#[test]
fn new_returns_the_canonical_submission_root() {
    // The snapshot records the canonical form of the probed root; the
    // grading context keeps that form, and every mandatory file is then
    // resolved under it.
    let m = meta();
    let t = task(&["a.c"], &[], &["t.c"]);
    let fs = FsSnapshot {
        files: list(&["/real/location/proj/a.c", "/srv/grader/t.c"]),
        dirs: vec![(s(ROOT), s("/real/location/proj"))],
    };
    let g = GradingOption::new(&t, &m, "michel", &fs).unwrap();
    assert_eq!(g.repo, s("/real/location/proj"));
    let st = g.grade_start(&fs);
    assert_eq!(
        st,
        GradeState::Compile {
            files: list(&["/real/location/proj/a.c", "/srv/grader/t.c"]),
            retry: None,
        }
    );
}

#[test]
fn missing_mandatory_wins_over_present_optional() {
    let m = meta();
    let t = task(&["a.c"], &["b.c"], &["t.c"]);
    let fs = snapshot(&["/srv/delivery/michel/proj/b.c", "/srv/grader/t.c"]);
    let g = GradingOption::new(&t, &m, "michel", &fs).unwrap();
    let st = g.grade_start(&fs);
    assert_eq!(
        st,
        GradeState::Failed(GradeError::MissingMandatoryFiles(list(&[
            "/srv/delivery/michel/proj/a.c"
        ])))
    );
}

#[test]
fn empty_task_compiles_an_empty_list() {
    let m = meta();
    let t = task(&[], &[], &[]);
    let fs = snapshot(&[]);
    let g = GradingOption::new(&t, &m, "michel", &fs).unwrap();
    let st = g.grade_start(&fs);
    assert_eq!(st, GradeState::Compile { files: Vec::new(), retry: None });
}

#[test]
fn failed_state_never_moves_again() {
    let st = GradeState::Failed(GradeError::CompileFailed);
    let st = st.step(true);
    assert_eq!(st, GradeState::Failed(GradeError::CompileFailed));
    let st = st.step(false);
    assert_eq!(st, GradeState::Failed(GradeError::CompileFailed));
}

#[test]
fn first_compile_success_goes_straight_to_tests() {
    let m = meta();
    let t = task(&["a.c"], &["b.c"], &["t.c"]);
    let fs = snapshot(&[
        "/srv/delivery/michel/proj/a.c",
        "/srv/delivery/michel/proj/b.c",
        "/srv/grader/t.c",
    ]);
    let g = GradingOption::new(&t, &m, "michel", &fs).unwrap();
    let st = g.grade_start(&fs);
    let st = st.step(true);
    assert_eq!(st, GradeState::RunTests);
    let st = st.step(true);
    assert_eq!(st, GradeState::Passed);
}

#[test]
fn first_compile_failure_without_optional_is_final() {
    let m = meta();
    let t = task(&["a.c"], &[], &["t.c"]);
    let fs = snapshot(&["/srv/delivery/michel/proj/a.c", "/srv/grader/t.c"]);
    let g = GradingOption::new(&t, &m, "michel", &fs).unwrap();
    let st = g.grade_start(&fs);
    assert_eq!(
        st,
        GradeState::Compile {
            files: list(&["/srv/delivery/michel/proj/a.c", "/srv/grader/t.c"]),
            retry: None,
        }
    );
    let st = st.step(false);
    assert_eq!(st, GradeState::Failed(GradeError::CompileFailed));
}

#[test]
fn absent_optional_file_leaves_no_retry() {
    // The task declares an optional file, but the submission does not
    // contain it: the first list excludes it and no retry exists.
    let m = meta();
    let t = task(&["a.c"], &["b.c"], &["t.c"]);
    let fs = snapshot(&["/srv/delivery/michel/proj/a.c", "/srv/grader/t.c"]);
    let g = GradingOption::new(&t, &m, "michel", &fs).unwrap();
    let st = g.grade_start(&fs);
    assert_eq!(
        st,
        GradeState::Compile {
            files: list(&["/srv/delivery/michel/proj/a.c", "/srv/grader/t.c"]),
            retry: None,
        }
    );
    let st = st.step(false);
    assert_eq!(st, GradeState::Failed(GradeError::CompileFailed));
}

#[test]
fn present_optional_file_gives_exactly_one_retry_in_order() {
    // Same task, but the submission also contains the optional file: the
    // first list still excludes it; the retry inserts it between the
    // mandatory and the test files, and there is no third attempt.
    let m = meta();
    let t = task(&["a.c"], &["b.c"], &["t.c"]);
    let fs = snapshot(&[
        "/srv/delivery/michel/proj/a.c",
        "/srv/delivery/michel/proj/b.c",
        "/srv/grader/t.c",
    ]);
    let g = GradingOption::new(&t, &m, "michel", &fs).unwrap();
    let st = g.grade_start(&fs);
    assert_eq!(
        st,
        GradeState::Compile {
            files: list(&["/srv/delivery/michel/proj/a.c", "/srv/grader/t.c"]),
            retry: Some(list(&[
                "/srv/delivery/michel/proj/a.c",
                "/srv/delivery/michel/proj/b.c",
                "/srv/grader/t.c",
            ])),
        }
    );
    let st = st.step(false);
    assert_eq!(
        st,
        GradeState::Compile {
            files: list(&[
                "/srv/delivery/michel/proj/a.c",
                "/srv/delivery/michel/proj/b.c",
                "/srv/grader/t.c",
            ]),
            retry: None,
        }
    );
    let st = st.step(false);
    assert_eq!(st, GradeState::Failed(GradeError::CompileFailed));
}

#[test]
fn retry_success_still_runs_the_tests() {
    let m = meta();
    let t = task(&["a.c"], &["b.c"], &["t.c"]);
    let fs = snapshot(&[
        "/srv/delivery/michel/proj/a.c",
        "/srv/delivery/michel/proj/b.c",
        "/srv/grader/t.c",
    ]);
    let g = GradingOption::new(&t, &m, "michel", &fs).unwrap();
    let st = g.grade_start(&fs).step(false).step(true);
    assert_eq!(st, GradeState::RunTests);
}

#[test]
fn failing_tests_fail_the_task() {
    let st = GradeState::RunTests.step(false);
    assert_eq!(st, GradeState::Failed(GradeError::TestsFailed));
}

#[test]
fn compile_command_args_keep_base_files_tail_order() {
    let m = meta();
    let files = list(&["a.c", "t.c"]);
    let args = m.compile_command_args(&files);
    assert_eq!(args, list(&["-Wall", "-Wextra", "a.c", "t.c", "-lm"]));
}

#[test]
fn command_line_override_takes_precedence() {
    let mut spec = ProjectSpec { meta: meta(), tasks: vec![task(&["a.c"], &[], &["t.c"])] };
    spec.apply_overrides(Some(s("/elsewhere/delivery")), None);
    assert_eq!(spec.meta.delivery_folder, s("/elsewhere/delivery"));
    assert_eq!(spec.meta.grader_folder, s("/srv/grader"));
    assert_eq!(spec.meta.submission_root("michel"), s("/elsewhere/delivery/michel/proj"));
}

#[test]
fn no_override_keeps_the_loaded_folders() {
    let mut spec = ProjectSpec { meta: meta(), tasks: Vec::new() };
    spec.apply_overrides(None, None);
    assert_eq!(spec.meta.delivery_folder, s("/srv/delivery"));
    assert_eq!(spec.meta.grader_folder, s("/srv/grader"));
}
