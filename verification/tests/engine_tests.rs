use boj::config::{Config, FileType, General, Workspace};
use boj::judge::{judge_execution, judge_output, parse_testcase_id, sort_testcase_ids, summarize,
    RunSummary, Verdict};
use boj::pipeline::{pipeline_result, pipeline_start, pipeline_step, CommandOutcome,
    CommandRequest, ExecutionResult, PipelineState};
use boj::resolver::resolve_toolchain;
use boj::text::{normalize, replace_str, trim_str};
use boj::tokenize::tokenize;

fn filetype(main: &str, compile: Option<&str>, run: &str, after: Option<&str>) -> FileType {
    FileType {
        language: "test".to_string(),
        main: main.to_string(),
        compile: compile.map(|s| s.to_string()),
        run: run.to_string(),
        after: after.map(|s| s.to_string()),
    }
}

fn config_of(filetype: Vec<(String, FileType)>) -> Config {
    Config {
        general: General {
            selenium_browser: String::new(),
            default_filetype: String::new(),
            editor_command: String::new(),
        },
        workspace: Workspace {
            ongoing_dir: String::new(),
            archive_dir: String::new(),
            archive: false,
        },
        filetype,
    }
}

fn py_cpp_config() -> Config {
    config_of(vec![
        ("py".to_string(), filetype("main.py", None, "python main.py", None)),
        (
            "cpp".to_string(),
            filetype("main.cpp", Some("g++ main.cpp"), "./a.out", Some("rm -rf a.out")),
        ),
    ])
}

#[test]
fn normalize_unifies_crlf_and_trims() {
    assert_eq!(normalize("abc\r\ndef\r\n"), "abc\ndef");
    assert_eq!(normalize("  abc \n"), "abc");
    assert_eq!(normalize(""), "");
    assert_eq!(normalize(" \t\r\n "), "");
}

#[test]
fn normalize_idempotent_on_settled_text() {
    let once = normalize("  1 2\r\n3\n");
    let twice = normalize(&once);
    assert_eq!(once, twice);
}

#[test]
fn normalize_overlapped_cr_run_needs_two_passes() {
    // A CR CR LF run leaves a CRLF behind after one pass, so one
    // normalization pass does not settle this input.
    let once = normalize("a\r\r\nb");
    assert_eq!(once, "a\r\nb");
    assert_eq!(normalize(&once), "a\nb");
}

#[test]
fn crlf_recording_matches_lf_output() {
    // The sample was recorded with CRLF endings; the program emits LF only.
    assert_eq!(normalize("1 2\r\n3 4\r\n"), normalize("1 2\n3 4\n"));
}

#[test]
fn replace_str_all_occurrences() {
    assert_eq!(replace_str("$file and $file", "$file", "main.py"), "main.py and main.py");
    assert_eq!(replace_str("abc", "x", "y"), "abc");
    assert_eq!(replace_str("aaa", "aa", "b"), "ba");
}

#[test]
fn trim_str_outer_whitespace_only() {
    assert_eq!(trim_str(" \t a b \n"), "a b");
    assert_eq!(trim_str("ab"), "ab");
}

#[test]
fn tokenize_splits_on_whitespace_runs() {
    assert_eq!(tokenize("python main.py"), vec!["python", "main.py"]);
    assert_eq!(tokenize("  g++  -std=c++17\tmain.cpp "), vec!["g++", "-std=c++17", "main.cpp"]);
    assert_eq!(tokenize(""), Vec::<String>::new());
    assert_eq!(tokenize("   "), Vec::<String>::new());
}

#[test]
fn resolver_picks_single_match() {
    let config = py_cpp_config();
    let files = vec!["main.py".to_string(), "1000.md".to_string()];
    assert_eq!(resolve_toolchain(&config, &files), Some(0));
}

#[test]
fn resolver_first_declared_wins_on_ambiguity() {
    let config = py_cpp_config();
    let files = vec!["main.cpp".to_string(), "main.py".to_string()];
    // Both entry files are present; the earlier declaration (py) wins.
    assert_eq!(resolve_toolchain(&config, &files), Some(0));
}

#[test]
fn resolver_reports_no_match_on_empty_directory() {
    let config = py_cpp_config();
    let files: Vec<String> = Vec::new();
    assert_eq!(resolve_toolchain(&config, &files), None);
}

#[test]
fn pipeline_interpreted_run_passes_echo_sample() {
    // End to end over the engine: a Python solution that reverses its input
    // line; the sample input is "abc\n" and the recorded output "cba\n".
    let ft = filetype("main.py", None, "python main.py", None);
    let (state, request) = pipeline_start(&ft);
    let request = request.expect("the run command is requested first");
    assert_eq!(request.command, "python main.py");
    assert!(request.pipe_input);
    let (state, request) = pipeline_step(&ft, state, CommandOutcome::Success("cba\n".to_string()));
    assert!(request.is_none());
    let result = pipeline_result(state);
    let verdict = judge_execution("cba\n", result);
    assert!(matches!(verdict, Verdict::Passed));
}

#[test]
fn pipeline_reports_mismatch_with_normalized_strings() {
    let ft = filetype("main.py", None, "python main.py", None);
    let (state, _) = pipeline_start(&ft);
    let (state, _) = pipeline_step(&ft, state, CommandOutcome::Success("cba\n".to_string()));
    let verdict = judge_execution("abcd\n", pipeline_result(state));
    match verdict {
        Verdict::Failed { expected, actual } => {
            assert_eq!(expected, "abcd");
            assert_eq!(actual, "cba");
        }
        other => panic!("expected a content mismatch, got {:?}", other),
    }
}

#[test]
fn compile_failure_short_circuits_run() {
    let ft = filetype("main.cpp", Some("g++ main.cpp"), "./a.out", Some("rm -rf a.out"));
    let (state, request) = pipeline_start(&ft);
    assert_eq!(request.map(|r| r.command), Some("g++ main.cpp".to_string()));
    let (state, request) = pipeline_step(&ft, state, CommandOutcome::Failure);
    // The run command is never requested, and the verdict is an execution
    // error, not a content mismatch.
    assert!(request.is_none(), "no further command after a compile failure");
    match &state {
        PipelineState::CompileFailed { command } => assert_eq!(command, "g++ main.cpp"),
        other => panic!("expected a compile failure, got {:?}", other),
    }
    let verdict = judge_execution("anything", pipeline_result(state));
    match verdict {
        Verdict::Error { command } => assert_eq!(command, "g++ main.cpp"),
        other => panic!("expected an execution error, got {:?}", other),
    }
}

#[test]
fn cleanup_failure_keeps_run_result() {
    let ft = filetype("main.cpp", Some("g++ main.cpp"), "./a.out", Some("rm -rf a.out"));
    let (state, _) = pipeline_start(&ft);
    let (state, request) = pipeline_step(&ft, state, CommandOutcome::Success(String::new()));
    let run_request: CommandRequest = request.expect("the run command follows a successful compile");
    assert_eq!(run_request.command, "./a.out");
    assert!(run_request.pipe_input);
    let (state, request) = pipeline_step(&ft, state, CommandOutcome::Success("42\n".to_string()));
    assert_eq!(request.map(|r| r.command), Some("rm -rf a.out".to_string()));
    // The cleanup command fails; the captured output survives.
    let (state, request) = pipeline_step(&ft, state, CommandOutcome::Failure);
    assert!(request.is_none());
    let result = pipeline_result(state);
    assert!(matches!(&result, ExecutionResult::Output(out) if out == "42\n"));
    assert!(matches!(judge_execution("42", result), Verdict::Passed));
}

#[test]
fn echo_solution_passes_matching_sample() {
    // An echoing solution: the actual output is the sample's input; the
    // input agrees with the recorded expected output up to CRLF and outer
    // whitespace, so the sample passes.
    let input = "x y z\r\n";
    assert!(matches!(judge_output("x y z\n", input), Verdict::Passed));
    assert!(matches!(judge_output(" x y z", input), Verdict::Passed));
}

#[test]
fn judge_output_normalizes_both_sides() {
    assert!(matches!(judge_output("1 2 3\r\n", "1 2 3\n"), Verdict::Passed));
    assert!(matches!(judge_output(" 7\n", "7"), Verdict::Passed));
    assert!(matches!(judge_output("1", "2"), Verdict::Failed { .. }));
}

#[test]
fn summarize_counts_each_kind() {
    let verdicts = vec![
        Verdict::Passed,
        Verdict::Failed { expected: "1".to_string(), actual: "2".to_string() },
        Verdict::Passed,
        Verdict::Error { command: "./a.out".to_string() },
    ];
    let summary = summarize(&verdicts);
    assert_eq!(summary, RunSummary { passed: 2, failed: 1, errored: 1 });
}

#[test]
fn parse_testcase_id_accepts_digit_runs() {
    assert_eq!(parse_testcase_id("1"), Some(1));
    assert_eq!(parse_testcase_id("042"), Some(42));
    assert_eq!(parse_testcase_id("18446744073709551615"), Some(u64::MAX));
}

#[test]
fn parse_testcase_id_rejects_other_names() {
    assert_eq!(parse_testcase_id(""), None);
    assert_eq!(parse_testcase_id("a1"), None);
    assert_eq!(parse_testcase_id("1 "), None);
    assert_eq!(parse_testcase_id("18446744073709551616"), None);
}

#[test]
fn sort_testcase_ids_ascending() {
    assert_eq!(sort_testcase_ids(&vec![3, 1, 2]), vec![1, 2, 3]);
    assert_eq!(sort_testcase_ids(&vec![2, 1, 2]), vec![1, 2, 2]);
    assert_eq!(sort_testcase_ids(&Vec::new()), Vec::<u64>::new());
}
