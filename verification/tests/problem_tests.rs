use boj::errors::AddError;
use boj::level::Level;
use boj::problem::{description_markdown, Problem};

#[test]
fn from_rank_maps_bands() {
    assert!(matches!(Level::from_rank(0), Level::Unrated));
    assert!(matches!(Level::from_rank(1), Level::Bronze(1)));
    assert!(matches!(Level::from_rank(5), Level::Bronze(5)));
    assert!(matches!(Level::from_rank(6), Level::Silver(1)));
    assert!(matches!(Level::from_rank(13), Level::Gold(3)));
    assert!(matches!(Level::from_rank(20), Level::Platinum(5)));
    assert!(matches!(Level::from_rank(21), Level::Diamond(1)));
    assert!(matches!(Level::from_rank(30), Level::Ruby(5)));
    assert!(matches!(Level::from_rank(31), Level::Unrated));
}

fn sample_problem() -> Problem {
    let mut problem = Problem::new(
        1000,
        "A+B".to_string(),
        "두 정수를 더한다.".to_string(),
        "두 정수 A와 B".to_string(),
        "A+B를 출력한다.".to_string(),
        Level::from_rank(1),
    );
    problem.add_test_case("1 2\n".to_string(), "3\n".to_string());
    problem
}

#[test]
fn new_problem_starts_without_samples() {
    let problem = Problem::new(
        1000,
        "A+B".to_string(),
        String::new(),
        String::new(),
        String::new(),
        Level::Unrated,
    );
    assert_eq!(problem.id, 1000);
    assert_eq!(problem.title, "A+B");
    assert!(problem.test_cases.is_empty());
}

#[test]
fn add_test_case_appends_in_order() {
    let mut problem = sample_problem();
    problem.add_test_case("5 7\n".to_string(), "12\n".to_string());
    assert_eq!(problem.test_cases.len(), 2);
    assert_eq!(problem.test_cases[0].input, "1 2\n");
    assert_eq!(problem.test_cases[0].output, "3\n");
    assert_eq!(problem.test_cases[1].input, "5 7\n");
    assert_eq!(problem.test_cases[1].output, "12\n");
}

#[test]
fn description_markdown_exact() {
    let problem = sample_problem();
    let expected = "# A+B\n\n## 문제 설명 \n두 정수를 더한다.\n\n## 입력\n두 정수 A와 B\n\n\
                    ## 출력\nA+B를 출력한다.\n\n## 예제 입력\n```\n1 2\n```\n\n## 예제 출력\n```\n3\n```\n";
    assert_eq!(description_markdown(&problem), expected);
}

#[test]
fn error_messages_match_display_lines() {
    assert_eq!(
        AddError::NotInitialized.message(),
        "Please run `boj init` to initialize the current directory."
    );
    assert_eq!(
        AddError::DirectoryAlreadyExists.message(),
        "Problem directory already exists. Use --force to overwrite."
    );
    assert_eq!(AddError::IoError("no such file".to_string()).message(), "no such file");
    assert_eq!(
        AddError::FetchError("timed out".to_string()).message(),
        "Fetch error: timed out"
    );
    assert_eq!(
        AddError::ConfigError("missing field `run`".to_string()).message(),
        "Config error: missing field `run`"
    );
}
