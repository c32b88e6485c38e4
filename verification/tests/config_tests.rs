use boj::config::{Config, FileType, General, Workspace};
use boj::defaults::{command_for, default_config, source_file_names};

fn empty_general() -> General {
    General {
        selenium_browser: String::new(),
        default_filetype: String::new(),
        editor_command: String::new(),
    }
}

fn empty_workspace() -> Workspace {
    Workspace {
        ongoing_dir: String::new(),
        archive_dir: String::new(),
        archive: false,
    }
}

#[test]
fn default_extension_when_none() {
    let config = Config {
        general: General {
            selenium_browser: String::new(),
            default_filetype: String::new(),
            editor_command: String::new(),
        },
        workspace: Workspace {
            ongoing_dir: String::new(),
            archive_dir: String::new(),
            archive: false,
        },
        filetype: Vec::new(),
    };
    assert_eq!(config.default_extension(), "");
}

#[test]
fn default_extension_custom() {
    let config = Config {
        general: General {
            selenium_browser: String::new(),
            default_filetype: "rs".to_string(),
            editor_command: String::new(),
        },
        workspace: Workspace {
            ongoing_dir: String::new(),
            archive_dir: String::new(),
            archive: false,
        },
        filetype: Vec::new(),
    };
    assert_eq!(config.default_extension(), "rs");
}

fn plain_filetype(language: &str, main: &str, run: &str) -> FileType {
    FileType {
        language: language.to_string(),
        main: main.to_string(),
        compile: None,
        run: run.to_string(),
        after: None,
    }
}

#[test]
fn validate_accepts_well_formed_config() {
    let config = Config {
        general: empty_general(),
        workspace: empty_workspace(),
        filetype: vec![
            ("py".to_string(), plain_filetype("python3", "main.py", "python main.py")),
            ("js".to_string(), plain_filetype("node", "main.js", "node main.js")),
        ],
    };
    assert!(config.validate());
}

#[test]
fn validate_rejects_empty_entry_file() {
    let config = Config {
        general: empty_general(),
        workspace: empty_workspace(),
        filetype: vec![("py".to_string(), plain_filetype("python3", "", "python main.py"))],
    };
    assert!(!config.validate());
}

#[test]
fn validate_rejects_empty_run_command() {
    let config = Config {
        general: empty_general(),
        workspace: empty_workspace(),
        filetype: vec![("py".to_string(), plain_filetype("python3", "main.py", ""))],
    };
    assert!(!config.validate());
}

#[test]
fn validate_rejects_duplicate_extension_keys() {
    let config = Config {
        general: empty_general(),
        workspace: empty_workspace(),
        filetype: vec![
            ("py".to_string(), plain_filetype("python3", "main.py", "python main.py")),
            ("py".to_string(), plain_filetype("python2", "main.py", "python2 main.py")),
        ],
    };
    assert!(!config.validate());
}

#[test]
fn determine_extension_uses_argument() {
    let config = Config {
        general: General {
            selenium_browser: String::new(),
            default_filetype: "py".to_string(),
            editor_command: String::new(),
        },
        workspace: empty_workspace(),
        filetype: Vec::new(),
    };
    assert_eq!(boj::config::determine_extension("rs", &config), "rs");
}

#[test]
fn determine_extension_falls_back_to_default() {
    let config = Config {
        general: General {
            selenium_browser: String::new(),
            default_filetype: "py".to_string(),
            editor_command: String::new(),
        },
        workspace: empty_workspace(),
        filetype: Vec::new(),
    };
    assert_eq!(boj::config::determine_extension("nil", &config), "py");
}

#[test]
fn command_substitution_exact() {
    assert_eq!(command_for("rustc $file -o main", "main.rs"), "rustc main.rs -o main");
    assert_eq!(command_for("python $file", "main.py"), "python main.py");
    assert_eq!(command_for("./a.out", "main.c"), "./a.out");
}

#[test]
fn default_config_sections() {
    let config = default_config();
    assert_eq!(config.general.default_filetype, "py");
    assert_eq!(config.general.selenium_browser, "chrome");
    assert_eq!(config.general.editor_command, "code $file");
    assert_eq!(config.workspace.ongoing_dir, "problems");
    assert_eq!(config.workspace.archive_dir, "archives");
    assert!(config.workspace.archive);
    assert!(config.validate());

    let keys: Vec<&str> = config.filetype.iter().map(|p| p.0.as_str()).collect();
    assert_eq!(keys, vec!["py", "rs", "c", "cpp", "java", "js"]);

    let py = &config.filetype[0].1;
    assert_eq!(py.language, "python3");
    assert_eq!(py.main, "main.py");
    assert!(py.compile.is_none());
    assert_eq!(py.run, "python main.py");
    assert!(py.after.is_none());

    let rs = &config.filetype[1].1;
    assert_eq!(rs.compile.as_deref(), Some("rustc main.rs -o main"));
    assert_eq!(rs.run, "./main");

    let c = &config.filetype[2].1;
    assert_eq!(c.compile.as_deref(), Some("gcc -std=c11 main.c -o a.out"));
    assert_eq!(c.run, "./a.out");
    assert_eq!(c.after.as_deref(), Some("rm -rf a.out"));

    let java = &config.filetype[4].1;
    assert_eq!(java.main, "Main.java");
    assert_eq!(java.compile.as_deref(), Some("javac Main.java"));
    assert_eq!(java.run, "java Main");
}

#[test]
fn assemble_accepts_well_formed_parts() {
    let config = Config::assemble(
        empty_general(),
        empty_workspace(),
        vec![("py".to_string(), plain_filetype("python3", "main.py", "python main.py"))],
    );
    let config = config.expect("a well-formed configuration is accepted");
    assert_eq!(config.filetype.len(), 1);
    assert_eq!(config.filetype[0].0, "py");
}

#[test]
fn assemble_rejects_invalid_shape_with_config_error() {
    let rejected = Config::assemble(
        empty_general(),
        empty_workspace(),
        vec![("py".to_string(), plain_filetype("python3", "main.py", ""))],
    );
    match rejected {
        Err(boj::errors::AddError::ConfigError(_)) => {}
        other => panic!("expected a configuration error, got {:?}", other),
    }
}

#[test]
fn source_file_names_java_and_default() {
    let (template, target) = source_file_names("java");
    assert_eq!(template, "Main.java");
    assert_eq!(target, "Main.java");
    let (template, target) = source_file_names("py");
    assert_eq!(template, "default.py");
    assert_eq!(target, "main.py");
}
