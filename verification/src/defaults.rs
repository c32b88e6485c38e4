use vstd::prelude::*;

use crate::config::{Config, FileType, General, Workspace};
use crate::text::{replace_seq, replace_str, str_eq};

verus! {

/// A command template with every `$file` placeholder replaced by the entry
/// file's name.
pub open spec fn spec_command(template: Seq<char>, main: Seq<char>) -> Seq<char> {
    replace_seq(template, "$file"@, main)
}

/// Builds one ready-to-execute command line from its template: every
/// `$file` placeholder becomes the entry file's name.
pub fn command_for(template: &str, main: &str) -> (r: String)
    ensures
        r@ == spec_command(template@, main@),
{
    replace_str(template, "$file", main)
}

/// Builds the descriptor one language section declares. A section names the
/// command producing output either as a plain run template or as the
/// invocation of a compiled executable; where both are given, the
/// executable's invocation wins. The entry file is substituted into the
/// compile and run templates; the cleanup command is kept literally.
pub fn build_filetype(
    language: &str,
    main: &str,
    compile_template: Option<&str>,
    run_template: Option<&str>,
    execute_template: Option<&str>,
    after: Option<&str>,
) -> (ft: FileType)
    requires
        run_template is Some || execute_template is Some,
    ensures
        ft.language@ == language@,
        ft.main@ == main@,
        (match compile_template {
            Some(t) => ft.compile matches Some(c) && c@ == spec_command(t@, main@),
            None => ft.compile is None,
        }),
        (match execute_template {
            Some(t) => ft.run@ == spec_command(t@, main@),
            None => ft.run@ == spec_command((run_template->Some_0)@, main@),
        }),
        (match after {
            Some(t) => ft.after matches Some(a) && a@ == t@,
            None => ft.after is None,
        }),
{
    let run = match execute_template {
        Some(t) => command_for(t, main),
        None => match run_template {
            Some(t) => command_for(t, main),
            None => unreached(),
        },
    };
    let compile = match compile_template {
        Some(t) => Some(command_for(t, main)),
        None => None,
    };
    let after_cmd = match after {
        Some(t) => Some(String::from_str(t)),
        None => None,
    };
    FileType {
        language: String::from_str(language),
        main: String::from_str(main),
        compile,
        run,
        after: after_cmd,
    }
}

/// The configuration a fresh workspace starts with: the six stock language
/// sections in their declared order, the command templates with their entry
/// files substituted in, and the default general and workspace preferences.
pub fn default_config() -> (c: Config)
    ensures
        c.general.selenium_browser@ == "chrome"@,
        c.general.default_filetype@ == "py"@,
        c.general.editor_command@ == "code $file"@,
        c.workspace.ongoing_dir@ == "problems"@,
        c.workspace.archive_dir@ == "archives"@,
        c.workspace.archive == true,
        c.filetype@.len() == 6,
        c.filetype@[0].0@ == "py"@,
        c.filetype@[0].1.language@ == "python3"@,
        c.filetype@[0].1.main@ == "main.py"@,
        c.filetype@[0].1.compile is None,
        c.filetype@[0].1.run@ == spec_command("python $file"@, "main.py"@),
        c.filetype@[0].1.after is None,
        c.filetype@[1].0@ == "rs"@,
        c.filetype@[1].1.language@ == "rust"@,
        c.filetype@[1].1.main@ == "main.rs"@,
        c.filetype@[1].1.compile matches Some(cc) && cc@ == spec_command(
            "rustc $file -o main"@,
            "main.rs"@,
        ),
        c.filetype@[1].1.run@ == spec_command("./main"@, "main.rs"@),
        c.filetype@[1].1.after is None,
        c.filetype@[2].0@ == "c"@,
        c.filetype@[2].1.language@ == "c"@,
        c.filetype@[2].1.main@ == "main.c"@,
        c.filetype@[2].1.compile matches Some(cc) && cc@ == spec_command(
            "gcc -std=c11 $file -o a.out"@,
            "main.c"@,
        ),
        c.filetype@[2].1.run@ == spec_command("./a.out"@, "main.c"@),
        c.filetype@[2].1.after matches Some(a) && a@ == "rm -rf a.out"@,
        c.filetype@[3].0@ == "cpp"@,
        c.filetype@[3].1.language@ == "c++17"@,
        c.filetype@[3].1.main@ == "main.cpp"@,
        c.filetype@[3].1.compile matches Some(cc) && cc@ == spec_command(
            "g++ -std=c++17 $file"@,
            "main.cpp"@,
        ),
        c.filetype@[3].1.run@ == spec_command("./a.out"@, "main.cpp"@),
        c.filetype@[3].1.after matches Some(a) && a@ == "rm -rf a.out"@,
        c.filetype@[4].0@ == "java"@,
        c.filetype@[4].1.language@ == "java"@,
        c.filetype@[4].1.main@ == "Main.java"@,
        c.filetype@[4].1.compile matches Some(cc) && cc@ == spec_command(
            "javac $file"@,
            "Main.java"@,
        ),
        c.filetype@[4].1.run@ == spec_command("java Main"@, "Main.java"@),
        c.filetype@[4].1.after is None,
        c.filetype@[5].0@ == "js"@,
        c.filetype@[5].1.language@ == "node"@,
        c.filetype@[5].1.main@ == "main.js"@,
        c.filetype@[5].1.compile is None,
        c.filetype@[5].1.run@ == spec_command("node $file"@, "main.js"@),
        c.filetype@[5].1.after is None,
{
    let mut filetype: Vec<(String, FileType)> = Vec::new();
    filetype.push(
        (
            String::from_str("py"),
            build_filetype("python3", "main.py", None, Some("python $file"), None, None),
        ),
    );
    filetype.push(
        (
            String::from_str("rs"),
            build_filetype(
                "rust",
                "main.rs",
                Some("rustc $file -o main"),
                None,
                Some("./main"),
                None,
            ),
        ),
    );
    filetype.push(
        (
            String::from_str("c"),
            build_filetype(
                "c",
                "main.c",
                Some("gcc -std=c11 $file -o a.out"),
                None,
                Some("./a.out"),
                Some("rm -rf a.out"),
            ),
        ),
    );
    filetype.push(
        (
            String::from_str("cpp"),
            build_filetype(
                "c++17",
                "main.cpp",
                Some("g++ -std=c++17 $file"),
                None,
                Some("./a.out"),
                Some("rm -rf a.out"),
            ),
        ),
    );
    filetype.push(
        (
            String::from_str("java"),
            build_filetype("java", "Main.java", Some("javac $file"), None, Some("java Main"), None),
        ),
    );
    filetype.push(
        (
            String::from_str("js"),
            build_filetype("node", "main.js", None, Some("node $file"), None, None),
        ),
    );
    Config {
        general: General {
            selenium_browser: String::from_str("chrome"),
            default_filetype: String::from_str("py"),
            editor_command: String::from_str("code $file"),
        },
        workspace: Workspace {
            ongoing_dir: String::from_str("problems"),
            archive_dir: String::from_str("archives"),
            archive: true,
        },
        filetype,
    }
}

/// The template file a fresh solution starts from and the name it gets in
/// the problem directory: Java solutions are `Main.java` both ways; every
/// other extension starts from `default.<ext>` and is written to
/// `main.<ext>`.
pub fn source_file_names(extension: &str) -> (r: (String, String))
    ensures
        extension@ == "java"@ ==> r.0@ == "Main.java"@ && r.1@ == "Main.java"@,
        extension@ != "java"@ ==> r.0@ == "default."@ + extension@ && r.1@ == "main."@
            + extension@,
{
    if str_eq(extension, "java") {
        (String::from_str("Main.java"), String::from_str("Main.java"))
    } else {
        let mut t = String::from_str("default.");
        t.append(extension);
        let mut m = String::from_str("main.");
        m.append(extension);
        (t, m)
    }
}

} // verus!
