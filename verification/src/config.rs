use vstd::prelude::*;

use crate::errors::AddError;
use crate::text::str_eq;

verus! {

/// Informational preferences of a workspace; the judge engine itself only
/// reads the default extension.
#[derive(Debug)]
pub struct General {
    pub selenium_browser: String,
    pub default_filetype: String,
    pub editor_command: String,
}

/// Directory-naming preferences of a workspace; not consumed by the judge
/// engine.
#[derive(Debug)]
pub struct Workspace {
    pub ongoing_dir: String,
    pub archive_dir: String,
    pub archive: bool,
}

/// A toolchain descriptor: how to build, run and clean a solution in one
/// language. Command templates are ready-to-execute strings; the entry file
/// was substituted into them when the configuration was built.
#[derive(Debug)]
pub struct FileType {
    /// Display name of the language; informational only.
    pub language: String,
    /// The entry file whose presence in a problem directory claims the
    /// directory for this toolchain.
    pub main: String,
    /// Command run once before execution; absent for interpreted languages.
    pub compile: Option<String>,
    /// Command that produces the solution's output.
    pub run: String,
    /// Best-effort cleanup command run after execution.
    pub after: Option<String>,
}

impl FileType {
    /// A descriptor is well formed when it names an entry file and a run
    /// command.
    pub open spec fn well_formed(&self) -> bool {
        self.main@.len() > 0 && self.run@.len() > 0
    }
}

/// A workspace configuration: the toolchain descriptors keyed by file
/// extension, in their declared order, plus the informational sections.
/// Descriptors are held as an explicitly ordered sequence so that toolchain
/// resolution is reproducible.
#[derive(Debug)]
pub struct Config {
    pub general: General,
    pub workspace: Workspace,
    pub filetype: Vec<(String, FileType)>,
}

impl Config {
    /// Exactly one descriptor per extension key, and every descriptor well
    /// formed.
    pub open spec fn well_formed(&self) -> bool {
        &&& forall|i: int, j: int|
            0 <= i < j < self.filetype@.len() ==> self.filetype@[i].0@ != self.filetype@[j].0@
        &&& forall|i: int| 0 <= i < self.filetype@.len() ==> self.filetype@[i].1.well_formed()
    }

    /// The configured default file extension.
    pub fn default_extension(&self) -> (r: &str)
        ensures
            r@ == self.general.default_filetype@,
    {
        self.general.default_filetype.as_str()
    }

    /// Checks the shape the configuration must have: unique extension keys
    /// and, in every descriptor, a non-empty entry file and a non-empty run
    /// command.
    pub fn validate(&self) -> (r: bool)
        ensures
            r == self.well_formed(),
    {
        let n = self.filetype.len();
        let mut i: usize = 0;
        while i < n
            invariant
                i <= n,
                n == self.filetype@.len(),
                forall|p: int, q: int|
                    0 <= p < q < i ==> self.filetype@[p].0@ != self.filetype@[q].0@,
                forall|p: int| 0 <= p < i ==> self.filetype@[p].1.well_formed(),
            decreases n - i,
        {
            let entry = &self.filetype[i];
            if entry.1.main.as_str().unicode_len() == 0 || entry.1.run.as_str().unicode_len()
                == 0 {
                return false;
            }
            let mut j: usize = 0;
            while j < i
                invariant
                    j <= i < n,
                    n == self.filetype@.len(),
                    forall|p: int| 0 <= p < j ==> self.filetype@[p].0@ != self.filetype@[i as int].0@,
                decreases i - j,
            {
                if str_eq(self.filetype[j].0.as_str(), self.filetype[i].0.as_str()) {
                    return false;
                }
                j += 1;
            }
            i += 1;
        }
        true
    }
    /// Assembles a configuration from its parts, as loading one does:
    /// a configuration whose shape is invalid — an empty entry file or run
    /// command, or a repeated extension key — is rejected, never partially
    /// kept.
    pub fn assemble(general: General, workspace: Workspace, filetype: Vec<(String, FileType)>) -> (r:
        Result<Config, AddError>)
        ensures
            ({
                let assembled = (Config { general, workspace, filetype });
                match r {
                    Ok(c) => c == assembled && c.well_formed(),
                    Err(e) => e is ConfigError && !assembled.well_formed(),
                }
            }),
    {
        let config = Config { general, workspace, filetype };
        if config.validate() {
            Ok(config)
        } else {
            Err(
                AddError::ConfigError(
                    String::from_str(
                        "each filetype section must declare a non-empty `main` and `run`, and each extension at most once",
                    ),
                ),
            )
        }
    }
}

/// The extension the freshly added problem uses: the one the caller asked
/// for, unless it passed the sentinel value "nil", in which case the
/// configured default applies.
pub fn determine_extension(extension_arg: &str, config: &Config) -> (r: String)
    ensures
        extension_arg@ == "nil"@ ==> r@ == config.general.default_filetype@,
        extension_arg@ != "nil"@ ==> r@ == extension_arg@,
{
    if str_eq(extension_arg, "nil") {
        String::from_str(config.default_extension())
    } else {
        String::from_str(extension_arg)
    }
}

} // verus!
