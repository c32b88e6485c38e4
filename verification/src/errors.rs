use vstd::prelude::*;

verus! {

/// The errors the workspace commands report. I/O and fetch failures carry
/// the underlying cause as text.
#[derive(Debug)]
pub enum AddError {
    NotInitialized,
    DirectoryAlreadyExists,
    IoError(String),
    FetchError(String),
    ConfigError(String),
}

impl AddError {
    /// The diagnostic line for this error, as the tool prints it.
    pub fn message(&self) -> (r: String)
        ensures
            self is NotInitialized ==> r@
                == "Please run `boj init` to initialize the current directory."@,
            self is DirectoryAlreadyExists ==> r@
                == "Problem directory already exists. Use --force to overwrite."@,
            self matches AddError::IoError(m) ==> r@ == m@,
            self matches AddError::FetchError(m) ==> r@ == "Fetch error: "@ + m@,
            self matches AddError::ConfigError(m) ==> r@ == "Config error: "@ + m@,
    {
        match self {
            AddError::NotInitialized => String::from_str(
                "Please run `boj init` to initialize the current directory.",
            ),
            AddError::DirectoryAlreadyExists => String::from_str(
                "Problem directory already exists. Use --force to overwrite.",
            ),
            AddError::IoError(m) => m.clone(),
            AddError::FetchError(m) => {
                let mut r = String::from_str("Fetch error: ");
                r.append(m.as_str());
                r
            },
            AddError::ConfigError(m) => {
                let mut r = String::from_str("Config error: ");
                r.append(m.as_str());
                r
            },
        }
    }
}

} // verus!
