//! The command line of the program around the filter: which arguments it
//! takes, how it can fail, and what it says when it does.

use vstd::prelude::*;
use vstd::string::StringExecFns;

verus! {

/// Why a run ends without its output written.
#[derive(Debug, Clone, Copy, PartialEq, Eq, Structural)]
pub enum CliError {
    /// Fewer than two positional arguments were given.
    InsufficientArguments,
    /// The input path is missing or cannot be read.
    FileReadError,
    /// The output path cannot be written.
    FileWriteError,
}

/// The two files that a run works on.
#[derive(Debug, PartialEq, Eq)]
pub struct Paths {
    /// The file whose text is read.
    pub input: String,
    /// The file that receives the filtered text.
    pub output: String,
}

/// The number of positional arguments that a run needs.
pub const REQUIRED_ARGUMENTS: usize = 2;

/// The positional arguments of a command line: all that follows the
/// program's own name.
pub open spec fn positional(argv: Seq<String>) -> Seq<String> {
    if argv.len() == 0 {
        argv
    } else {
        argv.skip(1)
    }
}

impl CliError {
    /// The phrase by which this failure is told on standard error.
    pub open spec fn diagnostic(self) -> Seq<char> {
        match self {
            CliError::InsufficientArguments => "Not enough arguments"@,
            CliError::FileReadError => "Could not read the file"@,
            CliError::FileWriteError => "Unable to write file"@,
        }
    }

    /// Returns the diagnostic of this failure.
    pub fn message(&self) -> (m: String)
        ensures
            m@ == self.diagnostic(),
    {
        match self {
            CliError::InsufficientArguments => String::from_str("Not enough arguments"),
            CliError::FileReadError => String::from_str("Could not read the file"),
            CliError::FileWriteError => String::from_str("Unable to write file"),
        }
    }
}

/// Picks the input and the output path from a command line, `argv[0]`
/// being the program's name.
///
/// The first positional argument is the input path and the second the
/// output path; any further ones are ignored. With fewer than two the run
/// is refused as [`CliError::InsufficientArguments`].
pub fn select_paths(argv: &Vec<String>) -> (r: Result<Paths, CliError>)
    ensures
        match r {
            Ok(paths) => {
                &&& positional(argv@).len() >= REQUIRED_ARGUMENTS
                &&& paths.input == positional(argv@)[0]
                &&& paths.output == positional(argv@)[1]
            },
            Err(e) => {
                &&& positional(argv@).len() < REQUIRED_ARGUMENTS
                &&& e == CliError::InsufficientArguments
            },
        },
{
    if argv.len() < REQUIRED_ARGUMENTS + 1 {
        Err(CliError::InsufficientArguments)
    } else {
        Ok(Paths { input: argv[1].clone(), output: argv[2].clone() })
    }
}

} // verus!
