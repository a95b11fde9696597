//! The executor's command line: `-p <PATH>`, the configuration file.
use vstd::prelude::*;
use crate::cli::{
    clap_one_option, cli_error_view, lemma_cli_options_allowed, parse_one_option, CliError,
};

verus! {

/// The options the executor is started with.
pub struct AppCli {
    /// The configuration file.
    pub path: String,
}

/// What a parse produced: the path, or the refusal.
pub open spec fn cli_outcome(r: Result<AppCli, CliError>) -> Result<Seq<char>, (Seq<char>, i32)> {
    match r {
        Ok(c) => Ok(c.path@),
        Err(e) => Err(cli_error_view(e)),
    }
}

impl AppCli {
    /// The options from what `clap` made of the command line.
    pub fn from_parsed(parsed: Result<String, CliError>) -> (r: Result<AppCli, CliError>)
        ensures
            match parsed {
                Ok(p) => r matches Ok(c) && c.path == p,
                Err(e) => r == Err::<AppCli, CliError>(e),
            },
    {
        match parsed {
            Ok(path) => Ok(AppCli { path }),
            Err(e) => Err(e),
        }
    }

    /// Reads the options from `args` (the program name first).
    pub fn run(args: &Vec<String>) -> (r: Result<AppCli, CliError>)
        ensures
            cli_outcome(r) == clap_one_option("task_executor"@, args.deep_view(), "path"@, 'p', "PATH"@),
    {
        proof {
            lemma_cli_options_allowed();
        }
        AppCli::from_parsed(parse_one_option("task_executor", args, "path", 'p', "PATH"))
    }
}

} // verus!
