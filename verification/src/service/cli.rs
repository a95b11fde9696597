//! The task_service command line: `-p <PATH>`, the configuration file, and
//! `-a <ADDRESS>`, the address to listen on.
use vstd::prelude::*;
use crate::cli::{
    clap_two_options, cli_error_view, lemma_cli_options_allowed, parse_two_options, CliError,
};

verus! {

/// The options the server is started with.
pub struct AppCli {
    /// The configuration file.
    pub path: String,
    /// The address to listen on.
    pub address: String,
}

/// What a parse produced: the path and the address, or the refusal.
pub open spec fn cli_outcome(r: Result<AppCli, CliError>) -> Result<(Seq<char>, Seq<char>), (Seq<char>, i32)> {
    match r {
        Ok(c) => Ok((c.path@, c.address@)),
        Err(e) => Err(cli_error_view(e)),
    }
}

impl AppCli {
    /// The options from what `clap` made of the command line.
    pub fn from_parsed(parsed: Result<(String, String), CliError>) -> (r: Result<AppCli, CliError>)
        ensures
            match parsed {
                Ok(p) => r matches Ok(c) && c.path == p.0 && c.address == p.1,
                Err(e) => r == Err::<AppCli, CliError>(e),
            },
    {
        match parsed {
            Ok((path, address)) => Ok(AppCli { path, address }),
            Err(e) => Err(e),
        }
    }

    /// Reads the options from `args` (the program name first).
    pub fn run(args: &Vec<String>) -> (r: Result<AppCli, CliError>)
        ensures
            cli_outcome(r) == clap_two_options(
                "task_service"@,
                args.deep_view(),
                "path"@,
                'p',
                "PATH"@,
                "address"@,
                'a',
                "ADDRESS"@,
            ),
    {
        proof {
            lemma_cli_options_allowed();
        }
        AppCli::from_parsed(
            parse_two_options("task_service", args, "path", 'p', "PATH", "address", 'a', "ADDRESS"),
        )
    }
}

} // verus!
