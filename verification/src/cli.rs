//! Command-line parsing shared by the three programs: each takes its options
//! from `clap`, which also renders the error (or help) text and exit code.
use vstd::prelude::*;
use clap::builder::PathBufValueParser;
use clap::{Arg, Command};
use std::path::PathBuf;

verus! {

/// Why the command line was not accepted (or help was asked for): the text
/// `clap` renders and the exit code it asks for (`0` for help, `2` for an
/// error).
pub struct CliError {
    pub message: String,
    pub exit_code: i32,
}

/// The view of a refusal.
pub open spec fn cli_error_view(e: CliError) -> (Seq<char>, i32) {
    (e.message@, e.exit_code)
}

/// What `clap` makes of `args` (program name first) for a command `name`
/// with one required option `-<short> <value_name>`, stored under `id` and
/// read as a path: the option's value, or the refusal.
pub uninterp spec fn clap_one_option(
    name: Seq<char>,
    args: Seq<Seq<char>>,
    id: Seq<char>,
    short: char,
    value_name: Seq<char>,
) -> Result<Seq<char>, (Seq<char>, i32)>;

/// As `clap_one_option`, with a second required option read as plain text.
pub uninterp spec fn clap_two_options(
    name: Seq<char>,
    args: Seq<Seq<char>>,
    id: Seq<char>,
    short: char,
    value_name: Seq<char>,
    id2: Seq<char>,
    short2: char,
    value_name2: Seq<char>,
) -> Result<(Seq<char>, Seq<char>), (Seq<char>, i32)>;

/// An option that `clap` accepts beside its own `-h`/`--help` and
/// `-V`/`--version`: its short name is neither of theirs nor `-`, and its id
/// is neither `help` nor `version` (clap's consistency checks panic
/// otherwise).
pub open spec fn option_allowed(id: Seq<char>, short: char) -> bool {
    &&& short != 'h'
    &&& short != 'V'
    &&& short != '-'
    &&& id != "help"@
    &&& id != "version"@
}

/// The programs' options, `-p` (`path`) and `-a` (`address`), are ones clap
/// accepts, and differ from each other.
pub proof fn lemma_cli_options_allowed()
    ensures
        option_allowed("path"@, 'p'),
        option_allowed("address"@, 'a'),
        "path"@ != "address"@,
{
    reveal_strlit("path");
    reveal_strlit("address");
    reveal_strlit("help");
    reveal_strlit("version");
    assert("path"@[0] != "help"@[0]);
    assert("path"@.len() != "version"@.len());
    assert("address"@.len() != "help"@.len());
    assert("address"@[0] != "version"@[0]);
    assert("path"@.len() != "address"@.len());
}

/// `clap::Command::try_get_matches_from` for a command named `name` whose
/// one required argument is `-<short> <value_name>`, parsed as a
/// `PathBuf`; the contract names the outcome and claims nothing else of it.
/// It leaves out the options that clap's own consistency checks refuse.
#[verifier::external_body]
pub(crate) fn parse_one_option(
    name: &'static str,
    args: &Vec<String>,
    id: &'static str,
    short: char,
    value_name: &'static str,
) -> (r: Result<String, CliError>)
    requires
        option_allowed(id@, short),
    ensures
        match r {
            Ok(v) => clap_one_option(name@, args.deep_view(), id@, short, value_name@) == Ok::<
                Seq<char>,
                (Seq<char>, i32),
            >(v@),
            Err(e) => clap_one_option(name@, args.deep_view(), id@, short, value_name@) == Err::<
                Seq<char>,
                (Seq<char>, i32),
            >(cli_error_view(e)),
        },
{
    let a = Arg::new(id).short(short).value_name(value_name).required(true);
    let cmd = Command::new(name).arg(a.value_parser(PathBufValueParser::new()));
    match cmd.try_get_matches_from(args.iter()) {
        Ok(m) => Ok(m.get_one::<PathBuf>(id).unwrap().to_string_lossy().into_owned()),
        Err(e) => Err(CliError { message: e.to_string(), exit_code: e.exit_code() }),
    }
}

/// `clap::Command::try_get_matches_from` for a command named `name` with two
/// required arguments: `-<short> <value_name>`, parsed as a `PathBuf`, and
/// `-<short2> <value_name2>`, parsed as a `String`; the contract names the
/// outcome and claims nothing else of it. It leaves out the options that
/// clap's consistency checks refuse, and two options sharing an id (whose
/// second value would be read with the type of the first) or a short name.
#[verifier::external_body]
pub(crate) fn parse_two_options(
    name: &'static str,
    args: &Vec<String>,
    id: &'static str,
    short: char,
    value_name: &'static str,
    id2: &'static str,
    short2: char,
    value_name2: &'static str,
) -> (r: Result<(String, String), CliError>)
    requires
        option_allowed(id@, short),
        option_allowed(id2@, short2),
        id@ != id2@,
        short != short2,
    ensures
        match r {
            Ok(v) => clap_two_options(name@, args.deep_view(), id@, short, value_name@, id2@, short2, value_name2@)
                == Ok::<(Seq<char>, Seq<char>), (Seq<char>, i32)>((v.0@, v.1@)),
            Err(e) => clap_two_options(name@, args.deep_view(), id@, short, value_name@, id2@, short2, value_name2@)
                == Err::<(Seq<char>, Seq<char>), (Seq<char>, i32)>(cli_error_view(e)),
        },
{
    let a = Arg::new(id).short(short).value_name(value_name).required(true);
    let b = Arg::new(id2).short(short2).value_name(value_name2).required(true);
    let cmd = Command::new(name).arg(a.value_parser(PathBufValueParser::new())).arg(b);
    match cmd.try_get_matches_from(args.iter()) {
        Ok(m) => {
            let path = m.get_one::<PathBuf>(id).unwrap().to_string_lossy().into_owned();
            Ok((path, m.get_one::<String>(id2).unwrap().clone()))
        },
        Err(e) => Err(CliError { message: e.to_string(), exit_code: e.exit_code() }),
    }
}

} // verus!
