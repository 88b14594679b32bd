//! The command line of the bridge.

use vstd::prelude::*;
use crate::text::{chars_of, concat, str_eq};

verus! {

/// What the command line asks for.
#[derive(Debug)]
pub struct CliArgs {
    pub manifest_path: Option<String>,
    pub check_config: bool,
    pub list_topics: bool,
}

/// `CliArgs` with the path taken by its characters.
pub struct CliArgsView {
    pub manifest_path: Option<Seq<char>>,
    pub check_config: bool,
    pub list_topics: bool,
}

impl View for CliArgs {
    type V = CliArgsView;

    open spec fn view(&self) -> CliArgsView {
        CliArgsView {
            manifest_path: match self.manifest_path {
                Some(p) => Some(p@),
                None => None,
            },
            check_config: self.check_config,
            list_topics: self.list_topics,
        }
    }
}

/// The outcome of a command line that parses: run with the arguments, or
/// print the help or the version first (the arguments then hold what was
/// read before that option).
#[derive(Debug)]
pub enum CliCommand {
    Run(CliArgs),
    Help(CliArgs),
    Version(CliArgs),
}

/// Why a command line is refused.
#[derive(Debug)]
pub enum CliError {
    /// `-c`/`--config` came last.
    MissingValue { option: String },
    /// The value after `-c`/`--config` starts with `-`.
    InvalidValue { option: String, value: String },
    /// `-c`/`--config` after a manifest path was already given.
    PathAlreadySet,
    UnknownOption { option: String },
    /// A second positional manifest path.
    MultiplePaths,
}

/// The text of a refusal.
pub open spec fn cli_error_text(e: CliError) -> Seq<char> {
    match e {
        CliError::MissingValue { option } => "missing value for "@ + option@
            + "; expected a manifest yaml path"@,
        CliError::InvalidValue { option, value } => "invalid value for "@ + option@ + ": "@ + value@
            + "\nexpected a manifest yaml path"@,
        CliError::PathAlreadySet =>
            "manifest path already set; pass only one of positional path or -c/--config"@,
        CliError::UnknownOption { option } => "unknown option: "@ + option@
            + "\nuse --help to see supported options"@,
        CliError::MultiplePaths => "multiple manifest paths provided; only one is allowed"@,
    }
}

impl CliError {
    /// The text of the refusal (see `cli_error_text`).
    pub fn message(&self) -> (res: String)
        ensures
            res@ == cli_error_text(*self),
    {
        match self {
            CliError::MissingValue { option } => {
                let a = concat("missing value for ", option.as_str());
                concat(a.as_str(), "; expected a manifest yaml path")
            },
            CliError::InvalidValue { option, value } => {
                let a = concat("invalid value for ", option.as_str());
                let b = concat(a.as_str(), ": ");
                let c = concat(b.as_str(), value.as_str());
                concat(c.as_str(), "\nexpected a manifest yaml path")
            },
            CliError::PathAlreadySet => {
                "manifest path already set; pass only one of positional path or -c/--config".to_owned()
            },
            CliError::UnknownOption { option } => {
                let a = concat("unknown option: ", option.as_str());
                concat(a.as_str(), "\nuse --help to see supported options")
            },
            CliError::MultiplePaths => {
                "multiple manifest paths provided; only one is allowed".to_owned()
            },
        }
    }
}

/// The outcome of parsing, with strings taken by their characters.
pub enum CliOutcome {
    Run(CliArgsView),
    Help(CliArgsView),
    Version(CliArgsView),
    MissingValue(Seq<char>),
    InvalidValue(Seq<char>, Seq<char>),
    PathAlreadySet,
    UnknownOption(Seq<char>),
    MultiplePaths,
}

/// The outcome that a result stands for.
pub open spec fn outcome_of(res: Result<CliCommand, CliError>) -> CliOutcome {
    match res {
        Ok(CliCommand::Run(a)) => CliOutcome::Run(a@),
        Ok(CliCommand::Help(a)) => CliOutcome::Help(a@),
        Ok(CliCommand::Version(a)) => CliOutcome::Version(a@),
        Err(CliError::MissingValue { option }) => CliOutcome::MissingValue(option@),
        Err(CliError::InvalidValue { option, value }) => CliOutcome::InvalidValue(option@, value@),
        Err(CliError::PathAlreadySet) => CliOutcome::PathAlreadySet,
        Err(CliError::UnknownOption { option }) => CliOutcome::UnknownOption(option@),
        Err(CliError::MultiplePaths) => CliOutcome::MultiplePaths,
    }
}

/// Whether an argument starts with `-`.
pub open spec fn starts_with_dash(s: Seq<char>) -> bool {
    s.len() > 0 && s[0] == '-'
}

/// The manifest read when the command line names none.
pub open spec fn default_manifest_path() -> Seq<char> {
    "motorbridge_manifest.yaml"@
}

pub open spec fn with_path(st: CliArgsView, p: Seq<char>) -> CliArgsView {
    CliArgsView { manifest_path: Some(p), check_config: st.check_config, list_topics: st.list_topics }
}

/// Parsing of the arguments from index `i` on, with `st` read so far.
pub open spec fn parse_from(args: Seq<Seq<char>>, i: int, st: CliArgsView) -> CliOutcome
    decreases args.len() - i,
{
    if i < 0 || i >= args.len() {
        CliOutcome::Run(
            with_path(
                st,
                match st.manifest_path {
                    Some(p) => p,
                    None => default_manifest_path(),
                },
            ),
        )
    } else {
        let a = args[i];
        if a == "-h"@ || a == "--help"@ {
            CliOutcome::Help(st)
        } else if a == "-V"@ || a == "--version"@ {
            CliOutcome::Version(st)
        } else if a == "--check-config"@ {
            parse_from(
                args,
                i + 1,
                CliArgsView {
                    manifest_path: st.manifest_path,
                    check_config: true,
                    list_topics: st.list_topics,
                },
            )
        } else if a == "--list-topics"@ {
            parse_from(
                args,
                i + 1,
                CliArgsView {
                    manifest_path: st.manifest_path,
                    check_config: st.check_config,
                    list_topics: true,
                },
            )
        } else if a == "-c"@ || a == "--config"@ {
            if i + 1 >= args.len() {
                CliOutcome::MissingValue(a)
            } else if starts_with_dash(args[i + 1]) {
                CliOutcome::InvalidValue(a, args[i + 1])
            } else if st.manifest_path is Some {
                CliOutcome::PathAlreadySet
            } else {
                parse_from(args, i + 2, with_path(st, args[i + 1]))
            }
        } else if starts_with_dash(a) {
            CliOutcome::UnknownOption(a)
        } else if st.manifest_path is Some {
            CliOutcome::MultiplePaths
        } else {
            parse_from(args, i + 1, with_path(st, a))
        }
    }
}

/// The strings of the arguments.
pub open spec fn args_view(args: Seq<String>) -> Seq<Seq<char>> {
    args.map_values(|s: String| s@)
}

/// Parsing of a whole command line; the first argument is the program name.
pub open spec fn parse_args_spec(args: Seq<String>) -> CliOutcome {
    parse_from(
        args_view(args),
        1,
        CliArgsView { manifest_path: None, check_config: false, list_topics: false },
    )
}

fn starts_with_dash_exec(s: &str) -> (res: bool)
    ensures
        res == starts_with_dash(s@),
{
    let v = chars_of(s);
    v.len() > 0 && v[0] == '-'
}

/// Reads the command line (`args[0]` is the program name): `-h`/`--help` and
/// `-V`/`--version` stop parsing; `--check-config` and `--list-topics` set
/// their flags; `-c`/`--config` takes the next argument as the manifest path;
/// any other argument starting with `-` is refused; any other argument is the
/// manifest path. At most one manifest path may be given;
/// `motorbridge_manifest.yaml` is used when none is.
pub fn parse_cli_args(args: &Vec<String>) -> (res: Result<CliCommand, CliError>)
    ensures
        outcome_of(res) == parse_args_spec(args@),
{
    let ghost argv = args_view(args@);
    let mut cli = CliArgs { manifest_path: None, check_config: false, list_topics: false };
    let mut i: usize = 1;
    while i < args.len()
        invariant
            1 <= i,
            argv == args_view(args@),
            parse_args_spec(args@) == parse_from(argv, i as int, cli@),
        decreases args@.len() - i,
    {
        let a = args[i].as_str();
        assert(argv[i as int] == a@);
        if str_eq(a, "-h") || str_eq(a, "--help") {
            return Ok(CliCommand::Help(cli));
        } else if str_eq(a, "-V") || str_eq(a, "--version") {
            return Ok(CliCommand::Version(cli));
        } else if str_eq(a, "--check-config") {
            cli.check_config = true;
        } else if str_eq(a, "--list-topics") {
            cli.list_topics = true;
        } else if str_eq(a, "-c") || str_eq(a, "--config") {
            if i + 1 >= args.len() {
                return Err(CliError::MissingValue { option: args[i].clone() });
            }
            let next = args[i + 1].as_str();
            assert(argv[i + 1] == next@);
            if starts_with_dash_exec(next) {
                return Err(
                    CliError::InvalidValue { option: args[i].clone(), value: args[i + 1].clone() },
                );
            }
            if cli.manifest_path.is_some() {
                return Err(CliError::PathAlreadySet);
            }
            cli.manifest_path = Some(args[i + 1].clone());
            i = i + 1;
        } else if starts_with_dash_exec(a) {
            return Err(CliError::UnknownOption { option: args[i].clone() });
        } else {
            if cli.manifest_path.is_some() {
                return Err(CliError::MultiplePaths);
            }
            cli.manifest_path = Some(args[i].clone());
        }
        i = i + 1;
    }
    let path = match cli.manifest_path {
        Some(p) => p,
        None => "motorbridge_manifest.yaml".to_owned(),
    };
    Ok(
        CliCommand::Run(
            CliArgs {
                manifest_path: Some(path),
                check_config: cli.check_config,
                list_topics: cli.list_topics,
            },
        ),
    )
}


proof fn lemma_run_has_path(args: Seq<Seq<char>>, i: int, st: CliArgsView)
    ensures
        parse_from(args, i, st) matches CliOutcome::Run(a) ==> a.manifest_path is Some,
    decreases args.len() - i,
{
    if 0 <= i < args.len() {
        lemma_run_has_path(args, i + 1, with_path(st, args[i]));
        lemma_run_has_path(
            args,
            i + 1,
            CliArgsView { manifest_path: st.manifest_path, check_config: true, list_topics: st.list_topics },
        );
        lemma_run_has_path(
            args,
            i + 1,
            CliArgsView { manifest_path: st.manifest_path, check_config: st.check_config, list_topics: true },
        );
        if i + 1 < args.len() {
            lemma_run_has_path(args, i + 2, with_path(st, args[i + 1]));
        }
    }
}

/// A command line that asks to run always names a manifest.
pub proof fn run_always_names_manifest(args: Seq<String>)
    ensures
        parse_args_spec(args) matches CliOutcome::Run(a) ==> a.manifest_path is Some,
{
    lemma_run_has_path(
        args_view(args),
        1,
        CliArgsView { manifest_path: None, check_config: false, list_topics: false },
    );
}

/// Whether `flag` is one of the arguments from index `i` on.
pub open spec fn occurs_from(args: Seq<Seq<char>>, i: int, flag: Seq<char>) -> bool {
    exists|j: int| i <= j < args.len() && #[trigger] args[j] == flag
}

proof fn lemma_occurs_step(args: Seq<Seq<char>>, i: int, flag: Seq<char>)
    requires
        0 <= i < args.len(),
    ensures
        occurs_from(args, i, flag) == (args[i] == flag || occurs_from(args, i + 1, flag)),
{
    if occurs_from(args, i, flag) {
        let j = choose|j: int| i <= j < args.len() && #[trigger] args[j] == flag;
        if j != i {
            assert(i + 1 <= j < args.len() && args[j] == flag);
        }
    }
    if occurs_from(args, i + 1, flag) {
        let j = choose|j: int| i + 1 <= j < args.len() && #[trigger] args[j] == flag;
        assert(i <= j < args.len() && args[j] == flag);
    }
    if args[i] == flag {
        assert(i <= i < args.len() && args[i] == flag);
    }
}

proof fn lemma_flags_read(args: Seq<Seq<char>>, i: int, st: CliArgsView)
    requires
        0 <= i,
    ensures
        parse_from(args, i, st) matches CliOutcome::Run(a) ==> {
            &&& a.check_config == (st.check_config || occurs_from(args, i, "--check-config"@))
            &&& a.list_topics == (st.list_topics || occurs_from(args, i, "--list-topics"@))
        },
    decreases args.len() - i,
{
    let cc = "--check-config"@;
    let lt = "--list-topics"@;
    reveal_strlit("--check-config");
    reveal_strlit("--list-topics");
    reveal_strlit("-c");
    reveal_strlit("--config");
    assert(cc.len() == 14 && cc[0] == '-');
    assert(lt.len() == 13 && lt[0] == '-');
    assert("-c"@.len() == 2);
    assert("--config"@.len() == 8);
    if i >= args.len() {
        assert(!occurs_from(args, i, cc));
        assert(!occurs_from(args, i, lt));
    } else {
        let a = args[i];
        lemma_occurs_step(args, i, cc);
        lemma_occurs_step(args, i, lt);
        if a == "-h"@ || a == "--help"@ {
        } else if a == "-V"@ || a == "--version"@ {
        } else if a == cc {
            lemma_flags_read(
                args,
                i + 1,
                CliArgsView { manifest_path: st.manifest_path, check_config: true, list_topics: st.list_topics },
            );
        } else if a == lt {
            lemma_flags_read(
                args,
                i + 1,
                CliArgsView { manifest_path: st.manifest_path, check_config: st.check_config, list_topics: true },
            );
        } else if a == "-c"@ || a == "--config"@ {
            if i + 1 < args.len() && !starts_with_dash(args[i + 1]) && st.manifest_path is None {
                lemma_occurs_step(args, i + 1, cc);
                lemma_occurs_step(args, i + 1, lt);
                lemma_flags_read(args, i + 2, with_path(st, args[i + 1]));
            }
        } else if starts_with_dash(a) {
        } else if st.manifest_path is Some {
        } else {
            lemma_flags_read(args, i + 1, with_path(st, a));
        }
    }
}

/// `--check-config` and `--list-topics` each set their own flag and no
/// other: a command line that runs asks to check the manifest exactly when
/// `--check-config` is among its arguments, and to list the topics exactly
/// when `--list-topics` is (the program name aside). Neither flag can be
/// taken as a manifest path, since a path may not start with `-`.
pub proof fn flags_come_from_their_own_options(args: Seq<String>)
    ensures
        parse_args_spec(args) matches CliOutcome::Run(a) ==> {
            &&& a.check_config == occurs_from(args_view(args), 1, "--check-config"@)
            &&& a.list_topics == occurs_from(args_view(args), 1, "--list-topics"@)
        },
{
    lemma_flags_read(
        args_view(args),
        1,
        CliArgsView { manifest_path: None, check_config: false, list_topics: false },
    );
}

/// Whether every argument from index `i` on starts with `-`.
pub open spec fn all_dash_from(args: Seq<Seq<char>>, i: int) -> bool {
    forall|j: int| i <= j < args.len() ==> starts_with_dash(#[trigger] args[j])
}

/// Whether, from index `i` on, argument `j` is the only one that does not
/// start with `-`.
pub open spec fn only_path_at(args: Seq<Seq<char>>, i: int, j: int) -> bool {
    &&& i <= j < args.len()
    &&& !starts_with_dash(args[j])
    &&& forall|k: int| i <= k < args.len() && k != j ==> starts_with_dash(#[trigger] args[k])
}

proof fn lemma_path_read(args: Seq<Seq<char>>, i: int, st: CliArgsView)
    requires
        0 <= i,
    ensures
        parse_from(args, i, st) matches CliOutcome::Run(a) ==> match st.manifest_path {
            Some(p) => a.manifest_path == Some(p) && all_dash_from(args, i),
            None => (all_dash_from(args, i) && a.manifest_path == Some(default_manifest_path())) || (
            exists|j: int| only_path_at(args, i, j) && a.manifest_path == Some(args[j])),
        },
    decreases args.len() - i,
{
    reveal_strlit("--check-config");
    reveal_strlit("--list-topics");
    reveal_strlit("-c");
    reveal_strlit("--config");
    assert("--check-config"@[0] == '-');
    assert("--list-topics"@[0] == '-');
    assert("-c"@[0] == '-');
    assert("--config"@[0] == '-');
    if i < args.len() {
        let a = args[i];
        if a == "-h"@ || a == "--help"@ {
        } else if a == "-V"@ || a == "--version"@ {
        } else if a == "--check-config"@ || a == "--list-topics"@ {
            let next = if a == "--check-config"@ {
                CliArgsView { manifest_path: st.manifest_path, check_config: true, list_topics: st.list_topics }
            } else {
                CliArgsView { manifest_path: st.manifest_path, check_config: st.check_config, list_topics: true }
            };
            assert(parse_from(args, i, st) == parse_from(args, i + 1, next));
            lemma_path_read(args, i + 1, next);
            assert(starts_with_dash(args[i]));
            if parse_from(args, i + 1, next) is Run && st.manifest_path is None && !all_dash_from(args, i + 1) {
                let a2 = parse_from(args, i + 1, next)->Run_0;
                let j = choose|j: int| only_path_at(args, i + 1, j) && a2.manifest_path == Some(args[j]);
                assert(only_path_at(args, i, j));
            }
        } else if a == "-c"@ || a == "--config"@ {
            if i + 1 < args.len() && !starts_with_dash(args[i + 1]) && st.manifest_path is None {
                lemma_path_read(args, i + 2, with_path(st, args[i + 1]));
                assert(starts_with_dash(args[i]));
                if parse_from(args, i + 2, with_path(st, args[i + 1])) is Run {
                    assert(only_path_at(args, i, i + 1));
                }
            }
        } else if starts_with_dash(a) {
        } else if st.manifest_path is Some {
        } else {
            lemma_path_read(args, i + 1, with_path(st, a));
            if parse_from(args, i + 1, with_path(st, a)) is Run {
                assert(only_path_at(args, i, i));
            }
        }
    }
}

/// A command line that runs names at most one manifest: the manifest is the
/// one argument (the program name aside) that does not start with `-`,
/// whether it follows `-c`/`--config` or stands on its own; where every
/// argument starts with `-`, it is `motorbridge_manifest.yaml`.
pub proof fn run_reads_the_one_manifest_path(args: Seq<String>)
    ensures
        parse_args_spec(args) matches CliOutcome::Run(a) ==> {
            ||| all_dash_from(args_view(args), 1) && a.manifest_path == Some(
                "motorbridge_manifest.yaml"@,
            )
            ||| exists|j: int|
                only_path_at(args_view(args), 1, j) && a.manifest_path == Some(args_view(args)[j])
        },
{
    lemma_path_read(
        args_view(args),
        1,
        CliArgsView { manifest_path: None, check_config: false, list_topics: false },
    );
}

/// Whether an argument may stand in a command line that runs: one of the
/// flags, `-c`/`--config`, or a value that does not start with `-`.
pub open spec fn runs_with(a: Seq<char>) -> bool {
    a == "--check-config"@ || a == "--list-topics"@ || a == "-c"@ || a == "--config"@
        || !starts_with_dash(a)
}

proof fn lemma_run_args(args: Seq<Seq<char>>, i: int, st: CliArgsView)
    requires
        0 <= i,
    ensures
        parse_from(args, i, st) is Run ==> forall|j: int| i <= j < args.len() ==> runs_with(#[trigger] args[j]),
    decreases args.len() - i,
{
    reveal_strlit("-h");
    reveal_strlit("--help");
    reveal_strlit("-V");
    reveal_strlit("--version");
    if i < args.len() {
        let a = args[i];
        let cc = CliArgsView { manifest_path: st.manifest_path, check_config: true, list_topics: st.list_topics };
        let lt = CliArgsView { manifest_path: st.manifest_path, check_config: st.check_config, list_topics: true };
        if a == "-h"@ || a == "--help"@ {
        } else if a == "-V"@ || a == "--version"@ {
        } else if a == "--check-config"@ {
            lemma_run_args(args, i + 1, cc);
        } else if a == "--list-topics"@ {
            lemma_run_args(args, i + 1, lt);
        } else if a == "-c"@ || a == "--config"@ {
            if i + 1 < args.len() && !starts_with_dash(args[i + 1]) && st.manifest_path is None {
                lemma_run_args(args, i + 2, with_path(st, args[i + 1]));
                assert(runs_with(args[i + 1]));
            }
        } else if starts_with_dash(a) {
        } else if st.manifest_path is Some {
        } else {
            lemma_run_args(args, i + 1, with_path(st, a));
        }
    }
}

/// A command line runs only when each argument (the program name aside) is
/// `--check-config`, `--list-topics`, `-c`/`--config`, or does not start
/// with `-`: help and version requests, and unknown options, never run.
pub proof fn only_known_arguments_run(args: Seq<String>)
    ensures
        parse_args_spec(args) is Run ==> forall|j: int|
            1 <= j < args.len() ==> runs_with(#[trigger] args_view(args)[j]),
        parse_args_spec(args) is Run ==> forall|j: int|
            1 <= j < args.len() ==> args_view(args)[j] != "-h"@ && args_view(args)[j] != "--help"@
                && args_view(args)[j] != "-V"@ && args_view(args)[j] != "--version"@,
{
    reveal_strlit("-h");
    reveal_strlit("--help");
    reveal_strlit("-V");
    reveal_strlit("--version");
    reveal_strlit("--check-config");
    reveal_strlit("--list-topics");
    reveal_strlit("-c");
    reveal_strlit("--config");
    assert("-h"@.len() == 2 && "-h"@[0] == '-' && "-h"@[1] == 'h');
    assert("-V"@.len() == 2 && "-V"@[0] == '-' && "-V"@[1] == 'V');
    assert("-c"@.len() == 2 && "-c"@[1] == 'c');
    assert("--help"@.len() == 6 && "--help"@[0] == '-');
    assert("--version"@.len() == 9 && "--version"@[0] == '-');
    assert("--check-config"@.len() == 14);
    assert("--list-topics"@.len() == 13);
    assert("--config"@.len() == 8);
    let argv = args_view(args);
    lemma_run_args(argv, 1, CliArgsView { manifest_path: None, check_config: false, list_topics: false });
    assert(argv.len() == args.len());
}

} // verus!
