//! The command line: `--check <name>` or `-c <name>`, any number of times,
//! selects checks by name; `--all` or `-a` selects every check. One of the
//! two has to be there, and nothing else may be.

use crate::check::Check;
use crate::text::same_text;
use vstd::prelude::*;

verus! {

/// Which checks a run is for.
#[derive(Clone, Debug, PartialEq, Eq)]
pub enum RunMode {
    /// The checks with these names.
    Selected(Vec<String>),
    /// Every check of the configuration.
    All,
}

/// Why a command line is no good.
#[derive(Clone, Debug, PartialEq, Eq)]
pub enum UsageError {
    /// `--check` or `-c` stands last, with no name behind it.
    MissingCheckName,
    /// An argument that is none of the four flags and no check's name.
    UnknownArgument(String),
    /// Neither a check nor all of them were asked for.
    NothingSelected,
}

/// A run mode as a value.
pub enum RunModeView {
    Selected(Seq<Seq<char>>),
    All,
}

/// A usage error as a value.
pub enum UsageErrorView {
    MissingCheckName,
    UnknownArgument(Seq<char>),
    NothingSelected,
}

/// The characters of each text.
pub open spec fn texts(strings: Seq<String>) -> Seq<Seq<char>> {
    strings.map_values(|s: String| s@)
}

impl View for RunMode {
    type V = RunModeView;

    open spec fn view(&self) -> RunModeView {
        match self {
            RunMode::Selected(names) => RunModeView::Selected(texts(names@)),
            RunMode::All => RunModeView::All,
        }
    }
}

impl View for UsageError {
    type V = UsageErrorView;

    open spec fn view(&self) -> UsageErrorView {
        match self {
            UsageError::MissingCheckName => UsageErrorView::MissingCheckName,
            UsageError::UnknownArgument(argument) => UsageErrorView::UnknownArgument(argument@),
            UsageError::NothingSelected => UsageErrorView::NothingSelected,
        }
    }
}

/// `argument` asks for one check by name.
pub open spec fn is_check_flag(argument: Seq<char>) -> bool {
    argument == "-c"@ || argument == "--check"@
}

/// `argument` asks for all checks.
pub open spec fn is_all_flag(argument: Seq<char>) -> bool {
    argument == "-a"@ || argument == "--all"@
}

/// What the arguments from `at` on add to the `names` gathered so far and to
/// whether `all` were asked for; the first bad argument ends the reading.
pub open spec fn gathered(
    arguments: Seq<Seq<char>>,
    at: int,
    names: Seq<Seq<char>>,
    all: bool,
) -> Result<(Seq<Seq<char>>, bool), UsageErrorView>
    decreases arguments.len() - at,
{
    if at < 0 || at >= arguments.len() {
        Ok((names, all))
    } else if is_check_flag(arguments[at]) {
        if at + 1 >= arguments.len() {
            Err(UsageErrorView::MissingCheckName)
        } else {
            gathered(arguments, at + 2, names.push(arguments[at + 1]), all)
        }
    } else if is_all_flag(arguments[at]) {
        gathered(arguments, at + 1, names, true)
    } else {
        Err(UsageErrorView::UnknownArgument(arguments[at]))
    }
}

/// What the arguments, the program's own name not among them, ask for.
pub open spec fn asked_for(arguments: Seq<Seq<char>>) -> Result<RunModeView, UsageErrorView> {
    match gathered(arguments, 0, Seq::empty(), false) {
        Err(error) => Err(error),
        Ok((names, all)) => if all {
            Ok(RunModeView::All)
        } else if names.len() == 0 {
            Err(UsageErrorView::NothingSelected)
        } else {
            Ok(RunModeView::Selected(names))
        },
    }
}

/// What a result of [`parse_args`] stands for.
pub open spec fn parse_view(result: Result<RunMode, UsageError>) -> Result<
    RunModeView,
    UsageErrorView,
> {
    match result {
        Ok(mode) => Ok(mode@),
        Err(error) => Err(error@),
    }
}

/// `name` is one of `names`.
pub open spec fn is_named(names: Seq<Seq<char>>, name: Seq<char>) -> bool {
    exists|i: int| 0 <= i < names.len() && names[i] == name
}

/// The checks that `mode` selects, in the order of the configuration.
pub open spec fn selection(checks: Seq<Check>, mode: RunModeView) -> Seq<Check>
    decreases checks.len(),
{
    if checks.len() == 0 {
        Seq::empty()
    } else {
        let earlier = selection(checks.drop_last(), mode);
        match mode {
            RunModeView::All => earlier.push(checks.last()),
            RunModeView::Selected(names) => if is_named(names, checks.last().name@) {
                earlier.push(checks.last())
            } else {
                earlier
            },
        }
    }
}

/// What to tell the operator about a usage error.
pub open spec fn usage_text(error: UsageErrorView) -> Seq<char> {
    match error {
        UsageErrorView::MissingCheckName =>
            "--check: a check name value is required in order to be run"@,
        UsageErrorView::UnknownArgument(argument) => "Unknown argument '"@ + argument + "'"@,
        UsageErrorView::NothingSelected => "specifiying a check with --check or -c is required"@,
    }
}

impl UsageError {
    /// What to tell the operator.
    pub fn message(&self) -> (text: String)
        ensures
            text@ == usage_text(self@),
    {
        match self {
            UsageError::MissingCheckName =>
                "--check: a check name value is required in order to be run".to_owned(),
            UsageError::UnknownArgument(argument) => {
                let mut text = "Unknown argument '".to_owned();
                text.append(argument.as_str());
                text.append("'");
                text
            },
            UsageError::NothingSelected =>
                "specifiying a check with --check or -c is required".to_owned(),
        }
    }
}

/// Reads the command line. `args` are the arguments without the program's
/// own name.
pub fn parse_args(args: &Vec<String>) -> (result: Result<RunMode, UsageError>)
    ensures
        parse_view(result) == asked_for(texts(args@)),
{
    let mut names: Vec<String> = Vec::new();
    let mut all = false;
    let mut at: usize = 0;
    assert(texts(names@) =~= Seq::empty());
    while at < args.len()
        invariant
            at <= args.len(),
            gathered(texts(args@), 0, Seq::empty(), false) == gathered(
                texts(args@),
                at as int,
                texts(names@),
                all,
            ),
        decreases args.len() - at,
    {
        let argument = args[at].as_str();
        assert(texts(args@)[at as int] == argument@);
        if same_text(argument, "-c") || same_text(argument, "--check") {
            if at + 1 >= args.len() {
                return Err(UsageError::MissingCheckName);
            }
            let ghost before = texts(names@);
            names.push(args[at + 1].clone());
            assert(texts(names@) =~= before.push(texts(args@)[at + 1]));
            at += 2;
        } else if same_text(argument, "-a") || same_text(argument, "--all") {
            all = true;
            at += 1;
        } else {
            return Err(UsageError::UnknownArgument(args[at].clone()));
        }
    }
    if all {
        Ok(RunMode::All)
    } else if names.len() == 0 {
        Err(UsageError::NothingSelected)
    } else {
        Ok(RunMode::Selected(names))
    }
}

/// Whether `name` is one of `names`.
pub fn contains_name(names: &Vec<String>, name: &str) -> (found: bool)
    ensures
        found == is_named(texts(names@), name@),
{
    let mut at: usize = 0;
    while at < names.len()
        invariant
            at <= names.len(),
            forall|i: int| 0 <= i < at ==> texts(names@)[i] != name@,
        decreases names.len() - at,
    {
        if same_text(names[at].as_str(), name) {
            assert(texts(names@)[at as int] == name@);
            return true;
        }
        at += 1;
    }
    false
}

/// The checks that a run in `mode` is for, in the order of the configuration.
pub fn select_checks(checks: &Vec<Check>, mode: &RunMode) -> (selected: Vec<Check>)
    ensures
        selected@ == selection(checks@, mode@),
{
    let mut selected: Vec<Check> = Vec::new();
    let mut at: usize = 0;
    while at < checks.len()
        invariant
            at <= checks.len(),
            selected@ == selection(checks@.take(at as int), mode@),
        decreases checks.len() - at,
    {
        assert(checks@.take(at + 1).drop_last() =~= checks@.take(at as int));
        let wanted = match mode {
            RunMode::All => true,
            RunMode::Selected(names) => contains_name(names, checks[at].name.as_str()),
        };
        if wanted {
            selected.push(checks[at].clone());
        }
        at += 1;
    }
    assert(checks@.take(at as int) =~= checks@);
    selected
}

} // verus!
