//! The command line of the project's maintenance tasks: which task the
//! arguments ask for, or why they ask for none.

use vstd::prelude::*;
use vstd::string::*;

use crate::spatial::functions::text::text_eq;

verus! {

/// A maintenance task.
#[derive(PartialEq, Eq, Structural, Clone, Copy, Debug)]
pub enum Task {
    /// Check the generated surfaces, then run the formatting, lint and test
    /// steps (`full`: also the slow platform steps).
    Precommit {
        /// Whether `--full` was given.
        full: bool,
    },
    /// Install the git pre-commit hook.
    InstallHooks,
    /// Regenerate the function surfaces (`check`: only compare them).
    GenFunctionSurfaces {
        /// Whether `--check` was given.
        check: bool,
    },
    /// Show the usage text.
    Help,
}

/// Why the arguments name no task.
#[derive(Debug)]
pub struct TaskError {
    /// The error text.
    pub message: String,
    /// Whether the usage text is shown with it.
    pub show_usage: bool,
}

/// The first argument at or after `from` that is not `flag`.
pub open spec fn first_other(args: Seq<Seq<char>>, from: int, flag: Seq<char>) -> Option<int>
    decreases args.len() - from,
{
    if from < 0 || from >= args.len() {
        None
    } else if args[from] != flag {
        Some(from)
    } else {
        first_other(args, from + 1, flag)
    }
}

/// A task that takes one optional flag: set when any argument after the
/// command is given (they must all be the flag).
pub open spec fn flagged(args: Seq<Seq<char>>, flag: Seq<char>, what: Seq<char>) -> std::result::Result<
    bool,
    (Seq<char>, bool),
> {
    match first_other(args, 1, flag) {
        Some(k) => Err(("unknown "@ + what + " flag: "@ + args[k], false)),
        None => Ok(args.len() > 1),
    }
}

/// The task the arguments (after the program name) ask for, or the error
/// text and whether the usage text goes with it.
pub open spec fn task_spec(args: Seq<Seq<char>>) -> std::result::Result<Task, (Seq<char>, bool)> {
    if args.len() == 0 {
        Err(("missing command"@, true))
    } else {
        let cmd = args[0];
        if cmd == "precommit"@ {
            match flagged(args, "--full"@, "precommit"@) {
                Ok(full) => Ok(Task::Precommit { full }),
                Err(e) => Err(e),
            }
        } else if cmd == "install-hooks"@ {
            Ok(Task::InstallHooks)
        } else if cmd == "gen-function-surfaces"@ {
            match flagged(args, "--check"@, "gen-function-surfaces"@) {
                Ok(check) => Ok(Task::GenFunctionSurfaces { check }),
                Err(e) => Err(e),
            }
        } else if cmd == "help"@ || cmd == "--help"@ || cmd == "-h"@ {
            Ok(Task::Help)
        } else {
            Err(("unknown command: "@ + cmd, true))
        }
    }
}

/// The views of the arguments.
pub open spec fn arg_texts(args: Seq<String>) -> Seq<Seq<char>> {
    args.map_values(|a: String| a@)
}

/// The views of a task result.
pub open spec fn task_view(r: Result<Task, TaskError>) -> std::result::Result<Task, (Seq<char>, bool)> {
    match r {
        Ok(t) => Ok(t),
        Err(e) => Err((e.message@, e.show_usage)),
    }
}

fn parse_flag(args: &[String], flag: &str, what: &str) -> (r: Result<bool, TaskError>)
    requires
        args@.len() >= 1,
    ensures
        match flagged(arg_texts(args@), flag@, what@) {
            Ok(b) => r == Ok::<bool, TaskError>(b),
            Err((m, u)) => r matches Err(e) && e.message@ == m && e.show_usage == u,
        },
{
    let ghost av = arg_texts(args@);
    let mut i: usize = 1;
    while i < args.len()
        invariant
            1 <= i <= args@.len(),
            av == arg_texts(args@),
            first_other(av, 1, flag@) == first_other(av, i as int, flag@),
        decreases args@.len() - i,
    {
        if !text_eq(args[i].as_str(), flag) {
            let message = String::from_str("unknown ").concat(what).concat(" flag: ").concat(
                args[i].as_str(),
            );
            return Err(TaskError { message, show_usage: false });
        }
        i = i + 1;
    }
    Ok(args.len() > 1)
}

/// Read the task from the command line arguments that follow the program
/// name.
pub fn parse_task(args: &[String]) -> (r: Result<Task, TaskError>)
    ensures
        task_view(r) == task_spec(arg_texts(args@)),
{
    if args.len() == 0 {
        return Err(TaskError { message: String::from_str("missing command"), show_usage: true });
    }
    let cmd = args[0].as_str();
    proof {
        assert(arg_texts(args@)[0] == cmd@);
    }
    if text_eq(cmd, "precommit") {
        let full = parse_flag(args, "--full", "precommit")?;
        Ok(Task::Precommit { full })
    } else if text_eq(cmd, "install-hooks") {
        Ok(Task::InstallHooks)
    } else if text_eq(cmd, "gen-function-surfaces") {
        let check = parse_flag(args, "--check", "gen-function-surfaces")?;
        Ok(Task::GenFunctionSurfaces { check })
    } else if text_eq(cmd, "help") || text_eq(cmd, "--help") || text_eq(cmd, "-h") {
        Ok(Task::Help)
    } else {
        Err(TaskError { message: String::from_str("unknown command: ").concat(cmd), show_usage: true })
    }
}


/// The commands of a pre-commit run after the surface check, each as its
/// words: formatting, the two lint runs, the workspace tests, the
/// extension-gated integration test and the doc tests.
pub open spec fn base_precommit_steps() -> Seq<Seq<Seq<char>>> {
    seq![
        seq!["cargo"@, "fmt"@, "--all"@, "--"@, "--check"@],
        seq!["cargo"@, "clippy"@, "--workspace"@, "--all-targets"@, "--"@, "-D"@, "warnings"@],
        seq!["cargo"@, "clippy"@, "--workspace"@, "--all-features"@, "--all-targets"@, "--"@, "-D"@, "warnings"@],
        seq!["cargo"@, "test"@, "--workspace"@],
        seq!["cargo"@, "test"@, "-p"@, "geolite"@, "--features"@, "sqlite-extension"@, "--test"@, "sqlite_integration"@],
        seq!["cargo"@, "test"@, "--doc"@, "--workspace"@]
    ]
}

/// The slow platform commands a full pre-commit run adds at the end.
pub open spec fn full_precommit_steps() -> Seq<Seq<Seq<char>>> {
    seq![
        seq!["cargo"@, "test"@, "-p"@, "geolite"@, "--features"@, "diesel-postgres"@, "--test"@, "diesel_postgres_integration"@],
        seq!["cargo"@, "test"@, "-p"@, "geolite"@, "--features"@, "sqlite"@, "--target"@, "wasm32-unknown-unknown"@, "--test"@, "sqlite_wasm"@],
        seq!["cargo"@, "test"@, "-p"@, "geolite"@, "--features"@, "diesel-sqlite"@, "--target"@, "wasm32-unknown-unknown"@, "--test"@, "diesel_wasm_integration"@],
        seq!["cargo"@, "clippy"@, "-p"@, "geolite"@, "--features"@, "sqlite"@, "--target"@, "wasm32-unknown-unknown"@, "--"@, "-D"@, "warnings"@]
    ]
}

/// The commands of a pre-commit run, in order.
pub open spec fn precommit_steps_spec(full: bool) -> Seq<Seq<Seq<char>>> {
    if full {
        base_precommit_steps() + full_precommit_steps()
    } else {
        base_precommit_steps()
    }
}

/// The commands a pre-commit run executes after the surface check, in order.
pub fn precommit_steps(full: bool) -> (steps: Vec<Vec<&'static str>>)
    ensures
        steps.deep_view() =~~= precommit_steps_spec(full),
{
    let mut steps: Vec<Vec<&'static str>> = vec![
        vec!["cargo", "fmt", "--all", "--", "--check"],
        vec!["cargo", "clippy", "--workspace", "--all-targets", "--", "-D", "warnings"],
        vec!["cargo", "clippy", "--workspace", "--all-features", "--all-targets", "--", "-D", "warnings"],
        vec!["cargo", "test", "--workspace"],
        vec!["cargo", "test", "-p", "geolite", "--features", "sqlite-extension", "--test", "sqlite_integration"],
        vec!["cargo", "test", "--doc", "--workspace"]
    ];
    if full {
        steps.push(vec!["cargo", "test", "-p", "geolite", "--features", "diesel-postgres", "--test", "diesel_postgres_integration"]);
        steps.push(vec!["cargo", "test", "-p", "geolite", "--features", "sqlite", "--target", "wasm32-unknown-unknown", "--test", "sqlite_wasm"]);
        steps.push(vec!["cargo", "test", "-p", "geolite", "--features", "diesel-sqlite", "--target", "wasm32-unknown-unknown", "--test", "diesel_wasm_integration"]);
        steps.push(vec!["cargo", "clippy", "-p", "geolite", "--features", "sqlite", "--target", "wasm32-unknown-unknown", "--", "-D", "warnings"]);
    }
    steps
}

} // verus!
