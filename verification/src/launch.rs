//! Construction of the child-process command lines.
//!
//! A [`LaunchSpec`] fully determines how the backend is invoked: the program,
//! its arguments, and the environment variables it reads its configuration
//! from. On POSIX platforms the long-running server is started through a
//! shell that replaces its own process image with the backend executable
//! (`exec`), so exactly one operating-system process exists to signal on
//! shutdown; on Windows the executable is invoked directly. The host spawns
//! the spec as given and never edits it.

use vstd::prelude::*;

use crate::paths::OsKind;
use crate::strutil::spec_decimal;
use crate::strutil::decimal_string;

verus! {

/// How a child process is to be invoked.
pub struct LaunchSpec {
    pub program: String,
    pub args: Vec<String>,
    pub env: Vec<(String, String)>,
}

/// The names and values of the server environment, in order: the port, the
/// runtime-mode flag, the server-enable flag, the database path and the
/// upload directory.
pub open spec fn spec_server_env(
    port: u16,
    db_path: Seq<char>,
    upload_dir: Seq<char>,
) -> Seq<(Seq<char>, Seq<char>)> {
    seq![
        ("PORT"@, spec_decimal(port as nat)),
        ("MIX_ENV"@, "prod"@),
        ("PHX_SERVER"@, "true"@),
        ("DATABASE_PATH"@, db_path),
        ("UPLOAD_DIR"@, upload_dir),
    ]
}

/// The command line that starts the long-running server: the executable
/// itself with the `start` argument on Windows; elsewhere a shell that
/// replaces itself with the executable, so the spawned process is the
/// server and not a wrapper.
pub open spec fn spec_server_command(os: OsKind, exe_path: Seq<char>) -> (Seq<char>, Seq<
    Seq<char>,
>) {
    match os {
        OsKind::Windows => (exe_path, seq!["start"@]),
        _ => ("sh"@, seq!["-c"@, "exec \"$1\" start"@, "--"@, exe_path]),
    }
}

impl LaunchSpec {
    /// The program and arguments of this spec, as sequences of characters.
    pub open spec fn spec_command(self) -> (Seq<char>, Seq<Seq<char>>) {
        (self.program@, self.args.deep_view())
    }

    /// The environment of this spec, as pairs of character sequences.
    pub open spec fn spec_env(self) -> Seq<(Seq<char>, Seq<char>)> {
        Seq::new(self.env.len() as nat, |i: int| (self.env[i].0@, self.env[i].1@))
    }

    /// Build the launch spec for the long-running server.
    pub fn server(os: OsKind, exe_path: &str, port: u16, db_path: &str, upload_dir: &str) -> (ls: LaunchSpec)
        ensures
            ls.spec_command() == spec_server_command(os, exe_path@),
            ls.spec_env() == spec_server_env(port, db_path@, upload_dir@),
    {
        let program: String;
        let mut args: Vec<String> = Vec::new();
        match os {
            OsKind::Windows => {
                program = exe_path.to_owned();
                args.push("start".to_owned());
            },
            _ => {
                program = "sh".to_owned();
                args.push("-c".to_owned());
                args.push("exec \"$1\" start".to_owned());
                args.push("--".to_owned());
                args.push(exe_path.to_owned());
            },
        }
        let mut env: Vec<(String, String)> = Vec::new();
        env.push(("PORT".to_owned(), decimal_string(port as u64)));
        env.push(("MIX_ENV".to_owned(), "prod".to_owned()));
        env.push(("PHX_SERVER".to_owned(), "true".to_owned()));
        env.push(("DATABASE_PATH".to_owned(), db_path.to_owned()));
        env.push(("UPLOAD_DIR".to_owned(), upload_dir.to_owned()));
        let ls = LaunchSpec { program, args, env };
        proof {
            assert(ls.args.deep_view() =~= spec_server_command(os, exe_path@).1);
            assert(ls.spec_env() =~= spec_server_env(port, db_path@, upload_dir@));
        }
        ls
    }

    /// Build the launch spec for the one-shot migration run: the executable
    /// in evaluation mode with the fixed migration expression, given the
    /// database path and the runtime-mode flag.
    pub fn migration(exe_path: &str, db_path: &str) -> (ls: LaunchSpec)
        ensures
            ls.program@ == exe_path@,
            ls.args.deep_view() =~= seq!["eval"@, "Clientats.Release.migrate()"@],
            ls.spec_env() =~= seq![
                ("DATABASE_PATH"@, db_path@),
                ("MIX_ENV"@, "prod"@),
            ],
    {
        let program = exe_path.to_owned();
        let mut args: Vec<String> = Vec::new();
        args.push("eval".to_owned());
        args.push("Clientats.Release.migrate()".to_owned());
        let mut env: Vec<(String, String)> = Vec::new();
        env.push(("DATABASE_PATH".to_owned(), db_path.to_owned()));
        env.push(("MIX_ENV".to_owned(), "prod".to_owned()));
        LaunchSpec { program, args, env }
    }
}

/// What became of the one-shot migration run.
#[derive(Clone, Copy, PartialEq, Eq, Structural, Debug)]
pub enum MigrationOutcome {
    /// The process ran and exited with status zero.
    Succeeded,
    /// The process ran but exited with a nonzero status; its output is
    /// logged and startup proceeds.
    CompletedWithWarnings,
    /// The process could not be run at all; logged, and startup proceeds.
    FailedToRun,
}

/// Classify a migration run from whether the process could be started and,
/// if so, whether it exited with status zero. Every outcome is non-fatal.
pub fn classify_migration(exit_success: Option<bool>) -> (o: MigrationOutcome)
    ensures
        o == (match exit_success {
            Some(true) => MigrationOutcome::Succeeded,
            Some(false) => MigrationOutcome::CompletedWithWarnings,
            None => MigrationOutcome::FailedToRun,
        }),
{
    match exit_success {
        Some(true) => MigrationOutcome::Succeeded,
        Some(false) => MigrationOutcome::CompletedWithWarnings,
        None => MigrationOutcome::FailedToRun,
    }
}

} // verus!
