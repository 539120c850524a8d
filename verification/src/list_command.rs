//! The command line that asks the cargo plug-in for the list of tests, and
//! what the command's outcome means.

use vstd::prelude::*;

verus! {

/// The program that is run where neither a path was set nor the environment
/// names one.
pub const DEFAULT_CARGO: &'static str = "cargo";

/// Command builder for `cargo nextest list`.
#[derive(Clone, Debug)]
pub struct ListCommand {
    cargo_path: Option<String>,
    manifest_path: Option<String>,
    current_dir: Option<String>,
    args: Vec<String>,
}

/// The mathematical content of a [`ListCommand`].
pub struct ListCommandView {
    pub cargo_path: Option<Seq<char>>,
    pub manifest_path: Option<Seq<char>>,
    pub current_dir: Option<Seq<char>>,
    pub args: Seq<Seq<char>>,
}

/// A command line in plain values: the program, its arguments, and the
/// directory to run it in, if it is not the current one.
#[derive(Clone, Debug, PartialEq, Eq)]
pub struct CommandLine {
    /// The program to run.
    pub program: String,
    /// The arguments, in order.
    pub args: Vec<String>,
    /// The directory to run the program in.
    pub current_dir: Option<String>,
}

/// What a finished process leaves behind.
#[derive(Clone, Debug, PartialEq, Eq)]
pub struct CommandOutput {
    /// True if the process exited with code 0.
    pub success: bool,
    /// The exit code, unless a signal ended the process.
    pub exit_code: Option<i32>,
    /// What the process wrote to standard output.
    pub stdout: Vec<u8>,
    /// What the process wrote to standard error.
    pub stderr: Vec<u8>,
}

/// An error that occurs while running the list command.
#[derive(Clone, Debug, PartialEq, Eq)]
pub enum CommandError {
    /// The process could not be started.
    Exec {
        /// What the operating system reported.
        message: String,
    },
    /// The process exited with a non-zero code, or a signal ended it.
    CommandFailed {
        /// The exit code, unless a signal ended the process.
        exit_code: Option<i32>,
        /// What the process wrote to standard error.
        stderr: Vec<u8>,
    },
    /// The output of the process is not the document that was expected.
    Json {
        /// What the parser reported.
        message: String,
    },
}

/// The view of an optional string.
pub open spec fn option_text(text: Option<String>) -> Option<Seq<char>> {
    match text {
        Some(text) => Some(text@),
        None => None,
    }
}

impl View for ListCommand {
    type V = ListCommandView;

    closed spec fn view(&self) -> ListCommandView {
        ListCommandView {
            cargo_path: option_text(self.cargo_path),
            manifest_path: option_text(self.manifest_path),
            current_dir: option_text(self.current_dir),
            args: self.args.deep_view(),
        }
    }
}

impl ListCommandView {
    /// The program that the command runs: the path that was set; else the
    /// one that the environment names in `cargo_env`; else `cargo`.
    pub open spec fn program(self, cargo_env: Option<Seq<char>>) -> Seq<char> {
        match self.cargo_path {
            Some(path) => path,
            None => match cargo_env {
                Some(path) => path,
                None => DEFAULT_CARGO@,
            },
        }
    }

    /// The arguments that name the manifest, if one was set.
    pub open spec fn manifest_args(self) -> Seq<Seq<char>> {
        match self.manifest_path {
            Some(path) => seq!["--manifest-path"@, path],
            None => seq![],
        }
    }

    /// The arguments of the command: those that name the manifest, the
    /// subcommand with its output format, then the arguments that were added,
    /// in the order in which they were added.
    pub open spec fn command_args(self) -> Seq<Seq<char>> {
        self.manifest_args() + seq!["nextest"@, "list"@, "--format=json"@] + self.args
    }
}

impl ListCommand {
    /// Creates a new `ListCommand`.
    ///
    /// This command runs `cargo nextest list`.
    pub fn new() -> (command: Self)
        ensures
            command@ == (ListCommandView {
                cargo_path: None,
                manifest_path: None,
                current_dir: None,
                args: Seq::empty(),
            }),
    {
        let command = ListCommand {
            cargo_path: None,
            manifest_path: None,
            current_dir: None,
            args: Vec::new(),
        };
        assert(command.args.deep_view() =~= Seq::<Seq<char>>::empty());
        command
    }

    /// Path to `cargo` executable. If not set, this will use the `$CARGO` environment
    /// variable, and if that is not set, will simply be `cargo`.
    pub fn cargo_path(&mut self, path: String) -> (this: &mut Self)
        ensures
            this@ == (ListCommandView { cargo_path: Some(path@), ..old(self)@ }),
            *final(self) == *final(this),
    {
        self.cargo_path = Some(path);
        self
    }

    /// Path to `Cargo.toml`.
    pub fn manifest_path(&mut self, path: String) -> (this: &mut Self)
        ensures
            this@ == (ListCommandView { manifest_path: Some(path@), ..old(self)@ }),
            *final(self) == *final(this),
    {
        self.manifest_path = Some(path);
        self
    }

    /// Current directory of the `cargo nextest list` process.
    pub fn current_dir(&mut self, path: String) -> (this: &mut Self)
        ensures
            this@ == (ListCommandView { current_dir: Some(path@), ..old(self)@ }),
            *final(self) == *final(this),
    {
        self.current_dir = Some(path);
        self
    }

    /// Adds an argument to the end of `cargo nextest list`.
    pub fn add_arg(&mut self, arg: String) -> (this: &mut Self)
        ensures
            this@ == (ListCommandView { args: old(self)@.args.push(arg@), ..old(self)@ }),
            *final(self) == *final(this),
    {
        let ghost before = self.args.deep_view();
        self.args.push(arg);
        assert(self.args.deep_view() =~= before.push(arg@));
        self
    }

    /// Adds several arguments to the end of `cargo nextest list`.
    pub fn add_args(&mut self, args: Vec<String>) -> (this: &mut Self)
        ensures
            this@ == (ListCommandView { args: old(self)@.args + args.deep_view(), ..old(self)@ }),
            *final(self) == *final(this),
    {
        let mut args = args;
        let ghost before = self.args.deep_view();
        let ghost added = args.deep_view();
        self.args.append(&mut args);
        assert(self.args.deep_view() =~= before + added);
        self
    }

    /// Builds the command line for `cargo nextest list`. The program is the
    /// path that was set with `cargo_path`; else the value of the `CARGO`
    /// environment variable, handed in as `cargo_env`; else `cargo`.
    pub fn cargo_command(&self, cargo_env: Option<String>) -> (line: CommandLine)
        ensures
            line.program@ == self@.program(option_text(cargo_env)),
            line.args.deep_view() == self@.command_args(),
            option_text(line.current_dir) == self@.current_dir,
    {
        let program = match &self.cargo_path {
            Some(path) => path.clone(),
            None => match cargo_env {
                Some(path) => path,
                None => DEFAULT_CARGO.to_owned(),
            },
        };
        let mut args: Vec<String> = Vec::new();
        assert(args.deep_view() =~= Seq::<Seq<char>>::empty());
        if let Some(path) = &self.manifest_path {
            args.push("--manifest-path".to_owned());
            args.push(path.clone());
            assert(args.deep_view() =~= self@.manifest_args());
        }
        let ghost manifest = args.deep_view();
        args.push("nextest".to_owned());
        args.push("list".to_owned());
        args.push("--format=json".to_owned());
        assert(args.deep_view() =~= manifest + seq!["nextest"@, "list"@, "--format=json"@]);
        let ghost fixed = args.deep_view();
        let mut at: usize = 0;
        while at < self.args.len()
            invariant
                at <= self.args.len(),
                args.deep_view() =~= fixed + self.args.deep_view().take(at as int),
            decreases self.args.len() - at,
        {
            let ghost before = args.deep_view();
            let arg = self.args[at].clone();
            args.push(arg);
            assert(args.deep_view() =~= before.push(self.args[at as int]@));
            assert(self.args.deep_view().take(at + 1) =~= self.args.deep_view().take(
                at as int,
            ).push(self.args[at as int]@));
            at = at + 1;
        }
        assert(self.args.deep_view().take(at as int) =~= self.args.deep_view());
        let current_dir = match &self.current_dir {
            Some(dir) => Some(dir.clone()),
            None => None,
        };
        CommandLine { program, args, current_dir }
    }

    /// Builds the command line for `cargo nextest list --list-type
    /// binaries-only`: that of [`Self::cargo_command`] with one argument more.
    pub fn cargo_command_binaries_only(&self, cargo_env: Option<String>) -> (line: CommandLine)
        ensures
            line.program@ == self@.program(option_text(cargo_env)),
            line.args.deep_view() == self@.command_args().push("--list-type=binaries-only"@),
            option_text(line.current_dir) == self@.current_dir,
    {
        let mut line = self.cargo_command(cargo_env);
        let ghost before = line.args.deep_view();
        line.args.push("--list-type=binaries-only".to_owned());
        assert(line.args.deep_view() =~= before.push("--list-type=binaries-only"@));
        line
    }
}

/// Decides what the outcome of the list command means: a process that exited
/// with code 0 hands over its standard output, which is then to be parsed;
/// any other is an error that carries the exit code and the standard error.
pub fn check_output(output: CommandOutput) -> (checked: Result<Vec<u8>, CommandError>)
    ensures
        match checked {
            Ok(stdout) => output.success && stdout == output.stdout,
            Err(error) => !output.success && error == (CommandError::CommandFailed {
                exit_code: output.exit_code,
                stderr: output.stderr,
            }),
        },
{
    if !output.success {
        // The process exited with a non-zero code.
        let exit_code = output.exit_code;
        let stderr = output.stderr;
        return Err(CommandError::CommandFailed { exit_code, stderr });
    }
    Ok(output.stdout)
}

} // verus!
