//! The two external tools that turn a plugin source into a native library.
//!
//! The first tool translates the source into an assembly file; the second
//! assembles and links that file into a shared library. This module says how
//! each is to be invoked and how the way an invocation ended is judged. It
//! starts no process itself.

use vstd::prelude::*;
use vstd::string::*;
use crate::plugin::error::{FailureKind, LoadPluginError};

verus! {

/// The tool that translates a plugin source into assembly.
pub const TRANSLATOR: &'static str = "llc";

/// The tool that assembles and links the shared library.
pub const LINKER: &'static str = "gcc";

/// Where the bundled support library lies, relative to the directory of the
/// running executable.
pub const SUPPORT_LIBRARY_DIR: &'static str = "assets/pluginlib";

/// The two compilation stages.
#[derive(Clone, Copy, Debug, PartialEq, Eq, Structural)]
pub enum Stage {
    /// Source to assembly.
    Assembly,
    /// Assembly to native shared library.
    Native,
}

/// Where the toolchain works.
#[derive(Debug)]
pub struct Toolchain {
    /// The temporary workspace that receives every file the tools write.
    pub workspace: String,
    /// The directory that holds the bundled support library.
    pub support_dir: String,
}

/// The texts of a toolchain setting.
pub struct ToolchainView {
    pub workspace: Seq<char>,
    pub support_dir: Seq<char>,
}

impl View for Toolchain {
    type V = ToolchainView;

    open spec fn view(&self) -> ToolchainView {
        ToolchainView { workspace: self.workspace@, support_dir: self.support_dir@ }
    }
}

/// One external process to run: a program, looked up on the search path, and
/// its arguments in order.
#[derive(Debug)]
pub struct Invocation {
    pub program: String,
    pub args: Vec<String>,
}

/// The texts of an invocation.
pub struct InvocationView {
    pub program: Seq<char>,
    pub args: Seq<Seq<char>>,
}

/// The texts of a list of strings.
pub open spec fn texts(strings: Seq<String>) -> Seq<Seq<char>> {
    Seq::new(strings.len(), |i: int| strings[i]@)
}

impl View for Invocation {
    type V = InvocationView;

    open spec fn view(&self) -> InvocationView {
        InvocationView { program: self.program@, args: texts(self.args@) }
    }
}

/// The directory of the support library bundled with an executable in
/// `exe_dir`: `<exe_dir>/assets/pluginlib`.
pub open spec fn support_dir_beside(exe_dir: Seq<char>) -> Seq<char> {
    exe_dir + "/"@ + SUPPORT_LIBRARY_DIR@
}

/// The assembly file of the plugin `name`: `<workspace>/<name>.s`.
pub open spec fn assembly_path(workspace: Seq<char>, name: Seq<char>) -> Seq<char> {
    workspace + "/"@ + name + ".s"@
}

/// The native library of the plugin `name`: `<workspace>/<name>.bfpn`.
pub open spec fn artifact_path(workspace: Seq<char>, name: Seq<char>) -> Seq<char> {
    workspace + "/"@ + name + ".bfpn"@
}

/// The first invocation: translate the source at `source_path` into the
/// plugin's assembly file.
pub open spec fn assembly_command(
    toolchain: ToolchainView,
    name: Seq<char>,
    source_path: Seq<char>,
) -> InvocationView {
    InvocationView {
        program: "llc"@,
        args: seq![
            "-filetype=asm"@,
            "-o"@,
            assembly_path(toolchain.workspace, name),
            source_path,
        ],
    }
}

/// The second invocation: link the plugin's assembly file into a
/// position-independent shared library, against the bundled support library
/// and without the standard runtime.
pub open spec fn native_command(toolchain: ToolchainView, name: Seq<char>) -> InvocationView {
    InvocationView {
        program: "gcc"@,
        args: seq![
            "-nostdlib"@,
            "-shared"@,
            "-L"@ + toolchain.support_dir,
            "-lbluefox_lib"@,
            "-o"@,
            artifact_path(toolchain.workspace, name),
            "-fPIC"@,
            assembly_path(toolchain.workspace, name),
        ],
    }
}

/// The invocation of a stage.
pub open spec fn stage_command(
    stage: Stage,
    toolchain: ToolchainView,
    name: Seq<char>,
    source_path: Seq<char>,
) -> InvocationView {
    match stage {
        Stage::Assembly => assembly_command(toolchain, name, source_path),
        Stage::Native => native_command(toolchain, name),
    }
}

/// `front`, `middle` and `back` joined, with `name` between the first two.
fn join(front: &str, middle: &str, name: &str, back: &str) -> (joined: String)
    ensures
        joined@ == front@ + middle@ + name@ + back@,
{
    let mut joined = front.to_owned();
    joined.append(middle);
    joined.append(name);
    joined.append(back);
    joined
}

impl Toolchain {
    /// A toolchain that works in `workspace` and links against the support
    /// library in `support_dir`.
    pub fn new(workspace: &str, support_dir: &str) -> (toolchain: Toolchain)
        ensures
            toolchain@.workspace == workspace@,
            toolchain@.support_dir == support_dir@,
    {
        Toolchain { workspace: workspace.to_owned(), support_dir: support_dir.to_owned() }
    }

    /// A toolchain that works in `workspace` and links against the support
    /// library bundled with the executable that lies in `exe_dir`.
    pub fn beside(workspace: &str, exe_dir: &str) -> (toolchain: Toolchain)
        ensures
            toolchain@.workspace == workspace@,
            toolchain@.support_dir == support_dir_beside(exe_dir@),
    {
        let mut support_dir = exe_dir.to_owned();
        support_dir.append("/");
        support_dir.append(SUPPORT_LIBRARY_DIR);
        Toolchain { workspace: workspace.to_owned(), support_dir }
    }

    /// The path of the assembly file of the plugin `name`.
    pub fn assembly_file(&self, name: &str) -> (path: String)
        ensures
            path@ == assembly_path(self@.workspace, name@),
    {
        join(self.workspace.as_str(), "/", name, ".s")
    }

    /// The path of the native library of the plugin `name`.
    pub fn artifact_file(&self, name: &str) -> (path: String)
        ensures
            path@ == artifact_path(self@.workspace, name@),
    {
        join(self.workspace.as_str(), "/", name, ".bfpn")
    }

    /// The invocation of the first stage for the plugin `name`, whose source
    /// is at `source_path`.
    pub fn translate(&self, name: &str, source_path: &str) -> (invocation: Invocation)
        ensures
            invocation@ == assembly_command(self@, name@, source_path@),
    {
        let mut args: Vec<String> = Vec::new();
        args.push("-filetype=asm".to_owned());
        args.push("-o".to_owned());
        args.push(self.assembly_file(name));
        args.push(source_path.to_owned());
        let invocation = Invocation { program: TRANSLATOR.to_owned(), args };
        assert(invocation@.args =~= assembly_command(self@, name@, source_path@).args);
        invocation
    }

    /// The invocation of the second stage for the plugin `name`.
    pub fn link(&self, name: &str) -> (invocation: Invocation)
        ensures
            invocation@ == native_command(self@, name@),
    {
        let mut library_dir = "-L".to_owned();
        library_dir.append(self.support_dir.as_str());
        let mut args: Vec<String> = Vec::new();
        args.push("-nostdlib".to_owned());
        args.push("-shared".to_owned());
        args.push(library_dir);
        args.push("-lbluefox_lib".to_owned());
        args.push("-o".to_owned());
        args.push(self.artifact_file(name));
        args.push("-fPIC".to_owned());
        args.push(self.assembly_file(name));
        let invocation = Invocation { program: LINKER.to_owned(), args };
        assert(invocation@.args =~= native_command(self@, name@).args);
        invocation
    }
}

/// How the attempt to run a tool ended.
#[derive(Debug)]
pub enum ToolOutcome {
    /// The executable could not be located; the text says why.
    Unavailable(String),
    /// The executable was found but could not be started; the text says why.
    NotStarted(String),
    /// The process ran and ended, with its exit code, or with none when it
    /// ended abnormally, and a description of how it ended.
    Exited(Option<i32>, String),
}

/// The texts of a tool outcome.
pub enum ToolOutcomeView {
    Unavailable(Seq<char>),
    NotStarted(Seq<char>),
    Exited(Option<i32>, Seq<char>),
}

impl View for ToolOutcome {
    type V = ToolOutcomeView;

    open spec fn view(&self) -> ToolOutcomeView {
        match self {
            ToolOutcome::Unavailable(why) => ToolOutcomeView::Unavailable(why@),
            ToolOutcome::NotStarted(why) => ToolOutcomeView::NotStarted(why@),
            ToolOutcome::Exited(code, how) => ToolOutcomeView::Exited(*code, how@),
        }
    }
}

/// The name of the tool that a stage runs.
pub open spec fn stage_tool(stage: Stage) -> Seq<char> {
    match stage {
        Stage::Assembly => "llc"@,
        Stage::Native => "gcc"@,
    }
}

/// The opening of the message for a stage that failed.
pub open spec fn stage_banner(stage: Stage) -> Seq<char> {
    match stage {
        Stage::Assembly => "bfps to asm file compilation failed: llc: "@,
        Stage::Native => "asm file to bfpn compilation failed: gcc: "@,
    }
}

/// The failure that an outcome of a stage amounts to, if any. A stage
/// succeeds only when its tool ran and exited with code zero. A tool that
/// could not be located is a `CompilerNotFound`; every other outcome is a
/// `CompileError` that names the stage.
pub open spec fn stage_failure(stage: Stage, outcome: ToolOutcomeView) -> Option<
    (FailureKind, Seq<char>),
> {
    match outcome {
        ToolOutcomeView::Unavailable(why) => Some(
            (FailureKind::CompilerNotFound, stage_tool(stage) + ": "@ + why),
        ),
        ToolOutcomeView::NotStarted(why) => Some(
            (FailureKind::CompileError, stage_banner(stage) + why),
        ),
        ToolOutcomeView::Exited(code, how) => if code == Some(0i32) {
            None
        } else {
            Some((FailureKind::CompileError, stage_banner(stage) + how))
        },
    }
}

/// The view of an optional error.
pub open spec fn failure_view(failure: Option<LoadPluginError>) -> Option<
    (FailureKind, Seq<char>),
> {
    match failure {
        Some(error) => Some(error@),
        None => None,
    }
}

impl Stage {
    /// The name of the tool that this stage runs.
    pub fn tool(self) -> (name: &'static str)
        ensures
            name@ == stage_tool(self),
    {
        match self {
            Stage::Assembly => TRANSLATOR,
            Stage::Native => LINKER,
        }
    }

    /// The opening of the message for a failure of this stage.
    pub fn banner(self) -> (text: &'static str)
        ensures
            text@ == stage_banner(self),
    {
        match self {
            Stage::Assembly => "bfps to asm file compilation failed: llc: ",
            Stage::Native => "asm file to bfpn compilation failed: gcc: ",
        }
    }

    /// Judges how this stage's tool ended: `None` when the stage succeeded,
    /// the candidate's failure when it did not.
    pub fn judge(self, outcome: &ToolOutcome) -> (failure: Option<LoadPluginError>)
        ensures
            failure_view(failure) == stage_failure(self, outcome@),
    {
        match outcome {
            ToolOutcome::Unavailable(why) => {
                let mut message = self.tool().to_owned();
                message.append(": ");
                message.append(why.as_str());
                Some(LoadPluginError::CompilerNotFound(message))
            },
            ToolOutcome::NotStarted(why) => {
                let mut message = self.banner().to_owned();
                message.append(why.as_str());
                Some(LoadPluginError::CompileError(message))
            },
            ToolOutcome::Exited(code, how) => {
                let clean = match code {
                    Some(value) => *value == 0,
                    None => false,
                };
                if clean {
                    None
                } else {
                    let mut message = self.banner().to_owned();
                    message.append(how.as_str());
                    Some(LoadPluginError::CompileError(message))
                }
            },
        }
    }
}

} // verus!
