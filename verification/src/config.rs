//! The earlier, smaller generation of command descriptors: a command line,
//! a working directory and a terminal mode, with no environment overrides.
//! A descriptor of this shape upgrades losslessly into the full descriptor
//! the supervision engine runs on (see `shunt`).

use vstd::prelude::*;

verus! {

/// Three-way switch for allocating a pseudo-terminal: decide from the
/// supervisor's own terminal, or force it on or off.
#[derive(Clone, Copy, Debug, PartialEq, Eq, Structural)]
pub enum AutoBool {
    Auto,
    Always,
    Never,
}

/// Validated launch parameters for one process, without environment
/// overrides.
#[derive(Debug)]
pub struct CommandConfig {
    /// The executable and its arguments; must not be empty to launch.
    pub argv: Vec<String>,
    /// Absolute directory the process starts in.
    pub workdir: String,
    /// Whether the process's combined output gets a pseudo-terminal.
    pub tty: AutoBool,
}

/// A named set of commands to supervise together.
#[derive(Debug)]
pub struct Config {
    /// Command name to descriptor, names unique within one run.
    pub commands: Vec<(String, CommandConfig)>,
}

/// Names are unique within one supervision run (map semantics of the
/// configuration the descriptors came from).
pub open spec fn unique_command_names<T>(cmds: Seq<(String, T)>) -> bool {
    forall|i: int, j: int| 0 <= i < j < cmds.len() ==> cmds[i].0@ != cmds[j].0@
}

impl Config {
    /// Well-formed: no two commands share a name.
    pub open spec fn wf(&self) -> bool {
        unique_command_names(self.commands@)
    }
}

} // verus!
