//! The full command descriptor the supervision engine runs on: a command
//! line, a working directory, a terminal mode, and environment overrides.

use vstd::prelude::*;
use crate::config::CommandConfig;
use crate::config::Config;
use crate::config::unique_command_names;

verus! {

/// Three-way switch for allocating a pseudo-terminal: decide from the
/// supervisor's own terminal, or force it on or off.
#[derive(Clone, Copy, Debug, PartialEq, Eq, Structural)]
pub enum AutoBool {
    Auto,
    Always,
    Never,
}

/// Validated launch parameters for one process.
#[derive(Debug)]
pub struct ShuntCommand {
    /// The executable and its arguments; must not be empty to launch.
    pub argv: Vec<String>,
    /// Absolute directory the process starts in.
    pub workdir: String,
    /// Whether the process's combined output gets a pseudo-terminal.
    pub tty: AutoBool,
    /// Environment overrides: a present value sets the variable, an absent
    /// value removes it from the inherited environment. Keys are unique.
    pub env: Vec<(String, Option<String>)>,
}

/// A named set of commands to supervise together.
#[derive(Debug)]
pub struct Shunt {
    /// Command name to descriptor, names unique within one run.
    pub commands: Vec<(String, ShuntCommand)>,
}

/// The terminal mode an earlier-generation descriptor carries over.
pub open spec fn upgraded_tty(t: crate::config::AutoBool) -> AutoBool {
    match t {
        crate::config::AutoBool::Auto => AutoBool::Auto,
        crate::config::AutoBool::Always => AutoBool::Always,
        crate::config::AutoBool::Never => AutoBool::Never,
    }
}

impl Shunt {
    /// Well-formed: no two commands share a name.
    pub open spec fn wf(&self) -> bool {
        unique_command_names(self.commands@)
    }

    /// Upgrade a whole run of earlier-generation descriptors: every command
    /// keeps its name, command line, working directory and terminal mode,
    /// and gains an empty set of environment overrides.
    pub fn from_config(c: Config) -> (r: Shunt)
        ensures
            r.commands@.len() == c.commands@.len(),
            forall|i: int| 0 <= i < r.commands@.len() ==> {
                &&& (#[trigger] r.commands@[i]).0 == c.commands@[i].0
                &&& r.commands@[i].1.argv@ == c.commands@[i].1.argv@
                &&& r.commands@[i].1.workdir@ == c.commands@[i].1.workdir@
                &&& r.commands@[i].1.tty == upgraded_tty(c.commands@[i].1.tty)
                &&& r.commands@[i].1.env@.len() == 0
            },
    {
        let ghost orig = c.commands@;
        let mut rest = c.commands;
        let mut out: Vec<(String, ShuntCommand)> = Vec::new();
        proof {
            assert(orig.skip(0) =~= orig);
        }
        while rest.len() > 0
            invariant
                out@.len() + rest@.len() == orig.len(),
                rest@ == orig.skip(out@.len() as int),
                forall|i: int| 0 <= i < out@.len() ==> {
                    &&& (#[trigger] out@[i]).0 == orig[i].0
                    &&& out@[i].1.argv@ == orig[i].1.argv@
                    &&& out@[i].1.workdir@ == orig[i].1.workdir@
                    &&& out@[i].1.tty == upgraded_tty(orig[i].1.tty)
                    &&& out@[i].1.env@.len() == 0
                },
            decreases rest@.len(),
        {
            proof {
                assert(rest@[0] == orig[out@.len() as int]);
                assert(orig.skip(out@.len() as int).drop_first() =~= orig.skip(
                    out@.len() as int + 1,
                ));
            }
            let pair = rest.remove(0);
            proof {
                assert(orig.skip(out@.len() as int).drop_first() =~= orig.skip(
                    out@.len() as int,
                ).remove(0));
            }
            let upgraded = ShuntCommand::from_config(pair.1);
            out.push((pair.0, upgraded));
        }
        Shunt { commands: out }
    }
}

impl ShuntCommand {
    /// Upgrade a descriptor of the earlier shape: same command line, working
    /// directory and terminal mode, and no environment overrides.
    pub fn from_config(c: CommandConfig) -> (r: ShuntCommand)
        ensures
            r.argv@ == c.argv@,
            r.workdir@ == c.workdir@,
            r.tty == upgraded_tty(c.tty),
            r.env@ == Seq::<(String, Option<String>)>::empty(),
    {
        let tty = match c.tty {
            crate::config::AutoBool::Auto => AutoBool::Auto,
            crate::config::AutoBool::Always => AutoBool::Always,
            crate::config::AutoBool::Never => AutoBool::Never,
        };
        ShuntCommand { argv: c.argv, workdir: c.workdir, tty, env: Vec::new() }
    }
}

} // verus!
