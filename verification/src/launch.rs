//! Launch planning: everything decided about a command before the operating
//! system is asked to spawn it.
//!
//! A plan fixes the transport (pseudo-terminal or pipe), the display identity
//! with its color, and carries the command line, working directory and
//! environment overrides through to the spawning edge. An empty command line
//! is the one per-command validation failure; it never stops the commands
//! around it from being planned.

use vstd::prelude::*;
use vstd::string::StringExecFns;
use crate::color::ColorAssigner;
use crate::color::ConsoleColor;
use crate::color::palette;
use crate::console::ProcessInfo;
use crate::shunt::AutoBool;
use crate::shunt::Shunt;
use crate::shunt::ShuntCommand;

verus! {

/// Why one command could not be launched. Per-command and non-fatal: the
/// failure is logged and the command is absent from the running set.
#[derive(Debug)]
pub enum LaunchError {
    /// The descriptor's command line was empty, so there is nothing to run.
    EmptyCommand(String),
    /// The operating system refused to spawn the command; the second field
    /// carries its message.
    SpawnFailed(String, String),
}

/// The log line describing a launch failure.
pub open spec fn launch_error_text(e: LaunchError) -> Seq<char> {
    match e {
        LaunchError::EmptyCommand(n) => "command \""@ + n@ + "\" was empty"@,
        LaunchError::SpawnFailed(n, cause) => "command \""@ + n@ + "\" failed to spawn: "@
            + cause@,
    }
}

impl LaunchError {
    /// Render the log line for this failure.
    pub fn message(&self) -> (r: String)
        ensures
            r@ == launch_error_text(*self),
    {
        match self {
            LaunchError::EmptyCommand(n) => {
                let mut r = ("command \"").to_owned();
                r.append(n.as_str());
                r.append("\" was empty");
                r
            },
            LaunchError::SpawnFailed(n, cause) => {
                let mut r = ("command \"").to_owned();
                r.append(n.as_str());
                r.append("\" failed to spawn: ");
                r.append(cause.as_str());
                r
            },
        }
    }
}

/// Whether a command's output is wrapped in a pseudo-terminal: its own mode
/// decides, falling back to whether the supervisor's output is a terminal.
pub open spec fn wrap_tty_spec(mode: AutoBool, supervisor_is_tty: bool) -> bool {
    match mode {
        AutoBool::Auto => supervisor_is_tty,
        AutoBool::Always => true,
        AutoBool::Never => false,
    }
}

/// Resolve the transport decision for one command.
pub fn resolve_wrap_tty(mode: AutoBool, supervisor_is_tty: bool) -> (r: bool)
    ensures
        r == wrap_tty_spec(mode, supervisor_is_tty),
{
    match mode {
        AutoBool::Auto => supervisor_is_tty,
        AutoBool::Always => true,
        AutoBool::Never => false,
    }
}

/// Pseudo-terminal allocation and coloring are independent toggles: a mode of
/// `Always` wraps the child in a pseudo-terminal whether or not the
/// supervisor's own output is a terminal — while coloring follows the
/// supervisor's terminal alone (see `plan_command`).
pub proof fn lemma_always_wraps_without_terminal(supervisor_is_tty: bool)
    ensures
        wrap_tty_spec(AutoBool::Always, supervisor_is_tty),
        !wrap_tty_spec(AutoBool::Never, supervisor_is_tty),
{
}

/// Everything the spawning edge needs to start one process.
#[derive(Debug)]
pub struct LaunchPlan {
    /// Display identity: name, and a color exactly when the supervisor's
    /// output is a terminal.
    pub info: ProcessInfo,
    /// The executable and its arguments; never empty in a plan.
    pub argv: Vec<String>,
    /// Absolute directory the process starts in.
    pub workdir: String,
    /// Whether to allocate a pseudo-terminal for the child's combined output.
    pub wrap_tty: bool,
    /// Environment overrides to apply to the inherited environment.
    pub env: Vec<(String, Option<String>)>,
}

/// What a correct plan for `cmd` under the name `name` looks like, when the
/// color counter stood at `color_idx`.
pub open spec fn plan_matches(
    p: LaunchPlan,
    name: String,
    cmd: ShuntCommand,
    supervisor_is_tty: bool,
    color_idx: nat,
) -> bool {
    &&& p.info.name@ == name@
    &&& p.info.color == (if supervisor_is_tty {
        Some(palette()[(color_idx % 5) as int])
    } else {
        None::<ConsoleColor>
    })
    &&& p.argv@ == cmd.argv@
    &&& p.argv@.len() > 0
    &&& p.workdir@ == cmd.workdir@
    &&& p.wrap_tty == wrap_tty_spec(cmd.tty, supervisor_is_tty)
    &&& p.env@ == cmd.env@
}

/// Copy a command line.
fn clone_argv(v: &Vec<String>) -> (r: Vec<String>)
    ensures
        r@ == v@,
{
    let mut r: Vec<String> = Vec::new();
    let mut i: usize = 0;
    while i < v.len()
        invariant
            i <= v@.len(),
            r@ == v@.take(i as int),
        decreases v@.len() - i,
    {
        r.push(v[i].clone());
        proof {
            assert(v@.take(i as int + 1) =~= v@.take(i as int).push(v@[i as int]));
        }
        i = i + 1;
    }
    proof {
        assert(v@.take(v@.len() as int) =~= v@);
    }
    r
}

/// Copy a set of environment overrides.
fn clone_env(v: &Vec<(String, Option<String>)>) -> (r: Vec<(String, Option<String>)>)
    ensures
        r@ == v@,
{
    let mut r: Vec<(String, Option<String>)> = Vec::new();
    let mut i: usize = 0;
    while i < v.len()
        invariant
            i <= v@.len(),
            r@ == v@.take(i as int),
        decreases v@.len() - i,
    {
        let value = match &v[i].1 {
            Some(s) => Some(s.clone()),
            None => None,
        };
        r.push((v[i].0.clone(), value));
        proof {
            assert(v@.take(i as int + 1) =~= v@.take(i as int).push(v@[i as int]));
        }
        i = i + 1;
    }
    proof {
        assert(v@.take(v@.len() as int) =~= v@);
    }
    r
}

/// Plan the launch of one command. Succeeds exactly when the command line is
/// non-empty; the color counter advances exactly when a colored plan is made,
/// and a plan carries a color exactly when the supervisor's output is a
/// terminal — never because of the command's own terminal mode.
pub fn plan_command(
    name: &String,
    cmd: &ShuntCommand,
    supervisor_is_tty: bool,
    colors: &mut ColorAssigner,
) -> (r: Result<LaunchPlan, LaunchError>)
    requires
        old(colors).wf(),
    ensures
        final(colors).wf(),
        match r {
            Ok(p) => {
                &&& cmd.argv@.len() > 0
                &&& plan_matches(p, *name, *cmd, supervisor_is_tty, old(colors).next_index())
                &&& (supervisor_is_tty ==> final(colors).next_index() == (old(colors).next_index()
                    + 1) % 5)
                &&& (!supervisor_is_tty ==> *final(colors) == *old(colors))
            },
            Err(e) => {
                &&& cmd.argv@.len() == 0
                &&& e matches LaunchError::EmptyCommand(n) && n@ == name@
                &&& *final(colors) == *old(colors)
            },
        },
{
    if cmd.argv.len() == 0 {
        return Err(LaunchError::EmptyCommand(name.clone()));
    }
    let color = if supervisor_is_tty {
        Some(colors.assign())
    } else {
        None
    };
    Ok(LaunchPlan {
        info: ProcessInfo { name: name.clone(), color },
        argv: clone_argv(&cmd.argv),
        workdir: cmd.workdir.clone(),
        wrap_tty: resolve_wrap_tty(cmd.tty, supervisor_is_tty),
        env: clone_env(&cmd.env),
    })
}

/// How many of the first `i` commands yield a plan (and hence, on a
/// terminal, consume a palette entry).
pub open spec fn planned_before(cmds: Seq<(String, ShuntCommand)>, i: int) -> nat
    decreases i,
{
    if i <= 0 {
        0
    } else {
        planned_before(cmds, i - 1) + (if cmds[i - 1].1.argv@.len() > 0 {
            1nat
        } else {
            0nat
        })
    }
}

/// Plan every command of a run. One result per command, in order: a plan
/// exactly for the commands with a non-empty command line, the empty-command
/// error for the rest — a failure never disturbs the commands around it.
/// Colors are assigned cyclically, in order, one per planned command, and
/// only when the supervisor's output is a terminal.
pub fn plan_run(config: &Shunt, supervisor_is_tty: bool) -> (results: Vec<
    Result<LaunchPlan, LaunchError>,
>)
    ensures
        results@.len() == config.commands@.len(),
        forall|i: int| 0 <= i < results@.len() ==> match #[trigger] results@[i] {
            Ok(p) => {
                &&& config.commands@[i].1.argv@.len() > 0
                &&& plan_matches(
                    p,
                    config.commands@[i].0,
                    config.commands@[i].1,
                    supervisor_is_tty,
                    planned_before(config.commands@, i),
                )
            },
            Err(e) => {
                &&& config.commands@[i].1.argv@.len() == 0
                &&& e matches LaunchError::EmptyCommand(n) && n@ == config.commands@[i].0@
            },
        },
{
    let mut colors = ColorAssigner::new();
    let mut results: Vec<Result<LaunchPlan, LaunchError>> = Vec::new();
    let mut i: usize = 0;
    while i < config.commands.len()
        invariant
            i <= config.commands@.len(),
            results@.len() == i,
            colors.wf(),
            supervisor_is_tty ==> colors.next_index() == planned_before(config.commands@, i as int)
                % 5,
            forall|j: int| 0 <= j < i ==> match #[trigger] results@[j] {
                Ok(p) => {
                    &&& config.commands@[j].1.argv@.len() > 0
                    &&& plan_matches(
                        p,
                        config.commands@[j].0,
                        config.commands@[j].1,
                        supervisor_is_tty,
                        planned_before(config.commands@, j),
                    )
                },
                Err(e) => {
                    &&& config.commands@[j].1.argv@.len() == 0
                    &&& e matches LaunchError::EmptyCommand(n) && n@ == config.commands@[j].0@
                },
            },
        decreases config.commands@.len() - i,
    {
        let pair = &config.commands[i];
        let r = plan_command(&pair.0, &pair.1, supervisor_is_tty, &mut colors);
        proof {
            if supervisor_is_tty && pair.1.argv@.len() > 0 {
                assert((planned_before(config.commands@, i as int) % 5 + 1) % 5 == (planned_before(
                    config.commands@,
                    i as int,
                ) + 1) % 5) by (nonlinear_arith);
            }
        }
        results.push(r);
        i = i + 1;
    }
    results
}

} // verus!
