//! Execution of parsed commands against the topology.
//!
//! A monitor command resolves its target by name or alias and fails on
//! an unknown monitor; an alias, when supplied, is set, and the listed
//! desktops are added in order with the default tiling mode.  A config
//! command sets or reads a key, scoped to one monitor when given and to
//! the global store otherwise.  A rule command registers a placement
//! rule for future windows; it moves nothing already mapped.

use vstd::prelude::*;

use crate::cli;
use crate::cli::SubCommand;
use crate::desktop::{fresh_desktop, DesktopMode};
use crate::kvstore::{kv_get_post, kv_set_post};
use crate::monitors::{find_index, Monitor};
use crate::window_manager::{same_window_state, WindowManager};

verus! {

/// Why a command could not be applied.
#[derive(Clone, Copy, Debug, PartialEq, Eq, Structural)]
pub enum ExecError {
    /// The named monitor does not exist, under any name or alias.
    UnknownMonitor,
}

/// What a monitor command leaves of its target: the primary name kept,
/// the alias set when one was supplied, and one fresh tiling desktop
/// appended per listed desktop.
pub open spec fn monitor_applied(m0: Monitor, cmd: cli::Monitor, m1: Monitor) -> bool {
    &&& m1.name == m0.name
    &&& m1.config == m0.config
    &&& (match cmd.name {
        Some(a) => m1.alias is Some && m1.alias->0@ == a@,
        None => m1.alias == m0.alias,
    })
    &&& m1.desktops@.len() == m0.desktops@.len() + cmd.desktops@.len()
    &&& m1.desktops@.subrange(0, m0.desktops@.len() as int) == m0.desktops@
    &&& (forall|j: int|
        m0.desktops@.len() <= j < m1.desktops@.len() ==> fresh_desktop(
            m1.desktops@[j],
            DesktopMode::Tile,
        ))
}

/// Everything `execute` promises, case by case: window state is never
/// touched; a monitor command rewrites exactly its target or fails on
/// an unknown name; a config command touches exactly the addressed
/// store, answering the current value on a read; a rule command
/// appends the rule.
pub open spec fn execute_post(
    w0: WindowManager,
    command: SubCommand,
    w1: WindowManager,
    r: Result<Option<String>, ExecError>,
) -> bool {
    &&& same_window_state(w0, w1)
    &&& match command {
        SubCommand::Monitor(cmd) => {
            &&& w1.global_config@ == w0.global_config@
            &&& w1.rules@ == w0.rules@
            &&& match find_index(w0.monitors@, cmd.monitor@) {
                Some(i) => {
                    &&& r == Ok::<Option<String>, ExecError>(None)
                    &&& w1.monitors@.len() == w0.monitors@.len()
                    &&& monitor_applied(w0.monitors@[i], cmd, w1.monitors@[i])
                    &&& forall|j: int|
                        0 <= j < w0.monitors@.len() && j != i ==> w1.monitors@[j]
                            == w0.monitors@[j]
                },
                None => {
                    &&& r == Err::<Option<String>, ExecError>(ExecError::UnknownMonitor)
                    &&& w1.monitors@ == w0.monitors@
                },
            }
        },
        SubCommand::Config(cmd) => {
            &&& w1.rules@ == w0.rules@
            &&& match cmd.monitor {
                None => {
                    &&& w1.monitors@ == w0.monitors@
                    &&& match cmd.value {
                        Some(v) => {
                            &&& r == Ok::<Option<String>, ExecError>(None)
                            &&& kv_set_post(w0.global_config@, cmd.key@, v@, w1.global_config@)
                        },
                        None => {
                            &&& w1.global_config@ == w0.global_config@
                            &&& match r {
                                Ok(reply) => kv_get_post(w0.global_config@, cmd.key@, reply),
                                Err(_) => false,
                            }
                        },
                    }
                },
                Some(name) => {
                    &&& w1.global_config@ == w0.global_config@
                    &&& match find_index(w0.monitors@, name@) {
                        None => {
                            &&& r == Err::<Option<String>, ExecError>(ExecError::UnknownMonitor)
                            &&& w1.monitors@ == w0.monitors@
                        },
                        Some(i) => {
                            &&& w1.monitors@.len() == w0.monitors@.len()
                            &&& forall|j: int|
                                0 <= j < w0.monitors@.len() && j != i ==> w1.monitors@[j]
                                    == w0.monitors@[j]
                            &&& w1.monitors@[i].name == w0.monitors@[i].name
                            &&& w1.monitors@[i].alias == w0.monitors@[i].alias
                            &&& w1.monitors@[i].desktops@ == w0.monitors@[i].desktops@
                            &&& match cmd.value {
                                Some(v) => {
                                    &&& r == Ok::<Option<String>, ExecError>(None)
                                    &&& kv_set_post(
                                        w0.monitors@[i].config@,
                                        cmd.key@,
                                        v@,
                                        w1.monitors@[i].config@,
                                    )
                                },
                                None => {
                                    &&& w1.monitors@[i].config@ == w0.monitors@[i].config@
                                    &&& match r {
                                        Ok(reply) => kv_get_post(
                                            w0.monitors@[i].config@,
                                            cmd.key@,
                                            reply,
                                        ),
                                        Err(_) => false,
                                    }
                                },
                            }
                        },
                    }
                },
            }
        },
        SubCommand::Rule(rule) => {
            &&& w1.monitors@ == w0.monitors@
            &&& w1.global_config@ == w0.global_config@
            &&& w1.rules@ == w0.rules@.push(rule)
            &&& r == Ok::<Option<String>, ExecError>(None)
        },
    }
}

/// Applies parsed commands to the manager's topology.
pub struct CommandExecutor;

impl CommandExecutor {
    /// Create a new CommandExecutor instance.
    pub fn new() -> (r: CommandExecutor) {
        CommandExecutor
    }

    /// Execute the command.  A config read answers the current value;
    /// everything else answers nothing on success.
    pub fn execute(&self, wm: &mut WindowManager, command: SubCommand) -> (r: Result<
        Option<String>,
        ExecError,
    >)
        ensures
            execute_post(*old(wm), command, *final(wm), r),
    {
        match command {
            SubCommand::Monitor(cmd) => self.on_monitor_command(wm, cmd),
            SubCommand::Config(cmd) => self.on_config_command(wm, cmd),
            SubCommand::Rule(rule) => {
                wm.rules.push(rule);
                Ok(None)
            },
        }
    }

    /// Handle monitor commands: resolve the target, alias it when asked,
    /// add the listed desktops in order.
    fn on_monitor_command(&self, wm: &mut WindowManager, cmd: cli::Monitor) -> (r: Result<
        Option<String>,
        ExecError,
    >)
        ensures
            execute_post(*old(wm), SubCommand::Monitor(cmd), *final(wm), r),
    {
        match wm.monitors.find_by_name(cmd.monitor.as_str()) {
            None => Err(ExecError::UnknownMonitor),
            Some(m) => {
                let ghost m0 = *m;
                if let Some(alias) = &cmd.name {
                    m.set_alias(alias.as_str());
                }
                let ghost m1 = *m;
                let count = cmd.desktops.len();
                let mut k: usize = 0;
                while k < count
                    invariant
                        0 <= k <= count,
                        m.name == m1.name,
                        m.alias == m1.alias,
                        m.config == m1.config,
                        m.desktops@.len() == m1.desktops@.len() + k,
                        m.desktops@.subrange(0, m1.desktops@.len() as int) =~= m1.desktops@,
                        forall|j: int|
                            m1.desktops@.len() <= j < m.desktops@.len() ==> fresh_desktop(
                                m.desktops@[j],
                                DesktopMode::Tile,
                            ),
                    decreases count - k,
                {
                    let ghost before = m.desktops@;
                    m.add_desktop(DesktopMode::Tile);
                    proof {
                        assert(m.desktops@.drop_last() =~= before);
                        assert forall|j: int| 0 <= j < before.len() implies m.desktops@[j]
                            == before[j] by {
                            assert(m.desktops@.drop_last()[j] == m.desktops@[j]);
                        }
                        assert(m.desktops@.subrange(0, m1.desktops@.len() as int) =~= (
                        before.subrange(0, m1.desktops@.len() as int)));
                        assert forall|j: int|
                            m1.desktops@.len() <= j < m.desktops@.len() implies fresh_desktop(
                            m.desktops@[j],
                            DesktopMode::Tile,
                        ) by {
                            if j < before.len() {
                                assert(m.desktops@[j] == before[j]);
                            } else {
                                assert(m.desktops@[j] == m.desktops@.last());
                            }
                        }
                    }
                    k = k + 1;
                }
                Ok(None)
            },
        }
    }

    /// Handle config commands: address the scope, then set or read.
    fn on_config_command(&self, wm: &mut WindowManager, cmd: cli::Config) -> (r: Result<
        Option<String>,
        ExecError,
    >)
        ensures
            execute_post(*old(wm), SubCommand::Config(cmd), *final(wm), r),
    {
        match &cmd.monitor {
            None => {
                match &cmd.value {
                    Some(v) => {
                        wm.global_config.set(cmd.key.as_str(), v.as_str());
                        Ok(None)
                    },
                    None => Ok(wm.global_config.get(cmd.key.as_str())),
                }
            },
            Some(name) => {
                match wm.monitors.find_by_name(name.as_str()) {
                    None => Err(ExecError::UnknownMonitor),
                    Some(m) => {
                        match &cmd.value {
                            Some(v) => {
                                m.config.set(cmd.key.as_str(), v.as_str());
                                Ok(None)
                            },
                            None => Ok(m.config.get(cmd.key.as_str())),
                        }
                    },
                }
            },
        }
    }
}

} // verus!
