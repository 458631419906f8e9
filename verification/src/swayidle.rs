//! Building the argument list for the external idle monitor.
//!
//! Each hook contributes its words in order: `before-sleep <cmd>`,
//! `after-resume <cmd>`, and `timeout <secs> <cmd>` optionally followed by
//! `resume <cmd>`.  The daemon's hooks make the monitor send it signals,
//! with `kill -<sig> <pid>` commands built here.

use crate::process::AlwaysCommandOptions;
use crate::strutil::append_dec_u32;
use crate::strutil::dec_chars;
use crate::strutil::dec_string_u32;
use vstd::prelude::*;
use vstd::string::StringExecFns;

verus! {

/// A hook that contributes words to the idle monitor's argument list.
pub trait ToCommand: Sized {
    /// The words this hook contributes.
    spec fn command_view(self) -> Seq<Seq<char>>;

    /// The words this hook contributes.
    fn to_command(self) -> (r: Vec<String>)
        ensures
            r.deep_view() == self.command_view(),
    ;
}

/// The accumulated argument list for the idle monitor.
pub struct SwayIdle {
    pub args: Vec<String>,
}

impl Default for SwayIdle {
    /// An empty argument list.
    fn default() -> (r: SwayIdle)
        ensures
            r.args.deep_view() == Seq::<Seq<char>>::empty(),
    {
        SwayIdle { args: Vec::new() }
    }
}

impl SwayIdle {
    /// An empty argument list.
    pub fn new() -> (r: SwayIdle)
        ensures
            r.args.deep_view() == Seq::<Seq<char>>::empty(),
    {
        SwayIdle { args: Vec::new() }
    }

    /// Appends one hook's words to the argument list.
    pub fn add_command<C: ToCommand>(&mut self, cmd: C)
        ensures
            final(self).args.deep_view() == old(self).args.deep_view() + cmd.command_view(),
    {
        let mut extra = cmd.to_command();
        let ghost extra_view = extra.deep_view();
        self.args.append(&mut extra);
        proof {
            assert(final(self).args.deep_view() =~= old(self).args.deep_view() + extra_view);
        }
    }

    /// How the supervised monitor is run: the `swayidle` command with these
    /// arguments and a restart delay of 100 ms.
    pub fn spawn_options(self) -> (o: AlwaysCommandOptions)
        ensures
            o.name@ == "swayidle"@,
            o.args == self.args,
            o.restart_delay_ms == 100,
    {
        AlwaysCommandOptions {
            name: String::from_str("swayidle"),
            args: self.args,
            restart_delay_ms: 100,
        }
    }
}

/// An idle timeout hook: after `timeout` seconds run `timeout_cmd`, and on
/// resumed activity run `resume` if one is given.
pub struct Timeout {
    pub timeout: u32,
    pub timeout_cmd: String,
    pub resume: Option<String>,
}

impl Timeout {
    /// A timeout hook without a resume command.
    pub fn new(command: String, timeout: u32) -> (r: Timeout)
        ensures
            r.timeout == timeout,
            r.timeout_cmd == command,
            r.resume is None,
    {
        Timeout { timeout, timeout_cmd: command, resume: None }
    }

    /// A timeout hook with a resume command.
    pub fn new_with_resume(command: String, timeout: u32, resume: String) -> (r: Timeout)
        ensures
            r.timeout == timeout,
            r.timeout_cmd == command,
            r.resume == Some(resume),
    {
        Timeout { timeout, timeout_cmd: command, resume: Some(resume) }
    }
}

impl ToCommand for Timeout {
    open spec fn command_view(self) -> Seq<Seq<char>> {
        seq!["timeout"@, dec_chars(self.timeout as int), self.timeout_cmd@] + match self.resume {
            Some(r) => seq!["resume"@, r@],
            None => Seq::<Seq<char>>::empty(),
        }
    }

    fn to_command(self) -> (r: Vec<String>) {
        let mut args: Vec<String> = Vec::new();
        args.push(String::from_str("timeout"));
        args.push(dec_string_u32(self.timeout));
        args.push(self.timeout_cmd);
        match self.resume {
            Some(resume) => {
                args.push(String::from_str("resume"));
                args.push(resume);
            },
            None => {},
        }
        proof {
            assert(args.deep_view() =~= self.command_view());
        }
        args
    }
}

/// A hook run just before the system sleeps or the session locks.
pub struct BeforeSleep {
    pub command: String,
}

impl BeforeSleep {
    pub fn new(command: String) -> (r: BeforeSleep)
        ensures
            r.command == command,
    {
        BeforeSleep { command }
    }
}

impl ToCommand for BeforeSleep {
    open spec fn command_view(self) -> Seq<Seq<char>> {
        seq!["before-sleep"@, self.command@]
    }

    fn to_command(self) -> (r: Vec<String>) {
        let mut args: Vec<String> = Vec::new();
        args.push(String::from_str("before-sleep"));
        args.push(self.command);
        proof {
            assert(args.deep_view() =~= self.command_view());
        }
        args
    }
}

/// A hook run when the system resumes or the session unlocks.
pub struct AfterResume {
    pub command: String,
}

impl AfterResume {
    pub fn new(command: String) -> (r: AfterResume)
        ensures
            r.command == command,
    {
        AfterResume { command }
    }
}

impl ToCommand for AfterResume {
    open spec fn command_view(self) -> Seq<Seq<char>> {
        seq!["after-resume"@, self.command@]
    }

    fn to_command(self) -> (r: Vec<String>) {
        let mut args: Vec<String> = Vec::new();
        args.push(String::from_str("after-resume"));
        args.push(self.command);
        proof {
            assert(args.deep_view() =~= self.command_view());
        }
        args
    }
}

/// The shell command `kill -<sig> <pid>`.
pub open spec fn kill_chars(sig: int, pid: int) -> Seq<char> {
    "kill -"@ + dec_chars(sig) + " "@ + dec_chars(pid)
}

/// Builds the shell command `kill -<sig> <pid>`.
pub fn kill_command(sig: u32, pid: u32) -> (s: String)
    ensures
        s@ == kill_chars(sig as int, pid as int),
{
    let mut s = String::from_str("kill -");
    append_dec_u32(&mut s, sig);
    s.append(" ");
    append_dec_u32(&mut s, pid);
    proof {
        assert(s@ =~= kill_chars(sig as int, pid as int));
    }
    s
}

/// The full hook configuration the daemon hands the idle monitor: signal
/// itself on sleep, resume, idle timeout and renewed activity.
pub fn swayidle_commands(
    idle_timeout: u32,
    pid: u32,
    sleep_sig: u32,
    resume_sig: u32,
    idle_sig: u32,
    active_sig: u32,
) -> (s: SwayIdle)
    ensures
        s.args.deep_view() == seq![
            "before-sleep"@,
            kill_chars(sleep_sig as int, pid as int),
            "after-resume"@,
            kill_chars(resume_sig as int, pid as int),
            "timeout"@,
            dec_chars(idle_timeout as int),
            kill_chars(idle_sig as int, pid as int),
            "resume"@,
            kill_chars(active_sig as int, pid as int),
        ],
{
    let mut sway_idle = SwayIdle::new();
    let before_sleep = BeforeSleep::new(kill_command(sleep_sig, pid));
    let after_resume = AfterResume::new(kill_command(resume_sig, pid));
    let on_idle = Timeout::new_with_resume(
        kill_command(idle_sig, pid),
        idle_timeout,
        kill_command(active_sig, pid),
    );
    sway_idle.add_command(before_sleep);
    sway_idle.add_command(after_resume);
    sway_idle.add_command(on_idle);
    proof {
        assert(sway_idle.args.deep_view() =~= seq![
            "before-sleep"@,
            kill_chars(sleep_sig as int, pid as int),
            "after-resume"@,
            kill_chars(resume_sig as int, pid as int),
            "timeout"@,
            dec_chars(idle_timeout as int),
            kill_chars(idle_sig as int, pid as int),
            "resume"@,
            kill_chars(active_sig as int, pid as int),
        ]);
    }
    sway_idle
}

} // verus!
