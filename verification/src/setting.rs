//! How a game is started: the command, the size of its terminal, and how
//! the turn loop is paced.

use vstd::prelude::*;
use core::time::Duration;

verus! {

/// How much of what happens is written to the log.
#[derive(Clone, Copy, Debug, PartialEq, Eq, Structural)]
pub enum Severity {
    Trace,
    Debug,
    Info,
    Warning,
    Error,
    Critical,
}

/// Where the log goes, and what it holds.
#[derive(Clone, Debug)]
pub struct LogInfo {
    /// The log file's name; empty where nothing is logged.
    pub fname: String,
    pub sev: Severity,
}

impl Default for LogInfo {
    fn default() -> (info: LogInfo)
        ensures
            info.fname@ == Seq::<char>::empty(),
            info.sev == Severity::Debug,
    {
        LogInfo { fname: String::new(), sev: Severity::Debug }
    }
}

/// Whether the game is mirrored to the host's terminal.
#[derive(Clone, Copy, Debug)]
pub enum DrawType {
    /// Every chunk is drawn, with this pause after each.
    Terminal(Duration),
    /// Nothing is drawn.
    Null,
}

/// The span of `millis` milliseconds.
pub uninterp spec fn span_of_millis(millis: u64) -> Duration;

/// `Duration::from_millis` returns the span of that many whole milliseconds;
/// the span itself is opaque here, so the contract only names it.
pub assume_specification[ Duration::from_millis ](millis: u64) -> (span: Duration)
    ensures
        span == span_of_millis(millis),
;

/// `Duration` is `Copy`: its clone is the span itself.
pub assume_specification[ <Duration as Clone>::clone ](span: &Duration) -> (copy: Duration)
    ensures
        copy == *span,
;

/// The decimal digit for `d`.
pub open spec fn digit(d: nat) -> char {
    (0x30 + d) as char
}

/// `n` in decimal, without sign or leading zeros.
pub open spec fn decimal(n: nat) -> Seq<char>
    decreases n,
{
    if n < 10 {
        seq![digit(n)]
    } else {
        decimal(n / 10).push(digit(n % 10))
    }
}

/// `usize::to_string`, which std documents to write the number as `Display`
/// does: in decimal, without sign, padding or leading zeros.
#[verifier::external_body]
fn decimal_string(n: usize) -> (s: String)
    ensures
        s@ == decimal(n as nat),
{
    n.to_string()
}

/// Describes the game to spawn. A setting starts from a command name and
/// defaults, and each builder method replaces one part.
#[derive(Clone, Debug)]
pub struct GameSetting<'a> {
    pub cmdname: String,
    pub lines: usize,
    pub columns: usize,
    pub envs: Vec<(&'a str, &'a str)>,
    pub args: Vec<&'a str>,
    pub log_info: LogInfo,
    pub timeout: Duration,
    pub draw_type: DrawType,
    pub max_loop: usize,
}

impl<'a> GameSetting<'a> {
    /// A setting for the command `command_name` with a terminal of 24 lines
    /// and 80 columns, a turn of 100 ms, 100 turns, no log and no drawing.
    pub fn new(command_name: &str) -> (setting: Self)
        ensures
            setting.cmdname@ == command_name@,
            setting.lines == 24,
            setting.columns == 80,
            setting.envs@ == Seq::<(&str, &str)>::empty(),
            setting.args@ == Seq::<&str>::empty(),
            setting.log_info.fname@ == Seq::<char>::empty(),
            setting.log_info.sev == Severity::Debug,
            setting.timeout == span_of_millis(100),
            setting.draw_type == DrawType::Null,
            setting.max_loop == 100,
    {
        GameSetting {
            cmdname: command_name.to_owned(),
            lines: 24,
            columns: 80,
            envs: Vec::new(),
            args: Vec::new(),
            log_info: LogInfo::default(),
            timeout: Duration::from_millis(100),
            draw_type: DrawType::Null,
            max_loop: 100,
        }
    }

    /// Sets the width of the terminal.
    pub fn columns(self, u: usize) -> (setting: Self)
        ensures
            setting == (GameSetting { columns: u, ..self }),
    {
        let mut setting = self;
        setting.columns = u;
        setting
    }

    /// Sets the height of the terminal.
    pub fn lines(self, u: usize) -> (setting: Self)
        ensures
            setting == (GameSetting { lines: u, ..self }),
    {
        let mut setting = self;
        setting.lines = u;
        setting
    }

    /// Adds a command line argument.
    pub fn arg(self, s: &'a str) -> (setting: Self)
        ensures
            setting == (GameSetting { args: setting.args, ..self }),
            setting.args@ == self.args@.push(s),
    {
        let mut setting = self;
        setting.args.push(s);
        setting
    }

    /// Adds an environment variable.
    pub fn env(self, s: &'a str, t: &'a str) -> (setting: Self)
        ensures
            setting == (GameSetting { envs: setting.envs, ..self }),
            setting.envs@ == self.envs@.push((s, t)),
    {
        let mut setting = self;
        setting.envs.push((s, t));
        setting
    }

    /// Replaces the command line arguments.
    pub fn args(self, v: Vec<&'a str>) -> (setting: Self)
        ensures
            setting == (GameSetting { args: v, ..self }),
    {
        let mut setting = self;
        setting.args = v;
        setting
    }

    /// Replaces the environment variables.
    pub fn envs(self, v: Vec<(&'a str, &'a str)>) -> (setting: Self)
        ensures
            setting == (GameSetting { envs: v, ..self }),
    {
        let mut setting = self;
        setting.envs = v;
        setting
    }

    /// Draws the game on the host's terminal, pausing for `d` after each
    /// chunk.
    pub fn draw_on(self, d: Duration) -> (setting: Self)
        ensures
            setting == (GameSetting { draw_type: DrawType::Terminal(d), ..self }),
    {
        let mut setting = self;
        setting.draw_type = DrawType::Terminal(d);
        setting
    }

    /// Logs to the file `s`.
    pub fn debug_file(self, s: &str) -> (setting: Self)
        ensures
            setting == (GameSetting { log_info: setting.log_info, ..self }),
            setting.log_info.fname@ == s@,
            setting.log_info.sev == self.log_info.sev,
    {
        let mut setting = self;
        setting.log_info.fname = s.to_owned();
        setting
    }

    /// Logs what is at least as severe as `s`.
    pub fn debug_level(self, s: Severity) -> (setting: Self)
        ensures
            setting == (GameSetting {
                log_info: LogInfo { fname: self.log_info.fname, sev: s },
                ..self
            }),
    {
        let mut setting = self;
        setting.log_info.sev = s;
        setting
    }

    /// Sets how long the loop waits for the game's output before it takes
    /// the screen to be at rest.
    pub fn timeout(self, d: Duration) -> (setting: Self)
        ensures
            setting == (GameSetting { timeout: d, ..self }),
    {
        let mut setting = self;
        setting.timeout = d;
        setting
    }

    /// Sets the number of turns after which the game is ended by force.
    pub fn max_loop(self, t: usize) -> (setting: Self)
        ensures
            setting == (GameSetting { max_loop: t, ..self }),
    {
        let mut setting = self;
        setting.max_loop = t;
        setting
    }

    /// The variables that the game's environment is extended with, in the
    /// order in which they are set: the terminal's size and kind, then the
    /// setting's own variables, which thereby override the former.
    pub open spec fn child_env_spec(self) -> Seq<(Seq<char>, Seq<char>)> {
        seq![
            ("LINES"@, decimal(self.lines as nat)),
            ("COLUMNS"@, decimal(self.columns as nat)),
            ("TERM"@, "vt100"@),
        ] + Seq::new(self.envs@.len(), |i: int| (self.envs@[i].0@, self.envs@[i].1@))
    }

    /// The variables that the game's environment is extended with.
    pub fn child_env(&self) -> (vars: Vec<(String, String)>)
        ensures
            vars@.len() == self.child_env_spec().len(),
            forall|i: int|
                0 <= i < vars@.len() ==> (#[trigger] vars@[i].0@, vars@[i].1@)
                    == self.child_env_spec()[i],
    {
        let mut vars: Vec<(String, String)> = Vec::new();
        vars.push(("LINES".to_owned(), decimal_string(self.lines)));
        vars.push(("COLUMNS".to_owned(), decimal_string(self.columns)));
        vars.push(("TERM".to_owned(), "vt100".to_owned()));
        let n = self.envs.len();
        let mut k: usize = 0;
        while k < n
            invariant
                n == self.envs@.len(),
                k <= n,
                vars@.len() == 3 + k,
                forall|i: int|
                    0 <= i < vars@.len() ==> (#[trigger] vars@[i].0@, vars@[i].1@)
                        == self.child_env_spec()[i],
            decreases n - k,
        {
            let name = self.envs[k].0;
            let value = self.envs[k].1;
            vars.push((name.to_owned(), value.to_owned()));
            k += 1;
        }
        vars
    }
}

} // verus!
