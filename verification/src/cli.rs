//! The control-protocol grammar, shared between the manager and the
//! command-line client.
//!
//! A command travels as one text line whose fields are separated by
//! single spaces; the first field is the sending program's name, the
//! second the subcommand.  The recognized forms are
//! `config [--monitor NAME] KEY [VALUE]`,
//! `monitor NAME [--name ALIAS] [--desktops D]...` and
//! `rule [--state S]... [--desktop D] APPLICATION`.
//! Each flag occurrence takes exactly one value; the repeatable flags
//! accumulate.  A parse failure is reported back to the sender.

use vstd::prelude::*;

use crate::text::str_eq;

verus! {

/// Options of the command-line client: its verbosity, the socket it
/// speaks to, and the command it sends.
pub struct Opts {
    /// Verbosity; zero logs errors only.
    pub verbose: i32,
    /// Path of the control-channel socket.
    pub socket: String,
    /// The command to send.
    pub command: SubCommand,
}

/// A parsed user instruction.
pub enum SubCommand {
    /// Configure a monitor, or the global scope.
    Config(Config),
    /// Define or mutate a monitor.
    Monitor(Monitor),
    /// Apply a window rule.
    Rule(Rule),
}

/// Set or query a configuration key, scoped to one monitor if given.
pub struct Config {
    /// Apply the configuration on a specific monitor.
    pub monitor: Option<String>,
    /// The configuration key.
    pub key: String,
    /// The value to set; absent for a read.
    pub value: Option<String>,
}

/// Mutate the monitor of the given name.
pub struct Monitor {
    /// Monitor name.
    pub monitor: String,
    /// Custom monitor name to set as the alias.
    pub name: Option<String>,
    /// Desktops to create, in order.
    pub desktops: Vec<String>,
}

/// Register a default placement rule keyed by application name.
pub struct Rule {
    /// Default states to set on new windows matching the application.
    pub state: Option<Vec<String>>,
    /// Default desktop for new windows matching the application.
    pub desktop: Option<String>,
    /// The application name to match.
    pub application: String,
}

/// The mathematical value of a parsed command: every field a sequence
/// of characters.
#[allow(inconsistent_fields)]
pub enum CommandView {
    Config { monitor: Option<Seq<char>>, key: Seq<char>, value: Option<Seq<char>> },
    Monitor { monitor: Seq<char>, name: Option<Seq<char>>, desktops: Seq<Seq<char>> },
    Rule { state: Option<Seq<Seq<char>>>, desktop: Option<Seq<char>>, application: Seq<char> },
}

impl View for SubCommand {
    type V = CommandView;

    open spec fn view(&self) -> CommandView {
        match self {
            SubCommand::Config(c) => CommandView::Config {
                monitor: c.monitor.deep_view(),
                key: c.key@,
                value: c.value.deep_view(),
            },
            SubCommand::Monitor(m) => CommandView::Monitor {
                monitor: m.monitor@,
                name: m.name.deep_view(),
                desktops: m.desktops.deep_view(),
            },
            SubCommand::Rule(r) => CommandView::Rule {
                state: r.state.deep_view(),
                desktop: r.desktop.deep_view(),
                application: r.application@,
            },
        }
    }
}

/// Why a command line was rejected.
#[derive(Clone, Copy, Debug, PartialEq, Eq, Structural)]
pub enum ParseError {
    /// The line holds no subcommand.
    EmptyLine,
    /// The subcommand is not config, monitor or rule.
    UnknownCommand,
    /// A flag the subcommand does not take.
    UnknownFlag,
    /// A flag stands last, with no value following it.
    MissingFlagValue,
    /// A required positional argument is absent.
    MissingArgument,
    /// More positional arguments than the subcommand takes.
    TooManyArguments,
}

/// A token in flag position: two leading dashes.
pub open spec fn flag_token(t: Seq<char>) -> bool {
    t.len() >= 2 && t[0] == '-' && t[1] == '-'
}

/// The config subcommand's grammar, scanning `toks` with the fields
/// gathered so far: `--monitor` takes a value, any other flag is
/// unknown, and the positional arguments are the key and then the
/// value.  The key is required.
pub open spec fn parse_config_spec(
    toks: Seq<Seq<char>>,
    monitor: Option<Seq<char>>,
    key: Option<Seq<char>>,
    value: Option<Seq<char>>,
) -> Result<CommandView, ParseError>
    decreases toks.len(),
{
    if toks.len() == 0 {
        match key {
            Some(k) => Ok(CommandView::Config { monitor, key: k, value }),
            None => Err(ParseError::MissingArgument),
        }
    } else if toks[0] == "--monitor"@ {
        if toks.len() < 2 {
            Err(ParseError::MissingFlagValue)
        } else {
            parse_config_spec(toks.skip(2), Some(toks[1]), key, value)
        }
    } else if flag_token(toks[0]) {
        Err(ParseError::UnknownFlag)
    } else if key is None {
        parse_config_spec(toks.drop_first(), monitor, Some(toks[0]), value)
    } else if value is None {
        parse_config_spec(toks.drop_first(), monitor, key, Some(toks[0]))
    } else {
        Err(ParseError::TooManyArguments)
    }
}

/// The monitor subcommand's grammar: `--name` and `--desktops` each
/// take one value (`--desktops` accumulates over occurrences), any
/// other flag is unknown, and the single positional argument is the
/// monitor name, required.
pub open spec fn parse_monitor_spec(
    toks: Seq<Seq<char>>,
    monitor: Option<Seq<char>>,
    name: Option<Seq<char>>,
    desktops: Seq<Seq<char>>,
) -> Result<CommandView, ParseError>
    decreases toks.len(),
{
    if toks.len() == 0 {
        match monitor {
            Some(m) => Ok(CommandView::Monitor { monitor: m, name, desktops }),
            None => Err(ParseError::MissingArgument),
        }
    } else if toks[0] == "--name"@ {
        if toks.len() < 2 {
            Err(ParseError::MissingFlagValue)
        } else {
            parse_monitor_spec(toks.skip(2), monitor, Some(toks[1]), desktops)
        }
    } else if toks[0] == "--desktops"@ {
        if toks.len() < 2 {
            Err(ParseError::MissingFlagValue)
        } else {
            parse_monitor_spec(toks.skip(2), monitor, name, desktops.push(toks[1]))
        }
    } else if flag_token(toks[0]) {
        Err(ParseError::UnknownFlag)
    } else if monitor is None {
        parse_monitor_spec(toks.drop_first(), Some(toks[0]), name, desktops)
    } else {
        Err(ParseError::TooManyArguments)
    }
}

/// The rule subcommand's grammar: `--state` and `--desktop` each take
/// one value (`--state` accumulates over occurrences), any other flag
/// is unknown, and the single positional argument is the application
/// name, required.
pub open spec fn parse_rule_spec(
    toks: Seq<Seq<char>>,
    state: Option<Seq<Seq<char>>>,
    desktop: Option<Seq<char>>,
    application: Option<Seq<char>>,
) -> Result<CommandView, ParseError>
    decreases toks.len(),
{
    if toks.len() == 0 {
        match application {
            Some(a) => Ok(CommandView::Rule { state, desktop, application: a }),
            None => Err(ParseError::MissingArgument),
        }
    } else if toks[0] == "--state"@ {
        if toks.len() < 2 {
            Err(ParseError::MissingFlagValue)
        } else {
            let states = match state {
                Some(s) => s,
                None => Seq::empty(),
            };
            parse_rule_spec(toks.skip(2), Some(states.push(toks[1])), desktop, application)
        }
    } else if toks[0] == "--desktop"@ {
        if toks.len() < 2 {
            Err(ParseError::MissingFlagValue)
        } else {
            parse_rule_spec(toks.skip(2), state, Some(toks[1]), application)
        }
    } else if flag_token(toks[0]) {
        Err(ParseError::UnknownFlag)
    } else if application is None {
        parse_rule_spec(toks.drop_first(), state, desktop, Some(toks[0]))
    } else {
        Err(ParseError::TooManyArguments)
    }
}

/// The whole command grammar over a token sequence: the first token
/// names the subcommand, the rest is parsed by its grammar.
pub open spec fn parse_tokens_spec(toks: Seq<Seq<char>>) -> Result<CommandView, ParseError> {
    if toks.len() == 0 {
        Err(ParseError::EmptyLine)
    } else if toks[0] == "config"@ {
        parse_config_spec(toks.drop_first(), None, None, None)
    } else if toks[0] == "monitor"@ {
        parse_monitor_spec(toks.drop_first(), None, None, Seq::empty())
    } else if toks[0] == "rule"@ {
        parse_rule_spec(toks.drop_first(), None, None, None)
    } else {
        Err(ParseError::UnknownCommand)
    }
}

/// A command line as the wire carries it: the sending program's name
/// first, then the command tokens.
pub open spec fn parse_request_spec(line: Seq<char>) -> Result<CommandView, ParseError> {
    parse_tokens_spec(split_spec(line).drop_first())
}

/// Splitting a character sequence at every space, starting from a
/// partial token already gathered.
pub open spec fn split_rec(s: Seq<char>, cur: Seq<char>) -> Seq<Seq<char>>
    decreases s.len(),
{
    if s.len() == 0 {
        seq![cur]
    } else if s[0] == ' ' {
        seq![cur] + split_rec(s.drop_first(), Seq::empty())
    } else {
        split_rec(s.drop_first(), cur.push(s[0]))
    }
}

/// The fields of a line: the parts between single spaces.  A line
/// without spaces is one field; consecutive spaces yield empty fields.
pub open spec fn split_spec(s: Seq<char>) -> Seq<Seq<char>> {
    split_rec(s, Seq::empty())
}

/// Whether an executable parse result means exactly what the grammar
/// says of the tokens.
pub open spec fn parses_to(
    r: Result<SubCommand, ParseError>,
    expected: Result<CommandView, ParseError>,
) -> bool {
    match r {
        Ok(c) => expected == Ok::<CommandView, ParseError>(c@),
        Err(e) => expected == Err::<CommandView, ParseError>(e),
    }
}

/// Whether a token stands in flag position.
fn is_flag(t: &str) -> (r: bool)
    ensures
        r == flag_token(t@),
{
    if t.unicode_len() < 2 {
        return false;
    }
    t.get_char(0) == '-' && t.get_char(1) == '-'
}

/// Parse a whole token sequence, the first token naming the
/// subcommand.
pub fn parse_tokens(toks: &Vec<String>) -> (r: Result<SubCommand, ParseError>)
    ensures
        parses_to(r, parse_tokens_spec(toks.deep_view())),
{
    proof {
        assert(toks.deep_view().skip(0) =~= toks.deep_view());
    }
    parse_from(toks, 0)
}

/// Parse a request line as the wire carries it: the first field is the
/// sending program's name and is ignored, the rest is the command.
pub fn parse_request(line: &str) -> (r: Result<SubCommand, ParseError>)
    ensures
        parses_to(r, parse_request_spec(line@)),
{
    let tokens = tokenize(line);
    proof {
        lemma_split_never_empty(line@, Seq::empty());
        assert(tokens@.len() == tokens.deep_view().len());
        assert(tokens.deep_view().skip(1) =~= tokens.deep_view().drop_first());
    }
    parse_from(&tokens, 1)
}

/// Splitting yields at least one field, however the line looks.
pub proof fn lemma_split_never_empty(s: Seq<char>, cur: Seq<char>)
    ensures
        split_rec(s, cur).len() >= 1,
    decreases s.len(),
{
    if s.len() != 0 && s[0] != ' ' {
        lemma_split_never_empty(s.drop_first(), cur.push(s[0]));
    }
}

/// Dispatch on the subcommand token at `start`.
fn parse_from(toks: &Vec<String>, start: usize) -> (r: Result<SubCommand, ParseError>)
    requires
        start <= toks@.len(),
    ensures
        parses_to(r, parse_tokens_spec(toks.deep_view().skip(start as int))),
{
    let ghost rest = toks.deep_view().skip(start as int);
    if start == toks.len() {
        proof {
            assert(rest.len() == 0);
        }
        return Err(ParseError::EmptyLine);
    }
    proof {
        assert(rest[0] == toks@[start as int]@);
        assert(rest.drop_first() =~= toks.deep_view().skip(start as int + 1));
    }
    let first = &toks[start];
    if str_eq(first.as_str(), "config") {
        parse_config_from(toks, start + 1)
    } else if str_eq(first.as_str(), "monitor") {
        parse_monitor_from(toks, start + 1)
    } else if str_eq(first.as_str(), "rule") {
        parse_rule_from(toks, start + 1)
    } else {
        Err(ParseError::UnknownCommand)
    }
}

/// Parse the config subcommand's arguments from `start` on.
fn parse_config_from(toks: &Vec<String>, start: usize) -> (r: Result<SubCommand, ParseError>)
    requires
        start <= toks@.len(),
    ensures
        parses_to(
            r,
            parse_config_spec(toks.deep_view().skip(start as int), None, None, None),
        ),
{
    let n = toks.len();
    let mut monitor: Option<String> = None;
    let mut key: Option<String> = None;
    let mut value: Option<String> = None;
    let mut i: usize = start;
    while i < n
        invariant
            start <= i <= n,
            n == toks@.len(),
            parse_config_spec(
                toks.deep_view().skip(i as int),
                monitor.deep_view(),
                key.deep_view(),
                value.deep_view(),
            ) == parse_config_spec(toks.deep_view().skip(start as int), None, None, None),
        decreases n - i,
    {
        let ghost rest = toks.deep_view().skip(i as int);
        proof {
            assert(rest.len() == n - i);
            assert(rest[0] == toks@[i as int]@);
            assert(rest.drop_first() =~= toks.deep_view().skip(i as int + 1));
            if rest.len() >= 2 {
                assert(rest[1] == toks@[i as int + 1]@);
                assert(rest.skip(2) =~= toks.deep_view().skip(i as int + 2));
            }
        }
        let t = &toks[i];
        if str_eq(t.as_str(), "--monitor") {
            if i + 1 == n {
                return Err(ParseError::MissingFlagValue);
            }
            monitor = Some(toks[i + 1].clone());
            i = i + 2;
        } else if is_flag(t.as_str()) {
            return Err(ParseError::UnknownFlag);
        } else if key.is_none() {
            key = Some(toks[i].clone());
            i = i + 1;
        } else if value.is_none() {
            value = Some(toks[i].clone());
            i = i + 1;
        } else {
            return Err(ParseError::TooManyArguments);
        }
    }
    proof {
        assert(toks.deep_view().skip(n as int).len() == 0);
    }
    match key {
        Some(k) => Ok(SubCommand::Config(Config { monitor, key: k, value })),
        None => Err(ParseError::MissingArgument),
    }
}

/// Parse the monitor subcommand's arguments from `start` on.
fn parse_monitor_from(toks: &Vec<String>, start: usize) -> (r: Result<SubCommand, ParseError>)
    requires
        start <= toks@.len(),
    ensures
        parses_to(
            r,
            parse_monitor_spec(toks.deep_view().skip(start as int), None, None, Seq::empty()),
        ),
{
    let n = toks.len();
    let mut monitor: Option<String> = None;
    let mut name: Option<String> = None;
    let mut desktops: Vec<String> = Vec::new();
    let mut i: usize = start;
    proof {
        assert(desktops.deep_view() =~= Seq::<Seq<char>>::empty());
    }
    while i < n
        invariant
            start <= i <= n,
            n == toks@.len(),
            parse_monitor_spec(
                toks.deep_view().skip(i as int),
                monitor.deep_view(),
                name.deep_view(),
                desktops.deep_view(),
            ) == parse_monitor_spec(
                toks.deep_view().skip(start as int),
                None,
                None,
                Seq::empty(),
            ),
        decreases n - i,
    {
        let ghost rest = toks.deep_view().skip(i as int);
        proof {
            assert(rest.len() == n - i);
            assert(rest[0] == toks@[i as int]@);
            assert(rest.drop_first() =~= toks.deep_view().skip(i as int + 1));
            if rest.len() >= 2 {
                assert(rest[1] == toks@[i as int + 1]@);
                assert(rest.skip(2) =~= toks.deep_view().skip(i as int + 2));
            }
        }
        let t = &toks[i];
        if str_eq(t.as_str(), "--name") {
            if i + 1 == n {
                return Err(ParseError::MissingFlagValue);
            }
            name = Some(toks[i + 1].clone());
            i = i + 2;
        } else if str_eq(t.as_str(), "--desktops") {
            if i + 1 == n {
                return Err(ParseError::MissingFlagValue);
            }
            let ghost prev = desktops.deep_view();
            desktops.push(toks[i + 1].clone());
            proof {
                assert(desktops.deep_view() =~= prev.push(toks@[i as int + 1]@));
            }
            i = i + 2;
        } else if is_flag(t.as_str()) {
            return Err(ParseError::UnknownFlag);
        } else if monitor.is_none() {
            monitor = Some(toks[i].clone());
            i = i + 1;
        } else {
            return Err(ParseError::TooManyArguments);
        }
    }
    proof {
        assert(toks.deep_view().skip(n as int).len() == 0);
    }
    match monitor {
        Some(m) => Ok(SubCommand::Monitor(Monitor { monitor: m, name, desktops })),
        None => Err(ParseError::MissingArgument),
    }
}

/// Parse the rule subcommand's arguments from `start` on.
fn parse_rule_from(toks: &Vec<String>, start: usize) -> (r: Result<SubCommand, ParseError>)
    requires
        start <= toks@.len(),
    ensures
        parses_to(
            r,
            parse_rule_spec(toks.deep_view().skip(start as int), None, None, None),
        ),
{
    let n = toks.len();
    let mut states: Vec<String> = Vec::new();
    let mut state_seen = false;
    let mut desktop: Option<String> = None;
    let mut application: Option<String> = None;
    let mut i: usize = start;
    proof {
        assert(states.deep_view() =~= Seq::<Seq<char>>::empty());
    }
    while i < n
        invariant
            start <= i <= n,
            n == toks@.len(),
            !state_seen ==> states.deep_view() =~= Seq::<Seq<char>>::empty(),
            parse_rule_spec(
                toks.deep_view().skip(i as int),
                if state_seen {
                    Some(states.deep_view())
                } else {
                    None
                },
                desktop.deep_view(),
                application.deep_view(),
            ) == parse_rule_spec(toks.deep_view().skip(start as int), None, None, None),
        decreases n - i,
    {
        let ghost rest = toks.deep_view().skip(i as int);
        proof {
            assert(rest.len() == n - i);
            assert(rest[0] == toks@[i as int]@);
            assert(rest.drop_first() =~= toks.deep_view().skip(i as int + 1));
            if rest.len() >= 2 {
                assert(rest[1] == toks@[i as int + 1]@);
                assert(rest.skip(2) =~= toks.deep_view().skip(i as int + 2));
            }
        }
        let t = &toks[i];
        if str_eq(t.as_str(), "--state") {
            if i + 1 == n {
                return Err(ParseError::MissingFlagValue);
            }
            let ghost prev = states.deep_view();
            states.push(toks[i + 1].clone());
            state_seen = true;
            proof {
                assert(states.deep_view() =~= prev.push(toks@[i as int + 1]@));
            }
            i = i + 2;
        } else if str_eq(t.as_str(), "--desktop") {
            if i + 1 == n {
                return Err(ParseError::MissingFlagValue);
            }
            desktop = Some(toks[i + 1].clone());
            i = i + 2;
        } else if is_flag(t.as_str()) {
            return Err(ParseError::UnknownFlag);
        } else if application.is_none() {
            application = Some(toks[i].clone());
            i = i + 1;
        } else {
            return Err(ParseError::TooManyArguments);
        }
    }
    proof {
        assert(toks.deep_view().skip(n as int).len() == 0);
    }
    match application {
        Some(a) => Ok(
            SubCommand::Rule(
                Rule {
                    state: if state_seen {
                        Some(states)
                    } else {
                        None
                    },
                    desktop,
                    application: a,
                },
            ),
        ),
        None => Err(ParseError::MissingArgument),
    }
}

/// Split a line at every space.
pub fn tokenize(line: &str) -> (r: Vec<String>)
    ensures
        r.deep_view() == split_spec(line@),
{
    let mut tokens: Vec<String> = Vec::new();
    let len = line.unicode_len();
    let mut start: usize = 0;
    let mut i: usize = 0;
    proof {
        assert(line@.skip(0) =~= line@);
        assert(line@.subrange(0, 0) =~= Seq::<char>::empty());
        assert(tokens.deep_view() + split_rec(line@, Seq::empty()) =~= split_rec(
            line@,
            Seq::empty(),
        ));
    }
    while i < len
        invariant
            len == line@.len(),
            0 <= start <= i <= len,
            split_spec(line@) == tokens.deep_view() + split_rec(
                line@.skip(i as int),
                line@.subrange(start as int, i as int),
            ),
        decreases len - i,
    {
        let ghost rest = line@.skip(i as int);
        let ghost cur = line@.subrange(start as int, i as int);
        proof {
            assert(rest.len() == len - i);
            assert(rest[0] == line@[i as int]);
            assert(rest.drop_first() =~= line@.skip(i as int + 1));
            assert(line@.subrange(i as int + 1, i as int + 1) =~= Seq::<char>::empty());
        }
        if line.get_char(i) == ' ' {
            let token = line.substring_char(start, i).to_owned();
            let ghost prev = tokens.deep_view();
            proof {
                assert(split_rec(rest, cur) == seq![cur] + split_rec(
                    line@.skip(i as int + 1),
                    Seq::empty(),
                ));
            }
            tokens.push(token);
            proof {
                assert(tokens.deep_view() =~= prev.push(cur));
                assert(prev.push(cur) + split_rec(line@.skip(i as int + 1), Seq::empty()) =~= prev
                    + (seq![cur] + split_rec(line@.skip(i as int + 1), Seq::empty())));
            }
            start = i + 1;
            i = i + 1;
        } else {
            proof {
                assert(cur.push(line@[i as int]) =~= line@.subrange(start as int, i as int + 1));
                assert(split_rec(rest, cur) == split_rec(
                    line@.skip(i as int + 1),
                    cur.push(line@[i as int]),
                ));
            }
            i = i + 1;
        }
    }
    let ghost cur = line@.subrange(start as int, len as int);
    let ghost prev = tokens.deep_view();
    proof {
        assert(line@.skip(len as int).len() == 0);
        assert(split_rec(line@.skip(len as int), cur) == seq![cur]);
    }
    let token = line.substring_char(start, len).to_owned();
    tokens.push(token);
    proof {
        assert(tokens.deep_view() =~= prev.push(cur));
        assert(prev.push(cur) =~= prev + seq![cur]);
    }
    tokens
}

} // verus!
