use ibswm::cli::{parse_request, parse_tokens, tokenize, ParseError, SubCommand};
use ibswm::command_executor::ExecError;
use ibswm::monitors::Monitor;
use ibswm::window_manager::WindowManager;

fn toks(words: &[&str]) -> Vec<String> {
    words.iter().map(|w| w.to_string()).collect()
}

#[test]
fn tokenize_splits_on_single_spaces() {
    let fields = tokenize("monitor HDMI-0 --name left");
    assert_eq!(vec!["monitor", "HDMI-0", "--name", "left"], fields);
}

#[test]
fn tokenize_keeps_empty_fields_between_consecutive_spaces() {
    let fields = tokenize("a  b");
    assert_eq!(vec!["a", "", "b"], fields);
    assert_eq!(vec![""], tokenize(""));
}

#[test]
fn a_config_line_parses_key_and_value() {
    let parsed = parse_tokens(&toks(&["config", "timeout", "500"])).unwrap();
    match parsed {
        SubCommand::Config(c) => {
            assert_eq!(None, c.monitor);
            assert_eq!("timeout", c.key);
            assert_eq!(Some("500".to_string()), c.value);
        }
        _ => panic!("wrong subcommand"),
    }
}

#[test]
fn a_config_line_may_scope_to_a_monitor_and_omit_the_value() {
    let parsed = parse_tokens(&toks(&["config", "--monitor", "left", "timeout"])).unwrap();
    match parsed {
        SubCommand::Config(c) => {
            assert_eq!(Some("left".to_string()), c.monitor);
            assert_eq!("timeout", c.key);
            assert_eq!(None, c.value);
        }
        _ => panic!("wrong subcommand"),
    }
}

#[test]
fn a_monitor_line_parses_name_alias_and_desktops() {
    let parsed = parse_tokens(&toks(&[
        "monitor", "HDMI-0", "--name", "left", "--desktops", "web", "--desktops", "mail",
    ]))
    .unwrap();
    match parsed {
        SubCommand::Monitor(m) => {
            assert_eq!("HDMI-0", m.monitor);
            assert_eq!(Some("left".to_string()), m.name);
            assert_eq!(vec!["web".to_string(), "mail".to_string()], m.desktops);
        }
        _ => panic!("wrong subcommand"),
    }
}

#[test]
fn a_rule_line_parses_states_desktop_and_application() {
    let parsed = parse_tokens(&toks(&[
        "rule", "--state", "float", "--state", "urgent", "--desktop", "web", "firefox",
    ]))
    .unwrap();
    match parsed {
        SubCommand::Rule(r) => {
            assert_eq!(
                Some(vec!["float".to_string(), "urgent".to_string()]),
                r.state
            );
            assert_eq!(Some("web".to_string()), r.desktop);
            assert_eq!("firefox", r.application);
        }
        _ => panic!("wrong subcommand"),
    }
}

#[test]
fn a_rule_line_without_states_leaves_them_absent() {
    let parsed = parse_tokens(&toks(&["rule", "firefox"])).unwrap();
    match parsed {
        SubCommand::Rule(r) => {
            assert_eq!(None, r.state);
            assert_eq!(None, r.desktop);
            assert_eq!("firefox", r.application);
        }
        _ => panic!("wrong subcommand"),
    }
}

#[test]
fn parse_errors_name_what_went_wrong() {
    assert_eq!(
        Err(ParseError::EmptyLine),
        parse_tokens(&toks(&[])).map(|_| ())
    );
    assert_eq!(
        Err(ParseError::UnknownCommand),
        parse_tokens(&toks(&["resize", "HDMI-0"])).map(|_| ())
    );
    assert_eq!(
        Err(ParseError::UnknownFlag),
        parse_tokens(&toks(&["monitor", "--frame", "x"])).map(|_| ())
    );
    assert_eq!(
        Err(ParseError::MissingFlagValue),
        parse_tokens(&toks(&["monitor", "HDMI-0", "--name"])).map(|_| ())
    );
    assert_eq!(
        Err(ParseError::MissingArgument),
        parse_tokens(&toks(&["config", "--monitor", "left"])).map(|_| ())
    );
    assert_eq!(
        Err(ParseError::TooManyArguments),
        parse_tokens(&toks(&["config", "timeout", "500", "late"])).map(|_| ())
    );
}

#[test]
fn a_request_line_carries_the_sender_name_first() {
    let parsed = parse_request("ibsc monitor HDMI-0 --name left").unwrap();
    match parsed {
        SubCommand::Monitor(m) => {
            assert_eq!("HDMI-0", m.monitor);
            assert_eq!(Some("left".to_string()), m.name);
        }
        _ => panic!("wrong subcommand"),
    }
    assert_eq!(
        Err(ParseError::EmptyLine),
        parse_request("ibsc").map(|_| ())
    );
}

#[test]
fn aliasing_then_configuring_through_the_alias_lands_on_the_monitor() {
    let mut wm = WindowManager::new();
    wm.monitors.add_monitor(Monitor::new("HDMI-0".to_string()));

    let alias_cmd = parse_request("ibsc monitor HDMI-0 --name left").unwrap();
    assert_eq!(Ok(None), wm.handle_command(alias_cmd));

    let config_cmd = parse_request("ibsc config --monitor left timeout 500").unwrap();
    assert_eq!(Ok(None), wm.handle_command(config_cmd));

    // The value set through the alias is read back through the primary
    // name: both resolve to the monitor named HDMI-0.
    let read_cmd = parse_request("ibsc config --monitor HDMI-0 timeout").unwrap();
    assert_eq!(Ok(Some("500".to_string())), wm.handle_command(read_cmd));

    assert_eq!("HDMI-0", wm.monitors.0[0].name);
    assert_eq!(Some("left".to_string()), wm.monitors.0[0].alias);
}

#[test]
fn a_monitor_command_for_an_unknown_monitor_fails() {
    let mut wm = WindowManager::new();
    let cmd = parse_request("ibsc monitor HDMI-0 --name left").unwrap();
    assert_eq!(Err(ExecError::UnknownMonitor), wm.handle_command(cmd));
}

#[test]
fn a_monitor_command_adds_the_listed_desktops_in_order() {
    let mut wm = WindowManager::new();
    wm.monitors.add_monitor(Monitor::new("HDMI-0".to_string()));

    let cmd = parse_request("ibsc monitor HDMI-0 --desktops web --desktops mail").unwrap();
    assert_eq!(Ok(None), wm.handle_command(cmd));

    // One default desktop from creation, two added by the command.
    assert_eq!(3, wm.monitors.0[0].desktops.len());
    assert_eq!(None, wm.monitors.0[0].alias);
}

#[test]
fn a_global_config_key_is_set_and_read_back() {
    let mut wm = WindowManager::new();
    let set = parse_request("ibsc config border 2").unwrap();
    assert_eq!(Ok(None), wm.handle_command(set));

    let read = parse_request("ibsc config border").unwrap();
    assert_eq!(Ok(Some("2".to_string())), wm.handle_command(read));

    let unset = parse_request("ibsc config gap").unwrap();
    assert_eq!(Ok(None), wm.handle_command(unset));
}

#[test]
fn a_rule_command_registers_a_placement_rule() {
    let mut wm = WindowManager::new();
    let cmd = parse_request("ibsc rule --state float --desktop web firefox").unwrap();
    assert_eq!(Ok(None), wm.handle_command(cmd));

    assert_eq!(1, wm.rules.len());
    assert_eq!("firefox", wm.rules[0].application);
    assert_eq!(Some("web".to_string()), wm.rules[0].desktop);
    assert_eq!(Some(vec!["float".to_string()]), wm.rules[0].state);
}
