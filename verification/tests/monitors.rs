use ibswm::monitors::{Monitor, Monitors};

#[test]
fn a_name_is_correctly_set_when_adding_a_monitor() {
    let mut monitors = Monitors::new();
    monitors.add_monitor(Monitor::new("test".to_string()));

    assert_eq!("test".to_string(), monitors.0[0].name);
    assert_eq!(1, monitors.0.len());
}

#[test]
fn a_monitor_can_be_find_by_name() {
    let mut monitors = Monitors::new();
    monitors.add_monitor(Monitor::new("HDMI-0".to_string()));

    let monitor = monitors.find_by_name("HDMI-0");

    assert_eq!(true, monitor.is_some());
    assert_eq!("HDMI-0".to_string(), monitor.unwrap().name);
    assert_eq!(1, monitors.0.len());
}

#[test]
fn a_monitor_can_be_aliased() {
    let mut monitors = Monitors::new();
    monitors.add_monitor(Monitor::new("HDMI-0".to_string()));

    let monitor = monitors.find_by_name("HDMI-0").unwrap();
    monitor.set_alias("left");

    assert_eq!(true, monitor.alias.is_some());
    assert_eq!("left", monitor.alias.as_ref().unwrap());
    assert_eq!(1, monitors.0.len());
}

#[test]
fn a_monitor_is_found_by_name_and_by_alias_alike() {
    let mut monitors = Monitors::new();
    monitors.add_monitor(Monitor::new("HDMI-0".to_string()));
    monitors.add_monitor(Monitor::new("DP-1".to_string()));
    monitors.find_by_name("HDMI-0").unwrap().set_alias("left");

    let by_name = monitors.find_by_name("HDMI-0").unwrap().name.clone();
    let by_alias = monitors.find_by_name("left").unwrap().name.clone();
    assert_eq!(by_name, by_alias);
    assert_eq!("HDMI-0", by_name);
}

#[test]
fn aliasing_does_not_revoke_the_primary_name() {
    let mut monitors = Monitors::new();
    monitors.add_monitor(Monitor::new("HDMI-0".to_string()));
    monitors.find_by_name("HDMI-0").unwrap().set_alias("left");

    let found = monitors.find_by_name("HDMI-0");
    assert!(found.is_some());
    let m = found.unwrap();
    assert_eq!("HDMI-0", m.name);
    assert_eq!("left", m.alias.as_ref().unwrap());
}

#[test]
fn an_unknown_name_finds_no_monitor() {
    let mut monitors = Monitors::new();
    monitors.add_monitor(Monitor::new("HDMI-0".to_string()));

    assert!(monitors.find_by_name("VGA-1").is_none());
}

#[test]
fn a_new_monitor_has_one_default_desktop() {
    let monitor = Monitor::new("HDMI-0".to_string());
    assert_eq!(1, monitor.desktops.len());
    assert!(monitor.alias.is_none());
}
