use rodman_compose::config::{ActionType, Config, PsArgument, UpArgument};

#[test]
fn up_with_flags() {
    let c = Config::new(None, "up".to_string(), true, true, false);
    assert_eq!(c.filename, "default");
    assert_eq!(c.action, ActionType::Up);
    assert_eq!(c.up_arguments, vec![UpArgument::Detach, UpArgument::Network]);
    assert!(c.ps_arguments.is_empty());
}

#[test]
fn up_without_flags() {
    let c = Config::new(None, "up".to_string(), false, false, false);
    assert_eq!(c.action, ActionType::Up);
    assert!(c.up_arguments.is_empty());
    assert!(c.ps_arguments.is_empty());
}

#[test]
fn up_network_only() {
    let c = Config::new(None, "up".to_string(), false, true, false);
    assert_eq!(c.up_arguments, vec![UpArgument::Network]);
}

#[test]
fn down_action() {
    let c = Config::new(None, "down".to_string(), false, false, false);
    assert_eq!(c.action, ActionType::Down);
    assert!(c.up_arguments.is_empty());
}

#[test]
fn ps_all_action() {
    let c = Config::new(None, "ps".to_string(), false, false, true);
    assert_eq!(c.action, ActionType::Ps);
    assert_eq!(c.ps_arguments, vec![PsArgument::All]);
    assert!(c.up_arguments.is_empty());
}

#[test]
fn stop_action() {
    let c = Config::new(None, "stop".to_string(), false, false, false);
    assert_eq!(c.action, ActionType::Stop);
}

#[test]
fn unknown_action_is_undefined() {
    let c = Config::new(None, String::new(), false, false, false);
    assert_eq!(c.action, ActionType::Undefined);
    assert!(c.up_arguments.is_empty());
    assert!(c.ps_arguments.is_empty());
}

#[test]
fn explicit_file_is_kept() {
    let c = Config::new(
        Some("container-compose.yml".to_string()),
        "up".to_string(),
        false,
        false,
        false,
    );
    assert_eq!(c.filename, "container-compose.yml");
}

#[test]
fn flags_ignored_outside_their_subcommand() {
    let c = Config::new(None, "down".to_string(), true, true, true);
    assert_eq!(c.action, ActionType::Down);
    assert!(c.up_arguments.is_empty());
    assert!(c.ps_arguments.is_empty());
}
