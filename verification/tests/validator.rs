use lx::args::validate_command;

#[test]
fn validate_start() {
    assert_eq!(validate_command("start"), Ok(()));
}

#[test]
fn validate_stop() {
    assert_eq!(validate_command("stop"), Ok(()));
}

#[test]
fn validate_restart() {
    assert_eq!(validate_command("restart"), Ok(()));
}

#[test]
fn validate_status() {
    assert_eq!(validate_command("status"), Ok(()));
}

#[test]
fn validate_logs() {
    assert_eq!(validate_command("logs"), Ok(()));
}

#[test]
fn validate_clean() {
    assert_eq!(validate_command("clean"), Ok(()));
}

#[test]
fn validate_config() {
    assert_eq!(validate_command("config"), Ok(()));
}

#[test]
fn validate_install() {
    assert_eq!(validate_command("install"), Ok(()));
}

#[test]
fn validate_invalid() {
    assert_eq!(
        validate_command("invalid"),
        Err(String::from("Command doesn't exist."))
    );
}

#[test]
fn validate_bogus_rejected_before_dispatch() {
    assert_eq!(
        validate_command("bogus"),
        Err(String::from("Command doesn't exist."))
    );
    assert!(lx::args::parse_command("bogus").is_none());
}

#[test]
fn validate_near_misses() {
    assert!(validate_command("").is_err());
    assert!(validate_command("Start").is_err());
    assert!(validate_command("start ").is_err());
    assert!(validate_command("stopp").is_err());
}

#[test]
fn parse_maps_to_the_right_command() {
    assert_eq!(lx::args::parse_command("start"), Some(lx::args::Command::Start));
    assert_eq!(lx::args::parse_command("install"), Some(lx::args::Command::Install));
    assert_eq!(lx::args::parse_command("clean"), Some(lx::args::Command::Clean));
}
