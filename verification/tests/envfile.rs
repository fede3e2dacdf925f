use lx::envfile::{split_env_line, split_lines, EnvError, EnvFile};

#[test]
fn create_twice_leaves_empty() {
    let mut env = EnvFile::new();
    env.create();
    assert!(env.created());
    assert_eq!(env.line_count(), 0);
    assert_eq!(env.render(), "");
    env.append(String::from("A=1")).unwrap();
    env.create();
    assert!(env.created());
    assert_eq!(env.line_count(), 0);
    assert_eq!(env.render(), "");
}

#[test]
fn append_before_create_fails() {
    let mut env = EnvFile::new();
    let r = env.append(String::from("TEST_KEY=TEST_VALUE"));
    assert_eq!(r, Err(EnvError::NotCreated));
    assert_eq!(env.line_count(), 0);
}

#[test]
fn append_after_create_keeps_order() {
    let mut env = EnvFile::new();
    env.create();
    assert_eq!(env.append(String::from("TEST_KEY=TEST_VALUE")), Ok(()));
    assert!(env.render().contains("TEST_KEY=TEST_VALUE"));
    assert_eq!(env.append(String::from("SECOND=2")), Ok(()));
    assert_eq!(env.render(), "TEST_KEY=TEST_VALUE\nSECOND=2\n");
    assert_eq!(env.line_count(), 2);
}

#[test]
fn split_lines_cuts_at_newlines() {
    let lines = split_lines("A=1\nB=2\n");
    assert_eq!(lines, vec![String::from("A=1"), String::from("B=2"), String::new()]);
}

#[test]
fn split_lines_of_empty_text() {
    assert_eq!(split_lines(""), vec![String::new()]);
}

#[test]
fn split_lines_without_trailing_newline() {
    assert_eq!(
        split_lines("A=1\nB=2"),
        vec![String::from("A=1"), String::from("B=2")]
    );
}

#[test]
fn split_env_line_at_first_equals() {
    assert_eq!(
        split_env_line("KEY=VALUE"),
        Some((String::from("KEY"), String::from("VALUE")))
    );
    assert_eq!(
        split_env_line("KEY=a=b"),
        Some((String::from("KEY"), String::from("a=b")))
    );
    assert_eq!(
        split_env_line("=v"),
        Some((String::new(), String::from("v")))
    );
    assert_eq!(split_env_line("noequals"), None);
    assert_eq!(split_env_line(""), None);
}

#[test]
fn render_and_split_round_trip() {
    let mut env = EnvFile::new();
    env.create();
    env.append(String::from("IP_ADDRESS=10.0.0.7")).unwrap();
    env.append(String::from("EMPTY=")).unwrap();
    let rendered = env.render();
    let lines = split_lines(&rendered);
    assert_eq!(lines.len(), 3);
    assert_eq!(
        split_env_line(&lines[0]),
        Some((String::from("IP_ADDRESS"), String::from("10.0.0.7")))
    );
    assert_eq!(
        split_env_line(&lines[1]),
        Some((String::from("EMPTY"), String::new()))
    );
    assert_eq!(lines[2], "");
}
