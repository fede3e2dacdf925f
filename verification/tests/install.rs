use lx::envfile::{split_lines, EnvFile};
use lx::install::{create_random_token, get_db_password, get_ip_address, install_env_lines};

#[test]
fn install_with_empty_password_input() {
    let mut env = EnvFile::new();
    let outcome = install_env_lines(&mut env, "\n", "192.168.1.10");
    assert_eq!(outcome.password, "root");
    assert_eq!(outcome.ip, "192.168.1.10");
    assert_eq!(outcome.access_token.len(), 128);
    assert_eq!(outcome.refresh_token.len(), 128);

    let lines = split_lines(&env.render());
    assert_eq!(lines.len(), 6);
    assert_eq!(lines[0], "DATABASE_PASSWORD=root");
    assert_eq!(lines[1], "API_URL=http://192.168.1.10:3001/api");
    assert_eq!(lines[2], "IP_ADDRESS=192.168.1.10");
    assert_eq!(lines[3], format!("ACCESS_TOKEN={}", outcome.access_token));
    assert_eq!(lines[4], format!("REFRESH_TOKEN={}", outcome.refresh_token));
    assert_eq!(lines[5], "");
}

#[test]
fn install_trims_the_password_input() {
    let mut env = EnvFile::new();
    let outcome = install_env_lines(&mut env, "  hunter2  \n", "10.0.0.1");
    assert_eq!(outcome.password, "hunter2");
    assert!(env.render().contains("DATABASE_PASSWORD=hunter2\n"));
}

#[test]
fn install_writes_exactly_one_ip_line() {
    let mut env = EnvFile::new();
    install_env_lines(&mut env, "pw\n", "10.1.2.3");
    let rendered = env.render();
    let ip_lines = split_lines(&rendered)
        .into_iter()
        .filter(|l| l.starts_with("IP_ADDRESS="))
        .count();
    let api_lines = split_lines(&rendered)
        .into_iter()
        .filter(|l| l.starts_with("API_URL="))
        .count();
    assert_eq!(ip_lines, 1);
    assert_eq!(api_lines, 1);
}

#[test]
fn db_password_defaults_to_root() {
    let mut env = EnvFile::new();
    env.create();
    let password = get_db_password(&mut env, "   \n").unwrap();
    assert_eq!(password, "root");
    assert_eq!(env.render(), "DATABASE_PASSWORD=root\n");
}

#[test]
fn db_password_fails_before_creation() {
    let mut env = EnvFile::new();
    assert!(get_db_password(&mut env, "pw\n").is_err());
}

#[test]
fn test_create_random_token() {
    let mut env = EnvFile::new();
    env.create();
    let result = create_random_token(&mut env, "test_token");
    assert!(result.is_ok());
    let token = result.unwrap();
    assert_eq!(token.len(), 128);
    assert!(token.chars().all(|c| c.is_ascii_alphanumeric()));
    assert!(env.render().contains("test_token="));
}

#[test]
fn two_tokens_differ() {
    let mut env = EnvFile::new();
    env.create();
    let first = create_random_token(&mut env, "A").unwrap();
    let second = create_random_token(&mut env, "A").unwrap();
    assert_ne!(first, second);
}

#[test]
fn ip_lookup_feeds_the_env_file() {
    let mut env = EnvFile::new();
    env.create();
    match get_ip_address(&mut env) {
        Ok(ip) => {
            assert!(ip.contains('.') || ip.contains(':'));
            let rendered = env.render();
            assert!(rendered.contains(&format!("IP_ADDRESS={}\n", ip)));
            assert!(rendered.contains(&format!("API_URL=http://{}:3001/api\n", ip)));
        }
        Err(_) => {
            // no resolvable local address on this machine: nothing was written
            assert_eq!(env.render(), "");
        }
    }
}

#[test]
fn whole_flow_with_real_lookup() {
    let mut env = EnvFile::new();
    match lx::install::all(&mut env, "secret\n") {
        Ok(outcome) => {
            assert_eq!(outcome.password, "secret");
            assert_eq!(env.line_count(), 5);
            let rendered = env.render();
            assert!(rendered.starts_with("DATABASE_PASSWORD=secret\nAPI_URL=http://"));
            assert!(rendered.contains(&format!("IP_ADDRESS={}\n", outcome.ip)));
            assert!(rendered.contains(&format!("ACCESS_TOKEN={}\n", outcome.access_token)));
            assert!(rendered.contains(&format!("REFRESH_TOKEN={}\n", outcome.refresh_token)));
        }
        Err(_) => {
            // no resolvable local address on this machine: the flow stopped
            // right after the password line, as the contract says
            assert_eq!(env.render(), "DATABASE_PASSWORD=secret\n");
        }
    }
}

#[test]
fn ip_lookup_fails_before_creation() {
    let mut env = EnvFile::new();
    assert!(get_ip_address(&mut env).is_err());
    assert_eq!(env.line_count(), 0);
}
