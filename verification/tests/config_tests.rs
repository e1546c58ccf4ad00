use orpheusdl_tray::config::{CliConfig, Config};
use orpheusdl_tray::logger::{log_level, LogLevel};
use orpheusdl_tray::text::decimal_string;

fn empty_cli() -> CliConfig {
    CliConfig {
        host: None,
        port: None,
        token: None,
        timeout: None,
        orpheusdl_path: None,
        debug: false,
        save_to_file: false,
        orpheusdl_args: Vec::new(),
    }
}

#[test]
fn defaults_are_the_first_run_configuration() {
    let c = Config::defaults();
    assert_eq!(c.host, [127, 0, 0, 1]);
    assert_eq!(c.port, 9221);
    assert_eq!(c.token, "change_me");
    assert_eq!(c.timeout, 1);
    assert!(!c.debug);
    assert_eq!(c.orpheusdl_path, "change_me");
    assert!(c.orpheusdl_args.is_empty());
}

#[test]
fn default_listen_address() {
    assert_eq!(Config::defaults().listen_address(), "127.0.0.1:9221");
}

#[test]
fn listen_address_of_other_hosts() {
    let mut c = Config::defaults();
    c.host = [10, 0, 255, 7];
    c.port = 80;
    assert_eq!(c.listen_address(), "10.0.255.7:80");
    c.host = [0, 0, 0, 0];
    c.port = 65535;
    assert_eq!(c.listen_address(), "0.0.0.0:65535");
}

#[test]
fn decimal_notation() {
    assert_eq!(decimal_string(0), "0");
    assert_eq!(decimal_string(9), "9");
    assert_eq!(decimal_string(10), "10");
    assert_eq!(decimal_string(1234567890), "1234567890");
    assert_eq!(decimal_string(u64::MAX), u64::MAX.to_string());
}

#[test]
fn empty_command_line_keeps_file_settings() {
    let mut base = Config::defaults();
    base.debug = true;
    base.token = "secret".to_string();
    base.orpheusdl_args = vec!["-q".to_string()];
    let c = Config::merged(empty_cli(), base);
    assert_eq!(c.host, [127, 0, 0, 1]);
    assert_eq!(c.port, 9221);
    assert_eq!(c.token, "secret");
    assert_eq!(c.timeout, 1);
    assert_eq!(c.orpheusdl_path, "change_me");
    // debug and the OrpheusDL arguments come from the command line alone
    assert!(!c.debug);
    assert!(c.orpheusdl_args.is_empty());
}

#[test]
fn command_line_overrides_file() {
    let cli = CliConfig {
        host: Some([192, 168, 1, 2]),
        port: Some(8080),
        token: Some("tok".to_string()),
        timeout: Some(5),
        orpheusdl_path: Some("/opt/orpheusdl".to_string()),
        debug: true,
        save_to_file: true,
        orpheusdl_args: vec!["--lyrics".to_string(), "x".to_string()],
    };
    let c = Config::merged(cli, Config::defaults());
    assert_eq!(c.host, [192, 168, 1, 2]);
    assert_eq!(c.port, 8080);
    assert_eq!(c.token, "tok");
    assert_eq!(c.timeout, 5);
    assert!(c.debug);
    assert_eq!(c.orpheusdl_path, "/opt/orpheusdl");
    assert_eq!(c.orpheusdl_args, vec!["--lyrics".to_string(), "x".to_string()]);
    assert_eq!(c.listen_address(), "192.168.1.2:8080");
}

#[test]
fn merging_twice_changes_nothing() {
    let cli = || CliConfig {
        port: Some(1),
        debug: true,
        ..empty_cli()
    };
    let once = Config::merged(cli(), Config::defaults());
    let once_port = once.port;
    let once_token = once.token.clone();
    let twice = Config::merged(cli(), once);
    assert_eq!(twice.port, once_port);
    assert_eq!(twice.token, once_token);
    assert!(twice.debug);
}

#[test]
fn logging_level_follows_debug_flag() {
    assert_eq!(log_level(true), LogLevel::Info);
    assert_eq!(log_level(false), LogLevel::Debug);
}
