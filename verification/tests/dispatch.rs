use srvm::cli_interface::{lookup_environment, lookup_task};
use srvm::config::{parse_configuration_str, Service, SshConfiguration, Task};
use srvm::services::service;
use srvm::services::ssh;

fn full_config() -> SshConfiguration {
    SshConfiguration {
        host: "h".to_string(),
        port: Some(19),
        key_file: Some("/k".to_string()),
        user: Some("u".to_string()),
    }
}

#[test]
fn end_to_end_run_deploy() {
    let text = "environments:\n  prod:\n    service:\n      ssh: 10.0.0.1\n    tasks:\n      deploy: make deploy\ndefault_environment: prod\n";
    let config = parse_configuration_str(text).unwrap();
    assert_eq!(config.default_environment, Some("prod".to_string()));
    let environment = lookup_environment(&config, &"prod".to_string()).unwrap();
    let task = lookup_task(environment, &"deploy".to_string()).unwrap();
    let inv = service::run_task(&environment.service, task);
    assert_eq!(inv.program, "ssh");
    assert_eq!(inv.args, vec!["10.0.0.1".to_string(), "make deploy".to_string()]);
}

#[test]
fn round_trip_echo_hi() {
    let text = "environments:\n  e1:\n    service:\n      ssh: h\n    tasks:\n      t1: echo hi\n";
    let config = parse_configuration_str(text).unwrap();
    let environment = lookup_environment(&config, &"e1".to_string()).unwrap();
    let task = lookup_task(environment, &"t1".to_string()).unwrap();
    let inv = service::run_task(&environment.service, task);
    assert_eq!(inv.args, vec!["h".to_string(), "echo hi".to_string()]);
    assert_eq!(inv.args.last(), Some(&"echo hi".to_string()));
}

#[test]
fn missing_task_resolves_to_nothing() {
    let text = "environments:\n  prod:\n    service:\n      ssh: 10.0.0.1\n    tasks:\n      deploy: make deploy\ndefault_environment: prod\n";
    let config = parse_configuration_str(text).unwrap();
    let environment = lookup_environment(&config, &"prod".to_string()).unwrap();
    assert!(lookup_task(environment, &"missing-task".to_string()).is_none());
    assert!(lookup_environment(&config, &"staging".to_string()).is_none());
}

#[test]
fn bare_session_uses_the_plain_host() {
    let cfg = SshConfiguration {
        host: "example.com".to_string(),
        port: None,
        key_file: None,
        user: None,
    };
    let inv = ssh::enter_ssh(&cfg);
    assert_eq!(inv.program, "ssh");
    assert_eq!(inv.args, vec!["example.com".to_string()]);
}

#[test]
fn session_arguments_carry_every_set_field() {
    let inv = ssh::enter_ssh(&full_config());
    assert_eq!(
        inv.args,
        vec!["u@h".to_string(), "-p 19".to_string(), "-i/k".to_string()]
    );
}

#[test]
fn command_is_the_one_trailing_argument() {
    let inv = ssh::run_command(&full_config(), "ls -l /tmp");
    assert_eq!(
        inv.args,
        vec![
            "u@h".to_string(),
            "-p 19".to_string(),
            "-i/k".to_string(),
            "ls -l /tmp".to_string(),
        ]
    );
}

#[test]
fn service_dispatch_matches_the_ssh_module() {
    let svc = Service::Ssh(full_config());
    assert_eq!(service::enter_ssh(&svc), ssh::enter_ssh(&full_config()));
    assert_eq!(
        service::run_command(&svc, "make"),
        ssh::run_command(&full_config(), "make")
    );
    let task = Task::Command("make deploy".to_string());
    assert_eq!(
        service::run_task(&svc, &task),
        service::run_command(&svc, "make deploy")
    );
}

#[test]
fn port_renders_in_decimal() {
    for (port, expected) in [
        (0u16, "-p 0"),
        (7u16, "-p 7"),
        (22u16, "-p 22"),
        (8080u16, "-p 8080"),
        (65535u16, "-p 65535"),
    ] {
        let cfg = SshConfiguration {
            host: "h".to_string(),
            port: Some(port),
            key_file: None,
            user: None,
        };
        let inv = ssh::enter_ssh(&cfg);
        assert_eq!(inv.args[1], expected.to_string());
    }
}
