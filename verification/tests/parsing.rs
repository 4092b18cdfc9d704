use srvm::config::{
    parse_configuration, parse_configuration_str, parse_environment_config, parse_service,
    parse_task, parse_tasks, Error, Service, SshConfiguration, Task,
};
use srvm::node::{map_get, Node};

fn st(x: &str) -> Node {
    Node::Str(x.to_string())
}

#[test]
fn absent_environments_is_empty_configuration() {
    let config = parse_configuration(&Node::Mapping(vec![])).unwrap();
    assert!(config.environments.is_empty());
    assert!(config.default_environment.is_none());

    let config = parse_configuration_str("default_environment: prod").unwrap();
    assert!(config.environments.is_empty());
    assert_eq!(config.default_environment, Some("prod".to_string()));
}

#[test]
fn bare_string_task_is_command() {
    match parse_task(&st("echo hi")) {
        Ok(Task::Command(c)) => assert_eq!(c, "echo hi"),
        _ => panic!("expected a command task"),
    }
}

#[test]
fn bare_string_service_is_host_only() {
    let cfg = parse_ssh(&st("10.0.0.1"));
    assert_eq!(
        cfg,
        SshConfiguration {
            host: "10.0.0.1".to_string(),
            port: None,
            key_file: None,
            user: None,
        }
    );
}

fn parse_ssh(node: &Node) -> SshConfiguration {
    srvm::config::parse_ssh_configuration(node).unwrap()
}

#[test]
fn expanded_service_reads_all_fields() {
    let service = Node::Mapping(vec![
        (st("host"), st("example.com")),
        (st("port"), Node::Int(2222)),
        (st("key_file"), st("  /home/u/key \t")),
        (st("user"), st("deploy")),
    ]);
    let cfg = parse_ssh(&service);
    assert_eq!(cfg.host, "example.com");
    assert_eq!(cfg.port, Some(2222));
    assert_eq!(cfg.key_file, Some("/home/u/key".to_string()));
    assert_eq!(cfg.user, Some("deploy".to_string()));
}

#[test]
fn expanded_service_ignores_wrongly_typed_optionals() {
    let service = Node::Mapping(vec![
        (st("host"), st("h")),
        (st("port"), st("not a number")),
        (st("key_file"), Node::Int(3)),
        (st("user"), Node::Other),
    ]);
    let cfg = parse_ssh(&service);
    assert_eq!(cfg.port, None);
    assert_eq!(cfg.key_file, None);
    assert_eq!(cfg.user, None);
}

#[test]
fn port_is_cast_to_sixteen_bits() {
    let service = Node::Mapping(vec![
        (st("host"), st("h")),
        (st("port"), Node::Int(65536 + 22)),
    ]);
    let cfg = parse_ssh(&service);
    assert_eq!(cfg.port, Some(22));
}

#[test]
fn parse_twice_is_structurally_equal() {
    let text = "environments:\n  prod:\n    service:\n      ssh: 10.0.0.1\n    tasks:\n      deploy: make deploy\ndefault_environment: prod\n";
    let a = parse_configuration_str(text);
    let b = parse_configuration_str(text);
    assert!(a.is_ok());
    assert_eq!(a, b);
}

#[test]
fn unknown_task_type_message_names_it() {
    let task = Node::Mapping(vec![(st("type"), st("script")), (st("command"), st("x"))]);
    match parse_task(&task) {
        Err(Error::Yaml(msg)) => {
            assert_eq!(msg, "invalid type \"script\"");
            assert!(msg.contains("script"));
        }
        _ => panic!("expected a validation failure"),
    }
}

#[test]
fn missing_host_is_its_own_failure() {
    let service = Node::Mapping(vec![(st("port"), Node::Int(22))]);
    match srvm::config::parse_ssh_configuration(&service) {
        Err(Error::Yaml(msg)) => {
            assert_eq!(msg, "SSH host must be a string");
            assert_ne!(msg, "SSH configuration must be a string or a mapping");
        }
        _ => panic!("expected the host failure"),
    }
    match srvm::config::parse_ssh_configuration(&Node::Int(5)) {
        Err(Error::Yaml(msg)) => {
            assert_eq!(msg, "SSH configuration must be a string or a mapping")
        }
        _ => panic!("expected the shape failure"),
    }
}

#[test]
fn root_must_be_a_mapping() {
    match parse_configuration(&st("just a scalar")) {
        Err(Error::Yaml(msg)) => assert_eq!(msg, "configuration file must be a mapping"),
        _ => panic!("expected a validation failure"),
    }
    match parse_configuration_str("- a\n- sequence\n") {
        Err(Error::Yaml(msg)) => assert_eq!(msg, "configuration file must be a mapping"),
        _ => panic!("expected a validation failure"),
    }
}

#[test]
fn environments_must_be_a_mapping() {
    let doc = Node::Mapping(vec![(st("environments"), st("nope"))]);
    match parse_configuration(&doc) {
        Err(Error::Yaml(msg)) => assert_eq!(msg, "the environments property must be a mapping"),
        _ => panic!("expected a validation failure"),
    }
}

#[test]
fn environment_names_must_be_strings() {
    let doc = Node::Mapping(vec![(
        st("environments"),
        Node::Mapping(vec![(Node::Int(1), Node::Mapping(vec![]))]),
    )]);
    match parse_configuration(&doc) {
        Err(Error::Yaml(msg)) => assert_eq!(msg, "environment names must be strings"),
        _ => panic!("expected a validation failure"),
    }
}

#[test]
fn environment_definition_must_be_a_mapping() {
    let doc = Node::Mapping(vec![(
        st("environments"),
        Node::Mapping(vec![(st("prod"), st("nope"))]),
    )]);
    match parse_configuration(&doc) {
        Err(Error::Yaml(msg)) => assert_eq!(msg, "an environment definition must be a mapping"),
        _ => panic!("expected a validation failure"),
    }
}

#[test]
fn service_definition_must_be_a_mapping() {
    match parse_environment_config(&vec![(st("service"), st("nope"))]) {
        Err(Error::Yaml(msg)) => assert_eq!(msg, "a service definition must be a mapping"),
        _ => panic!("expected a validation failure"),
    }
    match parse_environment_config(&vec![]) {
        Err(Error::Yaml(msg)) => assert_eq!(msg, "a service definition must be a mapping"),
        _ => panic!("expected a validation failure"),
    }
}

#[test]
fn unknown_service_kind_is_rejected() {
    match parse_service(&vec![(st("telnet"), st("h"))]) {
        Err(Error::Yaml(msg)) => assert_eq!(msg, "invalid service type"),
        _ => panic!("expected a validation failure"),
    }
    match parse_service(&vec![(st("ssh"), st("h"))]) {
        Ok(Service::Ssh(cfg)) => assert_eq!(cfg.host, "h"),
        _ => panic!("expected the connection-protocol service"),
    }
}

#[test]
fn tasks_property_must_be_a_mapping() {
    let env = vec![
        (st("service"), Node::Mapping(vec![(st("ssh"), st("h"))])),
        (st("tasks"), st("nope")),
    ];
    match parse_environment_config(&env) {
        Err(Error::Yaml(msg)) => assert_eq!(msg, "the tasks property must be a mapping"),
        _ => panic!("expected a validation failure"),
    }
}

#[test]
fn absent_tasks_means_no_tasks() {
    let env = vec![(st("service"), Node::Mapping(vec![(st("ssh"), st("h"))]))];
    let environment = parse_environment_config(&env).unwrap();
    assert!(environment.tasks.is_empty());
}

#[test]
fn task_names_must_be_strings() {
    match parse_tasks(&vec![(Node::Int(9), st("ls"))]) {
        Err(Error::Yaml(msg)) => assert_eq!(msg, "task names must be strings"),
        _ => panic!("expected a validation failure"),
    }
}

#[test]
fn expanded_task_needs_type_and_command() {
    let no_type = Node::Mapping(vec![(st("command"), st("ls"))]);
    match parse_task(&no_type) {
        Err(Error::Yaml(msg)) => assert_eq!(msg, "a task definition must have a type property"),
        _ => panic!("expected a validation failure"),
    }
    let bad_command = Node::Mapping(vec![(st("type"), st("command")), (st("command"), Node::Int(1))]);
    match parse_task(&bad_command) {
        Err(Error::Yaml(msg)) => assert_eq!(msg, "the command property must be a string"),
        _ => panic!("expected a validation failure"),
    }
    let good = Node::Mapping(vec![(st("type"), st("command")), (st("command"), st("make"))]);
    match parse_task(&good) {
        Ok(Task::Command(c)) => assert_eq!(c, "make"),
        _ => panic!("expected a command task"),
    }
    match parse_task(&Node::Other) {
        Err(Error::Yaml(msg)) => assert_eq!(msg, "a task definition must be a string or a mapping"),
        _ => panic!("expected a validation failure"),
    }
}

#[test]
fn malformed_text_is_a_scan_failure() {
    match parse_configuration_str("environments: {\n") {
        Err(Error::YamlParse(msg)) => assert!(!msg.is_empty()),
        _ => panic!("expected a scan failure"),
    }
}

#[test]
fn repeated_key_keeps_the_later_value() {
    let entries = vec![(st("k"), st("first")), (st("k"), st("second"))];
    match map_get(&entries, &"k".to_string()) {
        Some(Node::Str(v)) => assert_eq!(v, "second"),
        _ => panic!("expected the later binding"),
    }
    assert!(map_get(&entries, &"other".to_string()).is_none());
}
