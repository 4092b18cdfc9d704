//! The configuration model — environments, services, tasks — and the
//! parser that turns a loosely-typed document tree into it, or into a
//! structured error. Parsing is strict: the first violation anywhere in
//! the tree aborts the whole parse.

use vstd::prelude::*;

use crate::node::{lemma_mapping_deep_view, map_get, spec_map_get, spec_trim, trim_str, Node, NodeV};

verus! {

/// A connection-protocol service: how to reach one remote host.
#[derive(Clone, Debug, PartialEq)]
pub struct SshConfiguration {
    pub host: String,
    pub port: Option<u16>,
    pub key_file: Option<String>,
    pub user: Option<String>,
}

/// The mathematical model of an `SshConfiguration`.
pub struct SshConfigurationV {
    pub host: Seq<char>,
    pub port: Option<u16>,
    pub key_file: Option<Seq<char>>,
    pub user: Option<Seq<char>>,
}

impl DeepView for SshConfiguration {
    type V = SshConfigurationV;

    open spec fn deep_view(&self) -> SshConfigurationV {
        SshConfigurationV {
            host: self.host@,
            port: self.port,
            key_file: self.key_file.deep_view(),
            user: self.user.deep_view(),
        }
    }
}

/// A way to reach a remote target; the connection-protocol service is the
/// one variant implemented today.
#[derive(Clone, Debug, PartialEq)]
pub enum Service {
    Ssh(SshConfiguration),
}

/// The mathematical model of a `Service`.
pub enum ServiceV {
    Ssh(SshConfigurationV),
}

impl DeepView for Service {
    type V = ServiceV;

    open spec fn deep_view(&self) -> ServiceV {
        match self {
            Service::Ssh(c) => ServiceV::Ssh(c.deep_view()),
        }
    }
}

/// A named, reusable unit of work; the literal shell command is the one
/// variant implemented today.
#[derive(Clone, Debug, PartialEq)]
pub enum Task {
    Command(String),
}

/// The mathematical model of a `Task`.
pub enum TaskV {
    Command(Seq<char>),
}

impl DeepView for Task {
    type V = TaskV;

    open spec fn deep_view(&self) -> TaskV {
        match self {
            Task::Command(c) => TaskV::Command(c@),
        }
    }
}

/// One remote target: a service and its named tasks, in document order.
#[derive(Clone, Debug, PartialEq)]
pub struct Environment {
    pub service: Service,
    pub tasks: Vec<(String, Task)>,
}

/// The mathematical model of an `Environment`.
pub struct EnvironmentV {
    pub service: ServiceV,
    pub tasks: Seq<(Seq<char>, TaskV)>,
}

impl DeepView for Environment {
    type V = EnvironmentV;

    open spec fn deep_view(&self) -> EnvironmentV {
        EnvironmentV { service: self.service.deep_view(), tasks: self.tasks.deep_view() }
    }
}

/// The root of the model: the named environments, in document order, and
/// the optional default-environment name (stored as given, never checked
/// against the environment names).
#[derive(Clone, Debug, PartialEq)]
pub struct Configuration {
    pub default_environment: Option<String>,
    pub environments: Vec<(String, Environment)>,
}

/// The mathematical model of a `Configuration`.
pub struct ConfigurationV {
    pub default_environment: Option<Seq<char>>,
    pub environments: Seq<(Seq<char>, EnvironmentV)>,
}

impl DeepView for Configuration {
    type V = ConfigurationV;

    open spec fn deep_view(&self) -> ConfigurationV {
        ConfigurationV {
            default_environment: self.default_environment.deep_view(),
            environments: self.environments.deep_view(),
        }
    }
}

/// What loading a configuration can fail with: an unreadable file, a
/// malformed document, or a document that violates the schema.
#[derive(Clone, Debug, PartialEq)]
pub enum Error {
    /// The file could not be read; carries the operating system's message.
    Io(String),
    /// The document parses but violates the schema; carries the rule.
    Yaml(String),
    /// The document itself is malformed; carries the scanner's message.
    YamlParse(String),
}

/// The mathematical model of an `Error`.
pub enum ErrorV {
    Io(Seq<char>),
    Yaml(Seq<char>),
    YamlParse(Seq<char>),
}

impl DeepView for Error {
    type V = ErrorV;

    open spec fn deep_view(&self) -> ErrorV {
        match self {
            Error::Io(m) => ErrorV::Io(m@),
            Error::Yaml(m) => ErrorV::Yaml(m@),
            Error::YamlParse(m) => ErrorV::YamlParse(m@),
        }
    }
}

/// The deep view of a result: both sides taken to their models.
pub open spec fn res_view<T: DeepView, E: DeepView>(r: Result<T, E>) -> Result<T::V, E::V> {
    match r {
        Ok(t) => Ok(t.deep_view()),
        Err(e) => Err(e.deep_view()),
    }
}

/// What a service definition parses to: a bare string is the host with
/// every optional field absent; a mapping must carry a string `host` and
/// may carry `port` (an integer, cast to 16 bits), `key_file` (a string,
/// trimmed of surrounding white space) and `user` (a string); any other
/// shape is rejected.
pub open spec fn spec_parse_ssh(n: NodeV) -> Result<SshConfigurationV, ErrorV> {
    match n {
        NodeV::Str(host) => Ok(
            SshConfigurationV { host, port: None, key_file: None, user: None },
        ),
        NodeV::Mapping(m) => match spec_map_get(m, "host"@) {
            Some(NodeV::Str(host)) => Ok(
                SshConfigurationV {
                    host,
                    port: match spec_map_get(m, "port"@) {
                        Some(NodeV::Int(p)) => Some(p as u16),
                        _ => None,
                    },
                    key_file: match spec_map_get(m, "key_file"@) {
                        Some(NodeV::Str(k)) => Some(spec_trim(k)),
                        _ => None,
                    },
                    user: match spec_map_get(m, "user"@) {
                        Some(NodeV::Str(u)) => Some(u),
                        _ => None,
                    },
                },
            ),
            _ => Err(ErrorV::Yaml("SSH host must be a string"@)),
        },
        _ => Err(ErrorV::Yaml("SSH configuration must be a string or a mapping"@)),
    }
}

/// What a service mapping parses to: the entry under the known service
/// kind `ssh`, parsed as a connection-protocol configuration; a mapping
/// without that kind is rejected.
pub open spec fn spec_parse_service(m: Seq<(NodeV, NodeV)>) -> Result<ServiceV, ErrorV> {
    match spec_map_get(m, "ssh"@) {
        Some(n) => match spec_parse_ssh(n) {
            Ok(c) => Ok(ServiceV::Ssh(c)),
            Err(e) => Err(e),
        },
        None => Err(ErrorV::Yaml("invalid service type"@)),
    }
}

/// What a task definition parses to: a bare string is a command task with
/// that literal command; a mapping must carry a string `type` naming the
/// one known discriminator `command` and then a string `command`; any
/// other shape is rejected.
pub open spec fn spec_parse_task(n: NodeV) -> Result<TaskV, ErrorV> {
    match n {
        NodeV::Str(command) => Ok(TaskV::Command(command)),
        NodeV::Mapping(m) => match spec_map_get(m, "type"@) {
            Some(NodeV::Str(t)) => if t == "command"@ {
                match spec_map_get(m, "command"@) {
                    Some(NodeV::Str(c)) => Ok(TaskV::Command(c)),
                    _ => Err(ErrorV::Yaml("the command property must be a string"@)),
                }
            } else {
                Err(ErrorV::Yaml("invalid type \""@ + t + "\""@))
            },
            _ => Err(ErrorV::Yaml("a task definition must have a type property"@)),
        },
        _ => Err(ErrorV::Yaml("a task definition must be a string or a mapping"@)),
    }
}

/// What the entries of a tasks mapping from index `i` on parse to: each
/// key must be a string and each value a task definition; the first
/// violation in document order aborts the parse.
pub open spec fn spec_parse_tasks_from(m: Seq<(NodeV, NodeV)>, i: int) -> Result<
    Seq<(Seq<char>, TaskV)>,
    ErrorV,
>
    decreases m.len() - i,
{
    if i < 0 || i >= m.len() {
        Ok(Seq::empty())
    } else {
        match m[i].0 {
            NodeV::Str(name) => match spec_parse_task(m[i].1) {
                Ok(t) => match spec_parse_tasks_from(m, i + 1) {
                    Ok(rest) => Ok(seq![(name, t)] + rest),
                    Err(e) => Err(e),
                },
                Err(e) => Err(e),
            },
            _ => Err(ErrorV::Yaml("task names must be strings"@)),
        }
    }
}

/// What an environment definition parses to: a required `service` mapping,
/// and an optional `tasks` mapping (absent means no tasks).
pub open spec fn spec_parse_environment(m: Seq<(NodeV, NodeV)>) -> Result<EnvironmentV, ErrorV> {
    match spec_map_get(m, "service"@) {
        Some(NodeV::Mapping(sm)) => match spec_parse_service(sm) {
            Ok(service) => match spec_map_get(m, "tasks"@) {
                None => Ok(EnvironmentV { service, tasks: Seq::empty() }),
                Some(NodeV::Mapping(tm)) => match spec_parse_tasks_from(tm, 0) {
                    Ok(tasks) => Ok(EnvironmentV { service, tasks }),
                    Err(e) => Err(e),
                },
                Some(_) => Err(ErrorV::Yaml("the tasks property must be a mapping"@)),
            },
            Err(e) => Err(e),
        },
        _ => Err(ErrorV::Yaml("a service definition must be a mapping"@)),
    }
}

/// What the entries of the environments mapping from index `i` on parse
/// to: each key must be a string and each value a mapping parsed as an
/// environment definition.
pub open spec fn spec_parse_environments_from(m: Seq<(NodeV, NodeV)>, i: int) -> Result<
    Seq<(Seq<char>, EnvironmentV)>,
    ErrorV,
>
    decreases m.len() - i,
{
    if i < 0 || i >= m.len() {
        Ok(Seq::empty())
    } else {
        match m[i].0 {
            NodeV::Str(name) => match m[i].1 {
                NodeV::Mapping(em) => match spec_parse_environment(em) {
                    Ok(e) => match spec_parse_environments_from(m, i + 1) {
                        Ok(rest) => Ok(seq![(name, e)] + rest),
                        Err(err) => Err(err),
                    },
                    Err(err) => Err(err),
                },
                _ => Err(ErrorV::Yaml("an environment definition must be a mapping"@)),
            },
            _ => Err(ErrorV::Yaml("environment names must be strings"@)),
        }
    }
}

/// What a whole document parses to: the root must be a mapping; an absent
/// `environments` key means no environments, never an error; the optional
/// `default_environment` string is stored as given.
pub open spec fn spec_parse_configuration(n: NodeV) -> Result<ConfigurationV, ErrorV> {
    match n {
        NodeV::Mapping(m) => {
            let envs = match spec_map_get(m, "environments"@) {
                None => Ok(Seq::<(Seq<char>, EnvironmentV)>::empty()),
                Some(NodeV::Mapping(em)) => spec_parse_environments_from(em, 0),
                Some(_) => Err(ErrorV::Yaml("the environments property must be a mapping"@)),
            };
            match envs {
                Ok(environments) => Ok(
                    ConfigurationV {
                        default_environment: match spec_map_get(m, "default_environment"@) {
                            Some(NodeV::Str(s)) => Some(s),
                            _ => None,
                        },
                        environments,
                    },
                ),
                Err(e) => Err(e),
            }
        },
        _ => Err(ErrorV::Yaml("configuration file must be a mapping"@)),
    }
}

/// Parses a service definition node as a connection-protocol configuration.
pub fn parse_ssh_configuration(config: &Node) -> (r: Result<SshConfiguration, Error>)
    ensures
        res_view(r) == spec_parse_ssh(config.deep_view()),
{
    match config {
        Node::Str(host) => Ok(
            SshConfiguration { host: host.clone(), port: None, key_file: None, user: None },
        ),
        Node::Mapping(entries) => {
            proof {
                lemma_mapping_deep_view(*entries);
            }
            let host = match map_get(entries, &String::from_str("host")) {
                Some(Node::Str(h)) => h.clone(),
                _ => {
                    return Err(Error::Yaml(String::from_str("SSH host must be a string")));
                },
            };
            let port: Option<u16> = match map_get(entries, &String::from_str("port")) {
                Some(Node::Int(p)) => Some(#[verifier::truncate] (*p as u16)),
                _ => None,
            };
            let key_file: Option<String> = match map_get(entries, &String::from_str("key_file")) {
                Some(Node::Str(k)) => Some(trim_str(k.as_str())),
                _ => None,
            };
            let user: Option<String> = match map_get(entries, &String::from_str("user")) {
                Some(Node::Str(u)) => Some(u.clone()),
                _ => None,
            };
            Ok(SshConfiguration { host, port, key_file, user })
        },
        _ => Err(Error::Yaml(String::from_str("SSH configuration must be a string or a mapping"))),
    }
}

/// Parses a service mapping: only the known kind `ssh` is accepted.
pub fn parse_service(service: &Vec<(Node, Node)>) -> (r: Result<Service, Error>)
    ensures
        res_view(r) == spec_parse_service(service.deep_view()),
{
    match map_get(service, &String::from_str("ssh")) {
        Some(config) => match parse_ssh_configuration(config) {
            Ok(c) => Ok(Service::Ssh(c)),
            Err(e) => Err(e),
        },
        None => Err(Error::Yaml(String::from_str("invalid service type"))),
    }
}

/// Parses a task definition node.
pub fn parse_task(task: &Node) -> (r: Result<Task, Error>)
    ensures
        res_view(r) == spec_parse_task(task.deep_view()),
{
    match task {
        Node::Str(command) => Ok(Task::Command(command.clone())),
        Node::Mapping(entries) => {
            proof {
                lemma_mapping_deep_view(*entries);
            }
            let task_type = match map_get(entries, &String::from_str("type")) {
                Some(Node::Str(t)) => t,
                _ => {
                    return Err(
                        Error::Yaml(String::from_str("a task definition must have a type property")),
                    );
                },
            };
            if *task_type == String::from_str("command") {
                match map_get(entries, &String::from_str("command")) {
                    Some(Node::Str(c)) => Ok(Task::Command(c.clone())),
                    _ => Err(Error::Yaml(String::from_str("the command property must be a string"))),
                }
            } else {
                let mut msg = String::from_str("invalid type \"");
                msg.append(task_type.as_str());
                msg.append("\"");
                Err(Error::Yaml(msg))
            }
        },
        _ => Err(Error::Yaml(String::from_str("a task definition must be a string or a mapping"))),
    }
}

/// Parses the entries of a tasks mapping, in document order, failing on
/// the first violation.
pub fn parse_tasks(entries: &Vec<(Node, Node)>) -> (r: Result<Vec<(String, Task)>, Error>)
    ensures
        res_view(r) == spec_parse_tasks_from(entries.deep_view(), 0),
{
    let ghost m = entries.deep_view();
    let mut out: Vec<(String, Task)> = Vec::new();
    let mut i: usize = 0;
    proof {
        assert(out.deep_view() =~= Seq::<(Seq<char>, TaskV)>::empty());
        match spec_parse_tasks_from(m, 0) {
            Ok(rest) => {
                assert(out.deep_view() + rest =~= rest);
            },
            Err(e) => {},
        }
    }
    while i < entries.len()
        invariant
            i <= entries.len(),
            m == entries.deep_view(),
            spec_parse_tasks_from(m, 0) == (match spec_parse_tasks_from(m, i as int) {
                Ok(rest) => Ok::<Seq<(Seq<char>, TaskV)>, ErrorV>(out.deep_view() + rest),
                Err(e) => Err::<Seq<(Seq<char>, TaskV)>, ErrorV>(e),
            }),
        decreases entries.len() - i,
    {
        let pair = &entries[i];
        let name = match &pair.0 {
            Node::Str(s) => s.clone(),
            _ => {
                return Err(Error::Yaml(String::from_str("task names must be strings")));
            },
        };
        let task = match parse_task(&pair.1) {
            Ok(t) => t,
            Err(e) => {
                return Err(e);
            },
        };
        let ghost prev = out.deep_view();
        out.push((name, task));
        proof {
            assert(out.deep_view() =~= prev + seq![(name@, task.deep_view())]);
            match spec_parse_tasks_from(m, i + 1) {
                Ok(rest) => {
                    assert(prev + (seq![(name@, task.deep_view())] + rest) =~= out.deep_view()
                        + rest);
                },
                Err(e) => {},
            }
        }
        i = i + 1;
    }
    proof {
        assert(out.deep_view() + Seq::<(Seq<char>, TaskV)>::empty() =~= out.deep_view());
    }
    Ok(out)
}

/// Parses an environment definition mapping: its service and its tasks.
pub fn parse_environment_config(config: &Vec<(Node, Node)>) -> (r: Result<Environment, Error>)
    ensures
        res_view(r) == spec_parse_environment(config.deep_view()),
{
    let service = match map_get(config, &String::from_str("service")) {
        Some(Node::Mapping(sm)) => {
            proof {
                lemma_mapping_deep_view(*sm);
            }
            match parse_service(sm) {
                Ok(s) => s,
                Err(e) => {
                    return Err(e);
                },
            }
        },
        _ => {
            return Err(Error::Yaml(String::from_str("a service definition must be a mapping")));
        },
    };
    let tasks = match map_get(config, &String::from_str("tasks")) {
        None => {
            let empty: Vec<(String, Task)> = Vec::new();
            proof {
                assert(empty.deep_view() =~= Seq::<(Seq<char>, TaskV)>::empty());
            }
            empty
        },
        Some(Node::Mapping(tm)) => {
            proof {
                lemma_mapping_deep_view(*tm);
            }
            match parse_tasks(tm) {
                Ok(ts) => ts,
                Err(e) => {
                    return Err(e);
                },
            }
        },
        Some(_) => {
            return Err(Error::Yaml(String::from_str("the tasks property must be a mapping")));
        },
    };
    Ok(Environment { service, tasks })
}

/// Parses the entries of the environments mapping, in document order,
/// failing on the first violation.
fn parse_environments(entries: &Vec<(Node, Node)>) -> (r: Result<
    Vec<(String, Environment)>,
    Error,
>)
    ensures
        res_view(r) == spec_parse_environments_from(entries.deep_view(), 0),
{
    let ghost m = entries.deep_view();
    let mut out: Vec<(String, Environment)> = Vec::new();
    let mut i: usize = 0;
    proof {
        assert(out.deep_view() =~= Seq::<(Seq<char>, EnvironmentV)>::empty());
        match spec_parse_environments_from(m, 0) {
            Ok(rest) => {
                assert(out.deep_view() + rest =~= rest);
            },
            Err(e) => {},
        }
    }
    while i < entries.len()
        invariant
            i <= entries.len(),
            m == entries.deep_view(),
            spec_parse_environments_from(m, 0) == (match spec_parse_environments_from(
                m,
                i as int,
            ) {
                Ok(rest) => Ok::<Seq<(Seq<char>, EnvironmentV)>, ErrorV>(out.deep_view() + rest),
                Err(e) => Err::<Seq<(Seq<char>, EnvironmentV)>, ErrorV>(e),
            }),
        decreases entries.len() - i,
    {
        let pair = &entries[i];
        let name = match &pair.0 {
            Node::Str(s) => s.clone(),
            _ => {
                return Err(Error::Yaml(String::from_str("environment names must be strings")));
            },
        };
        let environment = match &pair.1 {
            Node::Mapping(em) => {
                proof {
                    lemma_mapping_deep_view(*em);
                }
                match parse_environment_config(em) {
                    Ok(e) => e,
                    Err(e) => {
                        return Err(e);
                    },
                }
            },
            _ => {
                return Err(
                    Error::Yaml(String::from_str("an environment definition must be a mapping")),
                );
            },
        };
        let ghost prev = out.deep_view();
        out.push((name, environment));
        proof {
            assert(out.deep_view() =~= prev + seq![(name@, environment.deep_view())]);
            match spec_parse_environments_from(m, i + 1) {
                Ok(rest) => {
                    assert(prev + (seq![(name@, environment.deep_view())] + rest)
                        =~= out.deep_view() + rest);
                },
                Err(e) => {},
            }
        }
        i = i + 1;
    }
    proof {
        assert(out.deep_view() + Seq::<(Seq<char>, EnvironmentV)>::empty() =~= out.deep_view());
    }
    Ok(out)
}

/// Parses a whole document tree as a configuration.
pub fn parse_configuration(doc: &Node) -> (r: Result<Configuration, Error>)
    ensures
        res_view(r) == spec_parse_configuration(doc.deep_view()),
{
    match doc {
        Node::Mapping(entries) => {
            proof {
                lemma_mapping_deep_view(*entries);
            }
            let environments = match map_get(entries, &String::from_str("environments")) {
                None => {
                    let empty: Vec<(String, Environment)> = Vec::new();
                    proof {
                        assert(empty.deep_view() =~= Seq::<(Seq<char>, EnvironmentV)>::empty());
                    }
                    empty
                },
                Some(Node::Mapping(em)) => {
                    proof {
                        lemma_mapping_deep_view(*em);
                    }
                    match parse_environments(em) {
                        Ok(envs) => envs,
                        Err(e) => {
                            return Err(e);
                        },
                    }
                },
                Some(_) => {
                    return Err(
                        Error::Yaml(String::from_str("the environments property must be a mapping")),
                    );
                },
            };
            let default_environment = match map_get(entries, &String::from_str("default_environment"))
                {
                Some(Node::Str(s)) => Some(s.clone()),
                _ => None,
            };
            Ok(Configuration { default_environment, environments })
        },
        _ => Err(Error::Yaml(String::from_str("configuration file must be a mapping"))),
    }
}

/// An absent `environments` key is never an error: a mapping document
/// without one parses to a configuration with no environments.
pub proof fn lemma_absent_environments(m: Seq<(NodeV, NodeV)>)
    requires
        spec_map_get(m, "environments"@) is None,
    ensures
        spec_parse_configuration(NodeV::Mapping(m)) == Ok::<ConfigurationV, ErrorV>(
            ConfigurationV {
                default_environment: match spec_map_get(m, "default_environment"@) {
                    Some(NodeV::Str(s)) => Some(s),
                    _ => None,
                },
                environments: Seq::empty(),
            },
        ),
{
}

/// A task definition given as a bare string is a command task whose
/// literal command is that string.
pub proof fn lemma_bare_string_task(s: Seq<char>)
    ensures
        spec_parse_task(NodeV::Str(s)) == Ok::<TaskV, ErrorV>(TaskV::Command(s)),
{
}

/// A service definition given as a bare string is a connection-protocol
/// service whose host is that string, with every optional field absent.
pub proof fn lemma_bare_string_service(h: Seq<char>)
    ensures
        spec_parse_ssh(NodeV::Str(h)) == Ok::<SshConfigurationV, ErrorV>(
            SshConfigurationV { host: h, port: None, key_file: None, user: None },
        ),
{
}

/// An unknown task discriminator is rejected, and the failure's message
/// carries the discriminator itself: it stands, quoted, right after the
/// fourteen characters of `invalid type "`.
pub proof fn lemma_unknown_task_type(m: Seq<(NodeV, NodeV)>, t: Seq<char>)
    requires
        spec_map_get(m, "type"@) == Some(NodeV::Str(t)),
        t != "command"@,
    ensures
        spec_parse_task(NodeV::Mapping(m)) == Err::<TaskV, ErrorV>(
            ErrorV::Yaml("invalid type \""@ + t + "\""@),
        ),
        ("invalid type \""@ + t + "\""@).subrange(14, 14 + t.len() as int) == t,
{
    reveal_strlit("invalid type \"");
    assert(("invalid type \""@ + t + "\""@).subrange(14, 14 + t.len() as int) =~= t);
}

/// A service mapping without a string `host` fails with the host rule,
/// and that failure differs from the one for a service definition of the
/// wrong shape.
pub proof fn lemma_missing_host_distinct(m: Seq<(NodeV, NodeV)>)
    requires
        match spec_map_get(m, "host"@) {
            Some(NodeV::Str(h)) => false,
            _ => true,
        },
    ensures
        spec_parse_ssh(NodeV::Mapping(m)) == Err::<SshConfigurationV, ErrorV>(
            ErrorV::Yaml("SSH host must be a string"@),
        ),
        "SSH host must be a string"@ != "SSH configuration must be a string or a mapping"@,
{
    reveal_strlit("SSH host must be a string");
    reveal_strlit("SSH configuration must be a string or a mapping");
    assert("SSH host must be a string"@.len() != "SSH configuration must be a string or a mapping"@.len());
}

/// What the document loader yields for a given text: the first document of
/// the text as a node tree, or the scanner's message. Scanning is a pure
/// function of the text, so its outcome carries a name and nothing more.
pub uninterp spec fn yaml_doc_of(s: Seq<char>) -> Result<NodeV, Seq<char>>;

#[verifier::external_type_specification]
#[verifier::external_body]
pub struct ExYaml(yaml_rust::Yaml);

/// Relies on yaml_rust's `Yaml` tree shape alone: each scalar string,
/// integer and mapping node is carried over onto the library's own `Node`,
/// and every other shape collapses into `Node::Other`. Only the trusted
/// document loader below calls this.
#[verifier::external_body]
fn node_of_yaml(y: &yaml_rust::Yaml) -> Node {
    match y {
        yaml_rust::Yaml::String(s) => Node::Str(s.clone()),
        yaml_rust::Yaml::Integer(i) => Node::Int(*i),
        yaml_rust::Yaml::Hash(h) => Node::Mapping(
            h.iter().map(|(k, v)| (node_of_yaml(k), node_of_yaml(v))).collect(),
        ),
        _ => Node::Other,
    }
}

/// Relies on `yaml_rust::YamlLoader::load_from_str`: it scans the text into
/// a list of documents or fails with a position-aware message. The first
/// document is handed over as the library's own node tree (a text with no
/// document at all is handed over as `Node::Other`, which no schema rule
/// accepts), a scan failure as the scanner's message.
#[verifier::external_body]
fn load_yaml(contents: &str) -> (r: Result<Node, String>)
    ensures
        match r {
            Ok(n) => yaml_doc_of(contents@) == Ok::<NodeV, Seq<char>>(n.deep_view()),
            Err(m) => yaml_doc_of(contents@) == Err::<NodeV, Seq<char>>(m@),
        },
{
    match yaml_rust::YamlLoader::load_from_str(contents) {
        Ok(docs) => match docs.first() {
            Some(doc) => Ok(node_of_yaml(doc)),
            None => Ok(Node::Other),
        },
        Err(e) => Err(format!("{}", e)),
    }
}

/// Parses the text of a configuration file: scans it as a document and
/// validates the document against the schema.
pub fn parse_configuration_str(contents: &str) -> (r: Result<Configuration, Error>)
    ensures
        match yaml_doc_of(contents@) {
            Ok(doc) => res_view(r) == spec_parse_configuration(doc),
            Err(msg) => res_view(r) == Err::<ConfigurationV, ErrorV>(ErrorV::YamlParse(msg)),
        },
{
    match load_yaml(contents) {
        Ok(doc) => parse_configuration(&doc),
        Err(msg) => Err(Error::YamlParse(msg)),
    }
}

/// Parsing the same text twice yields structurally equal outcomes: what
/// `parse_configuration_str` returns is a function of the text alone, so
/// two results for one text have equal models.
pub proof fn lemma_parse_deterministic(
    s: Seq<char>,
    r1: Result<Configuration, Error>,
    r2: Result<Configuration, Error>,
)
    requires
        match yaml_doc_of(s) {
            Ok(doc) => res_view(r1) == spec_parse_configuration(doc),
            Err(msg) => res_view(r1) == Err::<ConfigurationV, ErrorV>(ErrorV::YamlParse(msg)),
        },
        match yaml_doc_of(s) {
            Ok(doc) => res_view(r2) == spec_parse_configuration(doc),
            Err(msg) => res_view(r2) == Err::<ConfigurationV, ErrorV>(ErrorV::YamlParse(msg)),
        },
    ensures
        res_view(r1) == res_view(r2),
{
}

} // verus!
