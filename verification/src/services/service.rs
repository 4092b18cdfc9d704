//! Dispatch over the service variants: maps an abstract service, and
//! optionally a task or a literal command line, to the invocation plan of
//! the matching external client.

use vstd::prelude::*;

use crate::cli_interface::spec_lookup;
use crate::config::{ConfigurationV, EnvironmentV, Service, ServiceV, Task, TaskV};
use crate::services::ssh;
use crate::services::ssh::{spec_invocation, Invocation, InvocationV};

verus! {

/// The invocation plan for a service, with an optional trailing command.
pub open spec fn spec_service_invocation(s: ServiceV, command: Option<Seq<char>>) -> InvocationV {
    match s {
        ServiceV::Ssh(c) => spec_invocation(c, command),
    }
}

/// The literal command line of a task.
pub open spec fn spec_task_command(t: TaskV) -> Seq<char> {
    match t {
        TaskV::Command(c) => c,
    }
}

/// The invocation that opens an interactive session on the service.
pub fn enter_ssh(service: &Service) -> (inv: Invocation)
    ensures
        inv.deep_view() == spec_service_invocation(service.deep_view(), None),
{
    match service {
        Service::Ssh(config) => ssh::enter_ssh(config),
    }
}

/// The invocation that runs one literal command line on the service.
pub fn run_command(service: &Service, command: &str) -> (inv: Invocation)
    ensures
        inv.deep_view() == spec_service_invocation(service.deep_view(), Some(command@)),
{
    match service {
        Service::Ssh(config) => ssh::run_command(config, command),
    }
}

/// The invocation that runs a task on the service: a command task runs its
/// literal command line.
pub fn run_task(service: &Service, task: &Task) -> (inv: Invocation)
    ensures
        inv.deep_view() == spec_service_invocation(
            service.deep_view(),
            Some(spec_task_command(task.deep_view())),
        ),
{
    match task {
        Task::Command(command) => run_command(service, command.as_str()),
    }
}

/// Round trip: resolving an environment and then one of its tasks by
/// their names, and running that task, hands the task's literal command
/// line to the command builder unchanged — the built invocation ends in
/// exactly that command.
pub proof fn lemma_run_resolved_task(
    c: ConfigurationV,
    environment_name: Seq<char>,
    task_name: Seq<char>,
    e: EnvironmentV,
    t: TaskV,
    inv: InvocationV,
)
    requires
        spec_lookup(c.environments, environment_name) == Some(e),
        spec_lookup(e.tasks, task_name) == Some(t),
        inv == spec_service_invocation(e.service, Some(spec_task_command(t))),
    ensures
        inv.args.len() > 0,
        inv.args.last() == spec_task_command(t),
{
}

} // verus!
