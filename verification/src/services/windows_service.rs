//! The agent as a Windows service.

use vstd::prelude::*;

use crate::text::chars;
use crate::text::chars::{str_eq, strings};

verus! {

/// The name of the service.
pub const SERVICE_NAME: &'static str = "xjp-deploy-agent";

/// The name of the service for display.
pub const SERVICE_DISPLAY_NAME: &'static str = "XJP Deploy Agent";

/// The description of the service.
pub const SERVICE_DESCRIPTION: &'static str =
    "XiaoJinPro Deploy Agent - Manages deployments, tunnels, and auto-updates";

/// The arguments that the service is started with.
pub fn launch_arguments() -> (r: Vec<String>)
    ensures
        chars::views(r@) == seq!["service"@, "run"@],
{
    let r = strings(&["service", "run"]);
    assert(chars::views(r@) =~= seq!["service"@, "run"@]);
    r
}

/// The arguments, of which the first is the program, start the service.
pub open spec fn starts_service(args: Seq<String>) -> bool {
    args.len() >= 3 && args[1]@ == "service"@ && args[2]@ == "run"@
}

/// Whether the program was started as a service.
pub fn is_running_as_service(args: &Vec<String>) -> (r: bool)
    ensures
        r == starts_service(args@),
{
    args.len() >= 3 && str_eq(args[1].as_str(), "service") && str_eq(args[2].as_str(), "run")
}

/// What is to be done with the service.
#[derive(Debug)]
pub enum ServiceCommand {
    /// Tell how the command is used.
    Usage,
    Install,
    Uninstall,
    Start,
    Stop,
    Status,
    /// Run as the service.
    Run,
    /// Tell that there is no such command.
    Unknown(String),
}

/// The command with a name.
pub open spec fn is_command(c: ServiceCommand, name: Seq<char>) -> bool {
    match c {
        ServiceCommand::Usage => false,
        ServiceCommand::Install => name == "install"@,
        ServiceCommand::Uninstall => name == "uninstall"@,
        ServiceCommand::Start => name == "start"@,
        ServiceCommand::Stop => name == "stop"@,
        ServiceCommand::Status => name == "status"@,
        ServiceCommand::Run => name == "run"@,
        ServiceCommand::Unknown(s) => {
            &&& s@ == name
            &&& name != "install"@
            &&& name != "uninstall"@
            &&& name != "start"@
            &&& name != "stop"@
            &&& name != "status"@
            &&& name != "run"@
        },
    }
}

/// The service command that the arguments, of which the first is the program,
/// hold; none where the program is not asked to manage the service.
pub fn service_command(args: &Vec<String>) -> (r: Option<ServiceCommand>)
    ensures
        r is Some <==> args@.len() >= 2 && args@[1]@ == "service"@,
        r matches Some(c) ==> if args@.len() < 3 {
            c is Usage
        } else {
            is_command(c, args@[2]@)
        },
{
    if args.len() < 2 || !str_eq(args[1].as_str(), "service") {
        return None;
    }
    if args.len() < 3 {
        return Some(ServiceCommand::Usage);
    }
    let name = args[2].as_str();
    Some(
        if str_eq(name, "install") {
            ServiceCommand::Install
        } else if str_eq(name, "uninstall") {
            ServiceCommand::Uninstall
        } else if str_eq(name, "start") {
            ServiceCommand::Start
        } else if str_eq(name, "stop") {
            ServiceCommand::Stop
        } else if str_eq(name, "status") {
            ServiceCommand::Status
        } else if str_eq(name, "run") {
            ServiceCommand::Run
        } else {
            ServiceCommand::Unknown(args[2].clone())
        },
    )
}

/// A service that the program installed runs as one: the arguments that the
/// service is started with hold the command to run.
pub proof fn installed_service_runs(args: Seq<String>)
    requires
        args.len() == 3,
        chars::views(args.subrange(1, 3)) == seq!["service"@, "run"@],
    ensures
        starts_service(args),
{
    let tail = args.subrange(1, 3);
    assert(chars::views(tail)[0] == tail[0]@);
    assert(chars::views(tail)[1] == tail[1]@);
}

} // verus!
