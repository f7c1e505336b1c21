//! The service's own fixed identity and the configuration it is installed
//! with.

use vstd::prelude::*;
use crate::registry::{ErrorControl, ServiceInfoModel, ServiceKind, StartType};
use crate::split::tokens_view;

verus! {

/// The name the service is registered under.
pub fn service_name() -> (r: &'static str)
    ensures
        r@ == "WindowsUpdateBlocker.rs"@,
{
    "WindowsUpdateBlocker.rs"
}

/// The display name shown for the service.
pub fn service_display_name() -> (r: &'static str)
    ensures
        r@ == "Blocker for Windows Update"@,
{
    "Blocker for Windows Update"
}

/// The launch arguments the installed service is started with.
pub fn service_arguments() -> (r: Vec<&'static str>)
    ensures
        r@.len() == 1,
        r@[0]@ == "run"@,
{
    let mut v: Vec<&'static str> = Vec::new();
    v.push("run");
    v
}

/// The trigger of the periodic job: fires every five minutes.
pub fn cron_schedule() -> (r: &'static str)
    ensures
        r@ == "0 */5 * * * *"@,
{
    "0 */5 * * * *"
}

/// Descriptor of this service as installed: identity plus the executable
/// and arguments it is launched with.
pub struct WindowsService {
    pub name: Vec<char>,
    pub display_name: Vec<char>,
    pub executable_path: Vec<char>,
    pub arguments: Vec<Vec<char>>,
}

/// The configuration a fresh install registers: the descriptor's identity
/// and command, an automatically started own-process service with normal
/// error control, no dependencies and no account.
pub fn install_info(service: WindowsService) -> (r: ServiceInfoModel)
    ensures
        r.name@ == service.name@,
        r.display_name@ == service.display_name@,
        r.service_type == ServiceKind::OwnProcess,
        r.start_type == StartType::AutoStart,
        r.error_control == ErrorControl::Normal,
        r.executable_path@ == service.executable_path@,
        tokens_view(r.launch_arguments@) == tokens_view(service.arguments@),
        r.dependencies@.len() == 0,
        r.account_name is None,
        r.account_password is None,
{
    ServiceInfoModel {
        name: service.name,
        display_name: service.display_name,
        service_type: ServiceKind::OwnProcess,
        start_type: StartType::AutoStart,
        error_control: ErrorControl::Normal,
        executable_path: service.executable_path,
        launch_arguments: service.arguments,
        dependencies: Vec::new(),
        account_name: None,
        account_password: None,
    }
}

} // verus!
