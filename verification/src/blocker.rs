//! The update-blocking action.
//!
//! On each firing, the action walks a fixed list of Windows-Update-related
//! services; for each it requests a best-effort stop, reads the current
//! configuration, and — only when the start type is already `Disabled` —
//! rewrites the configuration with an explicit `Disabled` start type, so
//! that a transient reset of the stored configuration by the OS is undone.
//! The stored executable path is split into the executable and its argument
//! vector before it is placed into the rewrite.  Independently, a fixed
//! batch of administrative shell commands is dispatched fire-and-forget.
//!
//! The decision of what to write is made here; issuing the SCM calls around
//! it is the driver's job (see [`crate::registry`]).

use vstd::prelude::*;
use crate::registry::{ServiceConfigModel, ServiceInfoModel, StartType};
use crate::split::{join_spec, split_spec, token_clean, tokens_view, split_command_line};
use crate::split::lemma_split_join_roundtrip;

verus! {

/// The fixed, immutable list of Windows-Update-related service names the
/// action touches, in the order they are walked.
pub fn blocked_service_names() -> (r: Vec<&'static str>)
    ensures
        r@.len() == 7,
        r@[0]@ == "wuauserv"@,
        r@[1]@ == "WaaSMedicSvc"@,
        r@[2]@ == "UsoSvc"@,
        r@[3]@ == "bits"@,
        r@[4]@ == "DoSvc"@,
        r@[5]@ == "PeerDistSvc"@,
        r@[6]@ == "appidsvc"@,
{
    let mut v: Vec<&'static str> = Vec::new();
    v.push("wuauserv");
    v.push("WaaSMedicSvc");
    v.push("UsoSvc");
    v.push("bits");
    v.push("DoSvc");
    v.push("PeerDistSvc");
    v.push("appidsvc");
    v
}

/// The fixed batch of administrative shell commands the action dispatches
/// fire-and-forget: a scheduled-task disable, registry edits, and a process
/// termination.
pub fn admin_commands() -> (r: Vec<&'static str>)
    ensures
        r@.len() == 5,
        r@[0]@ == r#"Disable-ScheduledTask -TaskName "\Microsoft\Windows\WindowsUpdate\Scheduled Start" | Out-Null")"#@,
        r@[1]@ == r#"if (!(Test-Path "HKLM:\Software\Microsoft\WindowsUpdate\UX\Settings")) { New-Item -Path "HKLM:\Software\Microsoft\WindowsUpdate\UX\Settings" -Force | Out-Null }"#@,
        r@[2]@ == r#"Set-ItemProperty -Path "HKLM:\Software\Microsoft\WindowsUpdate\UX\Settings" -Name "UxOption" -Type DWord -Value 1"#@,
        r@[3]@ == r#"Stop-Process -Name "MoUsoCoreWorker", "TiWorker" -Force -PassThru -ErrorAction SilentlyContinue | Out-Null"#@,
        r@[4]@ == r#"Set-ItemProperty -Path "HKLM:\SYSTEM\ControlSet001\Services\WaaSMedicSvc" -Name Start -Value 4"#@,
{
    let mut v: Vec<&'static str> = Vec::new();
    v.push(r#"Disable-ScheduledTask -TaskName "\Microsoft\Windows\WindowsUpdate\Scheduled Start" | Out-Null")"#);
    v.push(r#"if (!(Test-Path "HKLM:\Software\Microsoft\WindowsUpdate\UX\Settings")) { New-Item -Path "HKLM:\Software\Microsoft\WindowsUpdate\UX\Settings" -Force | Out-Null }"#);
    v.push(r#"Set-ItemProperty -Path "HKLM:\Software\Microsoft\WindowsUpdate\UX\Settings" -Name "UxOption" -Type DWord -Value 1"#);
    v.push(r#"Stop-Process -Name "MoUsoCoreWorker", "TiWorker" -Force -PassThru -ErrorAction SilentlyContinue | Out-Null"#);
    v.push(r#"Set-ItemProperty -Path "HKLM:\SYSTEM\ControlSet001\Services\WaaSMedicSvc" -Name Start -Value 4"#);
    v
}

/// What the action rewrites for one service, given its queried
/// configuration: `None` when no write is made (start type not `Disabled`,
/// or a stored path with no token at all), otherwise the executable and
/// argument vector extracted from the stored path.
pub open spec fn rewrite_spec(config: ServiceConfigModel) -> Option<(Seq<char>, Seq<Seq<char>>)> {
    if config.start_type != StartType::Disabled {
        None
    } else {
        let ts = split_spec(config.executable_path@);
        if ts.len() == 0 {
            None
        } else {
            Some((ts[0], ts.drop_first()))
        }
    }
}

/// The command line the SCM stores after a rewrite: the executable, quoted
/// if it needs it, followed by the arguments.
pub open spec fn stored_command_line(exe: Seq<char>, args: Seq<Seq<char>>) -> Seq<char> {
    join_spec(seq![exe] + args)
}

/// Decide the configuration rewrite for one service of the blocked list.
/// `name` is the service's own name; the rest of the new configuration is
/// carried over from the queried one, with the start type pinned to
/// `Disabled`, the stored path split into executable and arguments, and no
/// account password.
pub fn plan_rewrite(name: Vec<char>, config: ServiceConfigModel) -> (r: Option<ServiceInfoModel>)
    ensures
        r is None <==> rewrite_spec(config) is None,
        (r matches Some(info) ==> {
            let ts = split_spec(config.executable_path@);
            &&& info.name@ == name@
            &&& info.display_name@ == config.display_name@
            &&& info.service_type == config.service_type
            &&& info.start_type == StartType::Disabled
            &&& info.error_control == config.error_control
            &&& info.executable_path@ == ts[0]
            &&& tokens_view(info.launch_arguments@) == ts.drop_first()
            &&& info.dependencies@ == config.dependencies@
            &&& info.account_name == config.account_name
            &&& info.account_password is None
        }),
{
    if config.start_type != StartType::Disabled {
        return None;
    }
    match split_command_line(&config.executable_path) {
        None => None,
        Some(cl) => Some(
            ServiceInfoModel {
                name,
                display_name: config.display_name,
                service_type: config.service_type,
                start_type: StartType::Disabled,
                error_control: config.error_control,
                executable_path: cl.executable,
                launch_arguments: cl.arguments,
                dependencies: config.dependencies,
                account_name: config.account_name,
                account_password: None,
            },
        ),
    }
}

/// Law: the update-blocking rewrite is idempotent.  If `second` is the
/// configuration the SCM reports after the rewrite decided from `first`
/// was applied (start type `Disabled`, stored path as the SCM reassembles
/// it), then the rewrite decided from `second` is the same one, and what it
/// would store equals what is already stored — the second application
/// changes nothing.  This needs the stored tokens to be free of quote
/// characters, as any path the rewrite itself stored is.
pub proof fn lemma_rewrite_idempotent(first: ServiceConfigModel, second: ServiceConfigModel)
    requires
        first.start_type == StartType::Disabled,
        split_spec(first.executable_path@).len() > 0,
        forall|i: int|
            0 <= i < split_spec(first.executable_path@).len() ==> token_clean(
                #[trigger] split_spec(first.executable_path@)[i],
            ),
        second.start_type == StartType::Disabled,
        second.executable_path@ == stored_command_line(
            split_spec(first.executable_path@)[0],
            split_spec(first.executable_path@).drop_first(),
        ),
    ensures
        rewrite_spec(second) == rewrite_spec(first),
        (rewrite_spec(second) matches Some(rw) ==> stored_command_line(rw.0, rw.1)
            == second.executable_path@),
{
    let ts = split_spec(first.executable_path@);
    assert(seq![ts[0]] + ts.drop_first() =~= ts);
    lemma_split_join_roundtrip(ts);
    assert(split_spec(second.executable_path@) == ts);
}

} // verus!
