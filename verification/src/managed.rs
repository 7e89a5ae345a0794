//! Who runs the VMs of a sandbox, and what is decided for sessions at a provider that manages its
//! VMs itself.

use crate::config::SandboxProviderConfig;
use crate::error::ErrorView;
use crate::error::Result;
use crate::error::SandboxError;
use crate::sandbox::SandboxConfig;
use crate::session::SessionVmAction;
use crate::text::same;
use crate::vm::opt_view;
use crate::vm::Vm;
use crate::vm::VmState;
use vstd::prelude::*;

verus! {

/// A provider that manages its VMs itself.
#[derive(Clone, Copy, Debug, PartialEq, Eq, Structural)]
pub enum ManagedProvider {
    OpenComputer,
    Freestyle,
}

/// Who runs the VMs of a sandbox.
#[derive(Clone, Copy, Debug, PartialEq, Eq, Structural)]
pub enum ControlKind {
    /// Daemons that the sandbox talks to directly.
    Direct,
    /// A provider.
    Managed(ManagedProvider),
    /// A cluster of nodes.
    Clustered,
}

/// What is said where a cluster is asked for and none can be joined.
pub open spec fn no_cluster_text() -> Seq<char> {
    "distributed control requested but crate feature `distributed-control` is disabled"@
}

/// Who runs the VMs of a sandbox: the provider that is named, else the cluster that is named, else
/// the daemons. An error where a cluster is named and this build cannot join one.
pub fn build_control_backend(config: &SandboxConfig, joins_clusters: bool) -> (r: Result<
    ControlKind,
>)
    ensures
        match r {
            Ok(kind) => kind == (match config.provider {
                SandboxProviderConfig::OpenComputer(_) => ControlKind::Managed(
                    ManagedProvider::OpenComputer,
                ),
                SandboxProviderConfig::Freestyle(_) => ControlKind::Managed(
                    ManagedProvider::Freestyle,
                ),
                SandboxProviderConfig::Chevalier => if config.distributed_control is Some {
                    ControlKind::Clustered
                } else {
                    ControlKind::Direct
                },
            }),
            Err(e) => e@ == ErrorView::Unsupported(no_cluster_text()),
        },
        r is Err <==> (config.provider is Chevalier && config.distributed_control is Some
            && !joins_clusters),
{
    match &config.provider {
        SandboxProviderConfig::OpenComputer(_) => Ok(
            ControlKind::Managed(ManagedProvider::OpenComputer),
        ),
        SandboxProviderConfig::Freestyle(_) => Ok(ControlKind::Managed(ManagedProvider::Freestyle)),
        SandboxProviderConfig::Chevalier => {
            if config.distributed_control.is_none() {
                Ok(ControlKind::Direct)
            } else if joins_clusters {
                Ok(ControlKind::Clustered)
            } else {
                Err(
                    SandboxError::Unsupported(
                        "distributed control requested but crate feature `distributed-control` is disabled".to_owned(),
                    ),
                )
            }
        },
    }
}

impl ManagedProvider {
    /// The stable name of the provider, in small letters.
    pub fn provider_name(self) -> (name: &'static str)
        ensures
            name@ == (match self {
                ManagedProvider::OpenComputer => "opencomputer"@,
                ManagedProvider::Freestyle => "freestyle"@,
            }),
    {
        match self {
            ManagedProvider::OpenComputer => "opencomputer",
            ManagedProvider::Freestyle => "freestyle",
        }
    }
}

/// How an action on a VM is called.
pub open spec fn action_name(action: SessionVmAction) -> Seq<char> {
    match action {
        SessionVmAction::Start => "Start"@,
        SessionVmAction::Restart => "Restart"@,
        SessionVmAction::Pause => "Pause"@,
        SessionVmAction::Resume => "Resume"@,
        SessionVmAction::Stop => "Stop"@,
    }
}

/// Checks that a provider acts on the VMs of its sessions. OpenComputer does not.
pub fn check_vm_action(provider: ManagedProvider, action: SessionVmAction) -> (r: Result<()>)
    ensures
        match r {
            Ok(_) => provider is Freestyle,
            Err(e) => provider is OpenComputer && e@ == ErrorView::Unsupported(
                action_name(action) + " is not available for OpenComputer sandboxes"@,
            ),
        },
{
    match provider {
        ManagedProvider::Freestyle => Ok(()),
        ManagedProvider::OpenComputer => {
            let name: &str = match action {
                SessionVmAction::Start => "Start",
                SessionVmAction::Restart => "Restart",
                SessionVmAction::Pause => "Pause",
                SessionVmAction::Resume => "Resume",
                SessionVmAction::Stop => "Stop",
            };
            Err(
                SandboxError::Unsupported(
                    name.to_owned().concat(" is not available for OpenComputer sandboxes"),
                ),
            )
        },
    }
}

/// Checks that a provider deletes checkpoints. OpenComputer does not.
pub fn check_delete_checkpoint(provider: ManagedProvider) -> (r: Result<()>)
    ensures
        match r {
            Ok(_) => provider is Freestyle,
            Err(e) => provider is OpenComputer && e@ == ErrorView::Unsupported(
                "delete_snapshot is not available for OpenComputer sandboxes"@,
            ),
        },
{
    match provider {
        ManagedProvider::Freestyle => Ok(()),
        ManagedProvider::OpenComputer => Err(
            SandboxError::Unsupported(
                "delete_snapshot is not available for OpenComputer sandboxes".to_owned(),
            ),
        ),
    }
}

/// The URL of a port at OpenComputer, which serves it at a domain that it may not have given.
pub fn domain_url(domain: Option<String>) -> (r: Result<String>)
    ensures
        match r {
            Ok(url) => domain matches Some(d) && url@ == "https://"@ + d@,
            Err(e) => domain is None && e@ == ErrorView::Unsupported(
                "OpenComputer did not return a preview domain for this sandbox"@,
            ),
        },
{
    match domain {
        Some(d) => Ok("https://".to_owned().concat(&d)),
        None => Err(
            SandboxError::Unsupported(
                "OpenComputer did not return a preview domain for this sandbox".to_owned(),
            ),
        ),
    }
}

/// The state of a VM at OpenComputer, which shows those that run.
pub fn open_computer_state(found: Result<()>) -> (r: Result<VmState>)
    ensures
        match found {
            Ok(_) => r == Result::<VmState>::Ok(VmState::Running),
            Err(e) => r == Result::<VmState>::Err(e),
        },
{
    match found {
        Ok(_) => Ok(VmState::Running),
        Err(e) => Err(e),
    }
}

// ---------------------------------------------------------------------------
// Taking up
// ---------------------------------------------------------------------------
/// The id of a session: the one that was asked for, else the provider's.
pub fn logical_session_id(requested: Option<String>, provider_id: &str) -> (id: String)
    ensures
        id@ == (match opt_view(requested) {
            Some(r) => r,
            None => provider_id@,
        }),
{
    match requested {
        Some(r) => r,
        None => provider_id.to_owned(),
    }
}

/// What is done for the VM of a session to which somebody attaches.
#[derive(Clone, Copy, Debug, PartialEq, Eq, Structural)]
pub enum ManagedAttachStep {
    /// Start the VM where it does not run.
    EnsureRunning,
    /// Start the mounts that it has stored.
    EnsureMounts,
}

/// What is done for the VM of a session at a provider before the session is handed out. For one who
/// attaches passively nothing is: the session is handed out as it is.
pub fn managed_attach_steps(passive: bool) -> (steps: Vec<ManagedAttachStep>)
    ensures
        passive ==> steps@ == Seq::<ManagedAttachStep>::empty(),
        !passive ==> steps@ == seq![
            ManagedAttachStep::EnsureRunning,
            ManagedAttachStep::EnsureMounts,
        ],
{
    let mut steps: Vec<ManagedAttachStep> = Vec::new();
    if !passive {
        steps.push(ManagedAttachStep::EnsureRunning);
        steps.push(ManagedAttachStep::EnsureMounts);
    }
    steps
}

/// What follows when the provider was asked for a VM by its id.
#[derive(Debug)]
pub enum ManagedLookup {
    /// The VM has this id.
    Found(String),
    /// Look for a VM whose metadata names the session.
    ByMetadata,
    Failed(SandboxError),
}

/// Decides what follows when the provider was asked for the VM of a session. A VM that is not
/// found is looked for by the metadata of VMs where no other id is known for the session: what is
/// known of such ids does not outlive this process.
pub fn managed_lookup(session_id: &str, provider_id: &str, answer: Result<String>) -> (next:
    ManagedLookup)
    ensures
        match answer {
            Ok(id) => next == ManagedLookup::Found(id),
            Err(e) => if e is SessionNotFound && session_id@ == provider_id@ {
                next is ByMetadata
            } else {
                next == ManagedLookup::Failed(e)
            },
        },
{
    match answer {
        Ok(id) => ManagedLookup::Found(id),
        Err(SandboxError::SessionNotFound(m)) => {
            if same(session_id, provider_id) {
                ManagedLookup::ByMetadata
            } else {
                ManagedLookup::Failed(SandboxError::SessionNotFound(m))
            }
        },
        Err(e) => ManagedLookup::Failed(e),
    }
}

/// The VM that was found by the session that it or its metadata names.
pub fn found_session<T>(session_id: &str, found: Option<T>) -> (r: Result<T>)
    ensures
        match found {
            Some(t) => r == Result::<T>::Ok(t),
            None => r matches Err(e) && e@ == ErrorView::SessionNotFound(session_id@),
        },
{
    match found {
        Some(t) => Ok(t),
        None => Err(SandboxError::SessionNotFound(session_id.to_owned())),
    }
}

/// The VM of a fork.
pub fn forked_vm(vm: Option<Vm>) -> (r: Result<Vm>)
    ensures
        match vm {
            Some(v) => r == Result::<Vm>::Ok(v),
            None => r matches Err(e) && e@ == ErrorView::InvalidResponse(
                "fork response missing child VM"@,
            ),
        },
{
    match vm {
        Some(v) => Ok(v),
        None => Err(SandboxError::InvalidResponse("fork response missing child VM".to_owned())),
    }
}

// ---------------------------------------------------------------------------
// Scope and end
// ---------------------------------------------------------------------------
/// The tenant and the workspace of a session: those of its route.
pub fn session_scope(route: Option<(String, String)>) -> (scope: (String, String))
    ensures
        match route {
            Some(r) => scope == r,
            None => scope.0@ == "default"@ && scope.1@ == "default"@,
        },
{
    match route {
        Some(r) => r,
        None => ("default".to_owned(), "default".to_owned()),
    }
}

/// What ends a session that is known by its id.
#[derive(Debug, PartialEq, Eq)]
pub enum DiscardStep {
    /// Delete its VM, on this endpoint.
    DeleteVm { vm_id: String, endpoint: String },
    /// Clear its route, which leads to a VM that is not there.
    ClearRoute { vm_id: String },
    /// There is nothing left of it.
    Nothing,
}

/// Decides what ends a session: its VM goes where one was found, else its route.
pub fn discard_step(found: Option<(String, String)>, route_vm: Option<String>) -> (step:
    DiscardStep)
    ensures
        step == (match found {
            Some((vm_id, endpoint)) => DiscardStep::DeleteVm { vm_id, endpoint },
            None => match route_vm {
                Some(vm_id) => DiscardStep::ClearRoute { vm_id },
                None => DiscardStep::Nothing,
            },
        }),
{
    match found {
        Some((vm_id, endpoint)) => DiscardStep::DeleteVm { vm_id, endpoint },
        None => match route_vm {
            Some(vm_id) => DiscardStep::ClearRoute { vm_id },
            None => DiscardStep::Nothing,
        },
    }
}

/// Each action on a VM has its own name.
pub proof fn law_actions_have_own_names(a: SessionVmAction, b: SessionVmAction)
    ensures
        action_name(a) == action_name(b) ==> a == b,
        action_name(SessionVmAction::Start) == "Start"@,
        action_name(SessionVmAction::Restart) == "Restart"@,
        action_name(SessionVmAction::Pause) == "Pause"@,
        action_name(SessionVmAction::Resume) == "Resume"@,
        action_name(SessionVmAction::Stop) == "Stop"@,
{
    reveal_strlit("Start");
    reveal_strlit("Restart");
    reveal_strlit("Pause");
    reveal_strlit("Resume");
    reveal_strlit("Stop");
    assert("Start"@.len() == 5 && "Start"@[0] == 'S');
    assert("Restart"@.len() == 7);
    assert("Pause"@.len() == 5 && "Pause"@[0] == 'P');
    assert("Resume"@.len() == 6);
    assert("Stop"@.len() == 4);
}

/// A cluster that cannot be had is told of.
pub proof fn law_missing_cluster_is_told()
    ensures
        no_cluster_text()
            == "distributed control requested but crate feature `distributed-control` is disabled"@,
{
}

} // verus!
