//! Building the external-installer invocations, and the flow that makes
//! sure podman is available before they run.
//!
//! The argument lists are plain values built here with exact contracts; the
//! execution environment turns them into a process invocation. The
//! availability flow is a step function from stage and outside answer to
//! the next stage: the environment performs the lookups, the prompt and the
//! installer run, and feeds each answer back in.

use vstd::prelude::*;

use crate::strs_view;
use vstd::string::StringExecFns;

verus! {

/// Where the caller's ssh key file is mounted inside the installer
/// container.
pub open spec fn root_key_mount_point_view() -> Seq<char> {
    "/bootc_authorized_ssh_keys/root"@
}

/// The mount point of the caller's ssh key file, as a value.
pub fn root_key_mount_point() -> (r: String)
    ensures
        r@ == root_key_mount_point_view(),
{
    "/bootc_authorized_ssh_keys/root".to_owned()
}

/// Default location of the helper script that installs podman when it is
/// not already present on the system.
pub fn podman_install_script_path() -> (r: String)
    ensures
        r@ == "/usr/lib/system-reinstall-bootc/install-podman"@,
{
    "/usr/lib/system-reinstall-bootc/install-podman".to_owned()
}

/// The fixed container-runtime part of the reinstall invocation: a
/// privileged container sharing the host's PID namespace, running as root,
/// with the host's container storage, devices and root filesystem mounted.
pub open spec fn podman_base_args() -> Seq<Seq<char>> {
    seq![
        "podman"@,
        "run"@,
        "--privileged"@,
        "--pid=host"@,
        "--user=root:root"@,
        "-v"@,
        "/var/lib/containers:/var/lib/containers"@,
        "-v"@,
        "/dev:/dev"@,
        "--security-opt"@,
        "label=type:unconfined_t"@,
        "-v"@,
        "/:/target"@,
    ]
}

/// The fixed installer part of the invocation: replace the current root,
/// without the interactive warning or the fetch check, and clean the old
/// install up on first boot.
pub open spec fn bootc_base_args() -> Seq<Seq<char>> {
    seq![
        "bootc"@,
        "install"@,
        "to-existing-root"@,
        "--acknowledge-destructive"@,
        "--skip-fetch-check"@,
        "--cleanup"@,
    ]
}

/// The argument that forwards the host's logging verbosity unchanged.
pub open spec fn env_arg(rust_log: Seq<char>) -> Seq<char> {
    "--env=RUST_LOG="@ + rust_log
}

/// The argument that mounts the caller's ssh key file at the reserved
/// mount point.
pub open spec fn key_mount_arg(ssh_key_file: Seq<char>) -> Seq<char> {
    ssh_key_file + ":"@ + root_key_mount_point_view()
}

/// The character sequences of an optional string.
pub open spec fn opt_str_view(o: Option<String>) -> Option<Seq<char>> {
    match o {
        Some(s) => Some(s@),
        None => None,
    }
}

/// The whole reinstall invocation, program first: the container-runtime
/// part, the forwarded logging verbosity when the host has one, the key
/// mount, the image, the installer part, and the key handed to the
/// installer.
pub open spec fn reinstall_argv(
    image: Seq<char>,
    ssh_key_file: Seq<char>,
    rust_log: Option<Seq<char>>,
) -> Seq<Seq<char>> {
    podman_base_args() + (match rust_log {
        Some(rl) => seq![env_arg(rl)],
        None => Seq::<Seq<char>>::empty(),
    }) + seq!["-v"@, key_mount_arg(ssh_key_file)] + seq![image] + bootc_base_args() + seq![
        "--root-ssh-authorized-keys"@,
        root_key_mount_point_view(),
    ]
}

/// Builds the full argument vector, program first, of the container
/// invocation that reinstalls the system from `image`, mounting
/// `ssh_key_file` for the installer. `rust_log` is the host's logging
/// verbosity, forwarded unchanged into the container when present.
pub fn reinstall_command(image: &str, ssh_key_file: &str, rust_log: Option<String>) -> (r: Vec<
    String,
>)
    ensures
        strs_view(r@) =~= reinstall_argv(image@, ssh_key_file@, opt_str_view(rust_log)),
{
    let mut v: Vec<String> = Vec::new();
    v.push("podman".to_owned());
    v.push("run".to_owned());
    v.push("--privileged".to_owned());
    v.push("--pid=host".to_owned());
    v.push("--user=root:root".to_owned());
    v.push("-v".to_owned());
    v.push("/var/lib/containers:/var/lib/containers".to_owned());
    v.push("-v".to_owned());
    v.push("/dev:/dev".to_owned());
    v.push("--security-opt".to_owned());
    v.push("label=type:unconfined_t".to_owned());
    v.push("-v".to_owned());
    v.push("/:/target".to_owned());
    match &rust_log {
        Some(rl) => {
            let mut e = "--env=RUST_LOG=".to_owned();
            e.append(rl.as_str());
            v.push(e);
        },
        None => {},
    }
    v.push("-v".to_owned());
    let mut key_arg = ssh_key_file.to_owned();
    key_arg.append(":");
    let mount_point = root_key_mount_point();
    key_arg.append(mount_point.as_str());
    v.push(key_arg);
    v.push(image.to_owned());
    v.push("bootc".to_owned());
    v.push("install".to_owned());
    v.push("to-existing-root".to_owned());
    v.push("--acknowledge-destructive".to_owned());
    v.push("--skip-fetch-check".to_owned());
    v.push("--cleanup".to_owned());
    v.push("--root-ssh-authorized-keys".to_owned());
    v.push(mount_point);
    proof {
        assert(strs_view(v@) =~= reinstall_argv(image@, ssh_key_file@, opt_str_view(rust_log)));
    }
    v
}

/// Builds the argument vector, program first, that pulls `image` with the
/// container runtime.
pub fn pull_image_command(image: &str) -> (r: Vec<String>)
    ensures
        strs_view(r@) =~= seq!["podman"@, "pull"@, image@],
{
    let mut v: Vec<String> = Vec::new();
    v.push("podman".to_owned());
    v.push("pull".to_owned());
    v.push(image.to_owned());
    proof {
        assert(strs_view(v@) =~= seq!["podman"@, "pull"@, image@]);
    }
    v
}

/// Why the podman-availability flow gave up.
#[derive(Debug, Clone, Copy, PartialEq, Eq)]
pub enum PodmanFailure {
    /// the user declined the installation
    Declined,
    /// the installation script is not on the system
    ScriptMissing,
    /// the installation script ran and failed
    InstallerFailed,
    /// podman is still missing although the installer succeeded
    StillMissing,
}

/// The stage the podman-availability flow is in.
#[derive(Debug, Clone, Copy, PartialEq, Eq)]
pub enum PodmanFlow {
    /// looking podman up on the system
    CheckingPodman,
    /// podman is missing: asking the user whether to install it
    Prompting,
    /// the user agreed: looking the installation script up
    CheckingScript,
    /// the script is present: running it
    RunningInstaller,
    /// the installer succeeded: looking podman up once more
    Rechecking,
    /// podman is available
    Ready,
    /// the flow gave up, and why
    Failed(PodmanFailure),
}

/// The outside work one stage asks for.
#[derive(Debug, Clone, Copy, PartialEq, Eq)]
pub enum PodmanProbe {
    /// look podman up
    LookUpPodman,
    /// ask the user whether podman may be installed
    AskUser,
    /// look the installation script up
    LookUpScript,
    /// run the installation script and wait for it
    RunInstaller,
}

/// The answer the outside work handed back.
#[derive(Debug, Clone, Copy, PartialEq, Eq)]
pub enum PodmanEvent {
    /// whether the podman lookup found it
    PodmanFound(bool),
    /// whether the user agreed to the installation
    UserAgreed(bool),
    /// whether the script lookup found it
    ScriptFound(bool),
    /// whether the installation script succeeded
    InstallerSucceeded(bool),
}

/// The whole flow, one answer at a time. An answer that does not belong to
/// the stage changes nothing.
pub open spec fn podman_transition(s: PodmanFlow, ev: PodmanEvent) -> PodmanFlow {
    match (s, ev) {
        (PodmanFlow::CheckingPodman, PodmanEvent::PodmanFound(true)) => PodmanFlow::Ready,
        (PodmanFlow::CheckingPodman, PodmanEvent::PodmanFound(false)) => PodmanFlow::Prompting,
        (PodmanFlow::Prompting, PodmanEvent::UserAgreed(true)) => PodmanFlow::CheckingScript,
        (PodmanFlow::Prompting, PodmanEvent::UserAgreed(false)) => PodmanFlow::Failed(
            PodmanFailure::Declined,
        ),
        (PodmanFlow::CheckingScript, PodmanEvent::ScriptFound(true)) => PodmanFlow::RunningInstaller,
        (PodmanFlow::CheckingScript, PodmanEvent::ScriptFound(false)) => PodmanFlow::Failed(
            PodmanFailure::ScriptMissing,
        ),
        (PodmanFlow::RunningInstaller, PodmanEvent::InstallerSucceeded(true)) => PodmanFlow::Rechecking,
        (PodmanFlow::RunningInstaller, PodmanEvent::InstallerSucceeded(false)) => PodmanFlow::Failed(
            PodmanFailure::InstallerFailed,
        ),
        (PodmanFlow::Rechecking, PodmanEvent::PodmanFound(true)) => PodmanFlow::Ready,
        (PodmanFlow::Rechecking, PodmanEvent::PodmanFound(false)) => PodmanFlow::Failed(
            PodmanFailure::StillMissing,
        ),
        (_, _) => s,
    }
}

/// Advances the podman-availability flow by one outside answer.
pub fn podman_step(s: PodmanFlow, ev: PodmanEvent) -> (r: PodmanFlow)
    ensures
        r == podman_transition(s, ev),
{
    match (s, ev) {
        (PodmanFlow::CheckingPodman, PodmanEvent::PodmanFound(true)) => PodmanFlow::Ready,
        (PodmanFlow::CheckingPodman, PodmanEvent::PodmanFound(false)) => PodmanFlow::Prompting,
        (PodmanFlow::Prompting, PodmanEvent::UserAgreed(true)) => PodmanFlow::CheckingScript,
        (PodmanFlow::Prompting, PodmanEvent::UserAgreed(false)) => PodmanFlow::Failed(
            PodmanFailure::Declined,
        ),
        (PodmanFlow::CheckingScript, PodmanEvent::ScriptFound(true)) => PodmanFlow::RunningInstaller,
        (PodmanFlow::CheckingScript, PodmanEvent::ScriptFound(false)) => PodmanFlow::Failed(
            PodmanFailure::ScriptMissing,
        ),
        (PodmanFlow::RunningInstaller, PodmanEvent::InstallerSucceeded(true)) => PodmanFlow::Rechecking,
        (PodmanFlow::RunningInstaller, PodmanEvent::InstallerSucceeded(false)) => PodmanFlow::Failed(
            PodmanFailure::InstallerFailed,
        ),
        (PodmanFlow::Rechecking, PodmanEvent::PodmanFound(true)) => PodmanFlow::Ready,
        (PodmanFlow::Rechecking, PodmanEvent::PodmanFound(false)) => PodmanFlow::Failed(
            PodmanFailure::StillMissing,
        ),
        (other, _) => other,
    }
}

/// The outside work the current stage asks for; nothing once the flow is
/// over.
pub fn podman_probe(s: &PodmanFlow) -> (r: Option<PodmanProbe>)
    ensures
        s is CheckingPodman ==> r == Some(PodmanProbe::LookUpPodman),
        s is Prompting ==> r == Some(PodmanProbe::AskUser),
        s is CheckingScript ==> r == Some(PodmanProbe::LookUpScript),
        s is RunningInstaller ==> r == Some(PodmanProbe::RunInstaller),
        s is Rechecking ==> r == Some(PodmanProbe::LookUpPodman),
        (s is Ready || s is Failed) <==> r is None,
{
    match s {
        PodmanFlow::CheckingPodman => Some(PodmanProbe::LookUpPodman),
        PodmanFlow::Prompting => Some(PodmanProbe::AskUser),
        PodmanFlow::CheckingScript => Some(PodmanProbe::LookUpScript),
        PodmanFlow::RunningInstaller => Some(PodmanProbe::RunInstaller),
        PodmanFlow::Rechecking => Some(PodmanProbe::LookUpPodman),
        PodmanFlow::Ready => None,
        PodmanFlow::Failed(_) => None,
    }
}

} // verus!
