use bootc_core::podman::{
    podman_install_script_path, podman_probe, podman_step, pull_image_command, reinstall_command,
    root_key_mount_point, PodmanEvent, PodmanFailure, PodmanFlow, PodmanProbe,
};

#[test]
fn script_path_default() {
    assert_eq!(podman_install_script_path(), "/usr/lib/system-reinstall-bootc/install-podman");
}

#[test]
fn key_mount_point_value() {
    assert_eq!(root_key_mount_point(), "/bootc_authorized_ssh_keys/root");
}

#[test]
fn pull_image_argv() {
    let argv = pull_image_command("quay.io/fedora/fedora-bootc:41");
    assert_eq!(argv, vec!["podman", "pull", "quay.io/fedora/fedora-bootc:41"]);
}

fn expected_reinstall(rust_log: Option<&str>) -> Vec<String> {
    let mut v: Vec<String> = [
        "podman",
        "run",
        "--privileged",
        "--pid=host",
        "--user=root:root",
        "-v",
        "/var/lib/containers:/var/lib/containers",
        "-v",
        "/dev:/dev",
        "--security-opt",
        "label=type:unconfined_t",
        "-v",
        "/:/target",
    ]
    .map(String::from)
    .to_vec();
    if let Some(rl) = rust_log {
        v.push(format!("--env=RUST_LOG={rl}"));
    }
    v.push("-v".to_string());
    v.push("/root/.ssh/key.pub:/bootc_authorized_ssh_keys/root".to_string());
    v.push("quay.io/img:1".to_string());
    for a in [
        "bootc",
        "install",
        "to-existing-root",
        "--acknowledge-destructive",
        "--skip-fetch-check",
        "--cleanup",
        "--root-ssh-authorized-keys",
        "/bootc_authorized_ssh_keys/root",
    ] {
        v.push(a.to_string());
    }
    v
}

#[test]
fn reinstall_argv_without_log_forwarding() {
    let argv = reinstall_command("quay.io/img:1", "/root/.ssh/key.pub", None);
    assert_eq!(argv, expected_reinstall(None));
}

#[test]
fn reinstall_argv_forwards_rust_log() {
    let argv = reinstall_command("quay.io/img:1", "/root/.ssh/key.pub", Some("debug".to_string()));
    assert_eq!(argv, expected_reinstall(Some("debug")));
}

#[test]
fn podman_already_present_is_ready_at_once() {
    let s = podman_step(PodmanFlow::CheckingPodman, PodmanEvent::PodmanFound(true));
    assert_eq!(s, PodmanFlow::Ready);
}

#[test]
fn podman_install_happy_path() {
    let mut s = PodmanFlow::CheckingPodman;
    s = podman_step(s, PodmanEvent::PodmanFound(false));
    assert_eq!(s, PodmanFlow::Prompting);
    s = podman_step(s, PodmanEvent::UserAgreed(true));
    assert_eq!(s, PodmanFlow::CheckingScript);
    s = podman_step(s, PodmanEvent::ScriptFound(true));
    assert_eq!(s, PodmanFlow::RunningInstaller);
    s = podman_step(s, PodmanEvent::InstallerSucceeded(true));
    assert_eq!(s, PodmanFlow::Rechecking);
    s = podman_step(s, PodmanEvent::PodmanFound(true));
    assert_eq!(s, PodmanFlow::Ready);
}

#[test]
fn podman_flow_failures() {
    assert_eq!(
        podman_step(PodmanFlow::Prompting, PodmanEvent::UserAgreed(false)),
        PodmanFlow::Failed(PodmanFailure::Declined)
    );
    assert_eq!(
        podman_step(PodmanFlow::CheckingScript, PodmanEvent::ScriptFound(false)),
        PodmanFlow::Failed(PodmanFailure::ScriptMissing)
    );
    assert_eq!(
        podman_step(PodmanFlow::RunningInstaller, PodmanEvent::InstallerSucceeded(false)),
        PodmanFlow::Failed(PodmanFailure::InstallerFailed)
    );
    assert_eq!(
        podman_step(PodmanFlow::Rechecking, PodmanEvent::PodmanFound(false)),
        PodmanFlow::Failed(PodmanFailure::StillMissing)
    );
}

#[test]
fn podman_flow_ignores_answers_that_do_not_belong() {
    assert_eq!(
        podman_step(PodmanFlow::Ready, PodmanEvent::PodmanFound(false)),
        PodmanFlow::Ready
    );
    assert_eq!(
        podman_step(PodmanFlow::CheckingPodman, PodmanEvent::UserAgreed(true)),
        PodmanFlow::CheckingPodman
    );
}

#[test]
fn podman_probe_maps_stages_to_work() {
    assert_eq!(podman_probe(&PodmanFlow::CheckingPodman), Some(PodmanProbe::LookUpPodman));
    assert_eq!(podman_probe(&PodmanFlow::Prompting), Some(PodmanProbe::AskUser));
    assert_eq!(podman_probe(&PodmanFlow::CheckingScript), Some(PodmanProbe::LookUpScript));
    assert_eq!(podman_probe(&PodmanFlow::RunningInstaller), Some(PodmanProbe::RunInstaller));
    assert_eq!(podman_probe(&PodmanFlow::Rechecking), Some(PodmanProbe::LookUpPodman));
    assert_eq!(podman_probe(&PodmanFlow::Ready), None);
    assert_eq!(podman_probe(&PodmanFlow::Failed(PodmanFailure::Declined)), None);
}
