use bootc_core::lints::{
    check_kernel, check_var_run, classify_kernel_count, classify_run_dir, lint, registered_checks,
    run_check, summarize_outcomes, LintCheck, LintError,
};
use cap_std::ambient_authority;
use cap_std_ext::cap_tempfile::{tempdir, TempDir};

fn fixture() -> TempDir {
    tempdir(ambient_authority()).unwrap()
}

#[test]
fn test_var_run() {
    let root = fixture();
    // This one should pass
    check_var_run(&root).unwrap();
    root.create_dir_all("var/run/foo").unwrap();
    assert!(check_var_run(&root).is_err());
    root.remove_dir_all("var/run").unwrap();
    // Now we should pass again
    check_var_run(&root).unwrap();
}

#[test]
fn test_kernel_lint() {
    let root = fixture();
    // This one should pass
    check_kernel(&root).unwrap();
    root.create_dir_all("usr/lib/modules/5.7.2").unwrap();
    root.write("usr/lib/modules/5.7.2/vmlinuz", "old vmlinuz").unwrap();
    root.create_dir_all("usr/lib/modules/6.3.1").unwrap();
    root.write("usr/lib/modules/6.3.1/vmlinuz", "new vmlinuz").unwrap();
    assert!(check_kernel(&root).is_err());
    root.remove_dir_all("usr/lib/modules/5.7.2").unwrap();
    // Now we should pass again
    check_kernel(&root).unwrap();
}

#[test]
fn var_run_as_symlink_passes() {
    let root = fixture();
    root.create_dir_all("var").unwrap();
    root.symlink("../run", "var/run").unwrap();
    check_var_run(&root).unwrap();
}

#[test]
fn kernel_one_version_passes() {
    let root = fixture();
    root.create_dir_all("usr/lib/modules/6.3.1").unwrap();
    root.write("usr/lib/modules/6.3.1/vmlinuz", "vmlinuz").unwrap();
    check_kernel(&root).unwrap();
}

#[test]
fn kernel_dir_without_boot_file_not_counted() {
    let root = fixture();
    root.create_dir_all("usr/lib/modules/6.3.1").unwrap();
    root.write("usr/lib/modules/6.3.1/vmlinuz", "vmlinuz").unwrap();
    // a version directory without the boot file does not make the choice
    // ambiguous
    root.create_dir_all("usr/lib/modules/6.9.9").unwrap();
    check_kernel(&root).unwrap();
}

#[test]
fn kernel_plain_file_entry_not_counted() {
    let root = fixture();
    root.create_dir_all("usr/lib/modules/6.3.1").unwrap();
    root.write("usr/lib/modules/6.3.1/vmlinuz", "vmlinuz").unwrap();
    root.write("usr/lib/modules/README", "not a kernel").unwrap();
    check_kernel(&root).unwrap();
}

#[test]
fn classify_run_dir_cases() {
    assert!(classify_run_dir(None).is_ok());
    assert!(classify_run_dir(Some(true)).is_ok());
    assert_eq!(classify_run_dir(Some(false)), Err(LintError::VarRunNotSymlink));
}

#[test]
fn classify_kernel_count_cases() {
    assert!(classify_kernel_count(0).is_ok());
    assert!(classify_kernel_count(1).is_ok());
    assert_eq!(classify_kernel_count(2), Err(LintError::MultipleKernelDirs));
    assert_eq!(classify_kernel_count(17), Err(LintError::MultipleKernelDirs));
}

#[test]
fn lint_reports_count_of_registered_checks() {
    let root = fixture();
    let n = lint(&root).unwrap();
    assert_eq!(n, registered_checks().len());
    assert_eq!(n, 2);
}

#[test]
fn lint_reports_first_failure_without_count() {
    let root = fixture();
    root.create_dir_all("var/run/foo").unwrap();
    assert_eq!(lint(&root), Err(LintError::VarRunNotSymlink));
}

#[test]
fn lint_failure_order_follows_registration() {
    let root = fixture();
    // both checks would fail; the first registered one wins
    root.create_dir_all("var/run/foo").unwrap();
    root.create_dir_all("usr/lib/modules/5.7.2").unwrap();
    root.write("usr/lib/modules/5.7.2/vmlinuz", "old vmlinuz").unwrap();
    root.create_dir_all("usr/lib/modules/6.3.1").unwrap();
    root.write("usr/lib/modules/6.3.1/vmlinuz", "new vmlinuz").unwrap();
    assert_eq!(lint(&root), Err(LintError::VarRunNotSymlink));
}

#[test]
fn run_check_dispatches() {
    let root = fixture();
    run_check(&root, &LintCheck::VarRun).unwrap();
    run_check(&root, &LintCheck::Kernel).unwrap();
    root.create_dir_all("var/run/foo").unwrap();
    assert_eq!(run_check(&root, &LintCheck::VarRun), Err(LintError::VarRunNotSymlink));
    run_check(&root, &LintCheck::Kernel).unwrap();
}

#[test]
fn summarize_all_passing_counts_them() {
    let outcomes: Vec<Result<(), LintError>> = vec![Ok(()), Ok(()), Ok(())];
    assert_eq!(summarize_outcomes(outcomes), Ok(3));
    assert_eq!(summarize_outcomes(Vec::new()), Ok(0));
}

#[test]
fn summarize_yields_first_failure_only() {
    let outcomes: Vec<Result<(), LintError>> = vec![
        Ok(()),
        Err(LintError::VarRunNotSymlink),
        Err(LintError::MultipleKernelDirs),
    ];
    // the first failure wins; the one after it plays no part
    assert_eq!(summarize_outcomes(outcomes), Err(LintError::VarRunNotSymlink));
}

#[test]
fn messages_name_the_failure() {
    assert_eq!(LintError::VarRunNotSymlink.message(), "Not a symlink: var/run");
    assert_eq!(LintError::MultipleKernelDirs.message(), "Multiple kernel directories found");
    assert_eq!(LintError::Io("probe failed".to_string()).message(), "probe failed");
}
