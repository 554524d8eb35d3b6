//! The validation engine: an ordered list of independent checks over one
//! capability filesystem view, run fail-fast.
//!
//! Each check is a pure pass/fail judgement over the view; it mutates
//! nothing. The engine stops at the first failing check and yields its
//! error; when every check passes it reports how many did. Stopping at the
//! first failure is deliberate: running the remaining checks and reporting
//! every failure would arguably serve users better, but it would change
//! observable behavior, so it is left untaken here. The probes of
//! the disk go through the trusted operations of `fsview`; everything the
//! checks decide from what those probes hand back is verified here, for
//! every value a probe could hand back.

use vstd::prelude::*;

use crate::fsview;
use cap_std::fs::Dir;

verus! {

/// Why a validation check failed.
#[derive(Debug, PartialEq, Eq)]
pub enum LintError {
    /// The reserved runtime-state path is present but is not a symlink.
    VarRunNotSymlink,
    /// More than one kernel version directory was found.
    MultipleKernelDirs,
    /// A filesystem probe failed before the check could decide; the message
    /// says how.
    Io(String),
}

impl LintError {
    /// A human-readable description of the failure.
    pub fn message(&self) -> (r: String)
        ensures
            self is VarRunNotSymlink ==> r@ == "Not a symlink: var/run"@,
            self is MultipleKernelDirs ==> r@ == "Multiple kernel directories found"@,
            self matches LintError::Io(m) ==> r@ == m@,
    {
        match self {
            LintError::VarRunNotSymlink => "Not a symlink: var/run".to_owned(),
            LintError::MultipleKernelDirs => "Multiple kernel directories found".to_owned(),
            LintError::Io(m) => m.clone(),
        }
    }
}

/// Decides the run-directory check from the probe of the reserved path:
/// `probe` is `None` when the path is absent, otherwise `Some` of whether
/// the entry itself is a symlink. Absence passes; only the wrong kind of
/// presence fails.
pub fn classify_run_dir(probe: Option<bool>) -> (r: Result<(), LintError>)
    ensures
        r is Ok <==> (probe is None || probe == Some(true)),
        r matches Err(e) ==> e is VarRunNotSymlink,
{
    match probe {
        None => Ok(()),
        Some(true) => Ok(()),
        Some(false) => Err(LintError::VarRunNotSymlink),
    }
}

/// The run-directory check: the reserved runtime-state path `var/run`, if
/// present at all below the root, must itself be a symlink. Whatever the
/// probe of that path hands back is judged by `classify_run_dir`.
pub fn check_var_run(root: &Dir) -> (r: Result<(), LintError>)
    ensures
        r matches Err(e) ==> (e is VarRunNotSymlink || e is Io),
{
    match fsview::stat_no_follow(root, "var/run") {
        Err(m) => Err(LintError::Io(m)),
        Ok(None) => classify_run_dir(None),
        Ok(Some(meta)) => classify_run_dir(Some(meta.is_symlink())),
    }
}

/// How many entries of the sequence are set.
pub open spec fn count_true(s: Seq<bool>) -> int
    decreases s.len(),
{
    if s.len() == 0 {
        0
    } else {
        count_true(s.drop_last()) + if s.last() {
            1int
        } else {
            0int
        }
    }
}

/// Counts the probes that found a bootable kernel directory.
pub fn count_eligible(probes: &Vec<bool>) -> (n: usize)
    ensures
        n == count_true(probes@),
{
    let mut n: usize = 0;
    let mut i: usize = 0;
    while i < probes.len()
        invariant
            i <= probes@.len(),
            n <= i,
            n == count_true(probes@.take(i as int)),
        decreases probes@.len() - i,
    {
        proof {
            assert(probes@.take(i + 1).drop_last() =~= probes@.take(i as int));
            assert(probes@.take(i + 1).last() == probes@[i as int]);
        }
        if probes[i] {
            n = n + 1;
        }
        i = i + 1;
    }
    proof {
        assert(probes@.take(i as int) =~= probes@);
    }
    n
}

/// Decides the single-kernel check from the number of bootable kernel
/// version directories: zero or one is acceptable, two or more is
/// ambiguous and fails.
pub fn classify_kernel_count(n: usize) -> (r: Result<(), LintError>)
    ensures
        r is Ok <==> n <= 1,
        r matches Err(e) ==> e is MultipleKernelDirs,
{
    if n <= 1 {
        Ok(())
    } else {
        Err(LintError::MultipleKernelDirs)
    }
}

/// Probes one candidate below the kernel-modules directory: it counts as a
/// bootable kernel version directory exactly when it is itself a directory
/// that holds the boot file `vmlinuz`. An entry that is no directory never
/// counts, without any probe; for a directory, the probes decide.
fn probe_boot_dir(modules: &Dir, is_dir: bool, name: &str) -> (r: Result<bool, String>)
    ensures
        !is_dir ==> r == Result::<bool, String>::Ok(false),
{
    if !is_dir {
        return Ok(false);
    }
    match fsview::open_dir_opt(modules, name) {
        Err(m) => Err(m),
        Ok(None) => Ok(false),
        Ok(Some(vd)) => fsview::path_exists(&vd, "vmlinuz"),
    }
}

/// The single-kernel check: below `usr/lib/modules`, at most one version
/// directory may hold the boot file, so that the kernel choice is
/// unambiguous. An absent modules directory passes. The count of bootable
/// version directories, whatever the probes hand back, is judged by
/// `classify_kernel_count`.
pub fn check_kernel(root: &Dir) -> (r: Result<(), LintError>)
    ensures
        r matches Err(e) ==> (e is MultipleKernelDirs || e is Io),
{
    let modules = match fsview::open_dir_opt(root, "usr/lib/modules") {
        Err(m) => {
            return Err(LintError::Io(m));
        },
        Ok(None) => {
            return classify_kernel_count(0);
        },
        Ok(Some(d)) => d,
    };
    let names = match fsview::entry_names(&modules) {
        Err(m) => {
            return Err(LintError::Io(m));
        },
        Ok(v) => v,
    };
    let mut probes: Vec<bool> = Vec::new();
    let mut i: usize = 0;
    while i < names.len()
        invariant
            i <= names@.len(),
            probes@.len() == i,
            forall|k: int| 0 <= k < i && !names@[k].1 ==> !probes@[k],
        decreases names@.len() - i,
    {
        let eligible = match probe_boot_dir(&modules, names[i].1, names[i].0.as_str()) {
            Err(m) => {
                return Err(LintError::Io(m));
            },
            Ok(b) => b,
        };
        probes.push(eligible);
        i = i + 1;
    }
    let n = count_eligible(&probes);
    classify_kernel_count(n)
}

/// One registered validation check.
#[derive(Debug, Clone, Copy, PartialEq, Eq)]
pub enum LintCheck {
    /// the run-directory check
    VarRun,
    /// the single-kernel check
    Kernel,
}

/// The ordered list of registered checks. New checks are appended here.
pub fn registered_checks() -> (r: Vec<LintCheck>)
    ensures
        r@ =~= seq![LintCheck::VarRun, LintCheck::Kernel],
{
    let mut v: Vec<LintCheck> = Vec::new();
    v.push(LintCheck::VarRun);
    v.push(LintCheck::Kernel);
    v
}

/// The errors one check can fail with: its own judgement, or a failed
/// probe.
pub open spec fn check_may_fail_with(c: LintCheck, e: LintError) -> bool {
    match c {
        LintCheck::VarRun => e is VarRunNotSymlink || e is Io,
        LintCheck::Kernel => e is MultipleKernelDirs || e is Io,
    }
}

/// Runs one check against the view.
pub fn run_check(root: &Dir, c: &LintCheck) -> (r: Result<(), LintError>)
    ensures
        r matches Err(e) ==> check_may_fail_with(*c, e),
{
    match c {
        LintCheck::VarRun => check_var_run(root),
        LintCheck::Kernel => check_kernel(root),
    }
}

/// Runs the given checks in order against one view, fail-fast: the first
/// failing check's error comes back and the checks after it are not run;
/// when every check passes, the count reported equals the number of checks.
pub fn run_checks(root: &Dir, checks: &Vec<LintCheck>) -> (r: Result<usize, LintError>)
    ensures
        r matches Ok(n) ==> n == checks@.len(),
        r matches Err(e) ==> exists|j: int|
            0 <= j < checks@.len() && check_may_fail_with(#[trigger] checks@[j], e),
{
    let mut i: usize = 0;
    while i < checks.len()
        invariant
            i <= checks@.len(),
        decreases checks@.len() - i,
    {
        match run_check(root, &checks[i]) {
            Err(e) => {
                proof {
                    assert(check_may_fail_with(checks@[i as int], e));
                }
                return Err(e);
            },
            Ok(()) => {},
        }
        i = i + 1;
    }
    Ok(i)
}

/// Runs every registered check against the view. On success the count of
/// checks passed comes back, for the caller to report; on the first failure
/// that check's error comes back and no count is reported.
pub fn lint(root: &Dir) -> (r: Result<usize, LintError>)
    ensures
        r matches Ok(n) ==> n == 2,
        r matches Err(e) ==> (e is VarRunNotSymlink || e is MultipleKernelDirs || e is Io),
{
    let checks = registered_checks();
    run_checks(root, &checks)
}

/// Every outcome before position `j` passed.
pub open spec fn all_ok_before(s: Seq<Result<(), LintError>>, j: int) -> bool {
    forall|k: int| 0 <= k < j ==> s[k] is Ok
}

/// Position `j` holds the first failing outcome, and its error is `e`.
pub open spec fn first_failure_at(s: Seq<Result<(), LintError>>, j: int, e: LintError) -> bool {
    &&& 0 <= j < s.len()
    &&& all_ok_before(s, j)
    &&& s[j] matches Err(e2) && e == e2
}

/// The engine's fail-fast reading of an ordered sequence of check outcomes:
/// when every outcome passed, the report is the count of outcomes and
/// nothing else; otherwise the report is the error of the first failing
/// outcome, and the outcomes after it play no part in it.
pub fn summarize_outcomes(outcomes: Vec<Result<(), LintError>>) -> (r: Result<usize, LintError>)
    ensures
        r is Ok <==> all_ok_before(outcomes@, outcomes@.len() as int),
        r matches Ok(n) ==> n == outcomes@.len(),
        r matches Err(e) ==> exists|j: int| first_failure_at(outcomes@, j, e),
{
    let total: usize = outcomes.len();
    let mut rest = outcomes;
    let ghost mut passed: int = 0;
    while rest.len() > 0
        invariant
            0 <= passed,
            passed + rest@.len() == outcomes@.len(),
            total == outcomes@.len(),
            rest@ =~= outcomes@.skip(passed),
            all_ok_before(outcomes@, passed),
        decreases rest@.len(),
    {
        let ghost before = rest@;
        match rest.remove(0) {
            Ok(()) => {
                proof {
                    assert(before[0] == outcomes@[passed]);
                    assert(rest@ =~= outcomes@.skip(passed + 1));
                    passed = passed + 1;
                }
            },
            Err(e) => {
                proof {
                    assert(before[0] == outcomes@[passed]);
                    assert(first_failure_at(outcomes@, passed, e));
                    assert(!all_ok_before(outcomes@, outcomes@.len() as int));
                }
                return Err(e);
            },
        }
    }
    Ok(total)
}

} // verus!
