use krunvm::config::KrunvmConfig;
use krunvm::host::{
    storage_volume_step, VolumeStep, brew_prefix_from_output, case_probe_passed, case_probe_paths, must_rerun_in_unshare,
    reexec_environment, storage_volume_from_answer,
};

fn s(x: &str) -> String {
    x.to_string()
}

#[test]
fn unshare_rules() {
    assert!(!must_rerun_in_unshare(0, &vec![]));
    assert!(must_rerun_in_unshare(1000, &vec![s("HOME"), s("PATH")]));
    assert!(!must_rerun_in_unshare(1000, &vec![s("HOME"), s("BUILDAH_ISOLATION")]));
    assert!(must_rerun_in_unshare(1000, &vec![s("BUILDAH_ISOLATIONX")]));
}

#[test]
fn volume_answer() {
    assert_eq!(storage_volume_from_answer(&s("")), "/Volumes/krunvm");
    assert_eq!(storage_volume_from_answer(&s("/Volumes/vms")), "/Volumes/vms");
}

#[test]
fn case_probe() {
    assert_eq!(
        case_probe_paths("/Volumes/k"),
        (s("/Volumes/k/krunvm_test"), s("/Volumes/k/krunVM_test"))
    );
    assert!(case_probe_passed(&s("first")));
    assert!(!case_probe_passed(&s("second")));
}

#[test]
fn brew_prefix() {
    assert_eq!(brew_prefix_from_output(Some(0), Some(s("/opt/homebrew\n"))), Some(s("/opt/homebrew")));
    assert_eq!(brew_prefix_from_output(Some(1), Some(s("/opt/homebrew\n"))), None);
    assert_eq!(brew_prefix_from_output(None, Some(s("/x"))), None);
    assert_eq!(brew_prefix_from_output(Some(0), None), None);
}

#[test]
fn reexec_env() {
    assert_eq!(
        reexec_environment(&vec![(s("A"), s("1")), (s("PATH"), s("/bin"))], "/opt/homebrew"),
        vec![s("A=1"), s("PATH=/bin"), s("DYLD_LIBRARY_PATH=/opt/homebrew/lib")]
    );
}

#[test]
fn volume_step_stores_only_a_passing_volume() {
    let mut c = KrunvmConfig::default();
    assert_eq!(storage_volume_step(&mut c, s("/Volumes/a"), Some(false)), VolumeStep::NotCaseSensitive);
    assert_eq!(c.storage_volume, "");
    assert_eq!(storage_volume_step(&mut c, s("/Volumes/b"), None), VolumeStep::ProbeFailed);
    assert_eq!(c.storage_volume, "");
    assert!(c.needs_storage_volume());
    assert_eq!(storage_volume_step(&mut c, s("/Volumes/c"), Some(true)), VolumeStep::Stored);
    assert_eq!(c.storage_volume, "/Volumes/c");
    assert!(!c.needs_storage_volume());
}

