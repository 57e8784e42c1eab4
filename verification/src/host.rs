//! Decisions about the host that the program makes before any command:
//! the user namespace check, the storage volume on macOS and the
//! re-execution with the Homebrew library path.

use vstd::prelude::*;

use crate::config::KrunvmConfig;
use crate::start::views;
use crate::text::{joined, trim, trimmed};

verus! {

/// The variable that buildah sets inside a `buildah unshare` session.
pub open spec fn isolation_key() -> Seq<char> {
    "BUILDAH_ISOLATION"@
}

/// Whether the program must be re-run inside a `buildah unshare` session:
/// it runs as a user other than root and no variable named
/// `BUILDAH_ISOLATION` is set. `env_keys` are the names of the variables.
pub fn must_rerun_in_unshare(uid: u32, env_keys: &Vec<String>) -> (r: bool)
    ensures
        r == (uid != 0 && forall|k: int|
            0 <= k < env_keys@.len() ==> #[trigger] env_keys@[k]@ != isolation_key()),
{
    if uid == 0 {
        return false;
    }
    let key = String::from_str("BUILDAH_ISOLATION");
    let n = env_keys.len();
    let mut i: usize = 0;
    while i < n
        invariant
            0 <= i <= n,
            n == env_keys@.len(),
            key@ == isolation_key(),
            forall|k: int| 0 <= k < i ==> #[trigger] env_keys@[k]@ != isolation_key(),
        decreases n - i,
    {
        if env_keys[i] == key {
            return false;
        }
        i = i + 1;
    }
    true
}

/// The storage volume that an answer names; an empty answer takes
/// "/Volumes/krunvm".
pub fn storage_volume_from_answer(answer: &String) -> (r: String)
    ensures
        r@ == (if answer@.len() == 0 {
            "/Volumes/krunvm"@
        } else {
            answer@
        }),
{
    if answer.as_str().is_empty() {
        String::from_str("/Volumes/krunvm")
    } else {
        answer.clone()
    }
}

/// What one answer to the storage volume prompt leads to.
#[derive(Clone, Copy, Debug, PartialEq, Eq, Structural)]
pub enum VolumeStep {
    /// The volume passed the test and is now the storage volume: the
    /// configuration is to be stored, and the program ends.
    Stored,
    /// The volume is not case sensitive: the prompt is asked again.
    NotCaseSensitive,
    /// The test could not be run: the prompt is asked again.
    ProbeFailed,
}

/// Takes one answer to the storage volume prompt: `volume` is the volume it
/// names, and `probe_passed` the result of the case sensitivity test, or
/// `None` when the test could not be run. Only a volume that passed becomes
/// the storage volume.
pub fn storage_volume_step(cfg: &mut KrunvmConfig, volume: String, probe_passed: Option<bool>) -> (r:
    VolumeStep)
    ensures
        r == (match probe_passed {
            Some(true) => VolumeStep::Stored,
            Some(false) => VolumeStep::NotCaseSensitive,
            None => VolumeStep::ProbeFailed,
        }),
        final(cfg).storage_volume@ == (if probe_passed == Some(true) {
            volume@
        } else {
            old(cfg).storage_volume@
        }),
        probe_passed != Some(true) ==> *final(cfg) == *old(cfg),
        final(cfg).version == old(cfg).version,
        final(cfg).default_cpus == old(cfg).default_cpus,
        final(cfg).default_mem == old(cfg).default_mem,
        final(cfg).default_dns == old(cfg).default_dns,
        final(cfg).default_network == old(cfg).default_network,
        final(cfg).vmconfig_map == old(cfg).vmconfig_map,
{
    match probe_passed {
        Some(true) => {
            cfg.storage_volume = volume;
            VolumeStep::Stored
        },
        Some(false) => VolumeStep::NotCaseSensitive,
        None => VolumeStep::ProbeFailed,
    }
}

/// The two files that test a volume for case sensitivity: their names
/// differ in case only.
pub fn case_probe_paths(volume: &str) -> (r: (String, String))
    ensures
        r.0@ == volume@ + "/krunvm_test"@,
        r.1@ == volume@ + "/krunVM_test"@,
{
    (joined(volume, "/krunvm_test"), joined(volume, "/krunVM_test"))
}

/// Whether a volume is case sensitive, given what was read back from the
/// first probe file after both were written: its own content, "first".
pub fn case_probe_passed(data: &String) -> (r: bool)
    ensures
        r == (data@ == "first"@),
{
    let first = String::from_str("first");
    *data == first
}

/// The Homebrew prefix from the output of `brew --prefix`: none when the
/// command failed or had no exit code, or when its output is not UTF-8
/// (`stdout` is then `None`); otherwise the output, trimmed.
pub fn brew_prefix_from_output(exit_code: Option<i32>, stdout: Option<String>) -> (r: Option<
    String,
>)
    ensures
        r is Some <==> exit_code == Some(0i32) && stdout is Some,
        r matches Some(p) ==> p@ == trimmed(stdout->0@),
{
    let code = match exit_code {
        Some(c) => c,
        None => -1,
    };
    if code != 0 {
        return None;
    }
    match stdout {
        Some(s) => Some(trim(s.as_str())),
        None => None,
    }
}

/// An environment entry in the form "key=value".
pub open spec fn env_entry(kv: (String, String)) -> Seq<char> {
    kv.0@ + "="@ + kv.1@
}

/// The environment for re-running the program: every variable as
/// "key=value", then the library path under the Homebrew prefix.
pub fn reexec_environment(vars: &Vec<(String, String)>, brew_prefix: &str) -> (r: Vec<String>)
    ensures
        views(r@) == vars@.map_values(|kv: (String, String)| env_entry(kv)).push(
            "DYLD_LIBRARY_PATH="@ + brew_prefix@ + "/lib"@,
        ),
{
    let mut r: Vec<String> = Vec::new();
    let n = vars.len();
    let mut i: usize = 0;
    while i < n
        invariant
            0 <= i <= n,
            n == vars@.len(),
            r@.len() == i,
            forall|k: int| 0 <= k < i ==> #[trigger] r@[k]@ == env_entry(vars@[k]),
        decreases n - i,
    {
        let mut e = joined(vars[i].0.as_str(), "=");
        e.append(vars[i].1.as_str());
        r.push(e);
        i = i + 1;
    }
    let mut last = joined("DYLD_LIBRARY_PATH=", brew_prefix);
    last.append("/lib");
    r.push(last);
    assert(views(r@) =~= vars@.map_values(|kv: (String, String)| env_entry(kv)).push(
        "DYLD_LIBRARY_PATH="@ + brew_prefix@ + "/lib"@,
    ));
    r
}

} // verus!
