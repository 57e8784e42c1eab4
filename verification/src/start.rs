//! Starting a VM: what the `start` command decides before it hands the VM
//! to libkrun, and the text it hands over.

use vstd::prelude::*;

use crate::config::VmConfig;
use crate::network::{
    normalized, passt_ports_error, resolved_backend, resolved_error, resolved_ok, resolved_socket_path,
    NetworkBackend, ResolvedNetworkConfig,
};
use crate::text::{joined, decimal, decimal_string, opt_view};

verus! {

/// The views of a sequence of strings.
pub open spec fn views(s: Seq<String>) -> Seq<Seq<char>> {
    s.map_values(|x: String| x@)
}

/// The request of the `start` command.
#[derive(Debug)]
pub struct StartCmd {
    /// Name of the microVM.
    pub name: String,
    /// Command to run inside the VM.
    pub command: Option<String>,
    /// Arguments to be passed to the command executed in the VM.
    pub args: Vec<String>,
    /// Number of vCPUs; the VM's own when not given.
    pub cpus: Option<u8>,
    /// Amount of RAM in MiB; the VM's own when not given.
    pub mem: Option<usize>,
    /// Variables in the form "key=value" to be exposed to the VM.
    pub envs: Option<Vec<String>>,
    /// Networking backend to use for this run.
    pub net_backend: Option<NetworkBackend>,
    /// Unix socket path for the selected networking backend.
    pub net_socket_path: Option<String>,
    /// Pre-opened file descriptor for the selected networking backend.
    pub net_fd: Option<i32>,
}

/// What is handed to libkrun to start a VM.
#[derive(Debug)]
pub struct LaunchPlan {
    /// The network settings of this start.
    pub network: ResolvedNetworkConfig,
    pub num_vcpus: u8,
    pub ram_mib: u32,
    /// The port mappings, each as "host:guest".
    pub port_map: Vec<String>,
    /// Whether the port mappings are handed to libkrun.
    pub set_port_map: bool,
    /// The working directory inside the VM, when one is set.
    pub workdir: Option<String>,
    /// The environment of the VM's first process.
    pub env: Vec<String>,
    /// The command to run, when one is given.
    pub command: Option<String>,
    /// The arguments of the command.
    pub args: Vec<String>,
}

/// A port mapping as libkrun takes it.
pub open spec fn port_entry(p: (String, String)) -> Seq<char> {
    p.0@ + ":"@ + p.1@
}

/// The environment of a VM's first process: its host name, the home
/// directory, then the given variables.
pub open spec fn environment_of(name: Seq<char>, env_pairs: Seq<Seq<char>>) -> Seq<Seq<char>> {
    seq!["HOSTNAME="@ + name, "HOME=/root"@] + env_pairs
}

/// A line of the script that mounts the shared volumes inside the VM.
pub open spec fn mount_line(m: (String, String)) -> Seq<char> {
    "mount -t virtiofs "@ + m.0@ + " "@ + m.1@ + "\n"@
}

/// The mount lines of `mounts`, in order.
pub open spec fn mount_lines(mounts: Seq<(String, String)>) -> Seq<char>
    decreases mounts.len(),
{
    if mounts.len() == 0 {
        Seq::empty()
    } else {
        mount_lines(mounts.drop_last()) + mount_line(mounts.last())
    }
}

/// The script that mounts the shared volumes, changes to the working
/// directory when there is one, and runs its arguments.
pub open spec fn mount_script_of(workdir: Seq<char>, mounts: Seq<(String, String)>) -> Seq<char> {
    "#!/bin/sh\n"@ + "set -e\n"@ + mount_lines(mounts) + (if workdir.len() > 0 {
        "cd "@ + workdir + "\n"@
    } else {
        Seq::empty()
    }) + "exec \"$@\"\n"@
}

/// The virtiofs tag of the shared volume at `idx`.
pub open spec fn virtiofs_tag(idx: nat) -> Seq<char> {
    "krunvm"@ + decimal(idx)
}

impl VmConfig {
    /// The port mappings of the VM, each as "host:guest".
    pub fn port_map(&self) -> (r: Vec<String>)
        ensures
            views(r@) == self.mapped_ports@.map_values(|p: (String, String)| port_entry(p)),
    {
        let mut r: Vec<String> = Vec::new();
        let n = self.mapped_ports.len();
        let mut i: usize = 0;
        while i < n
            invariant
                0 <= i <= n,
                n == self.mapped_ports@.len(),
                r@.len() == i,
                forall|k: int| 0 <= k < i ==> #[trigger] r@[k]@ == port_entry(self.mapped_ports@[k]),
            decreases n - i,
        {
            let mut e = joined(self.mapped_ports[i].0.as_str(), ":");
            e.append(self.mapped_ports[i].1.as_str());
            r.push(e);
            i = i + 1;
        }
        assert(views(r@) =~= self.mapped_ports@.map_values(|p: (String, String)| port_entry(p)));
        r
    }

    /// Each shared volume as the host directory and the directory under
    /// `rootfs` that it is bound to.
    pub fn volume_mounts(&self, rootfs: &str) -> (r: Vec<(String, String)>)
        ensures
            r@.len() == self.mapped_volumes@.len(),
            forall|i: int|
                0 <= i < r@.len() ==> #[trigger] r@[i].0@ == self.mapped_volumes@[i].0@ && r@[i].1@
                    == rootfs@ + self.mapped_volumes@[i].1@,
    {
        let mut r: Vec<(String, String)> = Vec::new();
        let n = self.mapped_volumes.len();
        let mut i: usize = 0;
        while i < n
            invariant
                0 <= i <= n,
                n == self.mapped_volumes@.len(),
                r@.len() == i,
                forall|k: int|
                    0 <= k < i ==> #[trigger] r@[k].0@ == self.mapped_volumes@[k].0@ && r@[k].1@
                        == rootfs@ + self.mapped_volumes@[k].1@,
            decreases n - i,
        {
            let host = self.mapped_volumes[i].0.clone();
            let guest = joined(rootfs, self.mapped_volumes[i].1.as_str());
            r.push((host, guest));
            i = i + 1;
        }
        r
    }

    /// Each shared volume as a virtiofs device: its tag "krunvm" and its
    /// position, the host directory, and the directory in the guest.
    pub fn virtiofs_mounts(&self) -> (r: Vec<(String, String, String)>)
        requires
            self.mapped_volumes@.len() <= u64::MAX,
        ensures
            r@.len() == self.mapped_volumes@.len(),
            forall|i: int|
                0 <= i < r@.len() ==> #[trigger] r@[i].0@ == virtiofs_tag(i as nat) && r@[i].1@
                    == self.mapped_volumes@[i].0@ && r@[i].2@ == self.mapped_volumes@[i].1@,
    {
        let mut r: Vec<(String, String, String)> = Vec::new();
        let n = self.mapped_volumes.len();
        let mut i: usize = 0;
        while i < n
            invariant
                0 <= i <= n,
                n == self.mapped_volumes@.len(),
                n <= u64::MAX,
                r@.len() == i,
                forall|k: int|
                    0 <= k < i ==> #[trigger] r@[k].0@ == virtiofs_tag(k as nat) && r@[k].1@
                        == self.mapped_volumes@[k].0@ && r@[k].2@ == self.mapped_volumes@[k].1@,
            decreases n - i,
        {
            let idx = decimal_string(i as u64);
            let tag = joined("krunvm", idx.as_str());
            r.push((tag, self.mapped_volumes[i].0.clone(), self.mapped_volumes[i].1.clone()));
            i = i + 1;
        }
        r
    }
}

/// The environment of the VM's first process: "HOSTNAME=" and the VM's
/// name, "HOME=/root", then the given variables.
pub fn vm_environment(name: &String, env_pairs: &Vec<String>) -> (r: Vec<String>)
    ensures
        views(r@) == environment_of(name@, views(env_pairs@)),
{
    let mut r: Vec<String> = Vec::new();
    r.push(joined("HOSTNAME=", name.as_str()));
    r.push(String::from_str("HOME=/root"));
    let n = env_pairs.len();
    let mut i: usize = 0;
    while i < n
        invariant
            0 <= i <= n,
            n == env_pairs@.len(),
            r@.len() == i + 2,
            r@[0]@ == "HOSTNAME="@ + name@,
            r@[1]@ == "HOME=/root"@,
            forall|k: int| 0 <= k < i ==> #[trigger] r@[k + 2]@ == env_pairs@[k]@,
        decreases n - i,
    {
        r.push(env_pairs[i].clone());
        i = i + 1;
    }
    assert(views(r@) =~= environment_of(name@, views(env_pairs@))) by {
        assert forall|k: int| 2 <= k < r@.len() implies #[trigger] r@[k]@ == env_pairs@[k - 2]@ by {
            assert(r@[(k - 2) + 2]@ == env_pairs@[k - 2]@);
        }
    }
    r
}

/// The script that mounts the shared volumes inside the VM, given each
/// volume's tag and guest directory, then runs the VM's command.
pub fn mount_script(workdir: &str, mounts: &Vec<(String, String)>) -> (r: String)
    ensures
        r@ == mount_script_of(workdir@, mounts@),
{
    let mut r = String::from_str("#!/bin/sh\n");
    r.append("set -e\n");
    let n = mounts.len();
    let mut i: usize = 0;
    while i < n
        invariant
            0 <= i <= n,
            n == mounts@.len(),
            r@ == "#!/bin/sh\n"@ + "set -e\n"@ + mount_lines(mounts@.subrange(0, i as int)),
        decreases n - i,
    {
        r.append("mount -t virtiofs ");
        r.append(mounts[i].0.as_str());
        r.append(" ");
        r.append(mounts[i].1.as_str());
        r.append("\n");
        assert(mounts@.subrange(0, i + 1).drop_last() =~= mounts@.subrange(0, i as int));
        i = i + 1;
    }
    assert(mounts@.subrange(0, n as int) =~= mounts@);
    if !workdir.is_empty() {
        r.append("cd ");
        r.append(workdir);
        r.append("\n");
    }
    r.append("exec \"$@\"\n");
    r
}

/// Where the mount script is written on the host, under `rootfs`.
pub fn mount_script_host_path(rootfs: &str) -> (r: String)
    ensures
        r@ == rootfs@ + "/.krunvm-mount.sh"@,
{
    joined(rootfs, "/.krunvm-mount.sh")
}

/// Where the mount script is found inside the VM.
pub fn mount_script_guest_path() -> (r: String)
    ensures
        r@ == "/.krunvm-mount.sh"@,
{
    String::from_str("/.krunvm-mount.sh")
}

/// The arguments of the mount script: the command, or "/bin/sh" when none
/// is given, followed by its arguments.
pub fn mount_wrapper_args(command: &Option<String>, args: &Vec<String>) -> (r: Vec<String>)
    ensures
        views(r@) == seq![
            match command {
                Some(c) => c@,
                None => "/bin/sh"@,
            },
        ] + views(args@),
{
    let mut r: Vec<String> = Vec::new();
    match command {
        Some(c) => r.push(c.clone()),
        None => r.push(String::from_str("/bin/sh")),
    }
    let ghost first = r@[0]@;
    let n = args.len();
    let mut i: usize = 0;
    while i < n
        invariant
            0 <= i <= n,
            n == args@.len(),
            r@.len() >= 1,
            r@[0]@ == first,
            r@.len() == i + 1,
            forall|k: int| 0 <= k < i ==> #[trigger] r@[k + 1]@ == args@[k]@,
        decreases n - i,
    {
        r.push(args[i].clone());
        i = i + 1;
    }
    assert(views(r@) =~= seq![first] + views(args@)) by {
        assert forall|k: int| 1 <= k < r@.len() implies #[trigger] r@[k]@ == args@[k - 1]@ by {
            assert(r@[(k - 1) + 1]@ == args@[k - 1]@);
        }
    }
    r
}

/// The lock file of a running VM, under `rootfs`.
pub fn lock_path(rootfs: &str) -> (r: String)
    ensures
        r@ == rootfs@ + "/.krunvm.lock"@,
{
    joined(rootfs, "/.krunvm.lock")
}

impl StartCmd {
    /// The backend of this start.
    pub open spec fn backend_for(&self, vmcfg: &VmConfig) -> NetworkBackend {
        resolved_backend(vmcfg.network.backend, self.net_backend)
    }

    /// The socket path of this start.
    pub open spec fn socket_path_for(&self, vmcfg: &VmConfig) -> Option<Seq<char>> {
        resolved_socket_path(opt_view(vmcfg.network.socket_path), opt_view(self.net_socket_path))
    }

    /// The number of vCPUs of this start: the one given on the command
    /// line, or else the VM's, truncated to a byte.
    pub open spec fn vcpus_for(&self, vmcfg: &VmConfig) -> u8 {
        match self.cpus {
            Some(c) => c,
            None => (vmcfg.cpus % 256) as u8,
        }
    }

    /// The RAM in MiB of this start: the amount given on the command line,
    /// truncated to 32 bits, or else the VM's.
    pub open spec fn ram_for(&self, vmcfg: &VmConfig) -> u32 {
        match self.mem {
            Some(m) => (m as int % 0x1_0000_0000int) as u32,
            None => vmcfg.mem,
        }
    }

    /// Whether the network settings of this start are usable.
    pub open spec fn network_ok_for(&self, vmcfg: &VmConfig) -> bool {
        resolved_ok(self.backend_for(vmcfg), self.socket_path_for(vmcfg), self.net_fd)
    }

    /// Whether this start is refused for port mappings with passt.
    pub open spec fn ports_refused_for(&self, vmcfg: &VmConfig) -> bool {
        self.backend_for(vmcfg) == NetworkBackend::Passt && vmcfg.mapped_ports@.len() > 0
    }

    /// Plans the start of the VM `vmcfg`.
    ///
    /// The network settings are resolved from the VM's and the command
    /// line's and checked, then port mappings are refused with passt; the
    /// first failure gives the message. The plan takes the vCPUs and RAM
    /// given on the command line, or else the VM's; the VM's port mappings,
    /// which are handed over unless the backend is passt or there are none;
    /// its working directory when it has one; the environment; and the
    /// command with its arguments, which are dropped when there is no
    /// command.
    pub fn launch_plan(self, vmcfg: &VmConfig) -> (r: Result<LaunchPlan, String>)
        ensures
            r is Ok <==> self.network_ok_for(vmcfg) && !self.ports_refused_for(vmcfg),
            r matches Err(e) ==> e@ == (if !self.network_ok_for(vmcfg) {
                resolved_error(self.backend_for(vmcfg), self.socket_path_for(vmcfg), self.net_fd)
            } else {
                passt_ports_error()
            }),
            r matches Ok(plan) ==> {
                &&& plan.network.backend == self.backend_for(vmcfg)
                &&& opt_view(plan.network.socket_path) == self.socket_path_for(vmcfg)
                &&& plan.network.fd == self.net_fd
                &&& plan.num_vcpus == self.vcpus_for(vmcfg)
                &&& plan.ram_mib == self.ram_for(vmcfg)
                &&& views(plan.port_map@) == vmcfg.mapped_ports@.map_values(
                    |p: (String, String)| port_entry(p),
                )
                &&& plan.set_port_map == (self.backend_for(vmcfg) != NetworkBackend::Passt
                    && vmcfg.mapped_ports@.len() > 0)
                &&& opt_view(plan.workdir) == (if vmcfg.workdir@.len() > 0 {
                    Some(vmcfg.workdir@)
                } else {
                    None
                })
                &&& views(plan.env@) == environment_of(
                    vmcfg.name@,
                    match self.envs {
                        Some(e) => views(e@),
                        None => Seq::empty(),
                    },
                )
                &&& opt_view(plan.command) == opt_view(self.command)
                &&& views(plan.args@) == (if self.command is Some {
                    views(self.args@)
                } else {
                    Seq::empty()
                })
            },
    {
        let StartCmd {
            name: _,
            command,
            args,
            cpus,
            mem,
            envs,
            net_backend,
            net_socket_path,
            net_fd,
        } = self;
        let network = match ResolvedNetworkConfig::resolve(
            &vmcfg.network,
            net_backend,
            net_socket_path,
            net_fd,
        ) {
            Ok(network) => network,
            Err(error) => {
                return Err(error);
            },
        };
        if let Err(error) = network.validate_port_mapping(vmcfg) {
            return Err(error);
        }
        let vm_args: Vec<String> = if command.is_some() {
            args
        } else {
            Vec::new()
        };
        let env_pairs: Vec<String> = match envs {
            Some(envs) => envs,
            None => Vec::new(),
        };
        let env = vm_environment(&vmcfg.name, &env_pairs);
        let port_map = vmcfg.port_map();
        let set_port_map = network.backend != NetworkBackend::Passt && vmcfg.mapped_ports.len()
            > 0;
        let workdir = if vmcfg.workdir.as_str().is_empty() {
            None
        } else {
            Some(vmcfg.workdir.clone())
        };
        let num_vcpus: u8 = match cpus {
            Some(c) => c,
            None => (vmcfg.cpus % 256) as u8,
        };
        let ram_mib: u32 = match mem {
            Some(m) => (m as u64 % 0x1_0000_0000u64) as u32,
            None => vmcfg.mem,
        };
        assert(command is None ==> views(vm_args@) =~= Seq::<Seq<char>>::empty());
        assert(envs is None ==> views(env_pairs@) =~= Seq::<Seq<char>>::empty());
        Ok(
            LaunchPlan {
                network,
                num_vcpus,
                ram_mib,
                port_map,
                set_port_map,
                workdir,
                env,
                command,
                args: vm_args,
            },
        )
    }
}

/// Once a start is planned, the port mappings are handed over exactly when
/// the VM has any: passt with port mappings was already refused.
pub proof fn lemma_planned_ports_handed_over_iff_any(cmd: StartCmd, vmcfg: VmConfig)
    requires
        !cmd.ports_refused_for(&vmcfg),
    ensures
        (cmd.backend_for(&vmcfg) != NetworkBackend::Passt && vmcfg.mapped_ports@.len() > 0) == (
        vmcfg.mapped_ports@.len() > 0),
{
}

/// A start is refused for port mappings only when the backend it uses is
/// passt and the VM has port mappings; with any other backend, or without
/// port mappings, it is not.
pub proof fn lemma_only_passt_with_ports_refused(cmd: StartCmd, vmcfg: VmConfig)
    ensures
        cmd.ports_refused_for(&vmcfg) <==> ((match cmd.net_backend {
            Some(b) => b,
            None => vmcfg.network.backend,
        }) == NetworkBackend::Passt && vmcfg.mapped_ports@.len() > 0),
        vmcfg.mapped_ports@.len() == 0 ==> !cmd.ports_refused_for(&vmcfg),
{
}

/// The network of a start is usable exactly when, with the backend given on
/// the command line or else the stored one, and the socket path given on the
/// command line (normalized) or else the stored one, TSI has neither socket
/// path nor descriptor and any other backend has exactly one of them.
pub proof fn lemma_start_network_ok_characterized(cmd: StartCmd, vmcfg: VmConfig)
    ensures
        ({
            let b = match cmd.net_backend {
                Some(b) => b,
                None => vmcfg.network.backend,
            };
            let p = match cmd.net_socket_path {
                Some(g) => normalized(Some(g@)),
                None => opt_view(vmcfg.network.socket_path),
            };
            &&& cmd.backend_for(&vmcfg) == b
            &&& cmd.socket_path_for(&vmcfg) == p
            &&& cmd.network_ok_for(&vmcfg) <==> (if b == NetworkBackend::Tsi {
                p is None && cmd.net_fd is None
            } else {
                (p is Some && cmd.net_fd is None) || (p is None && cmd.net_fd is Some)
            })
        }),
{
}

/// A start whose network is usable and whose backend is not passt is never
/// refused.
pub proof fn lemma_usable_non_passt_start_planned(cmd: StartCmd, vmcfg: VmConfig)
    requires
        cmd.network_ok_for(&vmcfg),
        (match cmd.net_backend {
            Some(b) => b,
            None => vmcfg.network.backend,
        }) != NetworkBackend::Passt,
    ensures
        cmd.network_ok_for(&vmcfg) && !cmd.ports_refused_for(&vmcfg),
{
}

/// The vCPUs and RAM given on the command line are the ones a start uses;
/// without them, the VM's own are used.
pub proof fn lemma_given_resources_win(cmd: StartCmd, vmcfg: VmConfig)
    ensures
        cmd.cpus matches Some(c) ==> cmd.vcpus_for(&vmcfg) == c,
        cmd.cpus is None && vmcfg.cpus < 256 ==> cmd.vcpus_for(&vmcfg) == vmcfg.cpus,
        cmd.mem matches Some(m) ==> (m < 0x1_0000_0000 ==> cmd.ram_for(&vmcfg) == m),
        cmd.mem is None ==> cmd.ram_for(&vmcfg) == vmcfg.mem,
{
}

/// The environment of a VM's first process holds its host name, then the
/// home directory, then each given variable in order, and nothing else.
pub proof fn lemma_environment_layout(name: Seq<char>, env_pairs: Seq<Seq<char>>)
    ensures
        environment_of(name, env_pairs).len() == env_pairs.len() + 2,
        environment_of(name, env_pairs)[0] == "HOSTNAME="@ + name,
        environment_of(name, env_pairs)[1] == "HOME=/root"@,
        forall|k: int|
            0 <= k < env_pairs.len() ==> environment_of(name, env_pairs)[k + 2] == #[trigger] env_pairs[k],
{
}

} // verus!
