//! The persisted configuration: the global defaults, the VMs, and the
//! `config` command that changes the defaults.

use vstd::prelude::*;

use crate::network::{
    normalized, persisted_error, persisted_ok, resolved_backend, NetworkBackend, VmNetworkConfig,
};
use crate::text::{joined, decimal, decimal_string, opt_view};

verus! {

/// A VM as it is stored.
#[derive(Debug)]
pub struct VmConfig {
    pub name: String,
    pub cpus: u32,
    pub mem: u32,
    pub container: String,
    pub workdir: String,
    pub dns: String,
    /// Host directory and guest directory of each shared volume.
    pub mapped_volumes: Vec<(String, String)>,
    /// Host port and guest port of each forwarded port.
    pub mapped_ports: Vec<(String, String)>,
    pub network: VmNetworkConfig,
}

impl Default for VmConfig {
    fn default() -> (r: VmConfig)
        ensures
            r.name@ == Seq::<char>::empty(),
            r.cpus == 0,
            r.mem == 0,
            r.container@ == Seq::<char>::empty(),
            r.workdir@ == Seq::<char>::empty(),
            r.dns@ == Seq::<char>::empty(),
            r.mapped_volumes@.len() == 0,
            r.mapped_ports@.len() == 0,
            r.keys_unique(),
            r.network.backend == NetworkBackend::Tsi,
            r.network.socket_path is None,
    {
        VmConfig {
            name: String::new(),
            cpus: 0,
            mem: 0,
            container: String::new(),
            workdir: String::new(),
            dns: String::new(),
            mapped_volumes: Vec::new(),
            mapped_ports: Vec::new(),
            network: VmNetworkConfig::default(),
        }
    }
}

/// The whole stored configuration.
#[derive(Debug)]
pub struct KrunvmConfig {
    pub version: u8,
    pub default_cpus: u32,
    pub default_mem: u32,
    pub default_dns: String,
    pub default_network: VmNetworkConfig,
    pub storage_volume: String,
    /// Each VM under its name.
    pub vmconfig_map: Vec<(String, VmConfig)>,
}

/// No two entries share a key: the entries form a map.
pub open spec fn keys_distinct<V>(entries: Seq<(String, V)>) -> bool {
    forall|i: int, j: int|
        0 <= i < j < entries.len() ==> #[trigger] entries[i].0@ != #[trigger] entries[j].0@
}

/// Checks that no two entries share a key.
pub fn has_distinct_keys<V>(entries: &Vec<(String, V)>) -> (r: bool)
    ensures
        r == keys_distinct(entries@),
{
    let n = entries.len();
    let mut j: usize = 0;
    while j < n
        invariant
            0 <= j <= n,
            n == entries@.len(),
            forall|a: int, b: int|
                0 <= a < b < j ==> #[trigger] entries@[a].0@ != #[trigger] entries@[b].0@,
        decreases n - j,
    {
        let mut i: usize = 0;
        while i < j
            invariant
                0 <= i <= j < n,
                n == entries@.len(),
                forall|a: int, b: int|
                    0 <= a < b < j ==> #[trigger] entries@[a].0@ != #[trigger] entries@[b].0@,
                forall|a: int| 0 <= a < i ==> #[trigger] entries@[a].0@ != entries@[j as int].0@,
            decreases j - i,
        {
            if entries[i].0 == entries[j].0 {
                return false;
            }
            i = i + 1;
        }
        j = j + 1;
    }
    true
}

impl VmConfig {
    /// No volume and no port is mapped twice.
    pub open spec fn keys_unique(&self) -> bool {
        keys_distinct(self.mapped_volumes@) && keys_distinct(self.mapped_ports@)
    }
}

impl KrunvmConfig {
    /// No two VMs are stored under one name.
    pub open spec fn names_unique(&self) -> bool {
        keys_distinct(self.vmconfig_map@)
    }

    /// The stored configuration is a map, as it is on disk: no two VMs
    /// under one name, and no volume or port of a VM mapped twice.
    pub open spec fn wf(&self) -> bool {
        &&& self.names_unique()
        &&& forall|i: int|
            0 <= i < self.vmconfig_map@.len() ==> (#[trigger] self.vmconfig_map@[i]).1.keys_unique()
    }

    /// Checks that the stored configuration is a map.
    pub fn is_well_formed(&self) -> (r: bool)
        ensures
            r == self.wf(),
    {
        if !has_distinct_keys(&self.vmconfig_map) {
            return false;
        }
        let n = self.vmconfig_map.len();
        let mut i: usize = 0;
        while i < n
            invariant
                0 <= i <= n,
                n == self.vmconfig_map@.len(),
                self.names_unique(),
                forall|k: int| 0 <= k < i ==> (#[trigger] self.vmconfig_map@[k]).1.keys_unique(),
            decreases n - i,
        {
            let vm = &self.vmconfig_map[i].1;
            if !has_distinct_keys(&vm.mapped_volumes) || !has_distinct_keys(&vm.mapped_ports) {
                return false;
            }
            i = i + 1;
        }
        true
    }

    /// Finds the VM stored under `name`: the only one, as names are unique.
    pub fn find_vm(&self, name: &String) -> (r: Option<&VmConfig>)
        requires
            self.wf(),
        ensures
            r matches Some(v) ==> v.keys_unique() && forall|i: int|
                0 <= i < self.vmconfig_map@.len() && #[trigger] self.vmconfig_map@[i].0@ == name@
                    ==> self.vmconfig_map@[i].1 == *v,
            r is None <==> forall|i: int|
                0 <= i < self.vmconfig_map@.len() ==> #[trigger] self.vmconfig_map@[i].0@
                    != name@,
            r matches Some(v) ==> exists|i: int|
                0 <= i < self.vmconfig_map@.len() && #[trigger] self.vmconfig_map@[i].0@
                    == name@ && self.vmconfig_map@[i].1 == *v && forall|k: int|
                    0 <= k < i ==> #[trigger] self.vmconfig_map@[k].0@ != name@,
    {
        let n = self.vmconfig_map.len();
        let mut i: usize = 0;
        while i < n
            invariant
                n == self.vmconfig_map@.len(),
                0 <= i <= n,
                forall|k: int| 0 <= k < i ==> #[trigger] self.vmconfig_map@[k].0@ != name@,
                self.wf(),
            decreases n - i,
        {
            if self.vmconfig_map[i].0 == *name {
                proof {
                    let m = self.vmconfig_map@;
                    assert(m[i as int].1.keys_unique());
                    assert forall|j: int| 0 <= j < m.len() && #[trigger] m[j].0@ == name@ implies m[j].1
                        == m[i as int].1 by {
                        if j < i {
                            assert(m[j].0@ != m[i as int].0@);
                        } else if j > i {
                            assert(m[i as int].0@ != m[j].0@);
                        }
                    }
                }
                return Some(&self.vmconfig_map[i].1);
            }
            i = i + 1;
        }
        None
    }

    /// Whether a storage volume still has to be chosen.
    pub fn needs_storage_volume(&self) -> (r: bool)
        ensures
            r == (self.storage_volume@.len() == 0),
    {
        self.storage_volume.as_str().is_empty()
    }
}

impl Default for KrunvmConfig {
    fn default() -> (r: KrunvmConfig)
        ensures
            r.version == 1,
            r.default_cpus == 2,
            r.default_mem == 1024,
            r.default_dns@ == "1.1.1.1"@,
            r.default_network.backend == NetworkBackend::Tsi,
            r.default_network.socket_path is None,
            r.storage_volume@ == Seq::<char>::empty(),
            r.vmconfig_map@.len() == 0,
            r.wf(),
            persisted_ok(r.default_network.backend, opt_view(r.default_network.socket_path)),
    {
        KrunvmConfig {
            version: 1,
            default_cpus: 2,
            default_mem: 1024,
            default_dns: String::from_str("1.1.1.1"),
            default_network: VmNetworkConfig::default(),
            storage_volume: String::new(),
            vmconfig_map: Vec::new(),
        }
    }
}

/// The largest number of vCPUs that a VM can have.
pub const MAX_CPUS: u32 = 8;

/// The largest amount of RAM, in MiB, that a VM can have.
pub const MAX_MEM_MIB: u32 = 16384;

/// The scope named when the global network defaults are refused.
pub open spec fn global_network_scope() -> Seq<char> {
    "Global network configuration"@
}

/// The request of the `config` command: which global defaults to change.
#[derive(Debug)]
pub struct ConfigCmd {
    /// Default number of vCPUs for newly created VMs.
    pub cpus: Option<u32>,
    /// Default amount of RAM in MiB for newly created VMs.
    pub mem: Option<u32>,
    /// DNS server to use in the microVM.
    pub dns: Option<String>,
    /// Default networking backend for newly created VMs.
    pub net_backend: Option<NetworkBackend>,
    /// Default unix socket path for the selected networking backend.
    pub net_socket_path: Option<String>,
    /// Remove the default unix socket path.
    pub clear_net_socket_path: bool,
}

/// What the `config` command did: the notices it gives on the way, and
/// either whether the configuration changed and must be stored, or the
/// message that refuses the new network defaults.
#[derive(Debug)]
pub struct ConfigRun {
    pub notices: Vec<String>,
    pub outcome: Result<bool, String>,
}

/// The notice for a number of vCPUs over the limit.
pub open spec fn cpus_notice() -> Seq<char> {
    "Error: the maximum number of CPUs supported is 8"@
}

/// The notice for an amount of RAM over the limit.
pub open spec fn mem_notice() -> Seq<char> {
    "Error: the maximum amount of RAM supported is 16384 MiB"@
}

impl ConfigCmd {
    /// Whether the request sets the number of vCPUs.
    pub open spec fn cpus_accepted(self) -> bool {
        self.cpus matches Some(c) && c <= MAX_CPUS
    }

    /// Whether the request sets the amount of RAM.
    pub open spec fn mem_accepted(self) -> bool {
        self.mem matches Some(m) && m <= MAX_MEM_MIB
    }

    /// The notices the request gives, in order.
    pub open spec fn notices_of(self) -> Seq<Seq<char>> {
        (if self.cpus matches Some(c) && c > MAX_CPUS {
            seq![cpus_notice()]
        } else {
            Seq::empty()
        }) + (if self.mem matches Some(m) && m > MAX_MEM_MIB {
            seq![mem_notice()]
        } else {
            Seq::empty()
        })
    }

    /// Whether the request changes anything that is stored.
    pub open spec fn changes(self) -> bool {
        ||| self.cpus_accepted()
        ||| self.mem_accepted()
        ||| self.dns is Some
        ||| self.net_backend is Some
        ||| self.clear_net_socket_path
        ||| self.net_socket_path is Some
    }

    /// The default network backend once the request applies.
    pub open spec fn backend_after(self, old: NetworkBackend) -> NetworkBackend {
        resolved_backend(old, self.net_backend)
    }

    /// The default socket path once the request applies: dropped when the
    /// backend becomes TSI or on request, replaced when one is given, and
    /// normalized.
    pub open spec fn socket_path_after(self, old: Option<Seq<char>>) -> Option<Seq<char>> {
        let p1 = if self.net_backend == Some(NetworkBackend::Tsi) {
            None
        } else {
            old
        };
        let p2 = if self.clear_net_socket_path {
            None
        } else {
            p1
        };
        let p3 = if self.net_socket_path is Some {
            opt_view(self.net_socket_path)
        } else {
            p2
        };
        normalized(p3)
    }

    /// The default network settings once the request applies: the new ones
    /// when they are consistent, else the old ones.
    pub open spec fn network_after(
        self,
        old_backend: NetworkBackend,
        old_path: Option<Seq<char>>,
    ) -> (NetworkBackend, Option<Seq<char>>) {
        let b = self.backend_after(old_backend);
        let p = self.socket_path_after(old_path);
        if persisted_ok(b, p) {
            (b, p)
        } else {
            (old_backend, old_path)
        }
    }

    /// Applies the request to the global defaults in `cfg`.
    ///
    /// A number of vCPUs over 8 or an amount of RAM over 16384 MiB is
    /// refused with a notice and the rest goes on. The new network defaults
    /// must be consistent: when they are not, they are left as they were
    /// and the outcome is the refusing message. Otherwise they are stored
    /// in `cfg`, and the outcome says whether anything changed.
    pub fn run(self, cfg: &mut KrunvmConfig) -> (r: ConfigRun)
        ensures
            r.notices@.map_values(|n: String| n@) == self.notices_of(),
            final(cfg).default_cpus == (if self.cpus_accepted() {
                self.cpus->0
            } else {
                old(cfg).default_cpus
            }),
            final(cfg).default_mem == (if self.mem_accepted() {
                self.mem->0
            } else {
                old(cfg).default_mem
            }),
            final(cfg).default_dns@ == (match self.dns {
                Some(d) => d@,
                None => old(cfg).default_dns@,
            }),
            (final(cfg).default_network.backend, opt_view(final(cfg).default_network.socket_path))
                == self.network_after(
                old(cfg).default_network.backend,
                opt_view(old(cfg).default_network.socket_path),
            ),
            final(cfg).version == old(cfg).version,
            final(cfg).storage_volume == old(cfg).storage_volume,
            final(cfg).vmconfig_map == old(cfg).vmconfig_map,
            final(cfg).wf() == old(cfg).wf(),
            ({
                let b = self.backend_after(old(cfg).default_network.backend);
                let p = self.socket_path_after(opt_view(old(cfg).default_network.socket_path));
                if persisted_ok(b, p) {
                    &&& r.outcome == Ok::<bool, String>(self.changes())
                    &&& final(cfg).default_network.backend == b
                    &&& opt_view(final(cfg).default_network.socket_path) == p
                } else {
                    &&& r.outcome matches Err(e) && e@ == persisted_error(
                        global_network_scope(),
                        b,
                    )
                    &&& final(cfg).default_network == old(cfg).default_network
                }
            }),
    {
        let mut notices: Vec<String> = Vec::new();
        let mut cfg_changed = false;
        if let Some(cpus) = self.cpus {
            if cpus > MAX_CPUS {
                notices.push(String::from_str("Error: the maximum number of CPUs supported is 8"));
            } else {
                cfg.default_cpus = cpus;
                cfg_changed = true;
            }
        }
        if let Some(mem) = self.mem {
            if mem > MAX_MEM_MIB {
                notices.push(
                    String::from_str("Error: the maximum amount of RAM supported is 16384 MiB"),
                );
            } else {
                cfg.default_mem = mem;
                cfg_changed = true;
            }
        }
        assert(notices@.map_values(|n: String| n@) =~= self.notices_of());
        if let Some(dns) = self.dns {
            cfg.default_dns = dns;
            cfg_changed = true;
        }
        let mut default_network = cfg.default_network.duplicate();
        if let Some(backend) = self.net_backend {
            default_network.backend = backend;
            if backend == NetworkBackend::Tsi {
                default_network.socket_path = None;
            }
            cfg_changed = true;
        }
        if self.clear_net_socket_path {
            default_network.socket_path = None;
            cfg_changed = true;
        }
        if self.net_socket_path.is_some() {
            default_network.socket_path = self.net_socket_path;
            cfg_changed = true;
        }
        let default_network = VmNetworkConfig::new(
            default_network.backend,
            default_network.socket_path,
        );
        match default_network.validate_persisted("Global network configuration") {
            Err(error) => ConfigRun { notices, outcome: Err(error) },
            Ok(()) => {
                cfg.default_network = default_network;
                ConfigRun { notices, outcome: Ok(cfg_changed) }
            },
        }
    }
}

impl KrunvmConfig {
    /// The lines that show the global defaults.
    pub open spec fn summary_of(&self) -> Seq<Seq<char>> {
        seq![
            "Global configuration:"@,
            "Default number of CPUs for newly created VMs: "@ + decimal(self.default_cpus as nat),
            "Default amount of RAM (MiB) for newly created VMs: "@ + decimal(
                self.default_mem as nat,
            ),
            "Default DNS server for newly created VMs: "@ + self.default_dns@,
            "Default network backend for newly created VMs: "@
                + self.default_network.backend.name_of(),
            "Default network socket path for newly created VMs: "@ + match opt_view(
                self.default_network.socket_path,
            ) {
                Some(p) => p,
                None => "<none>"@,
            },
        ]
    }

    /// The lines that show the global defaults.
    pub fn global_summary(&self) -> (r: Vec<String>)
        ensures
            r@.map_values(|l: String| l@) == self.summary_of(),
    {
        let mut r: Vec<String> = Vec::new();
        r.push(String::from_str("Global configuration:"));
        let cpus = decimal_string(self.default_cpus as u64);
        r.push(joined("Default number of CPUs for newly created VMs: ", cpus.as_str()));
        let mem = decimal_string(self.default_mem as u64);
        r.push(joined("Default amount of RAM (MiB) for newly created VMs: ", mem.as_str()));
        r.push(joined("Default DNS server for newly created VMs: ", self.default_dns.as_str()));
        r.push(
            joined(
                "Default network backend for newly created VMs: ",
                self.default_network.backend.name(),
            ),
        );
        let path = match &self.default_network.socket_path {
            Some(p) => p.as_str(),
            None => "<none>",
        };
        r.push(joined("Default network socket path for newly created VMs: ", path));
        assert(r@.map_values(|l: String| l@) =~= self.summary_of());
        r
    }
}

/// The `config` command keeps consistent network defaults consistent.
pub proof fn lemma_config_keeps_network_consistent(
    cmd: ConfigCmd,
    backend: NetworkBackend,
    socket_path: Option<Seq<char>>,
)
    requires
        persisted_ok(backend, socket_path),
    ensures
        persisted_ok(cmd.network_after(backend, socket_path).0, cmd.network_after(backend, socket_path).1),
{
}

/// Choosing TSI without a socket path drops the default socket path, and
/// the `config` command accepts it.
pub proof fn lemma_config_tsi_drops_socket_path(
    cmd: ConfigCmd,
    backend: NetworkBackend,
    socket_path: Option<Seq<char>>,
)
    requires
        cmd.net_backend == Some(NetworkBackend::Tsi),
        cmd.net_socket_path is None,
    ensures
        cmd.backend_after(backend) == NetworkBackend::Tsi,
        cmd.socket_path_after(socket_path) is None,
        persisted_ok(cmd.backend_after(backend), cmd.socket_path_after(socket_path)),
        cmd.network_after(backend, socket_path) == (NetworkBackend::Tsi, None::<Seq<char>>),
{
}

/// Dropping the socket path of a backend other than TSI, without giving a
/// new one, is refused and leaves the defaults as they were.
pub proof fn lemma_config_refuses_pathless_socket_backend(
    cmd: ConfigCmd,
    backend: NetworkBackend,
    socket_path: Option<Seq<char>>,
)
    requires
        cmd.clear_net_socket_path,
        cmd.net_socket_path is None,
        cmd.backend_after(backend) != NetworkBackend::Tsi,
    ensures
        !persisted_ok(cmd.backend_after(backend), cmd.socket_path_after(socket_path)),
        cmd.network_after(backend, socket_path) == (backend, socket_path),
{
}

/// A request that names nothing changes nothing: it is not stored, and
/// consistent, normalized network defaults stay as they are.
pub proof fn lemma_config_empty_request_changes_nothing(
    cmd: ConfigCmd,
    backend: NetworkBackend,
    socket_path: Option<Seq<char>>,
)
    requires
        cmd.cpus is None,
        cmd.mem is None,
        cmd.dns is None,
        cmd.net_backend is None,
        cmd.net_socket_path is None,
        !cmd.clear_net_socket_path,
        persisted_ok(backend, socket_path),
        normalized(socket_path) == socket_path,
    ensures
        !cmd.changes(),
        cmd.notices_of().len() == 0,
        cmd.network_after(backend, socket_path) == (backend, socket_path),
{
    assert(cmd.notices_of() =~= Seq::<Seq<char>>::empty());
}

/// The `config` command reports a change, so that the configuration is
/// stored, exactly when it sets something: a number of vCPUs of at most 8,
/// an amount of RAM of at most 16384 MiB, a DNS server, a backend, a socket
/// path, or the removal of the socket path.
pub proof fn lemma_config_changes_characterized(cmd: ConfigCmd)
    ensures
        cmd.changes() <==> ((cmd.cpus matches Some(c) && c <= 8) || (cmd.mem matches Some(m)
            && m <= 16384) || cmd.dns is Some || cmd.net_backend is Some
            || cmd.clear_net_socket_path || cmd.net_socket_path is Some),
        cmd.dns is Some ==> cmd.changes(),
        cmd.net_backend is Some ==> cmd.changes(),
        cmd.net_socket_path is Some ==> cmd.changes(),
        cmd.clear_net_socket_path ==> cmd.changes(),
{
}

/// The limits of the `config` command: at most 8 vCPUs and at most 16384 MiB
/// of RAM are taken, and each value over its limit gives its notice, vCPUs
/// first.
pub proof fn lemma_config_limits(cmd: ConfigCmd)
    ensures
        cmd.cpus_accepted() <==> (cmd.cpus matches Some(c) && c <= 8),
        cmd.mem_accepted() <==> (cmd.mem matches Some(m) && m <= 16384),
        cmd.notices_of().len() == (if cmd.cpus matches Some(c) && c > 8 {
            1int
        } else {
            0int
        }) + (if cmd.mem matches Some(m) && m > 16384 {
            1int
        } else {
            0int
        }),
        cmd.cpus matches Some(c) && c > 8 ==> cmd.notices_of()[0] == cpus_notice(),
        cmd.mem matches Some(m) && m > 16384 ==> cmd.notices_of().last() == mem_notice(),
{
}

/// The default backend after the `config` command is the one it names, or
/// else the old one.
pub proof fn lemma_config_backend_after(cmd: ConfigCmd, old: NetworkBackend)
    ensures
        cmd.net_backend matches Some(b) ==> cmd.backend_after(old) == b,
        cmd.net_backend is None ==> cmd.backend_after(old) == old,
{
}

/// The default socket path after the `config` command: a path it gives,
/// normalized, whatever else it says; else none when it asks to remove the
/// path or switches to TSI; else the old path, normalized. Switching to a
/// backend other than TSI keeps the old path.
pub proof fn lemma_config_socket_path_after(cmd: ConfigCmd, old: Option<Seq<char>>)
    ensures
        cmd.net_socket_path matches Some(g) ==> cmd.socket_path_after(old) == normalized(Some(g@)),
        cmd.net_socket_path is None && cmd.clear_net_socket_path ==> cmd.socket_path_after(old)
            is None,
        cmd.net_socket_path is None && cmd.net_backend == Some(NetworkBackend::Tsi)
            ==> cmd.socket_path_after(old) is None,
        cmd.net_socket_path is None && !cmd.clear_net_socket_path && cmd.net_backend != Some(
            NetworkBackend::Tsi,
        ) ==> cmd.socket_path_after(old) == normalized(old),
{
}

/// Switching the default backend to one other than TSI, with a stored socket
/// path and nothing else said of the path, is accepted and keeps the path.
pub proof fn lemma_config_switch_keeps_socket_path(
    cmd: ConfigCmd,
    backend: NetworkBackend,
    socket_path: Seq<char>,
)
    requires
        cmd.net_backend matches Some(b) && b != NetworkBackend::Tsi,
        cmd.net_socket_path is None,
        !cmd.clear_net_socket_path,
        normalized(Some(socket_path)) == Some(socket_path),
    ensures
        cmd.network_after(backend, Some(socket_path)) == (cmd.net_backend->0, Some(socket_path)),
{
}

} // verus!
