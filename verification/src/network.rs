//! Networking backends of a VM, the persisted network settings, and the
//! settings that a start resolves from them and the command line.

use vstd::prelude::*;

use crate::config::VmConfig;
use crate::text::{
    clone_opt, joined, is_ws, lemma_trimmed_characterized, lemma_trimmed_ends,
    lemma_trimmed_idempotent, opt_view, trim, trimmed,
};

verus! {

/// Flag for `krun_add_net_*`: the socket speaks the vfkit protocol.
pub const NET_FLAG_VFKIT: u32 = 1 << 0;

pub const NET_FEATURE_CSUM: u32 = 1 << 0;

pub const NET_FEATURE_GUEST_CSUM: u32 = 1 << 1;

pub const NET_FEATURE_GUEST_TSO4: u32 = 1 << 7;

pub const NET_FEATURE_GUEST_UFO: u32 = 1 << 10;

pub const NET_FEATURE_HOST_TSO4: u32 = 1 << 11;

pub const NET_FEATURE_HOST_UFO: u32 = 1 << 14;

/// The virtio-net features offered to the guest on every attached network.
pub const COMPAT_NET_FEATURES: u32 = NET_FEATURE_CSUM | NET_FEATURE_GUEST_CSUM
    | NET_FEATURE_GUEST_TSO4 | NET_FEATURE_GUEST_UFO | NET_FEATURE_HOST_TSO4
    | NET_FEATURE_HOST_UFO;

/// How a VM reaches the network.
#[derive(Clone, Copy, Debug, PartialEq, Eq, Structural)]
pub enum NetworkBackend {
    /// Transparent socket impersonation: the guest's sockets are the host's.
    Tsi,
    /// A virtio-net device over a unix stream socket.
    UnixStream,
    /// A virtio-net device over a unix datagram socket.
    UnixGram,
    /// passt, over a unix stream socket.
    Passt,
    /// gvproxy, over a unix datagram socket.
    Gvproxy,
}

/// The kind of unix socket that carries a virtio-net device.
#[derive(Clone, Copy, Debug, PartialEq, Eq, Structural)]
pub enum NetworkTransport {
    UnixStream,
    UnixGram,
}

impl Default for NetworkBackend {
    fn default() -> (r: NetworkBackend)
        ensures
            r == NetworkBackend::Tsi,
    {
        NetworkBackend::Tsi
    }
}

impl NetworkBackend {
    /// The socket transport that the backend needs, if any.
    pub open spec fn transport_of(self) -> Option<NetworkTransport> {
        match self {
            NetworkBackend::Tsi => None,
            NetworkBackend::UnixStream | NetworkBackend::Passt => Some(
                NetworkTransport::UnixStream,
            ),
            NetworkBackend::UnixGram | NetworkBackend::Gvproxy => Some(NetworkTransport::UnixGram),
        }
    }

    /// The name of the backend, as the command line writes it.
    pub open spec fn name_of(self) -> Seq<char> {
        match self {
            NetworkBackend::Tsi => "tsi"@,
            NetworkBackend::UnixStream => "unixstream"@,
            NetworkBackend::UnixGram => "unixgram"@,
            NetworkBackend::Passt => "passt"@,
            NetworkBackend::Gvproxy => "gvproxy"@,
        }
    }

    /// The socket transport of the backend: none for TSI, a stream socket
    /// for unixstream and passt, a datagram socket for unixgram and gvproxy.
    pub fn transport(self) -> (r: Option<NetworkTransport>)
        ensures
            r == self.transport_of(),
            r is None <==> self == NetworkBackend::Tsi,
    {
        match self {
            NetworkBackend::Tsi => None,
            NetworkBackend::UnixStream | NetworkBackend::Passt => Some(
                NetworkTransport::UnixStream,
            ),
            NetworkBackend::UnixGram | NetworkBackend::Gvproxy => Some(NetworkTransport::UnixGram),
        }
    }

    /// The name of the backend, as it is shown and written on the command line.
    pub fn name(self) -> (r: &'static str)
        ensures
            r@ == self.name_of(),
    {
        match self {
            NetworkBackend::Tsi => "tsi",
            NetworkBackend::UnixStream => "unixstream",
            NetworkBackend::UnixGram => "unixgram",
            NetworkBackend::Passt => "passt",
            NetworkBackend::Gvproxy => "gvproxy",
        }
    }
}

/// An optional string once trimmed, with nothing left standing for absent.
pub open spec fn normalized(value: Option<Seq<char>>) -> Option<Seq<char>> {
    match value {
        Some(v) => if trimmed(v).len() == 0 {
            None
        } else {
            Some(trimmed(v))
        },
        None => None,
    }
}

/// Trims an optional string, and treats one that is empty after trimming
/// as absent.
pub fn normalize_optional_string(value: Option<String>) -> (r: Option<String>)
    ensures
        opt_view(r) == normalized(opt_view(value)),
{
    match value {
        Some(v) => {
            let t = trim(v.as_str());
            if t.as_str().is_empty() {
                None
            } else {
                Some(t)
            }
        },
        None => None,
    }
}

/// The network settings stored with a VM, and as the default for new VMs.
#[derive(Debug)]
pub struct VmNetworkConfig {
    pub backend: NetworkBackend,
    pub socket_path: Option<String>,
}

/// Whether stored network settings are consistent: a socket path goes with
/// every backend but TSI, and with no other.
pub open spec fn persisted_ok(backend: NetworkBackend, socket_path: Option<Seq<char>>) -> bool {
    (backend == NetworkBackend::Tsi) == (socket_path is None)
}

/// The message that refuses inconsistent stored network settings.
pub open spec fn persisted_error(scope: Seq<char>, backend: NetworkBackend) -> Seq<char> {
    if backend == NetworkBackend::Tsi {
        scope + ": --net-socket-path is only valid with a non-TSI backend."@
    } else {
        scope + ": backend '"@ + backend.name_of() + "' requires --net-socket-path."@
    }
}

impl Default for VmNetworkConfig {
    fn default() -> (r: VmNetworkConfig)
        ensures
            r.backend == NetworkBackend::Tsi,
            r.socket_path is None,
    {
        VmNetworkConfig { backend: NetworkBackend::Tsi, socket_path: None }
    }
}

impl VmNetworkConfig {
    /// Builds network settings, normalizing the socket path.
    pub fn new(backend: NetworkBackend, socket_path: Option<String>) -> (r: VmNetworkConfig)
        ensures
            r.backend == backend,
            opt_view(r.socket_path) == normalized(opt_view(socket_path)),
    {
        VmNetworkConfig { backend, socket_path: normalize_optional_string(socket_path) }
    }

    /// Copies the settings.
    pub fn duplicate(&self) -> (r: VmNetworkConfig)
        ensures
            r.backend == self.backend,
            opt_view(r.socket_path) == opt_view(self.socket_path),
    {
        VmNetworkConfig { backend: self.backend, socket_path: clone_opt(&self.socket_path) }
    }

    /// Checks that stored settings are consistent; the error names `scope`.
    pub fn validate_persisted(&self, scope: &str) -> (r: Result<(), String>)
        ensures
            r is Ok <==> persisted_ok(self.backend, opt_view(self.socket_path)),
            r matches Err(e) ==> e@ == persisted_error(scope@, self.backend),
    {
        match self.backend {
            NetworkBackend::Tsi => {
                if self.socket_path.is_some() {
                    Err(joined(scope, ": --net-socket-path is only valid with a non-TSI backend."))
                } else {
                    Ok(())
                }
            },
            _ => {
                if self.socket_path.is_none() {
                    let mut e = joined(scope, ": backend '");
                    e.append(self.backend.name());
                    e.append("' requires --net-socket-path.");
                    Err(e)
                } else {
                    Ok(())
                }
            },
        }
    }
}

/// The network settings of one start of a VM.
#[derive(Debug)]
pub struct ResolvedNetworkConfig {
    pub backend: NetworkBackend,
    pub socket_path: Option<String>,
    pub fd: Option<i32>,
}

/// Whether settings for a start are usable: TSI takes neither a socket path
/// nor a descriptor, every other backend exactly one of them.
pub open spec fn resolved_ok(
    backend: NetworkBackend,
    socket_path: Option<Seq<char>>,
    fd: Option<i32>,
) -> bool {
    if backend == NetworkBackend::Tsi {
        socket_path is None && fd is None
    } else {
        (socket_path is Some) != (fd is Some)
    }
}

/// The message that refuses settings for a start.
pub open spec fn resolved_error(
    backend: NetworkBackend,
    socket_path: Option<Seq<char>>,
    fd: Option<i32>,
) -> Seq<char> {
    if backend == NetworkBackend::Tsi {
        "TSI networking does not accept --net-socket-path or --net-fd."@
    } else if socket_path is Some && fd is Some {
        "Networking backends accept either --net-socket-path or --net-fd, not both."@
    } else {
        "Networking backend '"@ + backend.name_of() + "' requires --net-socket-path or --net-fd."@
    }
}

/// The socket path a start uses: the one given on the command line,
/// normalized, or else the stored one.
pub open spec fn resolved_socket_path(
    stored: Option<Seq<char>>,
    given: Option<Seq<char>>,
) -> Option<Seq<char>> {
    if given is Some {
        normalized(given)
    } else {
        stored
    }
}

/// The backend a start uses: the one given on the command line, or else the
/// stored one.
pub open spec fn resolved_backend(
    stored: NetworkBackend,
    given: Option<NetworkBackend>,
) -> NetworkBackend {
    match given {
        Some(b) => b,
        None => stored,
    }
}

/// The message that refuses port mappings with passt.
pub open spec fn passt_ports_error() -> Seq<char> {
    "The passt backend does not support krunvm port mappings. Configure passt forwarding externally or remove --port mappings."@
}

/// A virtio-net device to attach to the VM.
#[derive(Debug)]
pub struct NetworkAttachment {
    pub transport: NetworkTransport,
    pub socket_path: Option<String>,
    pub fd: i32,
    pub features: u32,
    pub flags: u32,
}

/// The MAC address of the guest's network device.
pub fn default_net_mac() -> (r: [u8; 6])
    ensures
        r@ == seq![0x5au8, 0x94u8, 0xefu8, 0xe4u8, 0x0cu8, 0xeeu8],
{
    let r: [u8; 6] = [0x5a, 0x94, 0xef, 0xe4, 0x0c, 0xee];
    assert(r@ =~= seq![0x5au8, 0x94u8, 0xefu8, 0xe4u8, 0x0cu8, 0xeeu8]);
    r
}

impl ResolvedNetworkConfig {
    /// Resolves the settings of a start from the stored ones and what the
    /// command line overrides, and checks them.
    pub fn resolve(
        vm_network: &VmNetworkConfig,
        backend_override: Option<NetworkBackend>,
        socket_path_override: Option<String>,
        fd_override: Option<i32>,
    ) -> (r: Result<ResolvedNetworkConfig, String>)
        ensures
            ({
                let b = resolved_backend(vm_network.backend, backend_override);
                let p = resolved_socket_path(
                    opt_view(vm_network.socket_path),
                    opt_view(socket_path_override),
                );
                &&& r is Ok <==> resolved_ok(b, p, fd_override)
                &&& r matches Ok(n) ==> n.backend == b && opt_view(n.socket_path) == p && n.fd
                    == fd_override
                &&& r matches Err(e) ==> e@ == resolved_error(b, p, fd_override)
            }),
    {
        let socket_path = if socket_path_override.is_some() {
            normalize_optional_string(socket_path_override)
        } else {
            clone_opt(&vm_network.socket_path)
        };
        let backend = match backend_override {
            Some(b) => b,
            None => vm_network.backend,
        };
        let network = ResolvedNetworkConfig { backend, socket_path, fd: fd_override };
        match network.validate() {
            Ok(()) => Ok(network),
            Err(e) => Err(e),
        }
    }

    /// Checks the settings of a start.
    pub fn validate(&self) -> (r: Result<(), String>)
        ensures
            r is Ok <==> resolved_ok(self.backend, opt_view(self.socket_path), self.fd),
            r matches Err(e) ==> e@ == resolved_error(
                self.backend,
                opt_view(self.socket_path),
                self.fd,
            ),
    {
        match self.backend {
            NetworkBackend::Tsi => {
                if self.socket_path.is_some() || self.fd.is_some() {
                    Err(
                        String::from_str(
                            "TSI networking does not accept --net-socket-path or --net-fd.",
                        ),
                    )
                } else {
                    Ok(())
                }
            },
            _ => {
                if self.socket_path.is_some() && self.fd.is_some() {
                    return Err(
                        String::from_str(
                            "Networking backends accept either --net-socket-path or --net-fd, not both.",
                        ),
                    );
                }
                if self.socket_path.is_none() && self.fd.is_none() {
                    let mut e = String::from_str("Networking backend '");
                    e.append(self.backend.name());
                    e.append("' requires --net-socket-path or --net-fd.");
                    return Err(e);
                }
                Ok(())
            },
        }
    }

    /// Refuses port mappings of the VM when the backend is passt.
    pub fn validate_port_mapping(&self, vmcfg: &VmConfig) -> (r: Result<(), String>)
        ensures
            r is Ok <==> !(self.backend == NetworkBackend::Passt && vmcfg.mapped_ports@.len()
                > 0),
            r matches Err(e) ==> e@ == passt_ports_error(),
    {
        if self.backend == NetworkBackend::Passt && vmcfg.mapped_ports.len() > 0 {
            Err(
                String::from_str(
                    "The passt backend does not support krunvm port mappings. Configure passt forwarding externally or remove --port mappings.",
                ),
            )
        } else {
            Ok(())
        }
    }

    /// The network device to attach for these settings: none for TSI;
    /// otherwise one on the backend's transport, with the socket path, the
    /// descriptor or -1, the compatible features, and the vfkit flag for
    /// gvproxy over a socket path.
    pub fn attachment(&self) -> (r: Option<NetworkAttachment>)
        ensures
            r is None <==> self.backend == NetworkBackend::Tsi,
            r matches Some(a) ==> {
                &&& Some(a.transport) == self.backend.transport_of()
                &&& opt_view(a.socket_path) == opt_view(self.socket_path)
                &&& a.fd == (match self.fd {
                    Some(fd) => fd,
                    None => -1i32,
                })
                &&& a.features == COMPAT_NET_FEATURES
                &&& a.flags == (if self.backend == NetworkBackend::Gvproxy
                    && self.socket_path is Some {
                    NET_FLAG_VFKIT
                } else {
                    0
                })
            },
    {
        match self.backend.transport() {
            None => None,
            Some(transport) => {
                let fd = match self.fd {
                    Some(fd) => fd,
                    None => -1,
                };
                let flags = if self.backend == NetworkBackend::Gvproxy
                    && self.socket_path.is_some() {
                    NET_FLAG_VFKIT
                } else {
                    0
                };
                Some(
                    NetworkAttachment {
                        transport,
                        socket_path: clone_opt(&self.socket_path),
                        fd,
                        features: COMPAT_NET_FEATURES,
                        flags,
                    },
                )
            },
        }
    }
}

/// Normalizing an optional string twice gives what normalizing once gives.
pub proof fn lemma_normalized_idempotent(value: Option<Seq<char>>)
    ensures
        normalized(normalized(value)) == normalized(value),
{
    if let Some(v) = value {
        lemma_trimmed_idempotent(v);
    }
}

/// A normalized string is never empty and has no white space at either end.
pub proof fn lemma_normalized_clean(value: Option<Seq<char>>)
    ensures
        normalized(value) matches Some(t) ==> t.len() > 0 && !is_ws(t[0]) && !is_ws(
            t[t.len() - 1],
        ),
{
    if let Some(v) = value {
        lemma_trimmed_ends(v);
    }
}

/// No two backends share a name.
pub proof fn lemma_backend_names_distinct(a: NetworkBackend, b: NetworkBackend)
    ensures
        a.name_of() == b.name_of() ==> a == b,
{
    reveal_strlit("tsi");
    reveal_strlit("unixstream");
    reveal_strlit("unixgram");
    reveal_strlit("passt");
    reveal_strlit("gvproxy");
    if a.name_of() == b.name_of() && a != b {
        assert(a.name_of().len() == b.name_of().len());
        assert(a.name_of()[0] == b.name_of()[0]);
        assert(a.name_of()[4] == b.name_of()[4]);
    }
}

/// A start with nothing overridden on the command line accepts exactly
/// the stored network settings that storing accepts, and keeps them.
pub proof fn lemma_stored_settings_start_unchanged(
    backend: NetworkBackend,
    socket_path: Option<Seq<char>>,
)
    ensures
        resolved_backend(backend, None) == backend,
        resolved_socket_path(socket_path, None) == socket_path,
        resolved_ok(backend, socket_path, None) <==> persisted_ok(backend, socket_path),
{
}

/// Settings built by `VmNetworkConfig::new` are accepted for storing
/// exactly when the backend is TSI if and only if the socket path is
/// absent or blank.
pub proof fn lemma_new_settings_persisted_ok(backend: NetworkBackend, socket_path: Option<Seq<char>>)
    ensures
        persisted_ok(backend, normalized(socket_path)) <==> ((backend == NetworkBackend::Tsi) == (
        socket_path is None || trimmed(socket_path->0).len() == 0)),
{
}

/// Normalizing keeps absence, turns a string of nothing but white space
/// into absence, and otherwise keeps the piece of the string from its first
/// to its last character that is not white space.
pub proof fn lemma_normalized_characterized(value: Option<Seq<char>>)
    ensures
        value is None ==> normalized(value) is None,
        value matches Some(v) ==> (normalized(value) is None <==> forall|k: int|
            0 <= k < v.len() ==> is_ws(#[trigger] v[k])),
        value matches Some(v) ==> (normalized(value) matches Some(t) ==> exists|a: int, b: int|
            0 <= a < b <= v.len() && t == v.subrange(a, b) && !is_ws(v[a]) && !is_ws(v[b - 1])
                && (forall|k: int| 0 <= k < a ==> is_ws(#[trigger] v[k])) && (forall|k: int|
                b <= k < v.len() ==> is_ws(#[trigger] v[k]))),
{
    if let Some(v) = value {
        lemma_trimmed_characterized(v);
    }
}

/// Stored network settings are consistent exactly when a socket path is
/// present for every backend but TSI, and absent for TSI.
pub proof fn lemma_persisted_ok_characterized(
    backend: NetworkBackend,
    socket_path: Option<Seq<char>>,
)
    ensures
        backend == NetworkBackend::Tsi ==> (persisted_ok(backend, socket_path)
            <==> socket_path is None),
        backend != NetworkBackend::Tsi ==> (persisted_ok(backend, socket_path)
            <==> socket_path is Some),
{
}

/// A backend given on the command line is the one a start uses; without
/// one, the stored backend is used.
pub proof fn lemma_given_backend_wins(stored: NetworkBackend, given: Option<NetworkBackend>)
    ensures
        given matches Some(b) ==> resolved_backend(stored, given) == b,
        given is None ==> resolved_backend(stored, given) == stored,
{
}

/// A socket path given on the command line replaces the stored one,
/// whatever that is, and is normalized; without one, the stored path is
/// used as it is.
pub proof fn lemma_given_socket_path_wins(stored: Option<Seq<char>>, given: Seq<char>)
    ensures
        resolved_socket_path(stored, Some(given)) == normalized(Some(given)),
        resolved_socket_path(stored, None) == stored,
        given.len() > 0 && (forall|k: int| 0 <= k < given.len() ==> !is_ws(#[trigger] given[k]))
            ==> resolved_socket_path(stored, Some(given)) == Some(given),
{
    lemma_trimmed_characterized(given);
    if given.len() > 0 && forall|k: int| 0 <= k < given.len() ==> !is_ws(#[trigger] given[k]) {
        assert(!is_ws(given[0]));
        assert(!is_ws(given[given.len() - 1]));
        crate::text::lemma_trimmed_fixed(given);
    }
}

/// The settings of a start are usable exactly when TSI comes with neither a
/// socket path nor a descriptor, and any other backend with exactly one of
/// them, whichever it is.
pub proof fn lemma_resolved_ok_characterized(
    backend: NetworkBackend,
    socket_path: Option<Seq<char>>,
    fd: Option<i32>,
)
    ensures
        backend == NetworkBackend::Tsi ==> (resolved_ok(backend, socket_path, fd) <==> (
        socket_path is None && fd is None)),
        backend != NetworkBackend::Tsi ==> (resolved_ok(backend, socket_path, fd) <==> (
        socket_path is Some && fd is None || socket_path is None && fd is Some)),
{
}

/// TSI needs no socket; unixstream and passt use a stream socket; unixgram
/// and gvproxy use a datagram socket.
pub proof fn lemma_transport_characterized(b: NetworkBackend)
    ensures
        b.transport_of() is None <==> b == NetworkBackend::Tsi,
        b.transport_of() == Some(NetworkTransport::UnixStream) <==> (b == NetworkBackend::UnixStream
            || b == NetworkBackend::Passt),
        b.transport_of() == Some(NetworkTransport::UnixGram) <==> (b == NetworkBackend::UnixGram
            || b == NetworkBackend::Gvproxy),
{
}

} // verus!
