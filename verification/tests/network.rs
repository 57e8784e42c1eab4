use krunvm::config::VmConfig;
use krunvm::network::{
    default_net_mac, NetworkBackend, NetworkTransport, ResolvedNetworkConfig, VmNetworkConfig,
    COMPAT_NET_FEATURES, NET_FLAG_VFKIT,
};
use krunvm::normalize_optional_string;

fn s(x: &str) -> String {
    x.to_string()
}

fn net(backend: NetworkBackend, path: Option<&str>) -> VmNetworkConfig {
    VmNetworkConfig { backend, socket_path: path.map(s) }
}

fn resolved(backend: NetworkBackend, path: Option<&str>, fd: Option<i32>) -> ResolvedNetworkConfig {
    ResolvedNetworkConfig { backend, socket_path: path.map(s), fd }
}

#[test]
fn transport_of_each_backend() {
    assert_eq!(NetworkBackend::Tsi.transport(), None);
    assert_eq!(NetworkBackend::UnixStream.transport(), Some(NetworkTransport::UnixStream));
    assert_eq!(NetworkBackend::Passt.transport(), Some(NetworkTransport::UnixStream));
    assert_eq!(NetworkBackend::UnixGram.transport(), Some(NetworkTransport::UnixGram));
    assert_eq!(NetworkBackend::Gvproxy.transport(), Some(NetworkTransport::UnixGram));
}

#[test]
fn names_of_backends() {
    assert_eq!(NetworkBackend::Tsi.name(), "tsi");
    assert_eq!(NetworkBackend::UnixStream.name(), "unixstream");
    assert_eq!(NetworkBackend::UnixGram.name(), "unixgram");
    assert_eq!(NetworkBackend::Passt.name(), "passt");
    assert_eq!(NetworkBackend::Gvproxy.name(), "gvproxy");
}

#[test]
fn default_backend_is_tsi() {
    assert_eq!(NetworkBackend::default(), NetworkBackend::Tsi);
    let n = VmNetworkConfig::default();
    assert_eq!(n.backend, NetworkBackend::Tsi);
    assert_eq!(n.socket_path, None);
}

#[test]
fn normalize_trims_and_drops_blank() {
    assert_eq!(normalize_optional_string(None), None);
    assert_eq!(normalize_optional_string(Some(s(""))), None);
    assert_eq!(normalize_optional_string(Some(s(" \t\n "))), None);
    assert_eq!(normalize_optional_string(Some(s("  /tmp/net.sock \n"))), Some(s("/tmp/net.sock")));
    assert_eq!(normalize_optional_string(Some(s("a b"))), Some(s("a b")));
    assert_eq!(normalize_optional_string(Some(s("\u{3000}x y\u{a0}"))), Some(s("x y")));
    assert_eq!(normalize_optional_string(Some(s("\u{2028}\u{85}"))), None);
}

#[test]
fn normalize_is_idempotent_on_examples() {
    for v in [" a ", "\tb\t", "c", "  ", "x\u{2003}"] {
        let once = normalize_optional_string(Some(s(v)));
        let twice = normalize_optional_string(once.clone());
        assert_eq!(once, twice);
    }
}

#[test]
fn new_normalizes_socket_path() {
    let n = VmNetworkConfig::new(NetworkBackend::Passt, Some(s("  /run/passt.sock  ")));
    assert_eq!(n.backend, NetworkBackend::Passt);
    assert_eq!(n.socket_path, Some(s("/run/passt.sock")));
    let n = VmNetworkConfig::new(NetworkBackend::Passt, Some(s("   ")));
    assert_eq!(n.socket_path, None);
}

#[test]
fn validate_persisted_accepts_consistent() {
    assert_eq!(net(NetworkBackend::Tsi, None).validate_persisted("x"), Ok(()));
    assert_eq!(net(NetworkBackend::Gvproxy, Some("/s")).validate_persisted("x"), Ok(()));
}

#[test]
fn validate_persisted_refuses_tsi_with_socket() {
    assert_eq!(
        net(NetworkBackend::Tsi, Some("/s")).validate_persisted("VM foo"),
        Err(s("VM foo: --net-socket-path is only valid with a non-TSI backend."))
    );
}

#[test]
fn validate_persisted_refuses_socket_backend_without_path() {
    assert_eq!(
        net(NetworkBackend::UnixGram, None).validate_persisted("Global network configuration"),
        Err(s("Global network configuration: backend 'unixgram' requires --net-socket-path."))
    );
}

#[test]
fn new_then_validate_blank_path() {
    let n = VmNetworkConfig::new(NetworkBackend::UnixStream, Some(s(" ")));
    assert_eq!(
        n.validate_persisted("s"),
        Err(s("s: backend 'unixstream' requires --net-socket-path."))
    );
}

#[test]
fn resolve_without_overrides_keeps_stored() {
    let stored = net(NetworkBackend::Passt, Some("/p.sock"));
    let r = ResolvedNetworkConfig::resolve(&stored, None, None, None).unwrap();
    assert_eq!(r.backend, NetworkBackend::Passt);
    assert_eq!(r.socket_path, Some(s("/p.sock")));
    assert_eq!(r.fd, None);
}

#[test]
fn resolve_overrides_backend_and_path() {
    let stored = net(NetworkBackend::Tsi, None);
    let r = ResolvedNetworkConfig::resolve(
        &stored,
        Some(NetworkBackend::Gvproxy),
        Some(s(" /g.sock ")),
        None,
    )
    .unwrap();
    assert_eq!(r.backend, NetworkBackend::Gvproxy);
    assert_eq!(r.socket_path, Some(s("/g.sock")));
}

#[test]
fn resolve_with_fd_drops_nothing_and_refuses_both() {
    let stored = net(NetworkBackend::UnixStream, Some("/u.sock"));
    let r = ResolvedNetworkConfig::resolve(&stored, None, None, Some(5));
    assert_eq!(
        r.unwrap_err(),
        s("Networking backends accept either --net-socket-path or --net-fd, not both.")
    );
}

#[test]
fn resolve_blank_override_falls_to_none() {
    let stored = net(NetworkBackend::UnixStream, Some("/u.sock"));
    let r = ResolvedNetworkConfig::resolve(&stored, None, Some(s("  ")), Some(7)).unwrap();
    assert_eq!(r.socket_path, None);
    assert_eq!(r.fd, Some(7));
}

#[test]
fn validate_messages() {
    assert_eq!(
        resolved(NetworkBackend::Tsi, None, Some(3)).validate(),
        Err(s("TSI networking does not accept --net-socket-path or --net-fd."))
    );
    assert_eq!(
        resolved(NetworkBackend::Tsi, Some("/x"), None).validate(),
        Err(s("TSI networking does not accept --net-socket-path or --net-fd."))
    );
    assert_eq!(resolved(NetworkBackend::Tsi, None, None).validate(), Ok(()));
    assert_eq!(
        resolved(NetworkBackend::Passt, None, None).validate(),
        Err(s("Networking backend 'passt' requires --net-socket-path or --net-fd."))
    );
    assert_eq!(resolved(NetworkBackend::Passt, None, Some(4)).validate(), Ok(()));
}

fn vm_with_ports(ports: Vec<(String, String)>) -> VmConfig {
    let mut v = VmConfig::default();
    v.mapped_ports = ports;
    v
}

#[test]
fn passt_refuses_port_mappings() {
    let vm = vm_with_ports(vec![(s("8080"), s("80"))]);
    assert_eq!(
        resolved(NetworkBackend::Passt, Some("/p"), None).validate_port_mapping(&vm),
        Err(s("The passt backend does not support krunvm port mappings. Configure passt forwarding externally or remove --port mappings."))
    );
    assert_eq!(resolved(NetworkBackend::Gvproxy, Some("/p"), None).validate_port_mapping(&vm), Ok(()));
    let empty = vm_with_ports(vec![]);
    assert_eq!(resolved(NetworkBackend::Passt, Some("/p"), None).validate_port_mapping(&empty), Ok(()));
}

#[test]
fn attachment_for_each_backend() {
    assert!(resolved(NetworkBackend::Tsi, None, None).attachment().is_none());
    let a = resolved(NetworkBackend::Gvproxy, Some("/g"), None).attachment().unwrap();
    assert_eq!(a.transport, NetworkTransport::UnixGram);
    assert_eq!(a.socket_path, Some(s("/g")));
    assert_eq!(a.fd, -1);
    assert_eq!(a.flags, NET_FLAG_VFKIT);
    assert_eq!(a.features, COMPAT_NET_FEATURES);
    let a = resolved(NetworkBackend::Gvproxy, None, Some(9)).attachment().unwrap();
    assert_eq!(a.fd, 9);
    assert_eq!(a.flags, 0);
    let a = resolved(NetworkBackend::Passt, Some("/p"), None).attachment().unwrap();
    assert_eq!(a.transport, NetworkTransport::UnixStream);
    assert_eq!(a.flags, 0);
}

#[test]
fn feature_constants() {
    assert_eq!(NET_FLAG_VFKIT, 1);
    assert_eq!(COMPAT_NET_FEATURES, 19587);
    assert_eq!(default_net_mac(), [0x5a, 0x94, 0xef, 0xe4, 0x0c, 0xee]);
}
