use krunvm::config::{ConfigCmd, KrunvmConfig, VmConfig};
use krunvm::network::{NetworkBackend, VmNetworkConfig};

fn s(x: &str) -> String {
    x.to_string()
}

fn empty_cmd() -> ConfigCmd {
    ConfigCmd {
        cpus: None,
        mem: None,
        dns: None,
        net_backend: None,
        net_socket_path: None,
        clear_net_socket_path: false,
    }
}

#[test]
fn default_config_values() {
    let c = KrunvmConfig::default();
    assert_eq!(c.version, 1);
    assert_eq!(c.default_cpus, 2);
    assert_eq!(c.default_mem, 1024);
    assert_eq!(c.default_dns, "1.1.1.1");
    assert_eq!(c.default_network.backend, NetworkBackend::Tsi);
    assert_eq!(c.default_network.socket_path, None);
    assert_eq!(c.storage_volume, "");
    assert!(c.vmconfig_map.is_empty());
    assert!(c.needs_storage_volume());
    assert!(c.is_well_formed());
    assert_eq!(c.default_network.validate_persisted("Global network configuration"), Ok(()));
}

#[test]
fn empty_request_changes_nothing() {
    let mut c = KrunvmConfig::default();
    let r = empty_cmd().run(&mut c);
    assert!(r.notices.is_empty());
    assert_eq!(r.outcome, Ok(false));
    assert_eq!(c.default_cpus, 2);
    assert_eq!(c.default_mem, 1024);
}

#[test]
fn cpus_and_mem_limits() {
    let mut c = KrunvmConfig::default();
    let mut cmd = empty_cmd();
    cmd.cpus = Some(9);
    cmd.mem = Some(16385);
    let r = cmd.run(&mut c);
    assert_eq!(
        r.notices,
        vec![
            s("Error: the maximum number of CPUs supported is 8"),
            s("Error: the maximum amount of RAM supported is 16384 MiB"),
        ]
    );
    assert_eq!(r.outcome, Ok(false));
    assert_eq!(c.default_cpus, 2);
    assert_eq!(c.default_mem, 1024);

    let mut cmd = empty_cmd();
    cmd.cpus = Some(8);
    cmd.mem = Some(16384);
    cmd.dns = Some(s("8.8.8.8"));
    let r = cmd.run(&mut c);
    assert!(r.notices.is_empty());
    assert_eq!(r.outcome, Ok(true));
    assert_eq!(c.default_cpus, 8);
    assert_eq!(c.default_mem, 16384);
    assert_eq!(c.default_dns, "8.8.8.8");
}

#[test]
fn socket_backend_needs_path() {
    let mut c = KrunvmConfig::default();
    let mut cmd = empty_cmd();
    cmd.cpus = Some(4);
    cmd.net_backend = Some(NetworkBackend::Passt);
    let r = cmd.run(&mut c);
    assert_eq!(
        r.outcome,
        Err(s("Global network configuration: backend 'passt' requires --net-socket-path."))
    );
    assert_eq!(c.default_cpus, 4);
    assert_eq!(c.default_network.backend, NetworkBackend::Tsi);
}

#[test]
fn set_backend_and_path_then_back_to_tsi() {
    let mut c = KrunvmConfig::default();
    let mut cmd = empty_cmd();
    cmd.net_backend = Some(NetworkBackend::Gvproxy);
    cmd.net_socket_path = Some(s("  /tmp/gv.sock "));
    assert_eq!(cmd.run(&mut c).outcome, Ok(true));
    assert_eq!(c.default_network.backend, NetworkBackend::Gvproxy);
    assert_eq!(c.default_network.socket_path, Some(s("/tmp/gv.sock")));

    let mut cmd = empty_cmd();
    cmd.net_backend = Some(NetworkBackend::Tsi);
    assert_eq!(cmd.run(&mut c).outcome, Ok(true));
    assert_eq!(c.default_network.backend, NetworkBackend::Tsi);
    assert_eq!(c.default_network.socket_path, None);
}

#[test]
fn clearing_path_of_socket_backend_is_refused() {
    let mut c = KrunvmConfig::default();
    c.default_network = VmNetworkConfig { backend: NetworkBackend::UnixGram, socket_path: Some(s("/u")) };
    let mut cmd = empty_cmd();
    cmd.clear_net_socket_path = true;
    let r = cmd.run(&mut c);
    assert_eq!(
        r.outcome,
        Err(s("Global network configuration: backend 'unixgram' requires --net-socket-path."))
    );
    assert_eq!(c.default_network.socket_path, Some(s("/u")));
}

#[test]
fn tsi_with_new_path_is_refused() {
    let mut c = KrunvmConfig::default();
    let mut cmd = empty_cmd();
    cmd.net_socket_path = Some(s("/x"));
    let r = cmd.run(&mut c);
    assert_eq!(
        r.outcome,
        Err(s("Global network configuration: --net-socket-path is only valid with a non-TSI backend."))
    );
}

#[test]
fn global_summary_lines() {
    let mut c = KrunvmConfig::default();
    assert_eq!(
        c.global_summary(),
        vec![
            s("Global configuration:"),
            s("Default number of CPUs for newly created VMs: 2"),
            s("Default amount of RAM (MiB) for newly created VMs: 1024"),
            s("Default DNS server for newly created VMs: 1.1.1.1"),
            s("Default network backend for newly created VMs: tsi"),
            s("Default network socket path for newly created VMs: <none>"),
        ]
    );
    c.default_mem = 16384;
    c.default_network = VmNetworkConfig { backend: NetworkBackend::Passt, socket_path: Some(s("/p.sock")) };
    let lines = c.global_summary();
    assert_eq!(lines[2], "Default amount of RAM (MiB) for newly created VMs: 16384");
    assert_eq!(lines[4], "Default network backend for newly created VMs: passt");
    assert_eq!(lines[5], "Default network socket path for newly created VMs: /p.sock");
}

#[test]
fn find_vm_by_name() {
    let mut c = KrunvmConfig::default();
    let mut a = VmConfig::default();
    a.name = s("alpha");
    a.cpus = 1;
    let mut b = VmConfig::default();
    b.name = s("beta");
    b.cpus = 3;
    c.vmconfig_map = vec![(s("alpha"), a), (s("beta"), b)];
    assert_eq!(c.find_vm(&s("beta")).unwrap().cpus, 3);
    assert_eq!(c.find_vm(&s("alpha")).unwrap().cpus, 1);
    assert!(c.find_vm(&s("gamma")).is_none());
}

#[test]
fn well_formedness_checks_keys() {
    let mut c = KrunvmConfig::default();
    let mut a = VmConfig::default();
    a.mapped_ports = vec![(s("80"), s("8080")), (s("443"), s("8443"))];
    c.vmconfig_map = vec![(s("a"), a)];
    assert!(c.is_well_formed());
    let mut b = VmConfig::default();
    b.mapped_volumes = vec![(s("/x"), s("/y")), (s("/x"), s("/z"))];
    c.vmconfig_map.push((s("b"), b));
    assert!(!c.is_well_formed());
    c.vmconfig_map.pop();
    c.vmconfig_map.push((s("a"), VmConfig::default()));
    assert!(!c.is_well_formed());
}

