use socni::config::{Installer, SocniConfig};
use socni::ctl::{generate_network_config, parse_key_val, vlan_statuses, AranyaClient, LinkRecord};
use socni::integrations::{
    access_granted, vlan_label, NetworkAction, NetworkConfigEvent, Role, VlanRegistry,
};

#[test]
fn stub_backend_records_grants_and_revocations() {
    let mut c = AranyaClient::new("/var/run/aranya/api.sock".to_string(), "admin".to_string()).unwrap();
    assert_eq!(c.check_vlan_access(300), Ok(false));
    c.create_vlan(300).unwrap();
    assert_eq!(c.check_vlan_access(300), Ok(true));
    c.grant_vlan_access(400, "tenant1").unwrap();
    c.grant_vlan_access(400, "tenant2").unwrap();
    assert_eq!(c.check_vlan_access(400), Ok(true));
    assert_eq!(c.vlans.iter().filter(|v| **v == 400).count(), 1);
    c.revoke_vlan_access(400, "tenant1").unwrap();
    assert_eq!(c.check_vlan_access(400), Ok(false));
    assert_eq!(c.check_vlan_access(300), Ok(true));
}

#[test]
fn elevated_roles_pass_every_check() {
    let none: Vec<String> = Vec::new();
    assert!(access_granted(false, Role::Admin, &none, 300));
    assert!(access_granted(true, Role::Owner, &none, 100));
    assert!(!access_granted(true, Role::Member, &none, 100));
    let labels = vec!["vlan-100".to_string(), "vlan-200".to_string()];
    assert!(access_granted(true, Role::Member, &labels, 100));
    assert!(access_granted(true, Role::Operator, &labels, 200));
    assert!(!access_granted(true, Role::Member, &labels, 300));
    assert!(!access_granted(false, Role::Member, &labels, 100));
    assert_eq!(vlan_label(42), "vlan-42");
}

#[test]
fn registry_keeps_one_entry_per_vlan() {
    let mut r = VlanRegistry::new();
    assert!(r.label(100).is_none());
    let e = r.register(100);
    assert_eq!(e, NetworkConfigEvent { vlan_id: 100, action: NetworkAction::Create });
    r.register(100);
    r.register(7);
    assert_eq!(r.entries.len(), 2);
    assert_eq!(r.label(100), Some("vlan-100".to_string()));
    let gone = r.unregister(100).unwrap();
    assert_eq!(gone.vlan_id, 100);
    assert_eq!(gone.action, NetworkAction::Delete);
    assert!(r.unregister(100).is_none());
    assert!(r.label(100).is_none());
    assert_eq!(r.label(7), Some("vlan-7".to_string()));
}

#[test]
fn generated_config_has_one_plugin() {
    let c = generate_network_config(100, "eth0", Some(1500), "vlan-network", Some("10.10.0.0/24"), Some("10.10.0.1"));
    assert_eq!(c.cni_version, "1.0.0");
    assert_eq!(c.name, "vlan-network");
    assert_eq!(c.plugins.len(), 1);
    assert_eq!(c.plugins[0].plugin_type, "vlan");
    assert_eq!(c.plugins[0].vlan, 100);
    let ipam = c.plugins[0].ipam.as_ref().unwrap();
    assert_eq!(ipam.ipam_type, "host-local");
    assert_eq!(ipam.subnet.as_deref(), Some("10.10.0.0/24"));
    assert_eq!(ipam.gateway.as_deref(), Some("10.10.0.1"));

    let c = generate_network_config(5, "eth1", None, "n", None, Some("10.10.0.1"));
    assert!(c.plugins[0].ipam.is_none());
}

fn link(name: &str, kind: &str, id: Option<u64>) -> LinkRecord {
    LinkRecord {
        ifname: Some(name.to_string()),
        kind: Some(kind.to_string()),
        vlan_id: id,
        state: Some("UP".to_string()),
        master: Some("eth0".to_string()),
    }
}

#[test]
fn statuses_keep_vlan_links_only() {
    let links = vec![
        link("eth0.100", "vlan", Some(100)),
        link("br0", "bridge", Some(100)),
        link("eth0.200", "vlan", Some(200)),
        link("eth0.300", "vlan", None),
    ];
    let all = vlan_statuses(&links, None);
    assert_eq!(all.len(), 2);
    assert_eq!(all[0].name, "eth0.100");
    assert_eq!(all[1].id, 200);
    assert_eq!(all[1].master, "eth0");
    assert!(all.iter().all(|s| s.tenants.is_empty()));
    let one = vlan_statuses(&links, Some(200));
    assert_eq!(one.len(), 1);
    assert_eq!(one[0].name, "eth0.200");
    assert!(vlan_statuses(&links, Some(7)).is_empty());
}

#[test]
fn key_value_labels() {
    assert_eq!(parse_key_val("a=b=c"), Ok(("a".to_string(), "b=c".to_string())));
    assert_eq!(parse_key_val("=x"), Ok((String::new(), "x".to_string())));
    assert_eq!(parse_key_val("k="), Ok(("k".to_string(), String::new())));
    assert_eq!(parse_key_val("novalue"), Err("Invalid key=value format: novalue".to_string()));
}

#[test]
fn installer_defaults() {
    let cfg = SocniConfig::default();
    assert_eq!(cfg.cni_bin_dir, "/opt/cni/bin");
    assert_eq!(cfg.cni_conf_dir, "/etc/cni/net.d");
    assert_eq!(cfg.state_dir, "/var/lib/vlan-cni");
    assert_eq!(cfg.default_master, "eth0");
    assert!(cfg.default_mtu.is_none());
    let i = Installer::new(cfg);
    assert_eq!(i.config.default_master, "eth0");
}
