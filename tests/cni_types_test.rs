use socni::config::NetConf;
use socni::plugin::VlanPlugin;
use socni::types::{CmdArgs, Result as CniResult};

fn sample_conf() -> NetConf {
    NetConf {
        cni_version: "1.0.0".to_string(),
        name: "test-vlan".to_string(),
        plugin_type: "vlan".to_string(),
        master: "eth0".to_string(),
        vlan: 100,
        mtu: Some(1500),
        ipam: None,
    }
}

fn conf_bytes() -> Vec<u8> {
    let mut doc = serde_json::Map::new();
    doc.insert("cniVersion".to_string(), serde_json::Value::from("1.0.0"));
    doc.insert("name".to_string(), serde_json::Value::from("test-vlan"));
    doc.insert("type".to_string(), serde_json::Value::from("vlan"));
    doc.insert("master".to_string(), serde_json::Value::from("eth0"));
    doc.insert("vlan".to_string(), serde_json::Value::from(100));
    doc.insert("mtu".to_string(), serde_json::Value::from(1500));
    serde_json::to_vec(&serde_json::Value::Object(doc)).unwrap()
}

#[test]
fn test_net_conf_creation() -> Result<(), Box<dyn std::error::Error>> {
    let conf = sample_conf();

    assert_eq!(conf.cni_version, "1.0.0");
    assert_eq!(conf.name, "test-vlan");
    assert_eq!(conf.plugin_type, "vlan");
    assert_eq!(conf.master, "eth0");
    assert_eq!(conf.vlan, 100);
    assert_eq!(conf.mtu, Some(1500));
    assert!(conf.ipam.is_none());

    Ok(())
}

#[test]
fn test_cmd_args_creation() -> Result<(), Box<dyn std::error::Error>> {
    let args = CmdArgs {
        container_id: "test-container".to_string(),
        netns: "/var/run/netns/test".to_string(),
        ifname: "eth1".to_string(),
        args: Vec::new(),
        path: "/opt/cni/bin".to_string(),
        stdin_data: conf_bytes(),
    };

    assert_eq!(args.container_id, "test-container");
    assert_eq!(args.netns, "/var/run/netns/test");
    assert_eq!(args.ifname, "eth1");
    assert!(args.args.is_empty());
    assert_eq!(args.path, "/opt/cni/bin");
    assert!(!args.stdin_data.is_empty());

    Ok(())
}

#[test]
fn test_vlan_plugin_creation() -> Result<(), Box<dyn std::error::Error>> {
    let conf = sample_conf();
    let args = CmdArgs {
        container_id: "test-container".to_string(),
        netns: "/var/run/netns/test".to_string(),
        ifname: "eth1".to_string(),
        args: Vec::new(),
        path: "/opt/cni/bin".to_string(),
        stdin_data: conf_bytes(),
    };

    let plugin = VlanPlugin::new(conf, args);
    assert_eq!(plugin.config.vlan, 100);
    assert_eq!(plugin.args.ifname, "eth1");

    Ok(())
}

#[test]
fn test_cni_result_serialization() -> Result<(), Box<dyn std::error::Error>> {
    let result = CniResult {
        cni_version: "1.0.0".to_string(),
        interfaces: Some(vec![]),
        ips: Some(vec![]),
        routes: Some(vec![]),
        dns: None,
    };

    let serialized = result.to_json();
    let deserialized: serde_json::Value = serde_json::from_str(&serialized)?;

    assert_eq!(result.cni_version, deserialized["cniVersion"].as_str().unwrap());
    assert!(result.interfaces.is_some() && deserialized.get("interfaces").is_some());
    assert!(result.ips.is_some() && deserialized.get("ips").is_some());
    assert!(result.routes.is_some() && deserialized.get("routes").is_some());
    assert!(result.dns.is_none() && deserialized.get("dns").is_none());

    Ok(())
}
