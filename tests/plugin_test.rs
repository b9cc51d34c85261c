use socni::commands::{
    error_document, failure_document, parse_cni_args, parse_verb, version_document, Verb,
};
use socni::config::{ConfigError, IPAMConfig, NetConf, Route as PlanRoute};
use socni::plugin::{
    AccessPolicy, AddRun, AddStep, CheckStep, DelStep, ErrorKind, Outcome, VlanPlugin,
};
use socni::types::{CmdArgs, IPConfig, Interface, Result as CniResult};

fn conf(vlan: u16, mtu: Option<u32>, ipam: Option<IPAMConfig>) -> NetConf {
    NetConf {
        cni_version: "1.0.0".to_string(),
        name: "test-vlan".to_string(),
        plugin_type: "vlan".to_string(),
        master: "eth0".to_string(),
        vlan,
        mtu,
        ipam,
    }
}

fn args(ifname: &str) -> CmdArgs {
    CmdArgs {
        container_id: "test-container".to_string(),
        netns: "/var/run/netns/test".to_string(),
        ifname: ifname.to_string(),
        args: Vec::new(),
        path: "/opt/cni/bin".to_string(),
        stdin_data: Vec::new(),
    }
}

fn plan(gateway: Option<&str>, routes: Vec<PlanRoute>) -> IPAMConfig {
    IPAMConfig {
        ipam_type: "host-local".to_string(),
        subnet: Some("192.168.100.0/24".to_string()),
        range: None,
        gateway: gateway.map(|g| g.to_string()),
        routes: Some(routes),
    }
}

/// A host as the tests see it: its links and the namespace the thread is in.
struct World {
    host_links: Vec<String>,
    inside: bool,
}

fn drive_add(p: &VlanPlugin, world: &mut World, answer: &dyn Fn(AddStep) -> Outcome) -> (AddRun, Vec<AddStep>) {
    let mut run = p.begin_add();
    let mut seen = Vec::new();
    for _ in 0..100 {
        let step = run.step;
        if matches!(step, AddStep::Done | AddStep::Failed(_)) {
            break;
        }
        seen.push(step);
        let o = answer(step);
        if o == Outcome::Succeeded {
            match step {
                AddStep::CreateLink => {
                    let name = p.vlan_link_name();
                    if !world.host_links.contains(&name) {
                        world.host_links.push(name);
                    }
                }
                AddStep::MoveLink | AddStep::RemoveHostLink(_) => {
                    let name = p.vlan_link_name();
                    world.host_links.retain(|l| *l != name);
                }
                AddStep::EnterNamespace => world.inside = true,
                AddStep::LeaveNamespace | AddStep::LeaveAfterFailure(_) => world.inside = false,
                _ => {}
            }
        }
        run.advance(p, o);
    }
    (run, seen)
}

#[test]
fn vlan_ids_out_of_range_are_refused() {
    for v in [-1i64, 0, 4095, 5000, 65536, i64::MIN, i64::MAX] {
        let r = NetConf::from_fields(
            "1.0.0".to_string(), "n".to_string(), "vlan".to_string(), "eth0".to_string(), v, None, None,
        );
        assert!(matches!(r, Err(ConfigError::VlanOutOfRange(x)) if x == v));
    }
    for v in [1i64, 100, 4094] {
        let r = NetConf::from_fields(
            "1.0.0".to_string(), "n".to_string(), "vlan".to_string(), "eth0".to_string(), v, None, None,
        );
        assert_eq!(r.unwrap().vlan as i64, v);
    }
}

#[test]
fn empty_master_is_refused() {
    let r = NetConf::from_fields(
        "1.0.0".to_string(), "n".to_string(), "vlan".to_string(), String::new(), 100, None, None,
    );
    assert!(matches!(r, Err(ConfigError::MissingMaster)));
    assert_eq!(ConfigError::MissingMaster.kind(), ErrorKind::Validation);
}

#[test]
fn scenario_c_vlan_5000_fails_before_any_operation() {
    let r = NetConf::from_fields(
        "1.0.0".to_string(), "test-vlan".to_string(), "vlan".to_string(), "eth0".to_string(), 5000,
        Some(1500), None,
    );
    assert!(matches!(r, Err(ConfigError::VlanOutOfRange(5000))));
}

#[test]
fn new_default_fills_version_and_kind() {
    let c = NetConf::new_default("net", "eth2", 7, None);
    assert_eq!(c.cni_version, "1.0.0");
    assert_eq!(c.plugin_type, "vlan");
    assert_eq!(c.master, "eth2");
    assert_eq!(c.vlan, 7);
    assert!(c.ipam.is_none());
}

#[test]
fn scenario_a_granted_add_reports_one_interface() {
    let p = VlanPlugin::new(conf(100, Some(1500), None), args("eth1"));
    let mut w = World { host_links: Vec::new(), inside: false };
    let (run, seen) = drive_add(&p, &mut w, &|_| Outcome::Succeeded);
    assert_eq!(run.step, AddStep::Done);
    assert_eq!(
        seen,
        vec![
            AddStep::Authorize,
            AddStep::VerifyMaster,
            AddStep::CreateLink,
            AddStep::LinkUp,
            AddStep::SetMtu,
            AddStep::MoveLink,
            AddStep::EnterNamespace,
            AddStep::RenameLink,
            AddStep::ActivateInterface,
            AddStep::LeaveNamespace,
            AddStep::RegisterVlan,
        ]
    );
    let ifs = run.result.interfaces.as_ref().unwrap();
    assert_eq!(ifs.len(), 1);
    assert_eq!(ifs[0].name, "eth1");
    assert_eq!(ifs[0].sandbox.as_deref(), Some("/var/run/netns/test"));
    assert!(run.result.ips.is_none());
    assert!(!w.inside);
    assert_eq!(
        run.result.to_json(),
        r#"{"cniVersion":"1.0.0","interfaces":[{"name":"eth1","sandbox":"/var/run/netns/test"}]}"#
    );
}

#[test]
fn scenario_b_denied_add_fails_with_denial_code_and_no_link() {
    let p = VlanPlugin::new(conf(100, Some(1500), None), args("eth1"));
    let mut w = World { host_links: Vec::new(), inside: false };
    let (run, seen) = drive_add(&p, &mut w, &|s| if s == AddStep::Authorize { Outcome::Denied } else { Outcome::Succeeded });
    assert_eq!(run.step, AddStep::Failed(ErrorKind::PermissionDenied));
    assert_eq!(seen, vec![AddStep::Authorize]);
    assert!(w.host_links.is_empty());
    assert_eq!(ErrorKind::PermissionDenied.code(), 100);
    let doc = failure_document("1.0.0", ErrorKind::PermissionDenied);
    let v: serde_json::Value = serde_json::from_str(&doc).unwrap();
    assert_eq!(v["code"].as_u64(), Some(100));
    assert_eq!(v["cniVersion"].as_str(), Some("1.0.0"));
    assert_eq!(v["msg"].as_str(), Some("access denied by the access-control backend"));
    assert_eq!(v["details"].as_str(), Some(""));
}

#[test]
fn unreachable_backend_follows_the_policy() {
    let closed = VlanPlugin::new(conf(100, None, None), args("eth1"));
    let mut run = closed.begin_add();
    run.advance(&closed, Outcome::Failed);
    assert_eq!(run.step, AddStep::Failed(ErrorKind::TransientToolFailure));

    let open = VlanPlugin::new(conf(100, None, None), args("eth1")).with_access_policy(AccessPolicy::FailOpen);
    let mut run = open.begin_add();
    run.advance(&open, Outcome::Failed);
    assert_eq!(run.step, AddStep::VerifyMaster);
}

#[test]
fn add_with_address_plan_applies_address_and_routes() {
    let routes = vec![
        PlanRoute { dst: "10.0.0.0/8".to_string(), gw: Some("192.168.100.254".to_string()) },
        PlanRoute { dst: "172.16.0.0/12".to_string(), gw: None },
    ];
    let p = VlanPlugin::new(conf(300, None, Some(plan(None, routes))), args("net1"));
    let mut w = World { host_links: Vec::new(), inside: false };
    // the second static route fails: it is left out of the result, ADD goes on
    let (run, seen) = drive_add(&p, &mut w, &|s| if s == AddStep::AddRoute(1) { Outcome::Failed } else { Outcome::Succeeded });
    assert_eq!(run.step, AddStep::Done);
    assert!(seen.contains(&AddStep::AddRoute(1)));
    let ips = run.result.ips.as_ref().unwrap();
    assert_eq!(ips.len(), 1);
    assert_eq!(ips[0].address, "192.168.44.2/24");
    assert_eq!(ips[0].gateway.as_deref(), Some("192.168.44.1"));
    let rs = run.result.routes.as_ref().unwrap();
    assert_eq!(rs.len(), 2);
    assert_eq!(rs[0].dst, "0.0.0.0/0");
    assert_eq!(rs[1].dst, "10.0.0.0/8");
    assert_eq!(rs[1].gw.as_deref(), Some("192.168.100.254"));
}

#[test]
fn gateway_lies_in_the_address_subnet() {
    let p = VlanPlugin::new(conf(100, None, Some(plan(Some("10.1.1.1"), vec![]))), args("eth1"));
    assert_eq!(p.gateway(), "192.168.100.1");
    assert_eq!(p.address(), "192.168.100.2/24");
    assert_eq!(p.vlan_link_name(), "eth0.100");
}

#[test]
fn failure_inside_namespace_rolls_back_and_restores() {
    let p = VlanPlugin::new(conf(100, None, Some(plan(None, vec![]))), args("eth1"));
    let mut w = World { host_links: Vec::new(), inside: false };
    let (run, seen) = drive_add(&p, &mut w, &|s| if s == AddStep::AssignAddress { Outcome::Failed } else { Outcome::Succeeded });
    assert_eq!(run.step, AddStep::Failed(ErrorKind::PartialProvisioningFailure));
    let n = seen.len();
    assert_eq!(seen[n - 2], AddStep::RemoveSandboxLink(ErrorKind::PartialProvisioningFailure));
    assert_eq!(seen[n - 1], AddStep::LeaveAfterFailure(ErrorKind::PartialProvisioningFailure));
    assert!(!w.inside);
}

#[test]
fn failed_rename_removes_link_under_host_name() {
    let p = VlanPlugin::new(conf(100, None, None), args("eth1"));
    let mut w = World { host_links: Vec::new(), inside: false };
    let (run, seen) = drive_add(&p, &mut w, &|s| if s == AddStep::RenameLink { Outcome::Failed } else { Outcome::Succeeded });
    assert_eq!(run.step, AddStep::Failed(ErrorKind::PartialProvisioningFailure));
    assert!(seen.contains(&AddStep::RemoveMovedLink(ErrorKind::PartialProvisioningFailure)));
    assert!(!w.inside);
}

#[test]
fn failure_on_host_removes_created_link() {
    let p = VlanPlugin::new(conf(100, None, None), args("eth1"));
    let mut w = World { host_links: Vec::new(), inside: false };
    let (run, seen) = drive_add(&p, &mut w, &|s| if s == AddStep::MoveLink { Outcome::Failed } else { Outcome::Succeeded });
    assert_eq!(run.step, AddStep::Failed(ErrorKind::PartialProvisioningFailure));
    assert_eq!(*seen.last().unwrap(), AddStep::RemoveHostLink(ErrorKind::PartialProvisioningFailure));
    assert!(w.host_links.is_empty());
}

#[test]
fn failed_restore_is_fatal() {
    let p = VlanPlugin::new(conf(100, None, None), args("eth0.100"));
    let mut w = World { host_links: Vec::new(), inside: false };
    let (run, seen) = drive_add(&p, &mut w, &|s| if s == AddStep::LeaveNamespace { Outcome::Failed } else { Outcome::Succeeded });
    assert_eq!(run.step, AddStep::Failed(ErrorKind::RestoreFailed));
    // the requested name equals the host name: no rename
    assert!(!seen.contains(&AddStep::RenameLink));
    assert!(w.inside);
}

#[test]
fn second_link_creation_is_not_an_error_and_leaves_one_link() {
    let p = VlanPlugin::new(conf(100, None, None), args("eth1"));
    let mut w = World { host_links: Vec::new(), inside: false };
    let mut first = p.begin_add();
    first.advance(&p, Outcome::Succeeded);
    first.advance(&p, Outcome::Succeeded);
    assert_eq!(first.step, AddStep::CreateLink);
    w.host_links.push(p.vlan_link_name());
    first.advance(&p, Outcome::Succeeded);

    let mut second = p.begin_add();
    second.advance(&p, Outcome::Succeeded);
    second.advance(&p, Outcome::Succeeded);
    assert_eq!(second.step, AddStep::CreateLink);
    // the system reports the link as existing
    let exists = w.host_links.contains(&p.vlan_link_name());
    second.advance(&p, if exists { Outcome::AlreadyExists } else { Outcome::Succeeded });
    assert_eq!(second.step, AddStep::LinkUp);
    assert_eq!(first.step, second.step);
    assert_eq!(w.host_links, vec!["eth0.100".to_string()]);
}

fn drive_del(p: &VlanPlugin, answer: &dyn Fn(DelStep) -> Outcome) -> DelStep {
    let mut run = p.begin_del();
    for _ in 0..10 {
        if matches!(run.step, DelStep::Done | DelStep::Failed(_)) {
            break;
        }
        let o = answer(run.step);
        run.advance(o);
    }
    run.step
}

#[test]
fn del_twice_succeeds_both_times() {
    let p = VlanPlugin::new(conf(100, None, None), args("eth1"));
    assert_eq!(drive_del(&p, &|_| Outcome::Succeeded), DelStep::Done);
    // the namespace is gone now
    assert_eq!(drive_del(&p, &|s| if s == DelStep::EnterNamespace { Outcome::Failed } else { Outcome::Succeeded }), DelStep::Done);
    // the namespace is there, the interface is gone
    assert_eq!(drive_del(&p, &|s| if s == DelStep::DeleteLink { Outcome::Failed } else { Outcome::Succeeded }), DelStep::Done);
    // the backend cannot be reached
    assert_eq!(drive_del(&p, &|s| if s == DelStep::Deregister { Outcome::Failed } else { Outcome::Succeeded }), DelStep::Done);
}

#[test]
fn del_fails_only_on_failed_restore() {
    let p = VlanPlugin::new(conf(100, None, None), args("eth1"));
    assert_eq!(
        drive_del(&p, &|s| if s == DelStep::LeaveNamespace { Outcome::Failed } else { Outcome::Succeeded }),
        DelStep::Failed(ErrorKind::RestoreFailed)
    );
}

#[test]
fn check_judges_the_listing() {
    let p = VlanPlugin::new(conf(100, None, Some(plan(None, vec![]))), args("eth1"));
    let good = "5: eth1@if2: <BROADCAST,MULTICAST,UP,LOWER_UP> mtu 1500\n    vlan protocol 802.1Q id 100 <REORDER_HDR>\n    inet 192.168.100.2/24 scope global eth1";
    assert!(p.report_matches(good));
    let down = "5: eth1@if2: <BROADCAST,MULTICAST> mtu 1500\n    vlan protocol 802.1Q id 100 <REORDER_HDR>\n    inet 192.168.100.2/24";
    assert!(!p.report_matches(down));
    let other_vlan = "5: eth1@if2: <BROADCAST,UP> mtu 1500\n    vlan protocol 802.1Q id 1000 <REORDER_HDR>\n    inet 192.168.100.2/24";
    assert!(!p.report_matches(other_vlan));
    let no_addr = "5: eth1@if2: <BROADCAST,UP> mtu 1500\n    vlan protocol 802.1Q id 100 <REORDER_HDR>";
    assert!(!p.report_matches(no_addr));

    let mut run = p.begin_check();
    run.advance(&p, Outcome::Succeeded);
    run.advance(&p, Outcome::Succeeded);
    assert_eq!(run.step, CheckStep::InspectInterface);
    run.inspect(&p, Some(no_addr));
    assert_eq!(run.step, CheckStep::LeaveAfterFailure(ErrorKind::VerificationFailed));
    run.advance(&p, Outcome::Succeeded);
    assert_eq!(run.step, CheckStep::Failed(ErrorKind::VerificationFailed));

    let mut run = p.begin_check();
    run.advance(&p, Outcome::Succeeded);
    run.advance(&p, Outcome::Succeeded);
    run.inspect(&p, Some(good));
    assert_eq!(run.step, CheckStep::LeaveNamespace);
    run.advance(&p, Outcome::Succeeded);
    assert_eq!(run.step, CheckStep::Done);

    let mut run = p.begin_check();
    run.advance(&p, Outcome::Denied);
    assert_eq!(run.step, CheckStep::Failed(ErrorKind::PermissionDenied));
}

#[test]
fn result_without_ips_has_no_ips_member() {
    let mut r = CniResult::new("1.0.0");
    r.add_interface(Interface { name: "eth1".to_string(), mac: None, sandbox: None });
    let v: serde_json::Value = serde_json::from_str(&r.to_json()).unwrap();
    assert!(v.get("ips").is_none());
    assert!(v.get("routes").is_none());
    assert!(v.get("dns").is_none());

    r.add_ip(IPConfig { interface: Some(0), address: "10.0.0.2/24".to_string(), gateway: None });
    let v: serde_json::Value = serde_json::from_str(&r.to_json()).unwrap();
    let ips = v["ips"].as_array().unwrap();
    assert_eq!(ips.len(), 1);
    assert_eq!(ips[0]["address"].as_str(), Some("10.0.0.2/24"));
    assert_eq!(ips[0]["interface"].as_u64(), Some(0));
}

#[test]
fn result_strings_are_escaped() {
    let mut r = CniResult::new("1.0.0");
    r.add_interface(Interface { name: "a\"b\\c".to_string(), mac: Some("00:11".to_string()), sandbox: None });
    let text = r.to_json();
    assert_eq!(text, r#"{"cniVersion":"1.0.0","interfaces":[{"name":"a\"b\\c","mac":"00:11"}]}"#);
    let v: serde_json::Value = serde_json::from_str(&text).unwrap();
    assert_eq!(v["interfaces"][0]["name"].as_str(), Some("a\"b\\c"));
}

#[test]
fn result_with_dns_and_routes() {
    let mut r = CniResult::new("0.4.0");
    r.set_dns(socni::types::DNS {
        nameservers: Some(vec!["8.8.8.8".to_string(), "1.1.1.1".to_string()]),
        search: None,
        options: Some(vec![]),
    });
    r.add_route(socni::types::Route { dst: "0.0.0.0/0".to_string(), gw: Some("10.0.0.1".to_string()) });
    assert_eq!(
        r.to_json(),
        r#"{"cniVersion":"0.4.0","dns":{"nameservers":["8.8.8.8","1.1.1.1"],"options":[]},"routes":[{"dst":"0.0.0.0/0","gw":"10.0.0.1"}]}"#
    );
}

#[test]
fn error_and_version_documents() {
    assert_eq!(
        error_document("1.0.0", 100, "boom \"x\""),
        r#"{"cniVersion":"1.0.0","code":100,"msg":"boom \"x\"","details":""}"#
    );
    assert_eq!(
        version_document(),
        r#"{"cniVersion":"1.0.0","supportedVersions":["0.3.0","0.3.1","0.4.0","1.0.0"]}"#
    );
    for k in [
        ErrorKind::Validation,
        ErrorKind::ResourceNotFound,
        ErrorKind::PermissionDenied,
        ErrorKind::TransientToolFailure,
        ErrorKind::SwitchFailed,
        ErrorKind::PartialProvisioningFailure,
        ErrorKind::VerificationFailed,
        ErrorKind::RestoreFailed,
    ] {
        assert_eq!(k.code(), 100);
    }
}

#[test]
fn verbs_are_read() {
    assert_eq!(parse_verb("ADD"), Some(Verb::Add));
    assert_eq!(parse_verb("DEL"), Some(Verb::Del));
    assert_eq!(parse_verb("CHECK"), Some(Verb::Check));
    assert_eq!(parse_verb("VERSION"), Some(Verb::Version));
    assert_eq!(parse_verb("add"), None);
    assert_eq!(parse_verb(""), None);
}

#[test]
fn decimal_numbers() {
    assert_eq!(socni::json::decimal_string(0), "0");
    assert_eq!(socni::json::decimal_string(4094), "4094");
    assert_eq!(socni::json::decimal_string(u64::MAX), "18446744073709551615");
}

#[test]
fn cni_args_are_read() {
    let r = parse_cni_args("IgnoreUnknown=1;K8S_POD_NAME=web;K8S_POD_NAMESPACE=default");
    assert_eq!(
        r,
        vec![
            ("IgnoreUnknown".to_string(), "1".to_string()),
            ("K8S_POD_NAME".to_string(), "web".to_string()),
            ("K8S_POD_NAMESPACE".to_string(), "default".to_string()),
        ]
    );
    assert!(parse_cni_args("").is_empty());
    assert_eq!(parse_cni_args("a=1;a=2"), vec![("a".to_string(), "2".to_string())]);
    assert_eq!(
        parse_cni_args("x;y=;=z;k=v=w"),
        vec![
            ("y".to_string(), String::new()),
            (String::new(), "z".to_string()),
            ("k".to_string(), "v=w".to_string()),
        ]
    );
}

#[test]
fn failed_switch_into_namespace_is_fatal_and_changes_nothing() {
    let p = VlanPlugin::new(conf(100, None, None), args("eth1"));
    let mut w = World { host_links: Vec::new(), inside: false };
    let (run, seen) = drive_add(&p, &mut w, &|s| if s == AddStep::EnterNamespace { Outcome::Failed } else { Outcome::Succeeded });
    assert_eq!(run.step, AddStep::Failed(ErrorKind::SwitchFailed));
    assert_eq!(*seen.last().unwrap(), AddStep::EnterNamespace);
    assert!(!w.inside);
    assert_eq!(ErrorKind::SwitchFailed.code(), 100);
}

#[test]
fn master_missing_fails_before_creation() {
    let p = VlanPlugin::new(conf(100, None, None), args("eth1"));
    let mut w = World { host_links: Vec::new(), inside: false };
    let (run, seen) = drive_add(&p, &mut w, &|s| if s == AddStep::VerifyMaster { Outcome::Failed } else { Outcome::Succeeded });
    assert_eq!(run.step, AddStep::Failed(ErrorKind::ResourceNotFound));
    assert!(!seen.contains(&AddStep::CreateLink));
    assert!(w.host_links.is_empty());
}
