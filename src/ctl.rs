//! The logic of the management tool: the in-memory access backend, the
//! generated network configuration, the status of VLAN links and the
//! `key=value` labels of its command line.
use vstd::prelude::*;

use crate::text::{chars_of, find_char, first_at};

verus! {

/// An in-memory access-control backend: the VLANs that have been created
/// or granted. It holds no real security and serves tooling and tests.
pub struct AranyaClient {
    /// Socket of the daemon this stands in for
    pub socket_path: String,
    /// Tenant on whose behalf it acts
    pub tenant_id: String,
    /// VLANs with access
    pub vlans: Vec<u16>,
}

impl AranyaClient {
    /// Whether access to the VLAN is recorded.
    pub open spec fn allows(&self, vlan: u16) -> bool {
        self.vlans@.contains(vlan)
    }

    /// A backend with no VLAN recorded.
    pub fn new(socket_path: String, tenant_id: String) -> (r: core::result::Result<Self, ()>)
        ensures
            r matches Ok(c) && c.socket_path == socket_path && c.tenant_id == tenant_id
                && forall|v: u16| !c.allows(v),
    {
        Ok(AranyaClient { socket_path, tenant_id, vlans: Vec::new() })
    }

    fn record(&mut self, vlan: u16)
        ensures
            final(self).socket_path == old(self).socket_path,
            final(self).tenant_id == old(self).tenant_id,
            forall|v: u16| #[trigger] final(self).allows(v) == (old(self).allows(v) || v == vlan),
    {
        let mut i: usize = 0;
        while i < self.vlans.len()
            invariant
                i <= self.vlans.len(),
                forall|j: int| 0 <= j < i ==> self.vlans@[j] != vlan,
            decreases self.vlans.len() - i,
        {
            if self.vlans[i] == vlan {
                assert forall|v: u16| #[trigger] self.allows(v) == (self.allows(v) || v == vlan) by {
                    if v == vlan {
                        assert(self.vlans@[i as int] == v);
                    }
                }
                return;
            }
            i = i + 1;
        }
        let ghost before = self.vlans@;
        self.vlans.push(vlan);
        assert forall|v: u16| #[trigger] self.allows(v) == (before.contains(v) || v == vlan) by {
            if v == vlan {
                assert(self.vlans@[before.len() as int] == v);
            }
            if self.allows(v) && v != vlan {
                let j = choose|j: int| 0 <= j < self.vlans@.len() && self.vlans@[j] == v;
                assert(before[j] == v);
            }
            if before.contains(v) {
                let j = choose|j: int| 0 <= j < before.len() && before[j] == v;
                assert(self.vlans@[j] == v);
            }
        }
    }

    /// Creates a VLAN: access to it is recorded from then on.
    pub fn create_vlan(&mut self, vlan_id: u16) -> (r: core::result::Result<(), ()>)
        ensures
            r is Ok,
            final(self).socket_path == old(self).socket_path,
            final(self).tenant_id == old(self).tenant_id,
            forall|v: u16| #[trigger] final(self).allows(v) == (old(self).allows(v) || v == vlan_id),
    {
        self.record(vlan_id);
        Ok(())
    }

    /// Whether access to the VLAN is recorded.
    pub fn check_vlan_access(&self, vlan_id: u16) -> (r: core::result::Result<bool, ()>)
        ensures
            r == Ok::<bool, ()>(self.allows(vlan_id)),
    {
        let mut i: usize = 0;
        while i < self.vlans.len()
            invariant
                i <= self.vlans.len(),
                forall|j: int| 0 <= j < i ==> self.vlans@[j] != vlan_id,
            decreases self.vlans.len() - i,
        {
            if self.vlans[i] == vlan_id {
                assert(self.vlans@[i as int] == vlan_id);
                return Ok(true);
            }
            i = i + 1;
        }
        Ok(false)
    }

    /// Grants access to the VLAN.
    pub fn grant_vlan_access(&mut self, vlan_id: u16, tenant_id: &str) -> (r: core::result::Result<(), ()>)
        ensures
            r is Ok,
            final(self).socket_path == old(self).socket_path,
            final(self).tenant_id == old(self).tenant_id,
            forall|v: u16| #[trigger] final(self).allows(v) == (old(self).allows(v) || v == vlan_id),
    {
        self.record(vlan_id);
        Ok(())
    }

    /// Revokes access to the VLAN.
    pub fn revoke_vlan_access(&mut self, vlan_id: u16, tenant_id: &str) -> (r: core::result::Result<(), ()>)
        ensures
            r is Ok,
            final(self).socket_path == old(self).socket_path,
            final(self).tenant_id == old(self).tenant_id,
            forall|v: u16| #[trigger] final(self).allows(v) == (old(self).allows(v) && v != vlan_id),
    {
        let mut kept: Vec<u16> = Vec::new();
        let mut i: usize = 0;
        while i < self.vlans.len()
            invariant
                i <= self.vlans.len(),
                forall|v: u16| #[trigger] kept@.contains(v) == (self.vlans@.take(i as int).contains(v) && v != vlan_id),
            decreases self.vlans.len() - i,
        {
            let ghost prev = kept@;
            let x = self.vlans[i];
            if x != vlan_id {
                kept.push(x);
            }
            let ghost t0 = self.vlans@.take(i as int);
            let ghost t1 = self.vlans@.take(i + 1);
            assert(t1 =~= t0.push(x));
            assert forall|v: u16| #[trigger] kept@.contains(v) == (t1.contains(v) && v != vlan_id) by {
                if x != vlan_id {
                    assert(kept@ =~= prev.push(x));
                    if prev.contains(v) {
                        let j = choose|j: int| 0 <= j < prev.len() && #[trigger] prev[j] == v;
                        assert(kept@[j] == v);
                    }
                    if kept@.contains(v) && v != x {
                        let j = choose|j: int| 0 <= j < kept@.len() && #[trigger] kept@[j] == v;
                        assert(prev[j] == v);
                    }
                    if v == x {
                        assert(kept@[prev.len() as int] == v);
                    }
                }
                if t0.contains(v) {
                    let j = choose|j: int| 0 <= j < t0.len() && #[trigger] t0[j] == v;
                    assert(t1[j] == v);
                }
                if t1.contains(v) && v != x {
                    let j = choose|j: int| 0 <= j < t1.len() && #[trigger] t1[j] == v;
                    assert(t0[j] == v);
                }
                if v == x {
                    assert(t1[i as int] == v);
                }
            }
            i = i + 1;
        }
        assert(self.vlans@.take(i as int) =~= self.vlans@);
        self.vlans = kept;
        Ok(())
    }
}

/// The address plan of a generated configuration.
pub struct IpamConfig {
    /// Kind of address management
    pub ipam_type: String,
    /// Subnet CIDR
    pub subnet: Option<String>,
    /// Gateway address
    pub gateway: Option<String>,
}

/// One plugin entry of a generated configuration list.
pub struct PluginConfig {
    /// Plugin kind
    pub plugin_type: String,
    /// Master link
    pub master: String,
    /// VLAN identifier
    pub vlan: u16,
    /// MTU
    pub mtu: Option<u32>,
    /// Address plan
    pub ipam: Option<IpamConfig>,
}

/// A generated network configuration list.
pub struct NetworkConfig {
    /// Specification version
    pub cni_version: String,
    /// Network name
    pub name: String,
    /// The plugins, in order
    pub plugins: Vec<PluginConfig>,
}

/// An optional string seen as its characters.
pub open spec fn chars_opt(o: Option<&str>) -> Option<Seq<char>> {
    match o {
        Some(s) => Some(s@),
        None => None,
    }
}

/// An optional owned string seen as its characters.
pub open spec fn string_opt(o: Option<String>) -> Option<Seq<char>> {
    match o {
        Some(s) => Some(s@),
        None => None,
    }
}

/// A configuration list with one VLAN plugin; it carries a host-local
/// address plan exactly when a subnet is given.
pub fn generate_network_config(
    id: u16,
    master: &str,
    mtu: Option<u32>,
    name: &str,
    subnet: Option<&str>,
    gateway: Option<&str>,
) -> (r: NetworkConfig)
    ensures
        r.cni_version@ == "1.0.0"@,
        r.name@ == name@,
        r.plugins@.len() == 1,
        r.plugins@[0].plugin_type@ == "vlan"@,
        r.plugins@[0].master@ == master@,
        r.plugins@[0].vlan == id,
        r.plugins@[0].mtu == mtu,
        r.plugins@[0].ipam is Some <==> subnet is Some,
        r.plugins@[0].ipam matches Some(i) ==> {
            &&& i.ipam_type@ == "host-local"@
            &&& string_opt(i.subnet) == chars_opt(subnet)
            &&& string_opt(i.gateway) == chars_opt(gateway)
        },
{
    let ipam = match subnet {
        Some(s) => Some(
            IpamConfig {
                ipam_type: String::from_str("host-local"),
                subnet: Some(s.to_string()),
                gateway: match gateway {
                    Some(g) => Some(g.to_string()),
                    None => None,
                },
            },
        ),
        None => None,
    };
    let plugin = PluginConfig {
        plugin_type: String::from_str("vlan"),
        master: master.to_string(),
        vlan: id,
        mtu,
        ipam,
    };
    let mut plugins: Vec<PluginConfig> = Vec::new();
    plugins.push(plugin);
    NetworkConfig { cni_version: String::from_str("1.0.0"), name: name.to_string(), plugins }
}

/// What the link tool reports of one link, as far as the status needs it.
pub struct LinkRecord {
    /// Link name
    pub ifname: Option<String>,
    /// Kind of link
    pub kind: Option<String>,
    /// VLAN id of a VLAN link
    pub vlan_id: Option<u64>,
    /// Operational state
    pub state: Option<String>,
    /// Master link
    pub master: Option<String>,
}

/// The status of one VLAN link.
pub struct VlanStatus {
    /// VLAN identifier
    pub id: u16,
    /// Link name
    pub name: String,
    /// Operational state
    pub state: String,
    /// Master link
    pub master: String,
    /// Tenants with access
    pub tenants: Vec<String>,
}

/// The status of a VLAN link as plain values.
pub struct VlanStatusView {
    pub id: u16,
    pub name: Seq<char>,
    pub state: Seq<char>,
    pub master: Seq<char>,
}

/// The status a link contributes: a VLAN link with its name, id, state and
/// master all reported, whose id (taken modulo 2^16) is the one asked for
/// where one is.
pub open spec fn status_of(l: LinkRecord, id: Option<u16>) -> Option<VlanStatusView> {
    match (l.ifname, l.kind, l.vlan_id, l.state, l.master) {
        (Some(n), Some(k), Some(v), Some(st), Some(m)) => {
            let vid = (v % 65536) as u16;
            if k@ == "vlan"@ && (id matches Some(want) ==> vid == want) {
                Some(VlanStatusView { id: vid, name: n@, state: st@, master: m@ })
            } else {
                None
            }
        },
        _ => None,
    }
}

/// The statuses the links contribute, in their order.
pub open spec fn statuses(ls: Seq<LinkRecord>, id: Option<u16>) -> Seq<VlanStatusView>
    decreases ls.len(),
{
    if ls.len() == 0 {
        Seq::empty()
    } else {
        let rest = statuses(ls.drop_last(), id);
        match status_of(ls.last(), id) {
            Some(s) => rest.push(s),
            None => rest,
        }
    }
}

/// A status as plain values; the tenant list is not part of it.
pub open spec fn status_view(s: VlanStatus) -> VlanStatusView {
    VlanStatusView { id: s.id, name: s.name@, state: s.state@, master: s.master@ }
}

fn status_from(l: &LinkRecord, id: Option<u16>) -> (r: Option<VlanStatus>)
    ensures
        match r {
            Some(s) => status_of(*l, id) == Some(status_view(s)) && s.tenants@.len() == 0,
            None => status_of(*l, id) is None,
        },
{
    match (&l.ifname, &l.kind, l.vlan_id, &l.state, &l.master) {
        (Some(n), Some(k), Some(v), Some(st), Some(m)) => {
            let vid = (v % 65536) as u16;
            proof {
                reveal_strlit("vlan");
            }
            let is_vlan = crate::text::same_text(k.as_str(), "vlan");
            let wanted = match id {
                Some(want) => vid == want,
                None => true,
            };
            if is_vlan && wanted {
                Some(VlanStatus { id: vid, name: n.clone(), state: st.clone(), master: m.clone(), tenants: Vec::new() })
            } else {
                None
            }
        },
        _ => None,
    }
}

/// The status of each VLAN link among the reported links, restricted to
/// the requested id where one is given.
pub fn vlan_statuses(links: &Vec<LinkRecord>, id: Option<u16>) -> (r: Vec<VlanStatus>)
    ensures
        r@.map_values(|s: VlanStatus| status_view(s)) == statuses(links@, id),
        forall|i: int| 0 <= i < r@.len() ==> (#[trigger] r@[i]).tenants@.len() == 0,
{
    let mut out: Vec<VlanStatus> = Vec::new();
    let mut i: usize = 0;
    while i < links.len()
        invariant
            i <= links.len(),
            out@.map_values(|s: VlanStatus| status_view(s)) == statuses(links@.take(i as int), id),
            forall|j: int| 0 <= j < out@.len() ==> (#[trigger] out@[j]).tenants@.len() == 0,
        decreases links.len() - i,
    {
        let ghost prev = out@;
        assert(links@.take(i + 1).drop_last() =~= links@.take(i as int));
        match status_from(&links[i], id) {
            Some(s) => {
                out.push(s);
                assert(out@.map_values(|s: VlanStatus| status_view(s)) =~= prev.map_values(|s: VlanStatus| status_view(s)).push(status_view(out@[prev.len() as int])));
            },
            None => {},
        }
        i = i + 1;
    }
    assert(links@.take(i as int) =~= links@);
    out
}

/// The message of a label that is not of the form `key=value`.
pub open spec fn key_val_error(s: Seq<char>) -> Seq<char> {
    "Invalid key=value format: "@ + s
}

/// Splits a `key=value` label at its first `=`.
pub fn parse_key_val(s: &str) -> (r: core::result::Result<(String, String), String>)
    ensures
        r is Ok <==> s@.contains('='),
        r matches Ok((k, v)) ==> exists|i: int|
            first_at(s@, '=', i) && k@ == s@.take(i) && v@ == s@.skip(i + 1),
        r matches Err(e) ==> e@ == key_val_error(s@),
{
    let cs = chars_of(s);
    match find_char(&cs, '=') {
        Some(i) => {
            assert(first_at(cs@, '=', i as int));
            let n = cs.len();
            assert(i < n);
            let k = s.substring_char(0, i).to_string();
            let v = s.substring_char(i + 1, n).to_string();
            assert(s@.subrange(0, i as int) =~= s@.take(i as int));
            assert(s@.subrange(i + 1, s@.len() as int) =~= s@.skip(i + 1));
            Ok((k, v))
        },
        None => {
            let mut e = String::from_str("Invalid key=value format: ");
            e.append(s);
            Err(e)
        },
    }
}

} // verus!
