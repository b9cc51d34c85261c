//! What the plugin decides around the access-control backend: the label
//! that stands for a VLAN, who may use it, and the VLANs this process has
//! registered.
use vstd::prelude::*;

use crate::json::{decimal, decimal_string, texts};

verus! {

/// A change of network configuration that subscribers are told of.
#[derive(Debug, Clone, Copy, PartialEq, Eq, Structural)]
pub struct NetworkConfigEvent {
    /// The VLAN concerned
    pub vlan_id: u16,
    /// What happened to it
    pub action: NetworkAction,
}

/// What happened to a VLAN.
#[derive(Debug, Clone, Copy, PartialEq, Eq, Structural)]
pub enum NetworkAction {
    Create,
    Update,
    Delete,
}

/// The role of a device in the backend's team.
#[derive(Debug, Clone, Copy, PartialEq, Eq, Structural)]
pub enum Role {
    Owner,
    Admin,
    Operator,
    Member,
}

/// Owners and admins pass every access check.
pub open spec fn elevated(r: Role) -> bool {
    r == Role::Owner || r == Role::Admin
}

/// The label that stands for a VLAN in the backend: `vlan-` and the id.
pub open spec fn label_of(vlan: u16) -> Seq<char> {
    seq!['v', 'l', 'a', 'n', '-'] + decimal(vlan as nat)
}

/// Writes the label of a VLAN.
pub fn vlan_label(vlan: u16) -> (r: String)
    ensures
        r@ == label_of(vlan),
{
    let mut s = String::from_str("vlan-");
    let d = decimal_string(vlan as u64);
    s.append(d.as_str());
    proof {
        reveal_strlit("vlan-");
        assert(s@ =~= label_of(vlan));
    }
    s
}

/// Whether a device may use a VLAN: an elevated role always may; any other
/// only where the VLAN's label exists and is assigned to the device.
pub open spec fn access_allowed(label_exists: bool, role: Role, labels: Seq<Seq<char>>, vlan: u16) -> bool {
    elevated(role) || (label_exists && labels.contains(label_of(vlan)))
}

/// Decides a device's access to a VLAN from what the backend reported: if
/// the label exists, the device's role, and the labels assigned to it.
pub fn access_granted(label_exists: bool, role: Role, labels: &Vec<String>, vlan: u16) -> (r: bool)
    ensures
        r == access_allowed(label_exists, role, texts(labels@), vlan),
{
    if role == Role::Owner || role == Role::Admin {
        return true;
    }
    if !label_exists {
        return false;
    }
    let label = vlan_label(vlan);
    let ghost views = texts(labels@);
    let mut i: usize = 0;
    while i < labels.len()
        invariant
            i <= labels.len(),
            views == texts(labels@),
            label@ == label_of(vlan),
            label_exists,
            forall|j: int| 0 <= j < i ==> views[j] != label_of(vlan),
        decreases labels.len() - i,
    {
        if labels[i] == label {
            assert(views[i as int] == label_of(vlan));
            assert(views.contains(label_of(vlan)));
            return true;
        }
        i = i + 1;
    }
    assert(!views.contains(label_of(vlan)));
    false
}

/// The VLANs this process registered with the backend, each with its label.
pub struct VlanRegistry {
    /// The entries, each VLAN at most once
    pub entries: Vec<(u16, String)>,
}

impl VlanRegistry {
    /// Each VLAN has at most one entry.
    pub open spec fn wf(&self) -> bool {
        forall|i: int, j: int|
            0 <= i < j < self.entries@.len() ==> #[trigger] self.entries@[i].0 != #[trigger] self.entries@[j].0
    }

    /// The registry as a map from VLAN to label.
    pub open spec fn view_map(&self) -> Map<u16, Seq<char>> {
        Map::new(
            |v: u16| exists|i: int| 0 <= i < self.entries@.len() && self.entries@[i].0 == v,
            |v: u16| self.entries@[choose|i: int| 0 <= i < self.entries@.len() && self.entries@[i].0 == v].1@,
        )
    }

    /// An empty registry.
    pub fn new() -> (r: Self)
        ensures
            r.wf(),
            r.view_map() == Map::<u16, Seq<char>>::empty(),
    {
        let r = VlanRegistry { entries: Vec::new() };
        assert(r.view_map() =~= Map::<u16, Seq<char>>::empty());
        r
    }

    fn position(&self, vlan: u16) -> (r: Option<usize>)
        ensures
            r matches Some(i) ==> i < self.entries@.len() && self.entries@[i as int].0 == vlan,
            r is None ==> forall|i: int| 0 <= i < self.entries@.len() ==> self.entries@[i].0 != vlan,
    {
        let mut i: usize = 0;
        while i < self.entries.len()
            invariant
                i <= self.entries@.len(),
                forall|j: int| 0 <= j < i ==> self.entries@[j].0 != vlan,
            decreases self.entries.len() - i,
        {
            if self.entries[i].0 == vlan {
                return Some(i);
            }
            i = i + 1;
        }
        None
    }

    /// The label a VLAN was registered under, if it was.
    pub fn label(&self, vlan: u16) -> (r: Option<String>)
        requires
            self.wf(),
        ensures
            r is Some <==> self.view_map().contains_key(vlan),
            r matches Some(l) ==> l@ == self.view_map()[vlan],
    {
        match self.position(vlan) {
            Some(i) => {
                let l = self.entries[i].1.clone();
                assert(self.view_map().contains_key(vlan));
                let ghost c = choose|k: int| 0 <= k < self.entries@.len() && self.entries@[k].0 == vlan;
                assert(c == i as int);
                Some(l)
            },
            None => None,
        }
    }

    /// Records a VLAN under its label; a VLAN already there keeps one entry.
    /// Returns the event subscribers are told of.
    pub fn register(&mut self, vlan: u16) -> (r: NetworkConfigEvent)
        requires
            old(self).wf(),
        ensures
            final(self).wf(),
            final(self).view_map() == old(self).view_map().insert(vlan, label_of(vlan)),
            r == (NetworkConfigEvent { vlan_id: vlan, action: NetworkAction::Create }),
    {
        let ghost before = self.view_map();
        let label = vlan_label(vlan);
        let ghost idx: int;
        match self.position(vlan) {
            Some(i) => {
                self.entries.set(i, (vlan, label));
                proof {
                    idx = i as int;
                }
            },
            None => {
                self.entries.push((vlan, label));
                proof {
                    idx = self.entries@.len() - 1;
                }
            },
        }
        assert(self.entries@[idx] == (vlan, label));
        assert forall|v: u16| #[trigger] self.view_map().contains_key(v) == before.insert(vlan, label_of(vlan)).contains_key(v) by {
            if v == vlan {
                assert(self.entries@[idx].0 == v);
            }
            if v != vlan && before.contains_key(v) {
                let k = choose|k: int| 0 <= k < old(self).entries@.len() && old(self).entries@[k].0 == v;
                assert(self.entries@[k].0 == v);
            }
            if v != vlan && self.view_map().contains_key(v) {
                let k = choose|k: int| 0 <= k < self.entries@.len() && self.entries@[k].0 == v;
                assert(old(self).entries@[k].0 == v);
            }
        }
        assert forall|v: u16| #[trigger] self.view_map().contains_key(v) implies self.view_map()[v] == before.insert(vlan, label_of(vlan))[v] by {
            let k = choose|k: int| 0 <= k < self.entries@.len() && self.entries@[k].0 == v;
            if v == vlan {
                assert(self.entries@[idx].0 == v);
                assert(k == idx);
            }
            if v != vlan {
                let k0 = choose|k: int| 0 <= k < old(self).entries@.len() && old(self).entries@[k].0 == v;
                assert(k == k0);
            }
        }
        assert(self.view_map() =~= before.insert(vlan, label_of(vlan)));
        NetworkConfigEvent { vlan_id: vlan, action: NetworkAction::Create }
    }

    /// Forgets a VLAN; one that is not there leaves the registry as it was
    /// and is no event.
    pub fn unregister(&mut self, vlan: u16) -> (r: Option<NetworkConfigEvent>)
        requires
            old(self).wf(),
        ensures
            final(self).wf(),
            r is Some <==> old(self).view_map().contains_key(vlan),
            r matches Some(e) ==> e == (NetworkConfigEvent { vlan_id: vlan, action: NetworkAction::Delete }),
            final(self).view_map() == old(self).view_map().remove(vlan),
    {
        let ghost before = self.view_map();
        match self.position(vlan) {
            Some(i) => {
                let ghost old_entries = self.entries@;
                self.entries.remove(i);
                assert(before.contains_key(vlan));
                assert forall|v: u16| #[trigger] self.view_map().contains_key(v) == before.remove(vlan).contains_key(v) by {
                    if v != vlan && before.contains_key(v) {
                        let k = choose|k: int| 0 <= k < old_entries.len() && old_entries[k].0 == v;
                        if k < i {
                            assert(self.entries@[k].0 == v);
                        } else {
                            assert(self.entries@[k - 1].0 == v);
                        }
                    }
                    if self.view_map().contains_key(v) {
                        let k = choose|k: int| 0 <= k < self.entries@.len() && self.entries@[k].0 == v;
                        if k < i {
                            assert(old_entries[k].0 == v);
                        } else {
                            assert(old_entries[k + 1].0 == v);
                        }
                    }
                }
                assert forall|v: u16| #[trigger] self.view_map().contains_key(v) implies self.view_map()[v] == before.remove(vlan)[v] by {
                    let k = choose|k: int| 0 <= k < self.entries@.len() && self.entries@[k].0 == v;
                    let k0 = choose|k: int| 0 <= k < old_entries.len() && old_entries[k].0 == v;
                    if k < i {
                        assert(old_entries[k].0 == v);
                        assert(k == k0);
                    } else {
                        assert(old_entries[k + 1].0 == v);
                        assert(k + 1 == k0);
                    }
                }
                assert(self.view_map() =~= before.remove(vlan));
                Some(NetworkConfigEvent { vlan_id: vlan, action: NetworkAction::Delete })
            },
            None => {
                assert(!before.contains_key(vlan));
                assert(before.remove(vlan) =~= before);
                None
            },
        }
    }
}

} // verus!
