use vstd::prelude::*;

verus! {

/// Lowest VLAN identifier a configuration may name.
pub const VLAN_MIN: u16 = 1;

/// Highest VLAN identifier a configuration may name.
pub const VLAN_MAX: u16 = 4094;

/// Whether an integer is a usable VLAN identifier.
pub open spec fn valid_vlan(v: int) -> bool {
    VLAN_MIN <= v <= VLAN_MAX
}

/// Settings of the installation tooling.
pub struct SocniConfig {
    /// Directory of the plugin binaries
    pub cni_bin_dir: String,
    /// Directory of the network configurations
    pub cni_conf_dir: String,
    /// Directory for VLAN state
    pub state_dir: String,
    /// Master link used when none is named
    pub default_master: String,
    /// MTU used when none is named
    pub default_mtu: Option<u32>,
}

impl Default for SocniConfig {
    fn default() -> (r: Self)
        ensures
            r.cni_bin_dir@ == "/opt/cni/bin"@,
            r.cni_conf_dir@ == "/etc/cni/net.d"@,
            r.state_dir@ == "/var/lib/vlan-cni"@,
            r.default_master@ == "eth0"@,
            r.default_mtu is None,
    {
        SocniConfig {
            cni_bin_dir: String::from_str("/opt/cni/bin"),
            cni_conf_dir: String::from_str("/etc/cni/net.d"),
            state_dir: String::from_str("/var/lib/vlan-cni"),
            default_master: String::from_str("eth0"),
            default_mtu: None,
        }
    }
}

/// A static route of the address plan.
pub struct Route {
    /// Destination CIDR
    pub dst: String,
    /// Gateway for this route
    pub gw: Option<String>,
}

/// The address-management part of a network configuration.
pub struct IPAMConfig {
    /// Kind of address management
    pub ipam_type: String,
    /// Subnet CIDR
    pub subnet: Option<String>,
    /// Range of addresses
    pub range: Option<String>,
    /// Gateway address
    pub gateway: Option<String>,
    /// Static routes
    pub routes: Option<Vec<Route>>,
}

/// The network configuration of one invocation.
pub struct NetConf {
    /// Specification version
    pub cni_version: String,
    /// Network name
    pub name: String,
    /// Plugin kind
    pub plugin_type: String,
    /// Master link the VLAN sits on
    pub master: String,
    /// VLAN identifier
    pub vlan: u16,
    /// MTU of the VLAN link
    pub mtu: Option<u32>,
    /// Address plan
    pub ipam: Option<IPAMConfig>,
}

/// Why a configuration was refused.
#[derive(Debug, Clone, Copy, PartialEq, Eq, Structural)]
pub enum ConfigError {
    /// The VLAN identifier lies outside 1..=4094.
    VlanOutOfRange(i64),
    /// No master link was named.
    MissingMaster,
}

impl NetConf {
    /// Whether this configuration meets the invariant every parsed one has.
    pub open spec fn wf(&self) -> bool {
        &&& valid_vlan(self.vlan as int)
        &&& self.master@.len() > 0
    }

    /// Builds a configuration from the fields of the document, refusing an
    /// out-of-range VLAN first and then an empty master name.
    pub fn from_fields(
        cni_version: String,
        name: String,
        plugin_type: String,
        master: String,
        vlan: i64,
        mtu: Option<u32>,
        ipam: Option<IPAMConfig>,
    ) -> (r: core::result::Result<NetConf, ConfigError>)
        ensures
            r is Ok <==> valid_vlan(vlan as int) && master@.len() > 0,
            !valid_vlan(vlan as int) ==> r == Err::<NetConf, ConfigError>(ConfigError::VlanOutOfRange(vlan)),
            valid_vlan(vlan as int) && master@.len() == 0 ==> r == Err::<NetConf, ConfigError>(ConfigError::MissingMaster),
            r matches Ok(c) ==> {
                &&& c.wf()
                &&& c.cni_version == cni_version
                &&& c.name == name
                &&& c.plugin_type == plugin_type
                &&& c.master == master
                &&& c.vlan as int == vlan as int
                &&& c.mtu == mtu
                &&& c.ipam == ipam
            },
    {
        if vlan < VLAN_MIN as i64 || vlan > VLAN_MAX as i64 {
            return Err(ConfigError::VlanOutOfRange(vlan));
        }
        if master.as_str().is_empty() {
            return Err(ConfigError::MissingMaster);
        }
        Ok(NetConf { cni_version, name, plugin_type, master, vlan: vlan as u16, mtu, ipam })
    }

    /// A configuration for one VLAN with the default version and kind and
    /// no address plan.
    pub fn new_default(name: &str, master: &str, vlan: u16, mtu: Option<u32>) -> (r: Self)
        ensures
            r.cni_version@ == "1.0.0"@,
            r.name@ == name@,
            r.plugin_type@ == "vlan"@,
            r.master@ == master@,
            r.vlan == vlan,
            r.mtu == mtu,
            r.ipam is None,
    {
        NetConf {
            cni_version: String::from_str("1.0.0"),
            name: name.to_string(),
            plugin_type: String::from_str("vlan"),
            master: master.to_string(),
            vlan,
            mtu,
            ipam: None,
        }
    }
}

/// Installs the plugin's files according to its settings.
pub struct Installer {
    /// Where things go
    pub config: SocniConfig,
}

impl Installer {
    /// An installer for the given settings.
    pub fn new(config: SocniConfig) -> (r: Self)
        ensures
            r.config == config,
    {
        Installer { config }
    }
}

} // verus!
