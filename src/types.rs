use vstd::prelude::*;

use crate::json::{
    array_text, decimal, decimal_string, json_quote, member, member_text, object_text, quoted,
    render_array, render_object, texts,
};

verus! {

/// What one invocation of the plugin is handed by its caller.
pub struct CmdArgs {
    /// Container identifier
    pub container_id: String,
    /// Path of the target network namespace
    pub netns: String,
    /// Interface name wanted inside the sandbox
    pub ifname: String,
    /// Free-form attributes, each key at most once
    pub args: Vec<(String, String)>,
    /// Search path for helper binaries
    pub path: String,
    /// Raw configuration payload
    pub stdin_data: Vec<u8>,
}

/// One interface reported in the result.
pub struct Interface {
    /// Interface name
    pub name: String,
    /// MAC address
    pub mac: Option<String>,
    /// Sandbox path (network namespace)
    pub sandbox: Option<String>,
}

/// One address applied to an interface.
pub struct IPConfig {
    /// Index of the interface this address belongs to
    pub interface: Option<usize>,
    /// Address with prefix length
    pub address: String,
    /// Gateway
    pub gateway: Option<String>,
}

/// DNS settings reported in the result.
pub struct DNS {
    /// Name servers
    pub nameservers: Option<Vec<String>>,
    /// Search domains
    pub search: Option<Vec<String>>,
    /// Resolver options
    pub options: Option<Vec<String>>,
}

/// One route reported in the result.
pub struct Route {
    /// Destination CIDR
    pub dst: String,
    /// Gateway for this route
    pub gw: Option<String>,
}

/// The plugin's result document, accumulated while provisioning.
pub struct Result {
    /// Specification version
    pub cni_version: String,
    /// Interfaces created
    pub interfaces: Option<Vec<Interface>>,
    /// Addresses applied
    pub ips: Option<Vec<IPConfig>>,
    /// DNS settings
    pub dns: Option<DNS>,
    /// Routes applied
    pub routes: Option<Vec<Route>>,
}

/// An optional string, seen as its characters.
pub open spec fn opt_chars(o: Option<String>) -> Option<Seq<char>> {
    match o {
        Some(s) => Some(s@),
        None => None,
    }
}

/// An optional list of strings, seen as their characters.
pub open spec fn opt_strings(o: Option<Vec<String>>) -> Option<Seq<Seq<char>>> {
    match o {
        Some(v) => Some(v@.map_values(|s: String| s@)),
        None => None,
    }
}

/// An interface record as plain values.
pub struct InterfaceView {
    pub name: Seq<char>,
    pub mac: Option<Seq<char>>,
    pub sandbox: Option<Seq<char>>,
}

impl View for Interface {
    type V = InterfaceView;

    open spec fn view(&self) -> InterfaceView {
        InterfaceView { name: self.name@, mac: opt_chars(self.mac), sandbox: opt_chars(self.sandbox) }
    }
}

/// An address record as plain values.
pub struct IPView {
    pub interface: Option<usize>,
    pub address: Seq<char>,
    pub gateway: Option<Seq<char>>,
}

impl View for IPConfig {
    type V = IPView;

    open spec fn view(&self) -> IPView {
        IPView { interface: self.interface, address: self.address@, gateway: opt_chars(self.gateway) }
    }
}

/// A route record as plain values.
pub struct RouteView {
    pub dst: Seq<char>,
    pub gw: Option<Seq<char>>,
}

impl View for Route {
    type V = RouteView;

    open spec fn view(&self) -> RouteView {
        RouteView { dst: self.dst@, gw: opt_chars(self.gw) }
    }
}

/// DNS settings as plain values.
pub struct DNSView {
    pub nameservers: Option<Seq<Seq<char>>>,
    pub search: Option<Seq<Seq<char>>>,
    pub options: Option<Seq<Seq<char>>>,
}

impl View for DNS {
    type V = DNSView;

    open spec fn view(&self) -> DNSView {
        DNSView {
            nameservers: opt_strings(self.nameservers),
            search: opt_strings(self.search),
            options: opt_strings(self.options),
        }
    }
}

/// A result as plain values; an absent list stays apart from an empty one.
pub struct ResultView {
    pub cni_version: Seq<char>,
    pub interfaces: Option<Seq<InterfaceView>>,
    pub ips: Option<Seq<IPView>>,
    pub dns: Option<DNSView>,
    pub routes: Option<Seq<RouteView>>,
}

impl View for Result {
    type V = ResultView;

    open spec fn view(&self) -> ResultView {
        ResultView {
            cni_version: self.cni_version@,
            interfaces: match self.interfaces {
                Some(v) => Some(v@.map_values(|i: Interface| i@)),
                None => None,
            },
            ips: match self.ips {
                Some(v) => Some(v@.map_values(|i: IPConfig| i@)),
                None => None,
            },
            dns: match self.dns {
                Some(d) => Some(d@),
                None => None,
            },
            routes: match self.routes {
                Some(v) => Some(v@.map_values(|x: Route| x@)),
                None => None,
            },
        }
    }
}

/// The records of an optional list; an absent list holds none.
pub open spec fn records<T>(o: Option<Seq<T>>) -> Seq<T> {
    match o {
        Some(v) => v,
        None => Seq::empty(),
    }
}

impl ResultView {
    /// The result with one more interface.
    pub open spec fn with_interface(self, i: InterfaceView) -> ResultView {
        ResultView { interfaces: Some(records(self.interfaces).push(i)), ..self }
    }

    /// The result with one more address.
    pub open spec fn with_ip(self, i: IPView) -> ResultView {
        ResultView { ips: Some(records(self.ips).push(i)), ..self }
    }

    /// The result with one more route.
    pub open spec fn with_route(self, r: RouteView) -> ResultView {
        ResultView { routes: Some(records(self.routes).push(r)), ..self }
    }
}

/// The items of an optional list; an absent list holds none.
pub open spec fn items<T>(o: Option<Vec<T>>) -> Seq<T> {
    match o {
        Some(v) => v@,
        None => Seq::empty(),
    }
}

impl Result {
    /// An empty result for the given specification version.
    pub fn new(cni_version: &str) -> (r: Self)
        ensures
            r@ == (ResultView {
                cni_version: cni_version@,
                interfaces: None,
                ips: None,
                dns: None,
                routes: None,
            }),
    {
        Result {
            cni_version: cni_version.to_string(),
            interfaces: None,
            ips: None,
            dns: None,
            routes: None,
        }
    }

    /// Appends an interface; the list exists from then on.
    pub fn add_interface(&mut self, interface: Interface)
        ensures
            final(self)@ == old(self)@.with_interface(interface@),
            final(self).ips == old(self).ips,
            final(self).dns == old(self).dns,
            final(self).routes == old(self).routes,
    {
        let ghost prev = self@;
        let mut list = match self.interfaces.take() {
            Some(v) => v,
            None => Vec::new(),
        };
        list.push(interface);
        self.interfaces = Some(list);
        assert(self@.interfaces->0 =~= records(prev.interfaces).push(interface@));
    }

    /// Appends an address; the list exists from then on.
    pub fn add_ip(&mut self, ip: IPConfig)
        ensures
            final(self)@ == old(self)@.with_ip(ip@),
            final(self).interfaces == old(self).interfaces,
            final(self).dns == old(self).dns,
            final(self).routes == old(self).routes,
    {
        let ghost prev = self@;
        let mut list = match self.ips.take() {
            Some(v) => v,
            None => Vec::new(),
        };
        list.push(ip);
        self.ips = Some(list);
        assert(self@.ips->0 =~= records(prev.ips).push(ip@));
    }

    /// Appends a route; the list exists from then on.
    pub fn add_route(&mut self, route: Route)
        ensures
            final(self)@ == old(self)@.with_route(route@),
            final(self).interfaces == old(self).interfaces,
            final(self).ips == old(self).ips,
            final(self).dns == old(self).dns,
    {
        let ghost prev = self@;
        let mut list = match self.routes.take() {
            Some(v) => v,
            None => Vec::new(),
        };
        list.push(route);
        self.routes = Some(list);
        assert(self@.routes->0 =~= records(prev.routes).push(route@));
    }

    /// Sets the DNS settings, replacing earlier ones.
    pub fn set_dns(&mut self, dns: DNS)
        ensures
            final(self).dns == Some(dns),
            final(self)@ == (ResultView { dns: Some(dns@), ..old(self)@ }),
            final(self).cni_version == old(self).cni_version,
            final(self).interfaces == old(self).interfaces,
            final(self).ips == old(self).ips,
            final(self).routes == old(self).routes,
    {
        self.dns = Some(dns);
    }

    /// The result as a JSON document: a member for each list or block that
    /// is present, none for one that is absent.
    pub fn to_json(&self) -> (r: String)
        ensures
            r@ == result_text(*self),
    {
        let mut members: Vec<String> = Vec::new();
        let version = json_quote(self.cni_version.as_str());
        members.push(member("cniVersion", version.as_str()));
        let ghost mut fields: Seq<(Seq<char>, Seq<char>)> = seq![("cniVersion"@, quoted(self.cni_version@))];
        assert(texts(members@) =~= fields_text(fields));
        if let Some(list) = &self.interfaces {
            let a = interfaces_json(list);
            members.push(member("interfaces", a.as_str()));
            proof {
                fields = fields.push(("interfaces"@, a@));
                assert(texts(members@) =~= fields_text(fields));
            }
        }
        if let Some(list) = &self.ips {
            let a = ips_json(list);
            members.push(member("ips", a.as_str()));
            proof {
                fields = fields.push(("ips"@, a@));
                assert(texts(members@) =~= fields_text(fields));
            }
        }
        if let Some(d) = &self.dns {
            let a = dns_json(d);
            members.push(member("dns", a.as_str()));
            proof {
                fields = fields.push(("dns"@, a@));
                assert(texts(members@) =~= fields_text(fields));
            }
        }
        if let Some(list) = &self.routes {
            let a = routes_json(list);
            members.push(member("routes", a.as_str()));
            proof {
                fields = fields.push(("routes"@, a@));
                assert(texts(members@) =~= fields_text(fields));
            }
        }
        assert(fields =~= result_fields(*self));
        render_object(&members)
    }
}

/// A member for a value that may be absent: none when it is.
pub open spec fn optional_field(key: Seq<char>, value: Option<Seq<char>>) -> Seq<(Seq<char>, Seq<char>)> {
    match value {
        Some(v) => seq![(key, v)],
        None => Seq::empty(),
    }
}

/// An optional string, quoted when present.
pub open spec fn quoted_opt(o: Option<String>) -> Option<Seq<char>> {
    match o {
        Some(s) => Some(quoted(s@)),
        None => None,
    }
}

/// The members of an object, rendered.
pub open spec fn fields_text(fields: Seq<(Seq<char>, Seq<char>)>) -> Seq<Seq<char>> {
    fields.map_values(|f: (Seq<char>, Seq<char>)| member_text(f.0, f.1))
}

/// The members that describe an interface.
pub open spec fn interface_fields(i: Interface) -> Seq<(Seq<char>, Seq<char>)> {
    seq![("name"@, quoted(i.name@))] + optional_field("mac"@, quoted_opt(i.mac))
        + optional_field("sandbox"@, quoted_opt(i.sandbox))
}

/// An interface as a JSON object.
pub open spec fn interface_text(i: Interface) -> Seq<char> {
    object_text(fields_text(interface_fields(i)))
}

/// The members that describe an address.
pub open spec fn ip_fields(ip: IPConfig) -> Seq<(Seq<char>, Seq<char>)> {
    optional_field(
        "interface"@,
        match ip.interface {
            Some(n) => Some(decimal(n as nat)),
            None => None,
        },
    ) + seq![("address"@, quoted(ip.address@))] + optional_field("gateway"@, quoted_opt(ip.gateway))
}

/// An address as a JSON object.
pub open spec fn ip_text(ip: IPConfig) -> Seq<char> {
    object_text(fields_text(ip_fields(ip)))
}

/// The members that describe a route.
pub open spec fn route_fields(r: Route) -> Seq<(Seq<char>, Seq<char>)> {
    seq![("dst"@, quoted(r.dst@))] + optional_field("gw"@, quoted_opt(r.gw))
}

/// A route as a JSON object.
pub open spec fn route_text(r: Route) -> Seq<char> {
    object_text(fields_text(route_fields(r)))
}

/// A list of strings as a JSON array of strings.
pub open spec fn strings_text(v: Seq<String>) -> Seq<char> {
    array_text(v.map_values(|s: String| quoted(s@)))
}

/// An optional list of strings, rendered when present.
pub open spec fn strings_opt(o: Option<Vec<String>>) -> Option<Seq<char>> {
    match o {
        Some(v) => Some(strings_text(v@)),
        None => None,
    }
}

/// The members that describe the DNS settings.
pub open spec fn dns_fields(d: DNS) -> Seq<(Seq<char>, Seq<char>)> {
    optional_field("nameservers"@, strings_opt(d.nameservers)) + optional_field(
        "search"@,
        strings_opt(d.search),
    ) + optional_field("options"@, strings_opt(d.options))
}

/// The DNS settings as a JSON object.
pub open spec fn dns_text(d: DNS) -> Seq<char> {
    object_text(fields_text(dns_fields(d)))
}

/// The top-level members of a result: the version, then each list or block
/// that is present, in a fixed order.
pub open spec fn result_fields(r: Result) -> Seq<(Seq<char>, Seq<char>)> {
    seq![("cniVersion"@, quoted(r.cni_version@))] + optional_field(
        "interfaces"@,
        match r.interfaces {
            Some(v) => Some(array_text(v@.map_values(|i: Interface| interface_text(i)))),
            None => None,
        },
    ) + optional_field(
        "ips"@,
        match r.ips {
            Some(v) => Some(array_text(v@.map_values(|i: IPConfig| ip_text(i)))),
            None => None,
        },
    ) + optional_field(
        "dns"@,
        match r.dns {
            Some(d) => Some(dns_text(d)),
            None => None,
        },
    ) + optional_field(
        "routes"@,
        match r.routes {
            Some(v) => Some(array_text(v@.map_values(|x: Route| route_text(x)))),
            None => None,
        },
    )
}

/// A result as a JSON document.
pub open spec fn result_text(r: Result) -> Seq<char> {
    object_text(fields_text(result_fields(r)))
}

/// The shape of a result document: with no address list there is no `ips`
/// member at all; with one address there is an `ips` member whose array
/// holds exactly that one entry.
pub proof fn lemma_result_shape(r: Result)
    ensures
        r.ips is None ==> forall|i: int|
            0 <= i < result_fields(r).len() ==> #[trigger] result_fields(r)[i].0 != "ips"@,
        r.ips is Some && items(r.ips).len() == 1 ==> exists|i: int|
            0 <= i < result_fields(r).len() && #[trigger] result_fields(r)[i] == (
                "ips"@,
                array_text(seq![ip_text(items(r.ips)[0])]),
            ),
{
    reveal_strlit("cniVersion");
    reveal_strlit("interfaces");
    reveal_strlit("ips");
    reveal_strlit("dns");
    reveal_strlit("routes");
    let f = result_fields(r);
    if r.ips is None {
        assert forall|i: int| 0 <= i < f.len() implies #[trigger] f[i].0 != "ips"@ by {
            assert(f[i].0 == "cniVersion"@ || f[i].0 == "interfaces"@ || f[i].0 == "dns"@
                || f[i].0 == "routes"@);
            assert("ips"@[0] == 'i' && "dns"@[0] == 'd' && "routes"@[0] == 'r');
            assert("ips"@.len() != "cniVersion"@.len() && "ips"@.len() != "interfaces"@.len());
        }
    }
    if r.ips is Some && items(r.ips).len() == 1 {
        let k: int = if r.interfaces is Some { 2 } else { 1 };
        let v = r.ips->0@;
        assert(v.map_values(|i: IPConfig| ip_text(i)) =~= seq![ip_text(v[0])]);
        assert(f[k] == ("ips"@, array_text(seq![ip_text(items(r.ips)[0])])));
    }
}

/// Builds the object from its fields, pushed one at a time.
fn push_field(members: &mut Vec<String>, key: &str, value: &str, Ghost(fields): Ghost<Seq<(Seq<char>, Seq<char>)>>)
    requires
        texts(old(members)@) == fields_text(fields),
    ensures
        texts(final(members)@) == fields_text(fields.push((key@, value@))),
{
    let ghost before = members@;
    let m = member(key, value);
    members.push(m);
    assert(texts(members@) =~= texts(before).push(m@));
    assert(fields_text(fields.push((key@, value@))) =~= fields_text(fields).push(member_text(key@, value@)));
}

fn interface_json(i: &Interface) -> (r: String)
    ensures
        r@ == interface_text(*i),
{
    let mut members: Vec<String> = Vec::new();
    let name = json_quote(i.name.as_str());
    assert(texts(members@) =~= fields_text(Seq::empty()));
    push_field(&mut members, "name", name.as_str(), Ghost(Seq::empty()));
    let ghost mut fields = seq![("name"@, quoted(i.name@))];
    if let Some(m) = &i.mac {
        let q = json_quote(m.as_str());
        push_field(&mut members, "mac", q.as_str(), Ghost(fields));
        proof { fields = fields.push(("mac"@, q@)); }
    }
    if let Some(m) = &i.sandbox {
        let q = json_quote(m.as_str());
        push_field(&mut members, "sandbox", q.as_str(), Ghost(fields));
        proof { fields = fields.push(("sandbox"@, q@)); }
    }
    assert(fields =~= interface_fields(*i));
    render_object(&members)
}

fn ip_json(ip: &IPConfig) -> (r: String)
    ensures
        r@ == ip_text(*ip),
{
    let mut members: Vec<String> = Vec::new();
    let ghost mut fields: Seq<(Seq<char>, Seq<char>)> = Seq::empty();
    assert(texts(members@) =~= fields_text(fields));
    if let Some(n) = ip.interface {
        let d = decimal_string(n as u64);
        push_field(&mut members, "interface", d.as_str(), Ghost(fields));
        proof { fields = fields.push(("interface"@, d@)); }
    }
    let a = json_quote(ip.address.as_str());
    push_field(&mut members, "address", a.as_str(), Ghost(fields));
    proof { fields = fields.push(("address"@, a@)); }
    if let Some(g) = &ip.gateway {
        let q = json_quote(g.as_str());
        push_field(&mut members, "gateway", q.as_str(), Ghost(fields));
        proof { fields = fields.push(("gateway"@, q@)); }
    }
    assert(fields =~= ip_fields(*ip));
    render_object(&members)
}

fn route_json(r: &Route) -> (out: String)
    ensures
        out@ == route_text(*r),
{
    let mut members: Vec<String> = Vec::new();
    let d = json_quote(r.dst.as_str());
    assert(texts(members@) =~= fields_text(Seq::empty()));
    push_field(&mut members, "dst", d.as_str(), Ghost(Seq::empty()));
    let ghost mut fields = seq![("dst"@, quoted(r.dst@))];
    if let Some(g) = &r.gw {
        let q = json_quote(g.as_str());
        push_field(&mut members, "gw", q.as_str(), Ghost(fields));
        proof { fields = fields.push(("gw"@, q@)); }
    }
    assert(fields =~= route_fields(*r));
    render_object(&members)
}

fn strings_json(v: &Vec<String>) -> (r: String)
    ensures
        r@ == strings_text(v@),
{
    let mut parts: Vec<String> = Vec::new();
    let mut k: usize = 0;
    while k < v.len()
        invariant
            k <= v.len(),
            texts(parts@) =~= v@.take(k as int).map_values(|s: String| quoted(s@)),
        decreases v.len() - k,
    {
        parts.push(json_quote(v[k].as_str()));
        k = k + 1;
        assert(v@.take(k as int).map_values(|s: String| quoted(s@)) =~= v@.take(k as int - 1).map_values(|s: String| quoted(s@)).push(quoted(v@[k as int - 1]@)));
    }
    assert(v@.take(k as int) =~= v@);
    render_array(&parts)
}

fn dns_json(d: &DNS) -> (r: String)
    ensures
        r@ == dns_text(*d),
{
    let mut members: Vec<String> = Vec::new();
    let ghost mut fields: Seq<(Seq<char>, Seq<char>)> = Seq::empty();
    assert(texts(members@) =~= fields_text(fields));
    if let Some(v) = &d.nameservers {
        let a = strings_json(v);
        push_field(&mut members, "nameservers", a.as_str(), Ghost(fields));
        proof { fields = fields.push(("nameservers"@, a@)); }
    }
    if let Some(v) = &d.search {
        let a = strings_json(v);
        push_field(&mut members, "search", a.as_str(), Ghost(fields));
        proof { fields = fields.push(("search"@, a@)); }
    }
    if let Some(v) = &d.options {
        let a = strings_json(v);
        push_field(&mut members, "options", a.as_str(), Ghost(fields));
        proof { fields = fields.push(("options"@, a@)); }
    }
    assert(fields =~= dns_fields(*d));
    render_object(&members)
}

fn interfaces_json(list: &Vec<Interface>) -> (r: String)
    ensures
        r@ == array_text(list@.map_values(|i: Interface| interface_text(i))),
{
    let mut parts: Vec<String> = Vec::new();
    let mut k: usize = 0;
    while k < list.len()
        invariant
            k <= list.len(),
            texts(parts@) =~= list@.take(k as int).map_values(|i: Interface| interface_text(i)),
        decreases list.len() - k,
    {
        parts.push(interface_json(&list[k]));
        k = k + 1;
        assert(list@.take(k as int).map_values(|i: Interface| interface_text(i)) =~= list@.take(k as int - 1).map_values(|i: Interface| interface_text(i)).push(interface_text(list@[k as int - 1])));
    }
    assert(list@.take(k as int) =~= list@);
    render_array(&parts)
}

fn ips_json(list: &Vec<IPConfig>) -> (r: String)
    ensures
        r@ == array_text(list@.map_values(|i: IPConfig| ip_text(i))),
{
    let mut parts: Vec<String> = Vec::new();
    let mut k: usize = 0;
    while k < list.len()
        invariant
            k <= list.len(),
            texts(parts@) =~= list@.take(k as int).map_values(|i: IPConfig| ip_text(i)),
        decreases list.len() - k,
    {
        parts.push(ip_json(&list[k]));
        k = k + 1;
        assert(list@.take(k as int).map_values(|i: IPConfig| ip_text(i)) =~= list@.take(k as int - 1).map_values(|i: IPConfig| ip_text(i)).push(ip_text(list@[k as int - 1])));
    }
    assert(list@.take(k as int) =~= list@);
    render_array(&parts)
}

fn routes_json(list: &Vec<Route>) -> (r: String)
    ensures
        r@ == array_text(list@.map_values(|x: Route| route_text(x))),
{
    let mut parts: Vec<String> = Vec::new();
    let mut k: usize = 0;
    while k < list.len()
        invariant
            k <= list.len(),
            texts(parts@) =~= list@.take(k as int).map_values(|x: Route| route_text(x)),
        decreases list.len() - k,
    {
        parts.push(route_json(&list[k]));
        k = k + 1;
        assert(list@.take(k as int).map_values(|x: Route| route_text(x)) =~= list@.take(k as int - 1).map_values(|x: Route| route_text(x)).push(route_text(list@[k as int - 1])));
    }
    assert(list@.take(k as int) =~= list@);
    render_array(&parts)
}

} // verus!
