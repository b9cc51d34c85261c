//! The decisions of the plugin's verbs. Each verb is a state machine: it
//! names the next privileged operation, the caller performs it and hands
//! back its outcome, and the machine decides what comes next. Namespace
//! switching is part of each machine, so that leaving the target namespace
//! is never skipped once it was entered.
use vstd::prelude::*;

use crate::config::{IPAMConfig, NetConf, Route as PlanRoute};
use crate::json::{decimal, decimal_string};
use crate::text::{contains, contains_text};
use crate::types::{
    items, opt_chars, CmdArgs, IPConfig, IPView, Interface, InterfaceView, Result as CniResult,
    ResultView, Route, RouteView,
};

verus! {

/// How an access-control backend that cannot be reached is treated.
#[derive(Debug, Clone, Copy, PartialEq, Eq, Structural)]
pub enum AccessPolicy {
    /// Refuse the operation.
    FailClosed,
    /// Let the operation go on.
    FailOpen,
}

/// The categories of fatal errors.
#[derive(Debug, Clone, Copy, PartialEq, Eq, Structural)]
pub enum ErrorKind {
    /// The configuration was refused.
    Validation,
    /// The master link or the namespace is missing.
    ResourceNotFound,
    /// The access-control backend refused the subject.
    PermissionDenied,
    /// The access-control backend could not be reached.
    TransientToolFailure,
    /// Switching into the target namespace failed.
    SwitchFailed,
    /// Provisioning stopped after the link was touched.
    PartialProvisioningFailure,
    /// The interface does not look as configured.
    VerificationFailed,
    /// The original namespace could not be restored.
    RestoreFailed,
}

/// The numeric code of the error document. It is one fixed category for
/// every error; the category's message tells the errors apart.
pub const ERROR_CODE: u32 = 100;

/// The numeric code reported for an error category: the same for all.
pub open spec fn code_of(k: ErrorKind) -> u32 {
    ERROR_CODE
}

impl ErrorKind {
    /// The numeric code reported for this category.
    pub fn code(&self) -> (r: u32)
        ensures
            r == code_of(*self),
    {
        ERROR_CODE
    }
}

/// What came of an operation the caller performed.
#[derive(Debug, Clone, Copy, PartialEq, Eq, Structural)]
pub enum Outcome {
    /// It did what was asked.
    Succeeded,
    /// What it was to create was there already.
    AlreadyExists,
    /// The access-control backend answered no.
    Denied,
    /// It failed, or the collaborator could not be reached.
    Failed,
}

/// The plugin's context for one invocation.
pub struct VlanPlugin {
    /// Network configuration
    pub config: NetConf,
    /// Invocation arguments
    pub args: CmdArgs,
    /// Treatment of an unreachable access-control backend
    pub access_policy: AccessPolicy,
}

/// The name of the VLAN link on the host: the master, a dot, the VLAN id.
pub open spec fn link_name(master: Seq<char>, vlan: u16) -> Seq<char> {
    master + seq!['.'] + decimal(vlan as nat)
}

/// The fallback address of a VLAN: host 2 of the /24 its id selects.
pub open spec fn fallback_address(vlan: u16) -> Seq<char> {
    seq!['1', '9', '2', '.', '1', '6', '8', '.'] + decimal(vlan as nat % 256) + seq!['.', '2', '/', '2', '4']
}

/// The fallback gateway of a VLAN: host 1 of the /24 its id selects.
pub open spec fn fallback_gateway(vlan: u16) -> Seq<char> {
    seq!['1', '9', '2', '.', '1', '6', '8', '.'] + decimal(vlan as nat % 256) + seq!['.', '1']
}

impl VlanPlugin {
    /// The context for one invocation; an unreachable backend refuses.
    pub fn new(config: NetConf, args: CmdArgs) -> (r: Self)
        ensures
            r.config == config,
            r.args == args,
            r.access_policy == AccessPolicy::FailClosed,
    {
        VlanPlugin { config, args, access_policy: AccessPolicy::FailClosed }
    }

    /// The same context with another treatment of an unreachable backend.
    pub fn with_access_policy(self, policy: AccessPolicy) -> (r: Self)
        ensures
            r.config == self.config,
            r.args == self.args,
            r.access_policy == policy,
    {
        VlanPlugin { access_policy: policy, ..self }
    }

    /// The host-side name of the VLAN link.
    pub open spec fn host_link_name(&self) -> Seq<char> {
        link_name(self.config.master@, self.config.vlan)
    }

    /// Whether the link must be renamed inside the sandbox.
    pub open spec fn renames(&self) -> bool {
        self.host_link_name() != self.args.ifname@
    }

    /// The static routes of the address plan.
    pub open spec fn plan_routes(&self) -> Seq<PlanRoute> {
        match self.config.ipam {
            Some(i) => items(i.routes),
            None => Seq::empty(),
        }
    }

    /// The gateway of the default route: host 1 of the subnet the applied
    /// address lies in.
    pub open spec fn gateway_spec(&self) -> Seq<char> {
        fallback_gateway(self.config.vlan)
    }

    /// Writes the host-side name of the VLAN link.
    pub fn vlan_link_name(&self) -> (r: String)
        ensures
            r@ == self.host_link_name(),
    {
        let mut s = self.config.master.clone();
        s.append(".");
        let d = decimal_string(self.config.vlan as u64);
        s.append(d.as_str());
        proof {
            reveal_strlit(".");
            assert(s@ =~= self.host_link_name());
        }
        s
    }

    /// Writes the address applied inside the sandbox.
    pub fn address(&self) -> (r: String)
        ensures
            r@ == fallback_address(self.config.vlan),
    {
        let mut s = String::from_str("192.168.");
        let d = decimal_string((self.config.vlan % 256) as u64);
        s.append(d.as_str());
        s.append(".2/24");
        proof {
            reveal_strlit("192.168.");
            reveal_strlit(".2/24");
            assert(s@ =~= fallback_address(self.config.vlan));
        }
        s
    }

    /// Writes the gateway of the default route.
    pub fn gateway(&self) -> (r: String)
        ensures
            r@ == self.gateway_spec(),
    {
        let mut s = String::from_str("192.168.");
        let d = decimal_string((self.config.vlan % 256) as u64);
        s.append(d.as_str());
        s.append(".1");
        proof {
            reveal_strlit("192.168.");
            reveal_strlit(".1");
            assert(s@ =~= fallback_gateway(self.config.vlan));
        }
        s
    }

    /// The number of static routes of the address plan.
    pub fn plan_route_count(&self) -> (r: usize)
        ensures
            r == self.plan_routes().len(),
    {
        match &self.config.ipam {
            Some(i) => match &i.routes {
                Some(v) => v.len(),
                None => 0,
            },
            None => 0,
        }
    }

    /// A static route of the address plan, as a route record.
    pub fn plan_route(&self, i: usize) -> (r: Route)
        requires
            i < self.plan_routes().len(),
        ensures
            r@ == plan_route_view(self.plan_routes()[i as int]),
    {
        let ipam = self.config.ipam.as_ref().unwrap();
        let routes = ipam.routes.as_ref().unwrap();
        Route { dst: routes[i].dst.clone(), gw: routes[i].gw.clone() }
    }

    /// Starts the DEL verb.
    pub fn begin_del(&self) -> (r: DelRun)
        ensures
            r.step == DelStep::EnterNamespace,
    {
        DelRun { step: DelStep::EnterNamespace }
    }

    /// Starts the CHECK verb.
    pub fn begin_check(&self) -> (r: CheckRun)
        ensures
            r.step == CheckStep::Authorize,
    {
        CheckRun { step: CheckStep::Authorize }
    }

    /// Starts the ADD verb.
    pub fn begin_add(&self) -> (r: AddRun)
        ensures
            r.step == AddStep::Authorize,
            r.result@ == empty_result(self.config.cni_version@),
    {
        AddRun { step: AddStep::Authorize, result: CniResult::new(self.config.cni_version.as_str()) }
    }
}

/// A static route of the plan as a route record.
pub open spec fn plan_route_view(r: PlanRoute) -> RouteView {
    RouteView { dst: r.dst@, gw: opt_chars(r.gw) }
}

/// A result with nothing in it yet.
pub open spec fn empty_result(version: Seq<char>) -> ResultView {
    ResultView { cni_version: version, interfaces: None, ips: None, dns: None, routes: None }
}

/// The operations of ADD, and its two ends.
#[derive(Debug, Clone, Copy, PartialEq, Eq, Structural)]
pub enum AddStep {
    /// Ask the access-control backend about the VLAN.
    Authorize,
    /// Check that the master link exists.
    VerifyMaster,
    /// Create the VLAN link on the master.
    CreateLink,
    /// Bring the VLAN link up on the host.
    LinkUp,
    /// Set the configured MTU.
    SetMtu,
    /// Move the link into the target namespace.
    MoveLink,
    /// Switch into the target namespace.
    EnterNamespace,
    /// Rename the link to the requested interface name.
    RenameLink,
    /// Bring the interface up inside the namespace.
    ActivateInterface,
    /// Apply the address.
    AssignAddress,
    /// Install the default route via the gateway.
    AddDefaultRoute,
    /// Install the static route of this index.
    AddRoute(usize),
    /// Switch back to the original namespace.
    LeaveNamespace,
    /// Register the VLAN with the access-control backend.
    RegisterVlan,
    /// Roll back: delete the link from the host, then fail.
    RemoveHostLink(ErrorKind),
    /// Roll back: delete the moved link under its host name, inside the
    /// namespace.
    RemoveMovedLink(ErrorKind),
    /// Roll back: delete the interface under its requested name, inside the
    /// namespace.
    RemoveSandboxLink(ErrorKind),
    /// Roll back: switch back to the original namespace, then fail.
    LeaveAfterFailure(ErrorKind),
    /// ADD succeeded; the result is complete.
    Done,
    /// ADD failed with this error.
    Failed(ErrorKind),
}

/// The step after the default route or a static route.
pub open spec fn route_after(p: VlanPlugin, i: int) -> AddStep {
    if i < p.plan_routes().len() {
        AddStep::AddRoute(i as usize)
    } else {
        AddStep::LeaveNamespace
    }
}

/// The next step of ADD, given the outcome of the current one.
pub open spec fn add_next(s: AddStep, o: Outcome, p: VlanPlugin) -> AddStep {
    let ok = o == Outcome::Succeeded;
    match s {
        AddStep::Authorize => if ok {
            AddStep::VerifyMaster
        } else if o == Outcome::Denied {
            AddStep::Failed(ErrorKind::PermissionDenied)
        } else if p.access_policy == AccessPolicy::FailOpen {
            AddStep::VerifyMaster
        } else {
            AddStep::Failed(ErrorKind::TransientToolFailure)
        },
        AddStep::VerifyMaster => if ok {
            AddStep::CreateLink
        } else {
            AddStep::Failed(ErrorKind::ResourceNotFound)
        },
        AddStep::CreateLink => if ok || o == Outcome::AlreadyExists {
            AddStep::LinkUp
        } else {
            AddStep::Failed(ErrorKind::PartialProvisioningFailure)
        },
        AddStep::LinkUp => if !ok {
            AddStep::RemoveHostLink(ErrorKind::PartialProvisioningFailure)
        } else if p.config.mtu is Some {
            AddStep::SetMtu
        } else {
            AddStep::MoveLink
        },
        AddStep::SetMtu => AddStep::MoveLink,
        AddStep::MoveLink => if ok {
            AddStep::EnterNamespace
        } else {
            AddStep::RemoveHostLink(ErrorKind::PartialProvisioningFailure)
        },
        AddStep::EnterNamespace => if !ok {
            AddStep::Failed(ErrorKind::SwitchFailed)
        } else if p.renames() {
            AddStep::RenameLink
        } else {
            AddStep::ActivateInterface
        },
        AddStep::RenameLink => if ok {
            AddStep::ActivateInterface
        } else {
            AddStep::RemoveMovedLink(ErrorKind::PartialProvisioningFailure)
        },
        AddStep::ActivateInterface => if !ok {
            AddStep::RemoveSandboxLink(ErrorKind::PartialProvisioningFailure)
        } else if p.config.ipam is Some {
            AddStep::AssignAddress
        } else {
            AddStep::LeaveNamespace
        },
        AddStep::AssignAddress => if ok {
            AddStep::AddDefaultRoute
        } else {
            AddStep::RemoveSandboxLink(ErrorKind::PartialProvisioningFailure)
        },
        AddStep::AddDefaultRoute => route_after(p, 0),
        AddStep::AddRoute(i) => route_after(p, i + 1),
        AddStep::LeaveNamespace => if ok {
            AddStep::RegisterVlan
        } else {
            AddStep::Failed(ErrorKind::RestoreFailed)
        },
        AddStep::RegisterVlan => AddStep::Done,
        AddStep::RemoveHostLink(k) => AddStep::Failed(k),
        AddStep::RemoveMovedLink(k) => AddStep::LeaveAfterFailure(k),
        AddStep::RemoveSandboxLink(k) => AddStep::LeaveAfterFailure(k),
        AddStep::LeaveAfterFailure(k) => if ok {
            AddStep::Failed(k)
        } else {
            AddStep::Failed(ErrorKind::RestoreFailed)
        },
        AddStep::Done => AddStep::Done,
        AddStep::Failed(k) => AddStep::Failed(k),
    }
}

/// What a successful step adds to the result: the moved interface, the
/// applied address, and each route that was installed.
pub open spec fn add_record(r: ResultView, s: AddStep, o: Outcome, p: VlanPlugin) -> ResultView {
    if o != Outcome::Succeeded {
        r
    } else {
        match s {
            AddStep::MoveLink => r.with_interface(
                InterfaceView { name: p.args.ifname@, mac: None, sandbox: Some(p.args.netns@) },
            ),
            AddStep::AssignAddress => r.with_ip(
                IPView {
                    interface: Some(0),
                    address: fallback_address(p.config.vlan),
                    gateway: Some(p.gateway_spec()),
                },
            ),
            AddStep::AddDefaultRoute => r.with_route(
                RouteView { dst: seq!['0', '.', '0', '.', '0', '.', '0', '/', '0'], gw: Some(p.gateway_spec()) },
            ),
            AddStep::AddRoute(i) => if i < p.plan_routes().len() {
                r.with_route(plan_route_view(p.plan_routes()[i as int]))
            } else {
                r
            },
            _ => r,
        }
    }
}

/// Where the thread is after one operation: a successful switch into the
/// target puts it inside, a successful switch back puts it outside, and
/// anything else, a failed switch included, leaves it where it was.
pub open spec fn namespace_after(enters: bool, leaves: bool, o: Outcome, inside: bool) -> bool {
    if o == Outcome::Succeeded && enters {
        true
    } else if o == Outcome::Succeeded && leaves {
        false
    } else {
        inside
    }
}

/// Whether ADD stands inside the target namespace at this step. The one
/// end reached inside is a failed restore.
pub open spec fn add_inside(s: AddStep) -> bool {
    match s {
        AddStep::RenameLink => true,
        AddStep::ActivateInterface => true,
        AddStep::AssignAddress => true,
        AddStep::AddDefaultRoute => true,
        AddStep::AddRoute(_) => true,
        AddStep::LeaveNamespace => true,
        AddStep::RemoveMovedLink(_) => true,
        AddStep::RemoveSandboxLink(_) => true,
        AddStep::LeaveAfterFailure(_) => true,
        AddStep::Failed(k) => k == ErrorKind::RestoreFailed,
        _ => false,
    }
}

/// Whether the step switches into the target namespace.
pub open spec fn add_enters(s: AddStep) -> bool {
    s is EnterNamespace
}

/// Whether the step switches back to the original namespace.
pub open spec fn add_leaves(s: AddStep) -> bool {
    s is LeaveNamespace || s is LeaveAfterFailure
}

/// A pending error of a rollback is never a failed restore.
pub open spec fn add_step_wf(s: AddStep) -> bool {
    match s {
        AddStep::RemoveHostLink(k) => k != ErrorKind::RestoreFailed,
        AddStep::RemoveMovedLink(k) => k != ErrorKind::RestoreFailed,
        AddStep::RemoveSandboxLink(k) => k != ErrorKind::RestoreFailed,
        AddStep::LeaveAfterFailure(k) => k != ErrorKind::RestoreFailed,
        _ => true,
    }
}

/// The step ADD reaches from `s` through the given outcomes.
pub open spec fn add_run(s: AddStep, os: Seq<Outcome>, p: VlanPlugin) -> AddStep
    decreases os.len(),
{
    if os.len() == 0 {
        s
    } else {
        add_run(add_next(s, os[0], p), os.drop_first(), p)
    }
}

/// Whether the thread is in the target namespace after ADD performed the
/// operations from `s` on with the given outcomes.
pub open spec fn add_thread_inside(s: AddStep, os: Seq<Outcome>, p: VlanPlugin, inside: bool) -> bool
    decreases os.len(),
{
    if os.len() == 0 {
        inside
    } else {
        add_thread_inside(
            add_next(s, os[0], p),
            os.drop_first(),
            p,
            namespace_after(add_enters(s), add_leaves(s), os[0], inside),
        )
    }
}

proof fn lemma_add_step_tracks(s: AddStep, o: Outcome, p: VlanPlugin)
    requires
        add_step_wf(s),
    ensures
        add_step_wf(add_next(s, o, p)),
        add_inside(add_next(s, o, p)) == namespace_after(add_enters(s), add_leaves(s), o, add_inside(s)),
{
}

proof fn lemma_add_tracks(s: AddStep, os: Seq<Outcome>, p: VlanPlugin, inside: bool)
    requires
        add_step_wf(s),
        inside == add_inside(s),
    ensures
        add_thread_inside(s, os, p, inside) == add_inside(add_run(s, os, p)),
    decreases os.len(),
{
    if os.len() > 0 {
        lemma_add_step_tracks(s, os[0], p);
        lemma_add_tracks(
            add_next(s, os[0], p),
            os.drop_first(),
            p,
            namespace_after(add_enters(s), add_leaves(s), os[0], inside),
        );
    }
}

/// Namespace restoration for ADD: whatever the outcomes of its operations,
/// failures included, the machine knows at each step which namespace the
/// thread is in, and once ADD has ended, in success or in any error but a
/// failed restore, the thread is back in the namespace it started in.
pub proof fn lemma_add_restores_namespace(p: VlanPlugin, os: Seq<Outcome>)
    ensures
        add_thread_inside(AddStep::Authorize, os, p, false) == add_inside(add_run(AddStep::Authorize, os, p)),
        add_run(AddStep::Authorize, os, p) == AddStep::Done ==> !add_thread_inside(AddStep::Authorize, os, p, false),
        (add_run(AddStep::Authorize, os, p) matches AddStep::Failed(k) && k != ErrorKind::RestoreFailed)
            ==> !add_thread_inside(AddStep::Authorize, os, p, false),
{
    lemma_add_tracks(AddStep::Authorize, os, p, false);
}

/// The steps whose failure ADD must not pass over.
pub open spec fn add_fatal(s: AddStep) -> bool {
    s is VerifyMaster || s is CreateLink || s is LinkUp || s is MoveLink || s is EnterNamespace
        || s is RenameLink || s is ActivateInterface || s is AssignAddress || s is LeaveNamespace
}

/// Whether ADD is rolling back or has failed.
pub open spec fn add_aborting(s: AddStep) -> bool {
    s is RemoveHostLink || s is RemoveMovedLink || s is RemoveSandboxLink || s is LeaveAfterFailure
        || s is Failed
}

/// Whether the outcome counts as a failure of the step.
pub open spec fn add_failed(s: AddStep, o: Outcome) -> bool {
    o != Outcome::Succeeded && !(s is CreateLink && o == Outcome::AlreadyExists)
}

proof fn lemma_add_run_split(s: AddStep, a: Seq<Outcome>, b: Seq<Outcome>, p: VlanPlugin)
    ensures
        add_run(s, a + b, p) == add_run(add_run(s, a, p), b, p),
    decreases a.len(),
{
    if a.len() > 0 {
        assert((a + b).drop_first() =~= a.drop_first() + b);
        lemma_add_run_split(add_next(s, a[0], p), a.drop_first(), b, p);
    }
}

proof fn lemma_add_aborting_stays(s: AddStep, os: Seq<Outcome>, p: VlanPlugin)
    requires
        add_aborting(s),
    ensures
        add_aborting(add_run(s, os, p)),
    decreases os.len(),
{
    if os.len() > 0 {
        lemma_add_aborting_stays(add_next(s, os[0], p), os.drop_first(), p);
    }
}

/// No partial silent success: once a step that ADD depends on has failed,
/// ADD rolls back and fails, whatever comes after; it never reaches `Done`.
pub proof fn lemma_add_no_silent_success(p: VlanPlugin, os: Seq<Outcome>, k: int)
    requires
        0 <= k < os.len(),
        add_fatal(add_run(AddStep::Authorize, os.take(k), p)),
        add_failed(add_run(AddStep::Authorize, os.take(k), p), os[k]),
    ensures
        add_aborting(add_run(AddStep::Authorize, os, p)),
        add_run(AddStep::Authorize, os, p) != AddStep::Done,
{
    let s = add_run(AddStep::Authorize, os.take(k), p);
    assert(os =~= os.take(k) + os.skip(k));
    lemma_add_run_split(AddStep::Authorize, os.take(k), os.skip(k), p);
    assert(add_aborting(add_next(s, os[k], p)));
    assert(os.skip(k).drop_first() =~= os.skip(k + 1));
    lemma_add_aborting_stays(add_next(s, os[k], p), os.skip(k + 1), p);
}

/// Idempotent link creation: the link's name depends on the master and the
/// VLAN alone, so a second ADD with the same pair names the same link; and
/// the system's answer that it exists already lets ADD go on exactly as a
/// fresh creation does, to the same next step and the same result.
pub proof fn lemma_link_creation_idempotent(p: VlanPlugin, q: VlanPlugin, r: ResultView)
    requires
        p.config.master@ == q.config.master@,
        p.config.vlan == q.config.vlan,
    ensures
        p.host_link_name() == q.host_link_name(),
        add_next(AddStep::CreateLink, Outcome::AlreadyExists, p) == add_next(AddStep::CreateLink, Outcome::Succeeded, p),
        add_record(r, AddStep::CreateLink, Outcome::AlreadyExists, p) == add_record(r, AddStep::CreateLink, Outcome::Succeeded, p),
{
}

/// A run of the ADD verb.
pub struct AddRun {
    /// The operation to perform next, or the end reached
    pub step: AddStep,
    /// What has been provisioned so far
    pub result: CniResult,
}

impl AddRun {
    /// Takes the outcome of the current step and moves on.
    pub fn advance(&mut self, p: &VlanPlugin, o: Outcome)
        ensures
            final(self).step == add_next(old(self).step, o, *p),
            final(self).result@ == add_record(old(self).result@, old(self).step, o, *p),
    {
        let ok = o == Outcome::Succeeded;
        let next = match self.step {
            AddStep::Authorize => if ok {
                AddStep::VerifyMaster
            } else if o == Outcome::Denied {
                AddStep::Failed(ErrorKind::PermissionDenied)
            } else if p.access_policy == AccessPolicy::FailOpen {
                AddStep::VerifyMaster
            } else {
                AddStep::Failed(ErrorKind::TransientToolFailure)
            },
            AddStep::VerifyMaster => if ok {
                AddStep::CreateLink
            } else {
                AddStep::Failed(ErrorKind::ResourceNotFound)
            },
            AddStep::CreateLink => if ok || o == Outcome::AlreadyExists {
                AddStep::LinkUp
            } else {
                AddStep::Failed(ErrorKind::PartialProvisioningFailure)
            },
            AddStep::LinkUp => if !ok {
                AddStep::RemoveHostLink(ErrorKind::PartialProvisioningFailure)
            } else if p.config.mtu.is_some() {
                AddStep::SetMtu
            } else {
                AddStep::MoveLink
            },
            AddStep::SetMtu => AddStep::MoveLink,
            AddStep::MoveLink => if ok {
                let iface = Interface {
                    name: p.args.ifname.clone(),
                    mac: None,
                    sandbox: Some(p.args.netns.clone()),
                };
                self.result.add_interface(iface);
                AddStep::EnterNamespace
            } else {
                AddStep::RemoveHostLink(ErrorKind::PartialProvisioningFailure)
            },
            AddStep::EnterNamespace => if !ok {
                AddStep::Failed(ErrorKind::SwitchFailed)
            } else {
                let name = p.vlan_link_name();
                if name != p.args.ifname {
                    AddStep::RenameLink
                } else {
                    AddStep::ActivateInterface
                }
            },
            AddStep::RenameLink => if ok {
                AddStep::ActivateInterface
            } else {
                AddStep::RemoveMovedLink(ErrorKind::PartialProvisioningFailure)
            },
            AddStep::ActivateInterface => if !ok {
                AddStep::RemoveSandboxLink(ErrorKind::PartialProvisioningFailure)
            } else if p.config.ipam.is_some() {
                AddStep::AssignAddress
            } else {
                AddStep::LeaveNamespace
            },
            AddStep::AssignAddress => if ok {
                let ip = IPConfig { interface: Some(0), address: p.address(), gateway: Some(p.gateway()) };
                self.result.add_ip(ip);
                AddStep::AddDefaultRoute
            } else {
                AddStep::RemoveSandboxLink(ErrorKind::PartialProvisioningFailure)
            },
            AddStep::AddDefaultRoute => {
                if ok {
                    let route = Route { dst: String::from_str("0.0.0.0/0"), gw: Some(p.gateway()) };
                    proof {
                        reveal_strlit("0.0.0.0/0");
                        assert(route.dst@ =~= seq!['0', '.', '0', '.', '0', '.', '0', '/', '0']);
                    }
                    self.result.add_route(route);
                }
                if p.plan_route_count() > 0 {
                    AddStep::AddRoute(0)
                } else {
                    AddStep::LeaveNamespace
                }
            },
            AddStep::AddRoute(i) => {
                let n = p.plan_route_count();
                if ok && i < n {
                    self.result.add_route(p.plan_route(i));
                }
                if n > 0 && i < n - 1 {
                    AddStep::AddRoute(i + 1)
                } else {
                    AddStep::LeaveNamespace
                }
            },
            AddStep::LeaveNamespace => if ok {
                AddStep::RegisterVlan
            } else {
                AddStep::Failed(ErrorKind::RestoreFailed)
            },
            AddStep::RegisterVlan => AddStep::Done,
            AddStep::RemoveHostLink(k) => AddStep::Failed(k),
            AddStep::RemoveMovedLink(k) => AddStep::LeaveAfterFailure(k),
            AddStep::RemoveSandboxLink(k) => AddStep::LeaveAfterFailure(k),
            AddStep::LeaveAfterFailure(k) => if ok {
                AddStep::Failed(k)
            } else {
                AddStep::Failed(ErrorKind::RestoreFailed)
            },
            AddStep::Done => AddStep::Done,
            AddStep::Failed(k) => AddStep::Failed(k),
        };
        self.step = next;
    }
}

/// The operations of DEL, and its two ends.
#[derive(Debug, Clone, Copy, PartialEq, Eq, Structural)]
pub enum DelStep {
    /// Switch into the target namespace, if it still exists.
    EnterNamespace,
    /// Delete the interface inside the namespace.
    DeleteLink,
    /// Switch back to the original namespace.
    LeaveNamespace,
    /// Deregister the VLAN from the access-control backend.
    Deregister,
    /// DEL succeeded.
    Done,
    /// DEL failed with this error.
    Failed(ErrorKind),
}

/// The next step of DEL. A namespace or an interface that is gone already
/// counts as deleted, and the backend's answer does not matter.
pub open spec fn del_next(s: DelStep, o: Outcome) -> DelStep {
    let ok = o == Outcome::Succeeded;
    match s {
        DelStep::EnterNamespace => if ok {
            DelStep::DeleteLink
        } else {
            DelStep::Deregister
        },
        DelStep::DeleteLink => DelStep::LeaveNamespace,
        DelStep::LeaveNamespace => if ok {
            DelStep::Deregister
        } else {
            DelStep::Failed(ErrorKind::RestoreFailed)
        },
        DelStep::Deregister => DelStep::Done,
        DelStep::Done => DelStep::Done,
        DelStep::Failed(k) => DelStep::Failed(k),
    }
}

/// The step DEL reaches from `s` through the given outcomes.
pub open spec fn del_run(s: DelStep, os: Seq<Outcome>) -> DelStep
    decreases os.len(),
{
    if os.len() == 0 {
        s
    } else {
        del_run(del_next(s, os[0]), os.drop_first())
    }
}

/// Whether DEL stands inside the target namespace at this step.
pub open spec fn del_inside(s: DelStep) -> bool {
    match s {
        DelStep::DeleteLink => true,
        DelStep::LeaveNamespace => true,
        DelStep::Failed(k) => k == ErrorKind::RestoreFailed,
        _ => false,
    }
}

/// Whether the thread is in the target namespace after DEL performed the
/// operations from `s` on with the given outcomes.
pub open spec fn del_thread_inside(s: DelStep, os: Seq<Outcome>, inside: bool) -> bool
    decreases os.len(),
{
    if os.len() == 0 {
        inside
    } else {
        del_thread_inside(
            del_next(s, os[0]),
            os.drop_first(),
            namespace_after(s is EnterNamespace, s is LeaveNamespace, os[0], inside),
        )
    }
}

proof fn lemma_del_tracks(s: DelStep, os: Seq<Outcome>, inside: bool)
    requires
        inside == del_inside(s),
    ensures
        del_thread_inside(s, os, inside) == del_inside(del_run(s, os)),
        del_run(s, os) matches DelStep::Failed(k) ==> k == ErrorKind::RestoreFailed || s == DelStep::Failed(k),
    decreases os.len(),
{
    if os.len() > 0 {
        lemma_del_tracks(
            del_next(s, os[0]),
            os.drop_first(),
            namespace_after(s is EnterNamespace, s is LeaveNamespace, os[0], inside),
        );
    }
}

/// Namespace restoration for DEL: once DEL has ended, other than by a
/// failed restore, the thread is back in the namespace it started in.
pub proof fn lemma_del_restores_namespace(os: Seq<Outcome>)
    ensures
        del_thread_inside(DelStep::EnterNamespace, os, false) == del_inside(del_run(DelStep::EnterNamespace, os)),
        del_run(DelStep::EnterNamespace, os) == DelStep::Done ==> !del_thread_inside(DelStep::EnterNamespace, os, false),
{
    lemma_del_tracks(DelStep::EnterNamespace, os, false);
}

/// DEL idempotence: DEL fails on no outcome but a failed switch back, so
/// it succeeds whether or not an earlier DEL removed the namespace or the
/// interface; in particular a DEL that finds the namespace gone, or finds
/// the interface gone inside it, ends in success.
pub proof fn lemma_del_idempotent(os: Seq<Outcome>, o: Outcome)
    ensures
        del_run(DelStep::EnterNamespace, os) matches DelStep::Failed(k) ==> k == ErrorKind::RestoreFailed,
        del_run(DelStep::EnterNamespace, seq![Outcome::Failed, o]) == DelStep::Done,
        del_run(
            DelStep::EnterNamespace,
            seq![Outcome::Succeeded, Outcome::Failed, Outcome::Succeeded, o],
        ) == DelStep::Done,
{
    lemma_del_tracks(DelStep::EnterNamespace, os, false);
    reveal_with_fuel(del_run, 5);
    let a = seq![Outcome::Failed, o];
    assert(a.drop_first()[0] == o);
    assert(a.drop_first().drop_first() =~= Seq::<Outcome>::empty());
    let b = seq![Outcome::Succeeded, Outcome::Failed, Outcome::Succeeded, o];
    assert(b.drop_first().drop_first().drop_first().drop_first() =~= Seq::<Outcome>::empty());
    assert(b.drop_first()[0] == Outcome::Failed);
    assert(b.drop_first().drop_first()[0] == Outcome::Succeeded);
}

/// A run of the DEL verb.
pub struct DelRun {
    /// The operation to perform next, or the end reached
    pub step: DelStep,
}

impl DelRun {
    /// Takes the outcome of the current step and moves on.
    pub fn advance(&mut self, o: Outcome)
        ensures
            final(self).step == del_next(old(self).step, o),
    {
        let ok = o == Outcome::Succeeded;
        self.step = match self.step {
            DelStep::EnterNamespace => if ok {
                DelStep::DeleteLink
            } else {
                DelStep::Deregister
            },
            DelStep::DeleteLink => DelStep::LeaveNamespace,
            DelStep::LeaveNamespace => if ok {
                DelStep::Deregister
            } else {
                DelStep::Failed(ErrorKind::RestoreFailed)
            },
            DelStep::Deregister => DelStep::Done,
            DelStep::Done => DelStep::Done,
            DelStep::Failed(k) => DelStep::Failed(k),
        };
    }
}

/// The operations of CHECK, and its two ends.
#[derive(Debug, Clone, Copy, PartialEq, Eq, Structural)]
pub enum CheckStep {
    /// Ask the access-control backend about the VLAN.
    Authorize,
    /// Switch into the target namespace.
    EnterNamespace,
    /// Read the interface's state and judge it.
    InspectInterface,
    /// Switch back to the original namespace.
    LeaveNamespace,
    /// Switch back to the original namespace, then fail.
    LeaveAfterFailure(ErrorKind),
    /// CHECK succeeded.
    Done,
    /// CHECK failed with this error.
    Failed(ErrorKind),
}

/// The next step of CHECK, given the outcome of the current one.
pub open spec fn check_next(s: CheckStep, o: Outcome, p: VlanPlugin) -> CheckStep {
    let ok = o == Outcome::Succeeded;
    match s {
        CheckStep::Authorize => if ok {
            CheckStep::EnterNamespace
        } else if o == Outcome::Denied {
            CheckStep::Failed(ErrorKind::PermissionDenied)
        } else if p.access_policy == AccessPolicy::FailOpen {
            CheckStep::EnterNamespace
        } else {
            CheckStep::Failed(ErrorKind::TransientToolFailure)
        },
        CheckStep::EnterNamespace => if ok {
            CheckStep::InspectInterface
        } else {
            CheckStep::Failed(ErrorKind::ResourceNotFound)
        },
        CheckStep::InspectInterface => if ok {
            CheckStep::LeaveNamespace
        } else {
            CheckStep::LeaveAfterFailure(ErrorKind::VerificationFailed)
        },
        CheckStep::LeaveNamespace => if ok {
            CheckStep::Done
        } else {
            CheckStep::Failed(ErrorKind::RestoreFailed)
        },
        CheckStep::LeaveAfterFailure(k) => if ok {
            CheckStep::Failed(k)
        } else {
            CheckStep::Failed(ErrorKind::RestoreFailed)
        },
        CheckStep::Done => CheckStep::Done,
        CheckStep::Failed(k) => CheckStep::Failed(k),
    }
}

/// The step CHECK reaches from `s` through the given outcomes.
pub open spec fn check_run(s: CheckStep, os: Seq<Outcome>, p: VlanPlugin) -> CheckStep
    decreases os.len(),
{
    if os.len() == 0 {
        s
    } else {
        check_run(check_next(s, os[0], p), os.drop_first(), p)
    }
}

/// Whether CHECK stands inside the target namespace at this step.
pub open spec fn check_inside(s: CheckStep) -> bool {
    match s {
        CheckStep::InspectInterface => true,
        CheckStep::LeaveNamespace => true,
        CheckStep::LeaveAfterFailure(_) => true,
        CheckStep::Failed(k) => k == ErrorKind::RestoreFailed,
        _ => false,
    }
}

/// A pending error of CHECK is never a failed restore.
pub open spec fn check_step_wf(s: CheckStep) -> bool {
    s matches CheckStep::LeaveAfterFailure(k) ==> k != ErrorKind::RestoreFailed
}

/// Whether the thread is in the target namespace after CHECK performed the
/// operations from `s` on with the given outcomes.
pub open spec fn check_thread_inside(s: CheckStep, os: Seq<Outcome>, p: VlanPlugin, inside: bool) -> bool
    decreases os.len(),
{
    if os.len() == 0 {
        inside
    } else {
        check_thread_inside(
            check_next(s, os[0], p),
            os.drop_first(),
            p,
            namespace_after(
                s is EnterNamespace,
                s is LeaveNamespace || s is LeaveAfterFailure,
                os[0],
                inside,
            ),
        )
    }
}

proof fn lemma_check_tracks(s: CheckStep, os: Seq<Outcome>, p: VlanPlugin, inside: bool)
    requires
        check_step_wf(s),
        inside == check_inside(s),
    ensures
        check_thread_inside(s, os, p, inside) == check_inside(check_run(s, os, p)),
    decreases os.len(),
{
    if os.len() > 0 {
        lemma_check_tracks(
            check_next(s, os[0], p),
            os.drop_first(),
            p,
            namespace_after(
                s is EnterNamespace,
                s is LeaveNamespace || s is LeaveAfterFailure,
                os[0],
                inside,
            ),
        );
    }
}

/// Namespace restoration for CHECK: once CHECK has ended, in success or in
/// any error but a failed restore, the thread is back in the namespace it
/// started in.
pub proof fn lemma_check_restores_namespace(p: VlanPlugin, os: Seq<Outcome>)
    ensures
        check_thread_inside(CheckStep::Authorize, os, p, false) == check_inside(check_run(CheckStep::Authorize, os, p)),
        check_run(CheckStep::Authorize, os, p) == CheckStep::Done ==> !check_thread_inside(CheckStep::Authorize, os, p, false),
        (check_run(CheckStep::Authorize, os, p) matches CheckStep::Failed(k) && k != ErrorKind::RestoreFailed)
            ==> !check_thread_inside(CheckStep::Authorize, os, p, false),
{
    lemma_check_tracks(CheckStep::Authorize, os, p, false);
}

/// The marks of a healthy interface in the detailed listing of the link
/// tool: the administrative UP flag, its VLAN id, and, where an address
/// plan is configured, an address in the plan's subnet.
pub open spec fn report_ok(text: Seq<char>, p: VlanPlugin) -> bool {
    &&& (contains(text, "<UP"@) || contains(text, ",UP"@))
    &&& contains(text, vlan_marker(p.config.vlan))
    &&& (p.config.ipam is Some ==> contains(text, subnet_marker(p.config.vlan)))
}

/// How the listing names a VLAN id.
pub open spec fn vlan_marker(vlan: u16) -> Seq<char> {
    seq!['i', 'd', ' '] + decimal(vlan as nat) + seq![' ']
}

/// How the listing begins an address in the VLAN's subnet.
pub open spec fn subnet_marker(vlan: u16) -> Seq<char> {
    seq!['i', 'n', 'e', 't', ' ', '1', '9', '2', '.', '1', '6', '8', '.'] + decimal(vlan as nat % 256) + seq!['.']
}

/// The outcome of an inspection: the listing, where one could be read, is
/// judged by `report_ok`.
pub open spec fn inspection_outcome(report: Option<Seq<char>>, p: VlanPlugin) -> Outcome {
    match report {
        Some(t) => if report_ok(t, p) {
            Outcome::Succeeded
        } else {
            Outcome::Failed
        },
        None => Outcome::Failed,
    }
}

impl VlanPlugin {
    /// Judges the detailed listing of the interface.
    pub fn report_matches(&self, text: &str) -> (r: bool)
        ensures
            r == report_ok(text@, *self),
    {
        let up = contains_text(text, "<UP") || contains_text(text, ",UP");
        let mut vm = String::from_str("id ");
        let d = decimal_string(self.config.vlan as u64);
        vm.append(d.as_str());
        vm.append(" ");
        proof {
            reveal_strlit("id ");
            reveal_strlit(" ");
            assert(vm@ =~= vlan_marker(self.config.vlan));
        }
        let has_vlan = contains_text(text, vm.as_str());
        let has_addr = if self.config.ipam.is_some() {
            let mut am = String::from_str("inet 192.168.");
            let o = decimal_string((self.config.vlan % 256) as u64);
            am.append(o.as_str());
            am.append(".");
            proof {
                reveal_strlit("inet 192.168.");
                reveal_strlit(".");
                assert(am@ =~= subnet_marker(self.config.vlan));
            }
            contains_text(text, am.as_str())
        } else {
            true
        };
        up && has_vlan && has_addr
    }
}

/// A run of the CHECK verb.
pub struct CheckRun {
    /// The operation to perform next, or the end reached
    pub step: CheckStep,
}

impl CheckRun {
    /// Takes the listing read for the inspection, or `None` where it could
    /// not be read, judges it and moves on.
    pub fn inspect(&mut self, p: &VlanPlugin, report: Option<&str>)
        ensures
            final(self).step == check_next(
                old(self).step,
                inspection_outcome(
                    match report {
                        Some(t) => Some(t@),
                        None => None,
                    },
                    *p,
                ),
                *p,
            ),
    {
        let o = match report {
            Some(t) => if p.report_matches(t) {
                Outcome::Succeeded
            } else {
                Outcome::Failed
            },
            None => Outcome::Failed,
        };
        self.advance(p, o);
    }

    /// Takes the outcome of the current step and moves on.
    pub fn advance(&mut self, p: &VlanPlugin, o: Outcome)
        ensures
            final(self).step == check_next(old(self).step, o, *p),
    {
        let ok = o == Outcome::Succeeded;
        self.step = match self.step {
            CheckStep::Authorize => if ok {
                CheckStep::EnterNamespace
            } else if o == Outcome::Denied {
                CheckStep::Failed(ErrorKind::PermissionDenied)
            } else if p.access_policy == AccessPolicy::FailOpen {
                CheckStep::EnterNamespace
            } else {
                CheckStep::Failed(ErrorKind::TransientToolFailure)
            },
            CheckStep::EnterNamespace => if ok {
                CheckStep::InspectInterface
            } else {
                CheckStep::Failed(ErrorKind::ResourceNotFound)
            },
            CheckStep::InspectInterface => if ok {
                CheckStep::LeaveNamespace
            } else {
                CheckStep::LeaveAfterFailure(ErrorKind::VerificationFailed)
            },
            CheckStep::LeaveNamespace => if ok {
                CheckStep::Done
            } else {
                CheckStep::Failed(ErrorKind::RestoreFailed)
            },
            CheckStep::LeaveAfterFailure(k) => if ok {
                CheckStep::Failed(k)
            } else {
                CheckStep::Failed(ErrorKind::RestoreFailed)
            },
            CheckStep::Done => CheckStep::Done,
            CheckStep::Failed(k) => CheckStep::Failed(k),
        };
    }
}

} // verus!
