//! The network configurator: the order in which the guest's network is
//! brought up, and what a failure on the way means.
//!
//! The configurator talks to nobody. It names the request to make next;
//! whoever drives it makes the request over the kernel's configuration
//! channel and reports the reply. The requests come in one fixed order, each
//! after the one before it has succeeded, and the first failure is final:
//! there is no network that is half configured and used all the same.

use vstd::prelude::*;

use crate::error::{Cause, CauseView, InitError, InitErrorView, OpKind};

verus! {

/// The name of the loopback interface.
pub const LOOPBACK: &'static str = "lo";

/// The name of the guest's primary interface.
pub const PRIMARY: &'static str = "eth0";

/// What a failure to open the configuration channel is reported about.
pub const CHANNEL: &'static str = "netlink";

/// The MTU of the primary interface, which leaves room for the
/// encapsulation of the transport below it.
pub const PRIMARY_MTU: u32 = 1420;

/// The prefix length of the guest's address.
pub const PREFIX_LEN: u8 = 24;

/// An IPv4 address, one field for each octet.
#[derive(Clone, Copy, Debug, PartialEq, Eq, Structural)]
pub struct Ipv4Address(pub u8, pub u8, pub u8, pub u8);

pub open spec fn spec_guest_address() -> Ipv4Address {
    Ipv4Address(172, 16, 0, 2)
}

/// The address of the guest.
#[verifier::when_used_as_spec(spec_guest_address)]
pub fn guest_address() -> (address: Ipv4Address)
    ensures
        address == spec_guest_address(),
{
    Ipv4Address(172, 16, 0, 2)
}

pub open spec fn spec_gateway() -> Ipv4Address {
    Ipv4Address(172, 16, 0, 1)
}

/// The gateway of the guest's default route.
#[verifier::when_used_as_spec(spec_gateway)]
pub fn gateway() -> (address: Ipv4Address)
    ensures
        address == spec_gateway(),
{
    Ipv4Address(172, 16, 0, 1)
}

/// One of the two interfaces that the configurator knows.
#[derive(Clone, Copy, Debug, PartialEq, Eq, Structural)]
pub enum Link {
    Loopback,
    Primary,
}

impl Link {
    /// The name by which the kernel knows the interface.
    pub open spec fn spec_name(self) -> Seq<char> {
        match self {
            Link::Loopback => LOOPBACK@,
            Link::Primary => PRIMARY@,
        }
    }

    /// The name by which the kernel knows the interface.
    pub fn name(self) -> (name: &'static str)
        ensures
            name@ == self.spec_name(),
    {
        match self {
            Link::Loopback => LOOPBACK,
            Link::Primary => PRIMARY,
        }
    }
}

/// A request to the kernel's configuration channel.
#[derive(Clone, Copy, Debug, PartialEq, Eq, Structural)]
pub enum NetAction {
    /// Open the channel.
    OpenChannel,
    /// Look the interface up by its name.
    ResolveLink { link: Link },
    /// Set the interface with the given index up, and its MTU if one is
    /// given.
    SetLinkUp { index: u32, mtu: Option<u32> },
    /// Assign the address to the interface with the given index.
    AddAddress { index: u32, address: Ipv4Address, prefix_len: u8 },
    /// Install the default IPv4 route through the gateway.
    AddDefaultRoute { gateway: Ipv4Address },
}

/// The reply to a request.
#[derive(Clone, Debug, PartialEq, Eq)]
pub enum NetReply {
    /// The request succeeded; there is nothing to report.
    Done,
    /// The interface exists and has the given index.
    Link { index: u32 },
    /// No interface has the name that was looked up.
    Missing,
    /// The request failed.
    Failed(Cause),
}

/// The mathematical model of [`NetReply`].
pub enum NetReplyView {
    Done,
    Link { index: u32 },
    Missing,
    Failed(CauseView),
}

impl View for NetReply {
    type V = NetReplyView;

    open spec fn view(&self) -> NetReplyView {
        match *self {
            NetReply::Done => NetReplyView::Done,
            NetReply::Link { index } => NetReplyView::Link { index },
            NetReply::Missing => NetReplyView::Missing,
            NetReply::Failed(cause) => NetReplyView::Failed(cause@),
        }
    }
}

/// Where the configuration of the network stands. Each state but the last
/// two has one request pending; `lo` and `primary` are the indices of the
/// interfaces that were resolved on the way.
#[derive(Clone, Debug, PartialEq, Eq)]
pub enum NetState {
    OpenChannel,
    ResolveLoopback,
    RaiseLoopback { lo: u32 },
    ResolvePrimary { lo: u32 },
    RaisePrimary { lo: u32, primary: u32 },
    AssignAddress { lo: u32, primary: u32 },
    InstallRoute { lo: u32, primary: u32 },
    /// Every request has succeeded.
    Ready { lo: u32, primary: u32 },
    /// A request has failed; none follows.
    Failed(InitError),
}

/// The mathematical model of [`NetState`].
pub enum NetStateView {
    OpenChannel,
    ResolveLoopback,
    RaiseLoopback { lo: u32 },
    ResolvePrimary { lo: u32 },
    RaisePrimary { lo: u32, primary: u32 },
    AssignAddress { lo: u32, primary: u32 },
    InstallRoute { lo: u32, primary: u32 },
    Ready { lo: u32, primary: u32 },
    Failed(InitErrorView),
}

impl View for NetState {
    type V = NetStateView;

    open spec fn view(&self) -> NetStateView {
        match *self {
            NetState::OpenChannel => NetStateView::OpenChannel,
            NetState::ResolveLoopback => NetStateView::ResolveLoopback,
            NetState::RaiseLoopback { lo } => NetStateView::RaiseLoopback { lo },
            NetState::ResolvePrimary { lo } => NetStateView::ResolvePrimary { lo },
            NetState::RaisePrimary { lo, primary } => NetStateView::RaisePrimary { lo, primary },
            NetState::AssignAddress { lo, primary } => NetStateView::AssignAddress { lo, primary },
            NetState::InstallRoute { lo, primary } => NetStateView::InstallRoute { lo, primary },
            NetState::Ready { lo, primary } => NetStateView::Ready { lo, primary },
            NetState::Failed(e) => NetStateView::Failed(e@),
        }
    }
}

impl NetStateView {
    /// The request to make in this state. There is none once the network is
    /// ready or has failed.
    pub open spec fn pending(self) -> Option<NetAction> {
        match self {
            NetStateView::OpenChannel => Some(NetAction::OpenChannel),
            NetStateView::ResolveLoopback => Some(NetAction::ResolveLink { link: Link::Loopback }),
            NetStateView::RaiseLoopback { lo } => Some(
                NetAction::SetLinkUp { index: lo, mtu: None },
            ),
            NetStateView::ResolvePrimary { .. } => Some(
                NetAction::ResolveLink { link: Link::Primary },
            ),
            NetStateView::RaisePrimary { primary, .. } => Some(
                NetAction::SetLinkUp { index: primary, mtu: Some(PRIMARY_MTU) },
            ),
            NetStateView::AssignAddress { primary, .. } => Some(
                NetAction::AddAddress {
                    index: primary,
                    address: guest_address(),
                    prefix_len: PREFIX_LEN,
                },
            ),
            NetStateView::InstallRoute { .. } => Some(
                NetAction::AddDefaultRoute { gateway: gateway() },
            ),
            NetStateView::Ready { .. } => None,
            NetStateView::Failed(_) => None,
        }
    }

    /// How many requests have succeeded.
    pub open spec fn rank(self) -> int {
        match self {
            NetStateView::OpenChannel => 0,
            NetStateView::ResolveLoopback => 1,
            NetStateView::RaiseLoopback { .. } => 2,
            NetStateView::ResolvePrimary { .. } => 3,
            NetStateView::RaisePrimary { .. } => 4,
            NetStateView::AssignAddress { .. } => 5,
            NetStateView::InstallRoute { .. } => 6,
            NetStateView::Ready { .. } => 7,
            NetStateView::Failed(_) => 0,
        }
    }

    /// What a failure in this state is reported about: the interface that
    /// the pending request is for, or the channel.
    pub open spec fn subject(self) -> Seq<char> {
        match self {
            NetStateView::OpenChannel => CHANNEL@,
            NetStateView::ResolveLoopback => LOOPBACK@,
            NetStateView::RaiseLoopback { .. } => LOOPBACK@,
            _ => PRIMARY@,
        }
    }

    /// The error of a failure in this state.
    pub open spec fn failure(self, cause: CauseView) -> InitErrorView {
        InitErrorView {
            kind: OpKind::NetworkConfigure,
            subject: self.subject(),
            origin: None,
            cause,
        }
    }

    /// The state that follows when the pending request has succeeded with
    /// the given reply, or `None` if the reply is not one that the request
    /// can have.
    pub open spec fn success(self, reply: NetReplyView) -> Option<NetStateView> {
        match (self, reply) {
            (NetStateView::OpenChannel, NetReplyView::Done) => Some(NetStateView::ResolveLoopback),
            (NetStateView::ResolveLoopback, NetReplyView::Link { index }) => Some(
                NetStateView::RaiseLoopback { lo: index },
            ),
            (NetStateView::RaiseLoopback { lo }, NetReplyView::Done) => Some(
                NetStateView::ResolvePrimary { lo },
            ),
            (NetStateView::ResolvePrimary { lo }, NetReplyView::Link { index }) => Some(
                NetStateView::RaisePrimary { lo, primary: index },
            ),
            (NetStateView::RaisePrimary { lo, primary }, NetReplyView::Done) => Some(
                NetStateView::AssignAddress { lo, primary },
            ),
            (NetStateView::AssignAddress { lo, primary }, NetReplyView::Done) => Some(
                NetStateView::InstallRoute { lo, primary },
            ),
            (NetStateView::InstallRoute { lo, primary }, NetReplyView::Done) => Some(
                NetStateView::Ready { lo, primary },
            ),
            _ => None,
        }
    }

    /// The cause of the failure that a reply other than the expected one
    /// makes.
    pub open spec fn cause_of(self, reply: NetReplyView) -> CauseView {
        match reply {
            NetReplyView::Failed(cause) => cause,
            NetReplyView::Missing => if self.pending() is Some && self.pending()->0
                is ResolveLink {
                CauseView::NotFound
            } else {
                CauseView::Unexpected
            },
            _ => CauseView::Unexpected,
        }
    }

    /// The state after `reply` has arrived.
    ///
    /// The reply that the pending request is made for leads to the next
    /// request. Every other reply is a failure: of the request, if the reply
    /// says so; of the lookup, if the interface is missing; of the
    /// exchange, if the reply belongs to no such request. Once the network
    /// is ready or has failed, a reply changes nothing.
    pub open spec fn advance(self, reply: NetReplyView) -> NetStateView {
        if self.pending() is None {
            self
        } else {
            match self.success(reply) {
                Some(next) => next,
                None => NetStateView::Failed(self.failure(self.cause_of(reply))),
            }
        }
    }

    /// The state after the given replies have arrived one after the other.
    pub open spec fn run(self, replies: Seq<NetReplyView>) -> NetStateView
        decreases replies.len(),
    {
        if replies.len() == 0 {
            self
        } else {
            self.run(replies.drop_last()).advance(replies.last())
        }
    }
}

/// An address that an interface has, with its prefix length.
#[derive(Clone, Copy, Debug, PartialEq, Eq, Structural)]
pub struct Assignment {
    pub address: Ipv4Address,
    pub prefix_len: u8,
}

/// What is known of an interface once the network is ready.
#[derive(Clone, Debug, PartialEq, Eq)]
pub struct InterfaceState {
    pub link: Link,
    /// The index by which the kernel knows the interface.
    pub index: u32,
    /// True if the interface is administratively up.
    pub up: bool,
    /// The MTU, where the configurator has set one.
    pub mtu: Option<u32>,
    pub addresses: Vec<Assignment>,
    /// The gateways of the default routes through the interface.
    pub routes: Vec<Ipv4Address>,
}

/// The mathematical model of [`InterfaceState`].
pub struct InterfaceView {
    pub link: Link,
    pub index: u32,
    pub up: bool,
    pub mtu: Option<u32>,
    pub addresses: Seq<Assignment>,
    pub routes: Seq<Ipv4Address>,
}

impl View for InterfaceState {
    type V = InterfaceView;

    open spec fn view(&self) -> InterfaceView {
        InterfaceView {
            link: self.link,
            index: self.index,
            up: self.up,
            mtu: self.mtu,
            addresses: self.addresses@,
            routes: self.routes@,
        }
    }
}

/// The loopback interface of a guest whose network is ready.
pub open spec fn loopback_interface(lo: u32) -> InterfaceView {
    InterfaceView {
        link: Link::Loopback,
        index: lo,
        up: true,
        mtu: None,
        addresses: Seq::empty(),
        routes: Seq::empty(),
    }
}

/// The primary interface of a guest whose network is ready.
pub open spec fn primary_interface(primary: u32) -> InterfaceView {
    InterfaceView {
        link: Link::Primary,
        index: primary,
        up: true,
        mtu: Some(PRIMARY_MTU),
        addresses: seq![Assignment { address: guest_address(), prefix_len: PREFIX_LEN }],
        routes: seq![gateway()],
    }
}

impl NetState {
    /// The state in which nothing has been requested yet.
    pub fn new() -> (s: NetState)
        ensures
            s@ == NetStateView::OpenChannel,
    {
        NetState::OpenChannel
    }

    /// The request to make next.
    pub fn pending(&self) -> (action: Option<NetAction>)
        ensures
            action == self@.pending(),
    {
        match self {
            NetState::OpenChannel => Some(NetAction::OpenChannel),
            NetState::ResolveLoopback => Some(NetAction::ResolveLink { link: Link::Loopback }),
            NetState::RaiseLoopback { lo } => Some(NetAction::SetLinkUp { index: *lo, mtu: None }),
            NetState::ResolvePrimary { .. } => Some(NetAction::ResolveLink { link: Link::Primary }),
            NetState::RaisePrimary { primary, .. } => Some(
                NetAction::SetLinkUp { index: *primary, mtu: Some(PRIMARY_MTU) },
            ),
            NetState::AssignAddress { primary, .. } => Some(
                NetAction::AddAddress {
                    index: *primary,
                    address: guest_address(),
                    prefix_len: PREFIX_LEN,
                },
            ),
            NetState::InstallRoute { .. } => Some(
                NetAction::AddDefaultRoute { gateway: gateway() },
            ),
            NetState::Ready { .. } => None,
            NetState::Failed(_) => None,
        }
    }

    /// What a failure in this state is reported about.
    fn subject(&self) -> (name: &'static str)
        ensures
            name@ == self@.subject(),
    {
        match self {
            NetState::OpenChannel => CHANNEL,
            NetState::ResolveLoopback => LOOPBACK,
            NetState::RaiseLoopback { .. } => LOOPBACK,
            _ => PRIMARY,
        }
    }

    /// The state after `reply` has arrived.
    pub fn advance(self, reply: NetReply) -> (next: NetState)
        ensures
            next@ == self@.advance(reply@),
    {
        match (self, reply) {
            (NetState::Ready { lo, primary }, _) => NetState::Ready { lo, primary },
            (NetState::Failed(e), _) => NetState::Failed(e),
            (NetState::OpenChannel, NetReply::Done) => NetState::ResolveLoopback,
            (NetState::ResolveLoopback, NetReply::Link { index }) => NetState::RaiseLoopback {
                lo: index,
            },
            (NetState::RaiseLoopback { lo }, NetReply::Done) => NetState::ResolvePrimary { lo },
            (NetState::ResolvePrimary { lo }, NetReply::Link { index }) => NetState::RaisePrimary {
                lo,
                primary: index,
            },
            (NetState::RaisePrimary { lo, primary }, NetReply::Done) => NetState::AssignAddress {
                lo,
                primary,
            },
            (NetState::AssignAddress { lo, primary }, NetReply::Done) => NetState::InstallRoute {
                lo,
                primary,
            },
            (NetState::InstallRoute { lo, primary }, NetReply::Done) => NetState::Ready {
                lo,
                primary,
            },
            (state, reply) => {
                let resolving = match state.pending() {
                    Some(NetAction::ResolveLink { .. }) => true,
                    _ => false,
                };
                let cause = match reply {
                    NetReply::Failed(cause) => cause,
                    NetReply::Missing => if resolving {
                        Cause::NotFound
                    } else {
                        Cause::Unexpected
                    },
                    _ => Cause::Unexpected,
                };
                NetState::Failed(InitError::about(OpKind::NetworkConfigure, state.subject(), cause))
            },
        }
    }

    /// True once every request has succeeded.
    pub fn is_ready(&self) -> (ready: bool)
        ensures
            ready == (self@ is Ready),
    {
        match self {
            NetState::Ready { .. } => true,
            _ => false,
        }
    }

    /// The failure that ended the configuration, if one did.
    pub fn failure(&self) -> (e: Option<&InitError>)
        ensures
            match e {
                Some(e) => self@ == NetStateView::Failed(e@),
                None => !(self@ is Failed),
            },
    {
        match self {
            NetState::Failed(e) => Some(e),
            _ => None,
        }
    }

    /// The two interfaces as the configurator leaves them, loopback first.
    /// There are none before the network is ready.
    pub fn interfaces(&self) -> (found: Vec<InterfaceState>)
        ensures
            match self@ {
                NetStateView::Ready { lo, primary } => {
                    &&& found@.len() == 2
                    &&& found@[0]@ == loopback_interface(lo)
                    &&& found@[1]@ == primary_interface(primary)
                },
                _ => found@.len() == 0,
            },
    {
        let mut found: Vec<InterfaceState> = Vec::new();
        if let NetState::Ready { lo, primary } = self {
            found.push(
                InterfaceState {
                    link: Link::Loopback,
                    index: *lo,
                    up: true,
                    mtu: None,
                    addresses: Vec::new(),
                    routes: Vec::new(),
                },
            );
            let mut addresses: Vec<Assignment> = Vec::new();
            addresses.push(
                Assignment { address: guest_address(), prefix_len: PREFIX_LEN },
            );
            let mut routes: Vec<Ipv4Address> = Vec::new();
            routes.push(gateway());
            found.push(
                InterfaceState {
                    link: Link::Primary,
                    index: *primary,
                    up: true,
                    mtu: Some(PRIMARY_MTU),
                    addresses,
                    routes,
                },
            );
        }
        found
    }
}

/// A failure is final: no reply that arrives afterwards changes the state.
pub proof fn lemma_net_failure_is_final(s: NetStateView, replies: Seq<NetReplyView>)
    requires
        s is Failed,
    ensures
        s.run(replies) == s,
    decreases replies.len(),
{
    if replies.len() > 0 {
        lemma_net_failure_is_final(s, replies.drop_last());
    }
}

/// The requests are made in one fixed order: a reply either ends the
/// configuration in failure or leads to the request that comes next, never
/// back and never past one.
pub proof fn lemma_requests_in_order(s: NetStateView, reply: NetReplyView)
    requires
        s.pending() is Some,
    ensures
        s.advance(reply) is Failed || s.advance(reply).rank() == s.rank() + 1,
{
}

/// The address is assigned only to an interface that was set up: the
/// request to assign it becomes pending only by the success of the request
/// that sets the same interface up.
pub proof fn lemma_up_before_address(s: NetStateView, reply: NetReplyView)
    requires
        s.advance(reply).pending() matches Some(NetAction::AddAddress { .. }),
        !(s.pending() matches Some(NetAction::AddAddress { .. })),
    ensures
        reply is Done,
        s.pending() == Some(
            NetAction::SetLinkUp {
                index: s.advance(reply).pending()->0->AddAddress_index,
                mtu: Some(PRIMARY_MTU),
            },
        ),
{
}

/// An interface that cannot be resolved ends the configuration: whatever
/// the lookup reports other than the interface, the network has failed, with
/// an error about that interface.
pub proof fn lemma_unresolved_link_fails(s: NetStateView, reply: NetReplyView)
    requires
        s.pending() matches Some(NetAction::ResolveLink { .. }),
        !(reply is Link),
    ensures
        s.advance(reply) == NetStateView::Failed(s.failure(s.cause_of(reply))),
        s.failure(s.cause_of(reply)).subject == s.pending()->0->ResolveLink_link.spec_name(),
        reply is Missing ==> s.cause_of(reply) == CauseView::NotFound,
{
}

} // verus!
