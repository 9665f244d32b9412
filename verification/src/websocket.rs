//! Realtime WebSocket channels: which channels a user is subscribed to, their
//! Redis pub/sub names, the registry of connected clients, and how incoming
//! frames and client messages are handled.
use std::collections::HashMap;
use vstd::prelude::*;
use vstd::string::StringExecFns;

use crate::rbac::UserContext;
use crate::text::{int_decimal, lemma_int_decimal_injective, lemma_prefix_cancel, owned, push_i64_decimal, str_eq};

verus! {

/// WebSocket channels based on user roles.
#[derive(Debug, Clone, Copy, PartialEq, Eq, Hash, Structural)]
pub enum WsChannel {
    CustomerUpdates(i64),
    BranchAlerts(i64),
    NocAlerts,
    NocDevices,
    NocSessions,
    NocDiscovery,
    AdminMetrics,
}

/// Redis pub/sub channel name of each WebSocket channel.
pub open spec fn redis_channel_of(c: WsChannel) -> Seq<char> {
    match c {
        WsChannel::CustomerUpdates(id) => "ws:customer:"@ + int_decimal(id as int),
        WsChannel::BranchAlerts(id) => "ws:branch:"@ + int_decimal(id as int),
        WsChannel::NocAlerts => "ws:noc:alerts"@,
        WsChannel::NocDevices => "ws:noc:devices"@,
        WsChannel::NocSessions => "ws:noc:sessions"@,
        WsChannel::NocDiscovery => "ws:noc:discovery"@,
        WsChannel::AdminMetrics => "ws:admin:metrics"@,
    }
}

impl WsChannel {
    pub fn to_redis_channel(&self) -> (name: String)
        ensures
            name@ == redis_channel_of(*self),
    {
        match self {
            WsChannel::CustomerUpdates(id) => {
                let mut s = owned("ws:customer:");
                push_i64_decimal(&mut s, *id);
                s
            },
            WsChannel::BranchAlerts(id) => {
                let mut s = owned("ws:branch:");
                push_i64_decimal(&mut s, *id);
                s
            },
            WsChannel::NocAlerts => owned("ws:noc:alerts"),
            WsChannel::NocDevices => owned("ws:noc:devices"),
            WsChannel::NocSessions => owned("ws:noc:sessions"),
            WsChannel::NocDiscovery => owned("ws:noc:discovery"),
            WsChannel::AdminMetrics => owned("ws:admin:metrics"),
        }
    }
}

/// Channels that a role is subscribed to, besides its branch's alerts.
pub open spec fn role_channels(role: Seq<char>) -> Seq<WsChannel> {
    if role == "super_admin"@ || role == "isp_owner"@ {
        seq![
            WsChannel::AdminMetrics,
            WsChannel::NocAlerts,
            WsChannel::NocDevices,
            WsChannel::NocSessions,
            WsChannel::NocDiscovery,
        ]
    } else if role == "noc_engineer"@ || role == "network_admin"@ {
        seq![WsChannel::NocAlerts, WsChannel::NocDevices, WsChannel::NocSessions, WsChannel::NocDiscovery]
    } else if role == "finance_manager"@ || role == "billing_admin"@ {
        seq![WsChannel::AdminMetrics]
    } else {
        Seq::empty()
    }
}

/// All channels of a user: their branch's alerts (if they belong to a branch),
/// then the channels of their role.
pub open spec fn channels_of(user: UserContext) -> Seq<WsChannel> {
    let branch = match user.branch_id {
        Some(b) => seq![WsChannel::BranchAlerts(b)],
        None => Seq::<WsChannel>::empty(),
    };
    branch + role_channels(user.role@)
}

/// Resolve channels based on user role and branch.
pub fn resolve_channels(user: &UserContext) -> (channels: Vec<WsChannel>)
    ensures
        channels@ == channels_of(*user),
{
    let mut channels: Vec<WsChannel> = Vec::new();
    if let Some(branch_id) = user.branch_id {
        channels.push(WsChannel::BranchAlerts(branch_id));
    }
    let ghost branch = channels@;
    let role = user.role.as_str();
    if str_eq(role, "super_admin") || str_eq(role, "isp_owner") {
        channels.push(WsChannel::AdminMetrics);
        channels.push(WsChannel::NocAlerts);
        channels.push(WsChannel::NocDevices);
        channels.push(WsChannel::NocSessions);
        channels.push(WsChannel::NocDiscovery);
    } else if str_eq(role, "noc_engineer") || str_eq(role, "network_admin") {
        channels.push(WsChannel::NocAlerts);
        channels.push(WsChannel::NocDevices);
        channels.push(WsChannel::NocSessions);
        channels.push(WsChannel::NocDiscovery);
    } else if str_eq(role, "finance_manager") || str_eq(role, "billing_admin") {
        channels.push(WsChannel::AdminMetrics);
    }
    assert(channels@ =~= branch + role_channels(user.role@));
    channels
}

/// The Redis channel names a user's socket listens on, in channel order.
pub fn channel_names(user: &UserContext) -> (names: Vec<String>)
    ensures
        names@.len() == channels_of(*user).len(),
        forall|i: int| 0 <= i < names@.len() ==> #[trigger] names@[i]@ == redis_channel_of(channels_of(*user)[i]),
{
    let channels = resolve_channels(user);
    let mut names: Vec<String> = Vec::new();
    let mut i: usize = 0;
    while i < channels.len()
        invariant
            channels@ == channels_of(*user),
            i <= channels@.len(),
            names@.len() == i,
            forall|j: int| 0 <= j < i ==> #[trigger] names@[j]@ == redis_channel_of(channels@[j]),
        decreases channels.len() - i,
    {
        names.push(channels[i].to_redis_channel());
        i = i + 1;
    }
    names
}

/// A user only ever receives the alerts of their own branch, and never a
/// customer's update channel.
pub proof fn law_channels_stay_in_scope(user: UserContext, c: WsChannel)
    requires
        channels_of(user).contains(c),
    ensures
        c matches WsChannel::BranchAlerts(b) ==> user.branch_id == Some(b),
        !(c is CustomerUpdates),
{
    let branch = match user.branch_id {
        Some(b) => seq![WsChannel::BranchAlerts(b)],
        None => Seq::<WsChannel>::empty(),
    };
    let i = choose|i: int| 0 <= i < channels_of(user).len() && channels_of(user)[i] == c;
    if i >= branch.len() {
        assert(channels_of(user)[i] == role_channels(user.role@)[i - branch.len()]);
    }
}

/// Distinct channels publish to distinct Redis channels.
pub proof fn law_redis_channels_distinct(a: WsChannel, b: WsChannel)
    requires
        redis_channel_of(a) == redis_channel_of(b),
    ensures
        a == b,
{
    reveal_strlit("ws:customer:");
    reveal_strlit("ws:branch:");
    reveal_strlit("ws:noc:alerts");
    reveal_strlit("ws:noc:devices");
    reveal_strlit("ws:noc:sessions");
    reveal_strlit("ws:noc:discovery");
    reveal_strlit("ws:admin:metrics");
    let ra = redis_channel_of(a);
    let rb = redis_channel_of(b);
    assert(ra[3] == rb[3]);
    assert(ra.len() == rb.len());
    match a {
        WsChannel::CustomerUpdates(x) => {
            if let WsChannel::CustomerUpdates(y) = b {
                lemma_prefix_cancel("ws:customer:"@, int_decimal(x as int), int_decimal(y as int));
                lemma_int_decimal_injective(x as int, y as int);
            } else {
                assert(ra[4] == rb[4]);
            }
        },
        WsChannel::BranchAlerts(x) => {
            if let WsChannel::BranchAlerts(y) = b {
                lemma_prefix_cancel("ws:branch:"@, int_decimal(x as int), int_decimal(y as int));
                lemma_int_decimal_injective(x as int, y as int);
            } else {
                assert(ra[4] == rb[4]);
            }
        },
        _ => {
            assert(ra[4] == rb[4]);
            assert(ra[7] == rb[7]);
            assert(ra[8] == rb[8]);
        },
    }
}

/// Kind of a message a client sends, by its `msg_type`.
#[derive(Debug, Clone, Copy, PartialEq, Eq, Structural)]
pub enum ClientMessageKind {
    Ping,
    Subscribe,
    Unsubscribe,
    Unknown,
}

/// Kind of a client message with this `msg_type`.
pub fn classify_client_message(msg_type: &str) -> (k: ClientMessageKind)
    ensures
        msg_type@ == "ping"@ ==> k == ClientMessageKind::Ping,
        msg_type@ == "subscribe"@ ==> k == ClientMessageKind::Subscribe,
        msg_type@ == "unsubscribe"@ ==> k == ClientMessageKind::Unsubscribe,
        !(msg_type@ == "ping"@ || msg_type@ == "subscribe"@ || msg_type@ == "unsubscribe"@)
            ==> k == ClientMessageKind::Unknown,
{
    proof {
        reveal_strlit("ping");
        reveal_strlit("subscribe");
        reveal_strlit("unsubscribe");
        assert("ping"@.len() != "subscribe"@.len());
        assert("ping"@.len() != "unsubscribe"@.len());
        assert("subscribe"@.len() != "unsubscribe"@.len());
    }
    if str_eq(msg_type, "ping") {
        ClientMessageKind::Ping
    } else if str_eq(msg_type, "subscribe") {
        ClientMessageKind::Subscribe
    } else if str_eq(msg_type, "unsubscribe") {
        ClientMessageKind::Unsubscribe
    } else {
        ClientMessageKind::Unknown
    }
}

/// A frame received on a client's socket.
#[derive(Debug, Clone, Copy, PartialEq, Eq, Structural)]
pub enum IncomingFrame {
    Text,
    Ping,
    Close,
    Other,
}

/// What the socket loop does with a frame.
#[derive(Debug, Clone, Copy, PartialEq, Eq, Structural)]
pub enum FrameAction {
    /// Parse and handle the client's message.
    HandleMessage,
    /// Answer with a Pong carrying the Ping's data.
    ReplyPong,
    /// The client left: stop the loop.
    Disconnect,
    /// Nothing to do.
    Ignore,
}

/// What the socket loop does with a frame.
pub fn frame_action(frame: IncomingFrame) -> (a: FrameAction)
    ensures
        a == match frame {
            IncomingFrame::Text => FrameAction::HandleMessage,
            IncomingFrame::Ping => FrameAction::ReplyPong,
            IncomingFrame::Close => FrameAction::Disconnect,
            IncomingFrame::Other => FrameAction::Ignore,
        },
{
    match frame {
        IncomingFrame::Text => FrameAction::HandleMessage,
        IncomingFrame::Ping => FrameAction::ReplyPong,
        IncomingFrame::Close => FrameAction::Disconnect,
        IncomingFrame::Other => FrameAction::Ignore,
    }
}

/// The message a socket receives when it connects.
pub struct Welcome {
    pub msg_type: String,
    pub channel: String,
    pub user_id: i64,
    pub channels: Vec<String>,
    pub message: String,
}

/// The welcome message for a user: type `connected` on the `system` channel,
/// listing the Redis names of the user's channels.
pub fn welcome(user: &UserContext) -> (w: Welcome)
    ensures
        w.msg_type@ == "connected"@,
        w.channel@ == "system"@,
        w.user_id == user.user_id,
        w.message@ == "Connected to AeroXe realtime"@,
        w.channels@.len() == channels_of(*user).len(),
        forall|i: int| 0 <= i < w.channels@.len() ==> #[trigger] w.channels@[i]@ == redis_channel_of(channels_of(*user)[i]),
{
    Welcome {
        msg_type: owned("connected"),
        channel: owned("system"),
        user_id: user.user_id,
        channels: channel_names(user),
        message: owned("Connected to AeroXe realtime"),
    }
}

/// Connected client information.
#[derive(Debug, Clone)]
pub struct ConnectedClient {
    pub user_id: i64,
    pub role: String,
    pub branch_id: Option<i64>,
    pub channels: Vec<WsChannel>,
}

/// Number of connections held in a registry: the sum, over users, of their
/// connections.
pub open spec fn total_connections(m: Map<i64, Seq<ConnectedClient>>) -> nat
    decreases m.dom().len(),
    when m.dom().finite()
{
    if m.dom().len() == 0 {
        0
    } else {
        let k = m.dom().choose();
        m[k].len() + total_connections(m.remove(k))
    }
}

/// The connections of `user_id` after one more is added.
pub open spec fn with_connection(
    m: Map<i64, Seq<ConnectedClient>>,
    user_id: i64,
    client: ConnectedClient,
) -> Map<i64, Seq<ConnectedClient>> {
    let current = if m.contains_key(user_id) { m[user_id] } else { Seq::empty() };
    m.insert(user_id, current.push(client))
}

/// The total counts any one user's connections plus everyone else's.
pub proof fn lemma_total_split(m: Map<i64, Seq<ConnectedClient>>, k: i64)
    requires
        m.dom().finite(),
        m.contains_key(k),
    ensures
        total_connections(m) == m[k].len() + total_connections(m.remove(k)),
    decreases m.dom().len(),
{
    let c = m.dom().choose();
    if c != k {
        let mc = m.remove(c);
        let mk = m.remove(k);
        lemma_total_split(mc, k);
        lemma_total_split(mk, c);
        assert(mc.remove(k) =~= mk.remove(c));
    }
}

/// Adding a connection counts one more.
pub proof fn lemma_total_add(m: Map<i64, Seq<ConnectedClient>>, user_id: i64, client: ConnectedClient)
    requires
        m.dom().finite(),
    ensures
        total_connections(with_connection(m, user_id, client)) == total_connections(m) + 1,
{
    let after = with_connection(m, user_id, client);
    lemma_total_split(after, user_id);
    assert(after.remove(user_id) =~= m.remove(user_id));
    if m.contains_key(user_id) {
        lemma_total_split(m, user_id);
    } else {
        assert(m.remove(user_id) =~= m);
    }
}

/// Adding a connection counts one more; removing a user drops exactly that
/// user's connections from the count and leaves every other user's as they
/// were.
pub proof fn law_connection_registry(m: Map<i64, Seq<ConnectedClient>>, user_id: i64, client: ConnectedClient, other: i64)
    requires
        m.dom().finite(),
        other != user_id,
    ensures
        total_connections(with_connection(m, user_id, client)) == total_connections(m) + 1,
        m.contains_key(user_id) ==> total_connections(m.remove(user_id)) + m[user_id].len() == total_connections(m),
        !m.contains_key(user_id) ==> total_connections(m.remove(user_id)) == total_connections(m),
        !m.remove(user_id).contains_key(user_id),
        m.contains_key(other) ==> m.remove(user_id)[other] == m[other],
{
    lemma_total_add(m, user_id, client);
    if m.contains_key(user_id) {
        lemma_total_split(m, user_id);
    } else {
        assert(m.remove(user_id) =~= m);
    }
}

/// Registry of active WebSocket connections, keyed by user id. A user may
/// hold several connections at once.
pub struct ConnectionManager {
    connections: HashMap<i64, Vec<ConnectedClient>>,
    count: usize,
}

impl View for ConnectionManager {
    type V = Map<i64, Seq<ConnectedClient>>;

    closed spec fn view(&self) -> Map<i64, Seq<ConnectedClient>> {
        self.connections@.map_values(|v: Vec<ConnectedClient>| v@)
    }
}

impl ConnectionManager {
    #[verifier::type_invariant]
    closed spec fn counts_all(&self) -> bool {
        &&& self@.dom().finite()
        &&& self.count as nat == total_connections(self@)
    }

    pub fn new() -> (m: Self)
        ensures
            m@ == Map::<i64, Seq<ConnectedClient>>::empty(),
    {
        broadcast use vstd::std_specs::hash::group_hash_axioms;
        let connections: HashMap<i64, Vec<ConnectedClient>> = HashMap::new();
        proof {
            let empty = Map::<i64, Seq<ConnectedClient>>::empty();
            assert(connections@.map_values(|v: Vec<ConnectedClient>| v@) =~= empty);
            assert(empty.dom() =~= Set::<i64>::empty());
            assert(total_connections(empty) == 0);
        }
        ConnectionManager { connections, count: 0 }
    }

    /// Register one more connection of `user_id`.
    pub fn add_client(&mut self, user_id: i64, client: ConnectedClient)
        requires
            total_connections(old(self)@) < usize::MAX,
        ensures
            final(self)@ == with_connection(old(self)@, user_id, client),
    {
        broadcast use vstd::std_specs::hash::group_hash_axioms;
        let mut taken = ConnectionManager::new();
        std::mem::swap(self, &mut taken);
        proof {
            use_type_invariant(&taken);
        }
        let ghost before = taken@;
        let ConnectionManager { mut connections, count } = taken;
        let mut list = match connections.remove(&user_id) {
            Some(v) => v,
            None => Vec::new(),
        };
        let ghost current = list@;
        list.push(client);
        connections.insert(user_id, list);
        proof {
            if before.contains_key(user_id) {
                assert(current == before[user_id]);
            } else {
                assert(current =~= Seq::<ConnectedClient>::empty());
            }
            assert(connections@.map_values(|v: Vec<ConnectedClient>| v@) =~= with_connection(before, user_id, client));
            lemma_total_add(before, user_id, client);
        }
        *self = ConnectionManager { connections, count: count + 1 };
    }

    /// Drop every connection of `user_id`; the others stay.
    pub fn remove_client(&mut self, user_id: i64)
        ensures
            final(self)@ == old(self)@.remove(user_id),
    {
        broadcast use vstd::std_specs::hash::group_hash_axioms;
        let mut taken = ConnectionManager::new();
        std::mem::swap(self, &mut taken);
        proof {
            use_type_invariant(&taken);
        }
        let ghost before = taken@;
        let ConnectionManager { mut connections, count } = taken;
        let removed = connections.remove(&user_id);
        proof {
            assert(connections@.map_values(|v: Vec<ConnectedClient>| v@) =~= before.remove(user_id));
        }
        let remaining = match removed {
            Some(v) => {
                proof {
                    lemma_total_split(before, user_id);
                    assert(v@ == before[user_id]);
                }
                count - v.len()
            },
            None => {
                proof {
                    assert(before.remove(user_id) =~= before);
                }
                count
            },
        };
        *self = ConnectionManager { connections, count: remaining };
    }

    /// Total number of active connections.
    pub fn get_connection_count(&self) -> (n: usize)
        ensures
            n as nat == total_connections(self@),
    {
        proof {
            use_type_invariant(self);
        }
        self.count
    }
}

impl Default for ConnectionManager {
    fn default() -> (m: Self)
        ensures
            m@ == Map::<i64, Seq<ConnectedClient>>::empty(),
    {
        Self::new()
    }
}

/// Which channels each role listens on, besides its branch's alerts: ISP
/// owners and super admins get the admin metrics and the four NOC channels,
/// NOC engineers and network admins the four NOC channels, finance managers
/// and billing admins the admin metrics, and every other role none.
pub proof fn law_role_channels(role: Seq<char>)
    ensures
        (role == "super_admin"@ || role == "isp_owner"@) ==> role_channels(role) == seq![
            WsChannel::AdminMetrics,
            WsChannel::NocAlerts,
            WsChannel::NocDevices,
            WsChannel::NocSessions,
            WsChannel::NocDiscovery,
        ],
        (role == "noc_engineer"@ || role == "network_admin"@) ==> role_channels(role) == seq![
            WsChannel::NocAlerts,
            WsChannel::NocDevices,
            WsChannel::NocSessions,
            WsChannel::NocDiscovery,
        ],
        (role == "finance_manager"@ || role == "billing_admin"@) ==> role_channels(role) == seq![
            WsChannel::AdminMetrics,
        ],
        !(role == "super_admin"@ || role == "isp_owner"@ || role == "noc_engineer"@ || role == "network_admin"@
            || role == "finance_manager"@ || role == "billing_admin"@) ==> role_channels(role).len() == 0,
{
    reveal_strlit("super_admin");
    reveal_strlit("isp_owner");
    reveal_strlit("noc_engineer");
    reveal_strlit("network_admin");
    reveal_strlit("finance_manager");
    reveal_strlit("billing_admin");
    assert("noc_engineer"@[0] != "super_admin"@[0] && "noc_engineer"@[0] != "isp_owner"@[0]);
    assert("network_admin"@[0] != "super_admin"@[0] && "network_admin"@[0] != "isp_owner"@[0]);
    assert("finance_manager"@[0] != "super_admin"@[0] && "finance_manager"@[0] != "isp_owner"@[0]);
    assert("finance_manager"@[0] != "noc_engineer"@[0] && "finance_manager"@[0] != "network_admin"@[0]);
    assert("billing_admin"@[0] != "super_admin"@[0] && "billing_admin"@[0] != "isp_owner"@[0]);
    assert("billing_admin"@[0] != "noc_engineer"@[0] && "billing_admin"@[0] != "network_admin"@[0]);
}

/// The Redis pub/sub name of every channel: `ws:customer:<id>`,
/// `ws:branch:<id>`, and the fixed NOC and admin names.
pub proof fn law_redis_channel_names(id: i64)
    ensures
        redis_channel_of(WsChannel::CustomerUpdates(id)) == "ws:customer:"@ + int_decimal(id as int),
        redis_channel_of(WsChannel::BranchAlerts(id)) == "ws:branch:"@ + int_decimal(id as int),
        redis_channel_of(WsChannel::NocAlerts) == "ws:noc:alerts"@,
        redis_channel_of(WsChannel::NocDevices) == "ws:noc:devices"@,
        redis_channel_of(WsChannel::NocSessions) == "ws:noc:sessions"@,
        redis_channel_of(WsChannel::NocDiscovery) == "ws:noc:discovery"@,
        redis_channel_of(WsChannel::AdminMetrics) == "ws:admin:metrics"@,
{
}

} // verus!
