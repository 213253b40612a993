use crate::channel::{peer_of, ChannelError, Endpoint, Role, Teardown};
use vstd::prelude::*;

verus! {

/// What the two processes share: the state of each event, the disconnect
/// flag, the published length, and the region's bytes.
pub ghost struct SharedState {
    pub server_signaled: bool,
    pub client_signaled: bool,
    pub disconnect: bool,
    pub len: u64,
    pub bytes: Seq<u8>,
}

impl SharedState {
    /// Whether the event of `side` is signaled.
    pub open spec fn signaled(self, side: Role) -> bool {
        match side {
            Role::Server => self.server_signaled,
            Role::Client => self.client_signaled,
        }
    }

    /// The state after the event of `side` is set to Signaled.
    pub open spec fn raise(self, side: Role) -> SharedState {
        match side {
            Role::Server => SharedState { server_signaled: true, ..self },
            Role::Client => SharedState { client_signaled: true, ..self },
        }
    }

    /// The state after a wait on the event of `side` consumed its signal.
    pub open spec fn lower(self, side: Role) -> SharedState {
        match side {
            Role::Server => SharedState { server_signaled: false, ..self },
            Role::Client => SharedState { client_signaled: false, ..self },
        }
    }

    /// The state after `sender` sends `msg`: where it fits, the payload is
    /// written, then its length published, then the peer's event signaled
    /// (as `Endpoint::send` and `Endpoint::signal_event` direct); where it
    /// does not, nothing changes.
    pub open spec fn after_send(self, sender: Endpoint, msg: Seq<u8>) -> SharedState {
        if sender.layout.fits(msg.len()) {
            SharedState {
                bytes: sender.layout.written(self.bytes, msg),
                len: msg.len() as u64,
                ..self.raise(peer_of(sender.role))
            }
        } else {
            self
        }
    }

    /// What a wake-up of `receiver` delivers, as `Endpoint::receive` decides
    /// it: `Some(None)` for a disconnected peer, `Some(Some(m))` for a
    /// message, `None` for a corrupt length.
    pub open spec fn delivered(self, receiver: Endpoint) -> Option<Option<Seq<u8>>> {
        if self.disconnect {
            Some(None)
        } else if receiver.layout.valid_len(self.len as nat) {
            Some(Some(receiver.layout.payload(self.bytes, self.len as nat)))
        } else {
            None
        }
    }

    /// The state after `end` is torn down, as `Endpoint::teardown` directs:
    /// the client sets the flag and then signals the server; the server
    /// changes nothing.
    pub open spec fn after_teardown(self, end: Endpoint, disconnected: bool) -> SharedState {
        match Endpoint::teardown_spec(end.role, disconnected) {
            Teardown::Disconnect => SharedState { disconnect: true, ..self }.raise(Role::Server),
            _ => self,
        }
    }
}

/// A message that fits and is nonzero and below the payload capacity comes
/// out of the peer's receive exactly as it went in, when both ends derived
/// their layouts from the same event sizes and region length.
pub proof fn lemma_round_trip(
    sender: Endpoint,
    receiver: Endpoint,
    server_event_len: nat,
    client_event_len: nat,
    region_len: nat,
    st: SharedState,
    msg: Seq<u8>,
)
    requires
        sender.wf(),
        receiver.wf(),
        receiver.role == peer_of(sender.role),
        sender.layout.describes(server_event_len, client_event_len, region_len),
        receiver.layout.describes(server_event_len, client_event_len, region_len),
        st.bytes.len() == region_len,
        !st.disconnect,
        0 < msg.len() < sender.layout.capacity(),
    ensures
        st.after_send(sender, msg).signaled(receiver.role),
        st.after_send(sender, msg).delivered(receiver) == Some(Some(msg)),
{
    let after = st.after_send(sender, msg);
    assert(receiver.layout.payload(after.bytes, msg.len()) =~= msg);
}

/// Whatever the region held before a send (an older message, a stale or
/// corrupt length), a receive after that send delivers the same thing: what
/// the send wrote, never what was there before.
pub proof fn lemma_no_stale_read(
    sender: Endpoint,
    receiver: Endpoint,
    st1: SharedState,
    st2: SharedState,
    msg: Seq<u8>,
)
    requires
        sender.wf(),
        receiver.layout == sender.layout,
        st1.bytes.len() == sender.layout.region_len,
        st2.bytes.len() == sender.layout.region_len,
        st1.disconnect == st2.disconnect,
        sender.layout.fits(msg.len()),
    ensures
        st1.after_send(sender, msg).delivered(receiver) == st2.after_send(sender, msg).delivered(
            receiver,
        ),
{
    let a1 = st1.after_send(sender, msg);
    let a2 = st2.after_send(sender, msg);
    if !a1.disconnect && receiver.layout.valid_len(a1.len as nat) {
        assert(receiver.layout.payload(a1.bytes, msg.len()) =~= receiver.layout.payload(
            a2.bytes,
            msg.len(),
        ));
    }
}

/// After the client tore down, the server's event is signaled and its next
/// receive reports the disconnect without reading any payload, whatever the
/// region holds.
pub proof fn lemma_disconnect_before_read(
    client: Endpoint,
    server: Endpoint,
    st: SharedState,
    disconnected: bool,
)
    requires
        client.role == Role::Client,
        server.role == Role::Server,
    ensures
        st.after_teardown(client, disconnected).signaled(Role::Server),
        st.after_teardown(client, disconnected).delivered(server) == Some(None::<Seq<u8>>),
{
}

/// A message that does not fit changes nothing that the peer can observe:
/// no byte, no length, no signal.
pub proof fn lemma_oversize_changes_nothing(sender: Endpoint, st: SharedState, msg: Seq<u8>)
    requires
        !sender.layout.fits(msg.len()),
    ensures
        st.after_send(sender, msg) == st,
{
}

/// Two sends with no receive between them leave only the second message
/// observable, whatever the first was and whoever sent it.
pub proof fn lemma_last_write_wins(
    first: Endpoint,
    second: Endpoint,
    receiver: Endpoint,
    st: SharedState,
    m1: Seq<u8>,
    m2: Seq<u8>,
)
    requires
        first.wf(),
        first.layout == second.layout,
        receiver.layout == second.layout,
        st.bytes.len() == first.layout.region_len,
        !st.disconnect,
        first.layout.fits(m1.len()),
        0 < m2.len() < second.layout.capacity(),
    ensures
        st.after_send(first, m1).after_send(second, m2).delivered(receiver) == Some(Some(m2)),
{
    let mid = st.after_send(first, m1);
    let end = mid.after_send(second, m2);
    assert(receiver.layout.payload(end.bytes, m2.len()) =~= m2);
}

/// Tearing down the client sets the disconnect flag and signals the server's
/// event, so a server blocked in its wait wakes at once and sees the flag.
/// Tearing down the server changes nothing and never signals the client.
pub proof fn lemma_teardown_wakes_server(end: Endpoint, st: SharedState, disconnected: bool)
    ensures
        end.role == Role::Client ==> st.after_teardown(end, disconnected).disconnect
            && st.after_teardown(end, disconnected).signaled(Role::Server),
        end.role == Role::Server ==> st.after_teardown(end, disconnected) == st,
{
}


/// A successful `send` followed by the length store and the signal that it
/// directs produces exactly `after_send`: the bytes it wrote, the length it
/// returned, and the peer's event raised.
pub proof fn lemma_send_matches_model(
    sender: Endpoint,
    st: SharedState,
    msg: Seq<u8>,
    after: Seq<u8>,
    r: Result<u64, ChannelError>,
)
    requires
        sender.send_ensures(st.bytes, after, msg, r),
    ensures
        r matches Ok(n) ==> st.after_send(sender, msg) == (SharedState {
            bytes: after,
            len: n,
            ..st.raise(peer_of(sender.role))
        }),
        r is Err ==> st.after_send(sender, msg) == st && after == st.bytes,
{
}

/// `receive`, handed the flag, the length and the bytes of a state, returns
/// what that state delivers: `Ok(None)` for a disconnect, the payload for a
/// valid length, a protocol violation otherwise.
pub proof fn lemma_receive_matches_model(
    receiver: Endpoint,
    st: SharedState,
    r: Result<Option<Vec<u8>>, ChannelError>,
)
    requires
        receiver.receive_ensures(st.disconnect, st.len, st.bytes, r),
    ensures
        st.delivered(receiver) == Some(None::<Seq<u8>>) ==> r == Ok::<
            Option<Vec<u8>>,
            ChannelError,
        >(None),
        st.delivered(receiver) is None ==> r == Err::<Option<Vec<u8>>, ChannelError>(
            ChannelError::ProtocolViolation,
        ),
        forall|m: Seq<u8>|
            st.delivered(receiver) == Some(Some(m)) ==> (r matches Ok(Some(v)) && v@ == m),
{
}

} // verus!
