use crate::layout::Layout;
use shared_memory::Shmem;
use vstd::prelude::*;

verus! {

/// Which end of the channel this is. The server initialises the region; the
/// client attaches to it and is the only one to set the disconnect flag.
#[derive(Clone, Copy, Debug, PartialEq, Eq, Structural)]
pub enum Role {
    Server,
    Client,
}

/// The other end.
pub open spec fn peer_of(role: Role) -> Role {
    match role {
        Role::Server => Role::Client,
        Role::Client => Role::Server,
    }
}

/// Everything that can go wrong on the channel. A disconnected peer is not an
/// error: `receive` reports it as `Ok(None)`.
#[derive(Clone, Copy, Debug, PartialEq, Eq, Structural)]
pub enum ChannelError {
    /// The server could not create or clear an event.
    InitFailed,
    /// The client could not open the events found in the region.
    OpenFailed,
    /// The events and the header do not fit in the region.
    RegionTooSmall,
    /// The value could not be encoded.
    EncodeFailed,
    /// The payload could not be decoded.
    DecodeFailed,
    /// The encoded value is larger than the payload area.
    MessageTooLarge,
    /// No signal came before the deadline.
    Timeout,
    /// Waiting on the event failed for another reason.
    WaitFailed,
    /// Signalling the peer's event failed.
    SignalFailed,
    /// The length found in the header is zero or does not fit in the payload
    /// area: the region is corrupt or the two ends disagree on its layout.
    ProtocolViolation,
}

/// What an end does when it is torn down.
#[derive(Clone, Copy, Debug, PartialEq, Eq, Structural)]
pub enum Teardown {
    /// Server after the client disconnected: nothing to do but log it.
    CleanClose,
    /// Server while the client is still attached: log a warning; the client
    /// is not signalled.
    ClosedBeforeDisconnect,
    /// Client: store `true` in the disconnect flag with release ordering, then
    /// signal the server's event.
    Disconnect,
}

/// The error that a failed wait stands for: a wait with a deadline fails by
/// timing out.
pub fn wait_failure(with_timeout: bool) -> (r: ChannelError)
    ensures
        r == (if with_timeout {
            ChannelError::Timeout
        } else {
            ChannelError::WaitFailed
        }),
{
    if with_timeout {
        ChannelError::Timeout
    } else {
        ChannelError::WaitFailed
    }
}

/// One end of the channel, apart from the memory it runs on: its role and the
/// layout of the region.
#[derive(Clone, Copy, Debug, PartialEq, Eq, Structural)]
pub struct Endpoint {
    pub role: Role,
    pub layout: Layout,
}

impl Endpoint {
    pub open spec fn wf(&self) -> bool {
        self.layout.wf()
    }

    /// What `send` promises, given the region's bytes before and after.
    pub open spec fn send_ensures(
        &self,
        before: Seq<u8>,
        after: Seq<u8>,
        msg: Seq<u8>,
        r: Result<u64, ChannelError>,
    ) -> bool {
        &&& r is Ok <==> self.layout.fits(msg.len())
        &&& (r matches Ok(n) ==> n == msg.len() && after == self.layout.written(before, msg))
        &&& (r matches Err(e) ==> e == ChannelError::MessageTooLarge && after == before)
    }

    /// What `receive` returns, given the disconnect flag and the length that
    /// were loaded after the wake-up, and the region's bytes.
    pub open spec fn receive_ensures(
        &self,
        disconnected: bool,
        len: u64,
        bytes: Seq<u8>,
        r: Result<Option<Vec<u8>>, ChannelError>,
    ) -> bool {
        &&& disconnected ==> r == Ok::<Option<Vec<u8>>, ChannelError>(None)
        &&& !disconnected && !self.layout.valid_len(len as nat) ==> r == Err::<
            Option<Vec<u8>>,
            ChannelError,
        >(ChannelError::ProtocolViolation)
        &&& !disconnected && self.layout.valid_len(len as nat) ==> (r matches Ok(Some(v)) && v@
            == self.layout.payload(bytes, len as nat))
    }

    /// What an end of `role` does on teardown, given the disconnect flag.
    pub open spec fn teardown_spec(role: Role, disconnected: bool) -> Teardown {
        match role {
            Role::Client => Teardown::Disconnect,
            Role::Server => if disconnected {
                Teardown::CleanClose
            } else {
                Teardown::ClosedBeforeDisconnect
            },
        }
    }

    fn with_role(
        role: Role,
        server_event_len: usize,
        client_event_len: usize,
        region_len: usize,
    ) -> (r: Result<Endpoint, ChannelError>)
        ensures
            r is Ok <==> server_event_len + client_event_len + crate::layout::HEADER_FIELDS_SIZE
                <= region_len,
            r matches Ok(e) ==> e.wf() && e.role == role && e.layout.describes(
                server_event_len as nat,
                client_event_len as nat,
                region_len as nat,
            ),
            r matches Err(e) ==> e == ChannelError::RegionTooSmall,
    {
        match Layout::new(server_event_len, client_event_len, region_len) {
            Some(layout) => Ok(Endpoint { role, layout }),
            None => Err(ChannelError::RegionTooSmall),
        }
    }

    /// The server's end of a region of `region_len` bytes whose two events
    /// take the given sizes.
    pub fn server(server_event_len: usize, client_event_len: usize, region_len: usize) -> (r:
        Result<Endpoint, ChannelError>)
        ensures
            r is Ok <==> server_event_len + client_event_len + crate::layout::HEADER_FIELDS_SIZE
                <= region_len,
            r matches Ok(e) ==> e.wf() && e.role == Role::Server && e.layout.describes(
                server_event_len as nat,
                client_event_len as nat,
                region_len as nat,
            ),
            r matches Err(e) ==> e == ChannelError::RegionTooSmall,
    {
        Endpoint::with_role(Role::Server, server_event_len, client_event_len, region_len)
    }

    /// The client's end of a region of `region_len` bytes whose two events
    /// take the given sizes.
    pub fn client(server_event_len: usize, client_event_len: usize, region_len: usize) -> (r:
        Result<Endpoint, ChannelError>)
        ensures
            r is Ok <==> server_event_len + client_event_len + crate::layout::HEADER_FIELDS_SIZE
                <= region_len,
            r matches Ok(e) ==> e.wf() && e.role == Role::Client && e.layout.describes(
                server_event_len as nat,
                client_event_len as nat,
                region_len as nat,
            ),
            r matches Err(e) ==> e == ChannelError::RegionTooSmall,
    {
        Endpoint::with_role(Role::Client, server_event_len, client_event_len, region_len)
    }

    /// The event this end waits on: its own.
    pub fn wait_event(&self) -> (r: Role)
        ensures
            r == self.role,
    {
        self.role
    }

    /// The event this end signals after a send: the peer's.
    pub fn signal_event(&self) -> (r: Role)
        ensures
            r == peer_of(self.role),
    {
        match self.role {
            Role::Server => Role::Client,
            Role::Client => Role::Server,
        }
    }

    /// Writes an encoded message into the payload area of `region` and
    /// returns the length to publish. The caller then stores that length at
    /// `layout.len_offset` with release ordering, and only after that signals
    /// `signal_event()`. A message that does not fit leaves `region` as it was.
    pub fn send(&self, region: &mut [u8], msg: &[u8]) -> (r: Result<u64, ChannelError>)
        requires
            self.wf(),
            old(region)@.len() == self.layout.region_len,
        ensures
            self.send_ensures(old(region)@, final(region)@, msg@, r),
    {
        if !self.layout.message_fits(msg.len()) {
            return Err(ChannelError::MessageTooLarge);
        }
        self.layout.write_payload(region, msg);
        Ok(msg.len() as u64)
    }

    /// Decides what a wake-up on `wait_event()` delivers. The caller loads the
    /// disconnect flag and then the length, both with acquire ordering, and
    /// hands them over with the region. A disconnect is reported before any
    /// payload is read; a corrupt length is refused before any is read.
    pub fn receive(&self, disconnected: bool, len: u64, region: &[u8]) -> (r: Result<
        Option<Vec<u8>>,
        ChannelError,
    >)
        requires
            self.wf(),
            region@.len() == self.layout.region_len,
        ensures
            self.receive_ensures(disconnected, len, region@, r),
    {
        if disconnected {
            return Ok(None);
        }
        if !self.layout.is_valid_len(len) {
            return Err(ChannelError::ProtocolViolation);
        }
        Ok(Some(self.layout.read_payload(region, len as usize)))
    }

    /// What this end does when it is torn down, given the disconnect flag
    /// loaded with acquire ordering (only the server looks at it).
    pub fn teardown(&self, disconnected: bool) -> (r: Teardown)
        ensures
            r == Endpoint::teardown_spec(self.role, disconnected),
    {
        match self.role {
            Role::Client => Teardown::Disconnect,
            Role::Server => if disconnected {
                Teardown::CleanClose
            } else {
                Teardown::ClosedBeforeDisconnect
            },
        }
    }
}


#[verifier::external_type_specification]
#[verifier::external_body]
pub struct ExShmem(Shmem);

/// The size in bytes of the mapping that `memory` holds.
pub uninterp spec fn mapping_len(memory: Shmem) -> usize;

/// Relies on shared_memory::Shmem::len, which returns the size of the mapping
/// recorded in the `Shmem` when it was created or opened.
pub assume_specification[ Shmem::len ](memory: &Shmem) -> (r: usize)
    ensures
        r == mapping_len(*memory),
;

/// One end of a channel over a shared memory mapping. The two events sit at
/// the front of the mapping and are handled by the caller, which also hands
/// `send` and `receive` the mapping's bytes as a slice.
pub struct ShmemChannel {
    memory: Shmem,
    endpoint: Endpoint,
}

impl ShmemChannel {
    /// The role and layout of this end.
    pub closed spec fn endpoint_spec(&self) -> Endpoint {
        self.endpoint
    }

    pub closed spec fn wf(&self) -> bool {
        self.endpoint.wf()
    }

    fn attach(role: Role, memory: Shmem, server_event_len: usize, client_event_len: usize) -> (r:
        Result<ShmemChannel, ChannelError>)
        ensures
            r is Ok <==> server_event_len + client_event_len + crate::layout::HEADER_FIELDS_SIZE
                <= mapping_len(memory),
            r matches Ok(c) ==> c.wf() && c.endpoint_spec().wf() && c.endpoint_spec().role == role
                && c.endpoint_spec().layout.describes(
                server_event_len as nat,
                client_event_len as nat,
                mapping_len(memory) as nat,
            ),
            r matches Err(e) ==> e == ChannelError::RegionTooSmall,
    {
        let region_len = memory.len();
        match Endpoint::with_role(role, server_event_len, client_event_len, region_len) {
            Ok(endpoint) => Ok(ShmemChannel { memory, endpoint }),
            Err(e) => Err(e),
        }
    }

    /// The server's end, once the caller has created both events at the
    /// front of `memory` (with the given sizes), cleared them, and stored
    /// `false` in the disconnect flag and `0` in the length. Fails where the
    /// header does not fit in the mapping.
    pub fn new_server(memory: Shmem, server_event_len: usize, client_event_len: usize) -> (r:
        Result<ShmemChannel, ChannelError>)
        ensures
            r is Ok <==> server_event_len + client_event_len + crate::layout::HEADER_FIELDS_SIZE
                <= mapping_len(memory),
            r matches Ok(c) ==> c.wf() && c.endpoint_spec().wf() && c.endpoint_spec().role == Role::Server
                && c.endpoint_spec().layout.describes(
                server_event_len as nat,
                client_event_len as nat,
                mapping_len(memory) as nat,
            ),
            r matches Err(e) ==> e == ChannelError::RegionTooSmall,
    {
        ShmemChannel::attach(Role::Server, memory, server_event_len, client_event_len)
    }

    /// The client's end, once the caller has opened both events that the
    /// server left at the front of `memory` (with the given sizes). The flag
    /// and the length are left as the server set them. Fails where the header
    /// does not fit in the mapping.
    pub fn new_client(memory: Shmem, server_event_len: usize, client_event_len: usize) -> (r:
        Result<ShmemChannel, ChannelError>)
        ensures
            r is Ok <==> server_event_len + client_event_len + crate::layout::HEADER_FIELDS_SIZE
                <= mapping_len(memory),
            r matches Ok(c) ==> c.wf() && c.endpoint_spec().wf() && c.endpoint_spec().role == Role::Client
                && c.endpoint_spec().layout.describes(
                server_event_len as nat,
                client_event_len as nat,
                mapping_len(memory) as nat,
            ),
            r matches Err(e) ==> e == ChannelError::RegionTooSmall,
    {
        ShmemChannel::attach(Role::Client, memory, server_event_len, client_event_len)
    }

    /// The role and layout of this end.
    pub fn endpoint(&self) -> (r: Endpoint)
        ensures
            r == self.endpoint_spec(),
    {
        self.endpoint
    }

    /// The mapping this end runs on.
    pub fn memory(&self) -> &Shmem {
        &self.memory
    }

    /// Writes `msg` into the payload area; see `Endpoint::send`.
    pub fn send(&self, region: &mut [u8], msg: &[u8]) -> (r: Result<u64, ChannelError>)
        requires
            self.wf(),
            old(region)@.len() == self.endpoint_spec().layout.region_len,
        ensures
            self.endpoint_spec().send_ensures(old(region)@, final(region)@, msg@, r),
    {
        self.endpoint.send(region, msg)
    }

    /// Decides what a wake-up delivers; see `Endpoint::receive`.
    pub fn receive(&self, disconnected: bool, len: u64, region: &[u8]) -> (r: Result<
        Option<Vec<u8>>,
        ChannelError,
    >)
        requires
            self.wf(),
            region@.len() == self.endpoint_spec().layout.region_len,
        ensures
            self.endpoint_spec().receive_ensures(disconnected, len, region@, r),
    {
        self.endpoint.receive(disconnected, len, region)
    }

    /// What this end does when it is torn down; see `Endpoint::teardown`.
    pub fn teardown(&self, disconnected: bool) -> (r: Teardown)
        ensures
            r == Endpoint::teardown_spec(self.endpoint_spec().role, disconnected),
    {
        self.endpoint.teardown(disconnected)
    }
}

} // verus!
