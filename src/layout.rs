use vstd::prelude::*;

verus! {

/// Bytes taken by the disconnect flag (an atomic boolean).
pub const DISCONNECT_FIELD_SIZE: usize = 1;

/// Bytes taken by the message length (an atomic unsigned 64-bit integer).
pub const LEN_FIELD_SIZE: usize = 8;

/// Bytes that the header takes after the two events.
pub const HEADER_FIELDS_SIZE: usize = 9;

/// Offset of the disconnect flag: right after the two events.
pub open spec fn disconnect_offset_of(server_event_len: nat, client_event_len: nat) -> nat {
    server_event_len + client_event_len
}

/// Offset of the message length: right after the disconnect flag.
pub open spec fn len_offset_of(server_event_len: nat, client_event_len: nat) -> nat {
    (disconnect_offset_of(server_event_len, client_event_len) + DISCONNECT_FIELD_SIZE) as nat
}

/// Offset of the payload: right after the message length.
pub open spec fn data_offset_of(server_event_len: nat, client_event_len: nat) -> nat {
    (len_offset_of(server_event_len, client_event_len) + LEN_FIELD_SIZE) as nat
}

/// Computes `(disconnect_offset, len_offset, data_offset)` from the sizes
/// that the two events occupy at the front of the region.
pub fn offsets(server_event_len: usize, client_event_len: usize) -> (r: (usize, usize, usize))
    requires
        server_event_len + client_event_len + HEADER_FIELDS_SIZE <= usize::MAX,
    ensures
        r.0 == disconnect_offset_of(server_event_len as nat, client_event_len as nat),
        r.1 == len_offset_of(server_event_len as nat, client_event_len as nat),
        r.2 == data_offset_of(server_event_len as nat, client_event_len as nat),
{
    let disconnect_offset = server_event_len + client_event_len;
    let len_offset = disconnect_offset + DISCONNECT_FIELD_SIZE;
    let data_offset = len_offset + LEN_FIELD_SIZE;
    (disconnect_offset, len_offset, data_offset)
}


/// Where the header fields and the payload sit in a region of `region_len`
/// bytes. Both ends derive it from the same event sizes, so both agree on it.
#[derive(Clone, Copy, Debug, PartialEq, Eq, Structural)]
pub struct Layout {
    pub disconnect_offset: usize,
    pub len_offset: usize,
    pub data_offset: usize,
    pub region_len: usize,
}

impl Layout {
    /// The fields follow one another and the header fits in the region.
    pub open spec fn wf(&self) -> bool {
        &&& self.len_offset == self.disconnect_offset + DISCONNECT_FIELD_SIZE
        &&& self.data_offset == self.len_offset + LEN_FIELD_SIZE
        &&& self.data_offset <= self.region_len
    }

    /// The layout that the given event sizes and region length produce.
    pub open spec fn describes(&self, server_event_len: nat, client_event_len: nat, region_len: nat) -> bool {
        &&& self.disconnect_offset == disconnect_offset_of(server_event_len, client_event_len)
        &&& self.len_offset == len_offset_of(server_event_len, client_event_len)
        &&& self.data_offset == data_offset_of(server_event_len, client_event_len)
        &&& self.region_len == region_len
    }

    /// Bytes available to the payload.
    pub open spec fn capacity(&self) -> nat {
        (self.region_len - self.data_offset) as nat
    }

    /// A message of `len` bytes can be written into the payload area.
    pub open spec fn fits(&self, len: nat) -> bool {
        len <= self.capacity()
    }

    /// A length read back from the header may be trusted: it is nonzero and
    /// below the payload capacity.
    pub open spec fn valid_len(&self, len: nat) -> bool {
        0 < len < self.capacity()
    }

    /// The region's bytes after `msg` was copied to the start of the payload
    /// area; every other byte is kept.
    pub open spec fn written(&self, bytes: Seq<u8>, msg: Seq<u8>) -> Seq<u8> {
        Seq::new(
            bytes.len(),
            |i: int|
                if self.data_offset <= i < self.data_offset + msg.len() {
                    msg[i - self.data_offset]
                } else {
                    bytes[i]
                },
        )
    }

    /// The first `len` bytes of the payload area.
    pub open spec fn payload(&self, bytes: Seq<u8>, len: nat) -> Seq<u8> {
        bytes.subrange(self.data_offset as int, self.data_offset + len)
    }

    /// Builds the layout for the given event sizes, or `None` where the
    /// header does not fit in `region_len` bytes.
    pub fn new(server_event_len: usize, client_event_len: usize, region_len: usize) -> (r: Option<
        Layout,
    >)
        ensures
            r is Some <==> server_event_len + client_event_len + HEADER_FIELDS_SIZE <= region_len,
            r matches Some(l) ==> l.wf() && l.describes(
                server_event_len as nat,
                client_event_len as nat,
                region_len as nat,
            ),
    {
        if server_event_len > region_len || client_event_len > region_len - server_event_len
            || HEADER_FIELDS_SIZE > region_len - server_event_len - client_event_len {
            return None;
        }
        let (disconnect_offset, len_offset, data_offset) = offsets(server_event_len, client_event_len);
        Some(Layout { disconnect_offset, len_offset, data_offset, region_len })
    }

    /// Bytes available to the payload.
    pub fn payload_capacity(&self) -> (r: usize)
        requires
            self.wf(),
        ensures
            r == self.capacity(),
    {
        self.region_len - self.data_offset
    }

    /// Whether a message of `len` bytes fits in the payload area.
    pub fn message_fits(&self, len: usize) -> (r: bool)
        requires
            self.wf(),
        ensures
            r == self.fits(len as nat),
    {
        len <= self.region_len - self.data_offset
    }

    /// Whether a length read back from the header is one a sender could have
    /// published: nonzero and below the payload capacity.
    pub fn is_valid_len(&self, len: u64) -> (r: bool)
        requires
            self.wf(),
        ensures
            r == self.valid_len(len as nat),
    {
        len != 0 && (len as u128) < ((self.region_len - self.data_offset) as u128)
    }

    /// Copies `msg` to the start of the payload area of `region`, leaving
    /// the events, the header fields and the rest of the payload untouched.
    pub fn write_payload(&self, region: &mut [u8], msg: &[u8])
        requires
            self.wf(),
            old(region)@.len() == self.region_len,
            self.fits(msg@.len()),
        ensures
            final(region)@ == self.written(old(region)@, msg@),
    {
        let ghost start = region@;
        let mut i: usize = 0;
        while i < msg.len()
            invariant
                self.wf(),
                self.fits(msg@.len()),
                start.len() == self.region_len,
                region@.len() == start.len(),
                i <= msg@.len(),
                forall|k: int|
                    0 <= k < region@.len() ==> region@[k] == if self.data_offset <= k < self.data_offset
                        + i {
                        msg@[k - self.data_offset]
                    } else {
                        start[k]
                    },
            decreases msg@.len() - i,
        {
            region[self.data_offset + i] = msg[i];
            i = i + 1;
        }
        assert(region@ =~= self.written(start, msg@));
    }

    /// Copies the first `len` bytes of the payload area out of `region`.
    pub fn read_payload(&self, region: &[u8], len: usize) -> (r: Vec<u8>)
        requires
            self.wf(),
            region@.len() == self.region_len,
            self.fits(len as nat),
        ensures
            r@ == self.payload(region@, len as nat),
    {
        let mut out: Vec<u8> = Vec::with_capacity(len);
        let mut i: usize = 0;
        while i < len
            invariant
                self.wf(),
                self.fits(len as nat),
                region@.len() == self.region_len,
                i <= len,
                out@ == region@.subrange(self.data_offset as int, self.data_offset + i),
            decreases len - i,
        {
            out.push(region[self.data_offset + i]);
            i = i + 1;
            assert(out@ =~= region@.subrange(self.data_offset as int, self.data_offset + i));
        }
        out
    }
}

} // verus!
