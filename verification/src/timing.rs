//! GPU timestamp readback: decoding the resolved query pair and the one-readback-at-a-time
//! protocol of the timestamp buffer.

use vstd::prelude::*;

verus! {

/// Number of timestamp queries written around one trace pass.
pub const QUERY_COUNT: u32 = 2;

/// Bytes of the resolved query pair.
pub const QUERY_BYTES: u64 = 16;

/// The size of one resolved query, `wgpu::QUERY_SIZE`, which wgpu-types defines as 8.
#[verifier::external_body]
fn query_size() -> (size: u32)
    ensures
        size == 8,
{
    wgpu::QUERY_SIZE
}

/// Bytes of the resolved timestamp pair: `QUERY_COUNT` queries of `wgpu::QUERY_SIZE` bytes.
pub fn query_bytes() -> (bytes: u64)
    ensures
        bytes == QUERY_BYTES,
{
    QUERY_COUNT as u64 * query_size() as u64
}

/// The beginning and end timestamps of one trace pass.
#[derive(Clone, Copy, Debug, PartialEq, Eq, Structural)]
pub struct QueryTicks {
    pub beginning: u64,
    pub end: u64,
}

/// The unsigned value of the eight little-endian bytes of `bytes` that start at `offset`.
pub open spec fn le_u64(bytes: Seq<u8>, offset: int) -> int {
    bytes[offset] + 256 * (bytes[offset + 1] + 256 * (bytes[offset + 2] + 256 * (bytes[offset + 3] + 256 * (
    bytes[offset + 4] + 256 * (bytes[offset + 5] + 256 * (bytes[offset + 6] + 256 * bytes[offset + 7]))))))
}

/// The eight little-endian bytes of `value`.
pub open spec fn le_bytes(value: u64) -> Seq<u8> {
    seq![
        (value & 0xff) as u8,
        ((value >> 8u64) & 0xff) as u8,
        ((value >> 16u64) & 0xff) as u8,
        ((value >> 24u64) & 0xff) as u8,
        ((value >> 32u64) & 0xff) as u8,
        ((value >> 40u64) & 0xff) as u8,
        ((value >> 48u64) & 0xff) as u8,
        ((value >> 56u64) & 0xff) as u8,
    ]
}

/// What a resolved readback holds: exactly two little-endian `u64` ticks, beginning first.
pub open spec fn decoded_ticks(bytes: Seq<u8>) -> Option<QueryTicks> {
    if bytes.len() == QUERY_BYTES {
        Some(QueryTicks { beginning: le_u64(bytes, 0) as u64, end: le_u64(bytes, 8) as u64 })
    } else {
        None
    }
}

fn read_le_u64(bytes: &[u8], offset: usize) -> (value: u64)
    requires
        offset + 8 <= bytes@.len(),
    ensures
        value == le_u64(bytes@, offset as int),
{
    let b0 = bytes[offset] as u64;
    let b1 = bytes[offset + 1] as u64;
    let b2 = bytes[offset + 2] as u64;
    let b3 = bytes[offset + 3] as u64;
    let b4 = bytes[offset + 4] as u64;
    let b5 = bytes[offset + 5] as u64;
    let b6 = bytes[offset + 6] as u64;
    let b7 = bytes[offset + 7] as u64;
    b0 + 256 * (b1 + 256 * (b2 + 256 * (b3 + 256 * (b4 + 256 * (b5 + 256 * (b6 + 256 * b7))))))
}

/// Decodes a resolved timestamp pair; `None` unless the readback is exactly two `u64` words.
pub fn decode_query_ticks(bytes: &[u8]) -> (ticks: Option<QueryTicks>)
    ensures
        ticks == decoded_ticks(bytes@),
{
    if bytes.len() != 16 {
        return None;
    }
    let beginning = read_le_u64(bytes, 0);
    let end = read_le_u64(bytes, 8);
    Some(QueryTicks { beginning, end })
}

/// The elapsed ticks of a pass; a clock that went backwards counts as zero.
pub fn elapsed_ticks(ticks: QueryTicks) -> (elapsed: u64)
    ensures
        elapsed == if ticks.end >= ticks.beginning { ticks.end - ticks.beginning } else { 0 },
{
    ticks.end.saturating_sub(ticks.beginning)
}

proof fn lemma_le_bytes_value(value: u64)
    ensures
        le_u64(le_bytes(value), 0) == value,
{
    let b = le_bytes(value);
    let x0 = value & 0xff;
    let x1 = (value >> 8u64) & 0xff;
    let x2 = (value >> 16u64) & 0xff;
    let x3 = (value >> 24u64) & 0xff;
    let x4 = (value >> 32u64) & 0xff;
    let x5 = (value >> 40u64) & 0xff;
    let x6 = (value >> 48u64) & 0xff;
    let x7 = (value >> 56u64) & 0xff;
    assert(x0 < 256 && x1 < 256 && x2 < 256 && x3 < 256 && x4 < 256 && x5 < 256 && x6 < 256 && x7 < 256)
        by (bit_vector)
        requires
            x0 == value & 0xff,
            x1 == (value >> 8u64) & 0xff,
            x2 == (value >> 16u64) & 0xff,
            x3 == (value >> 24u64) & 0xff,
            x4 == (value >> 32u64) & 0xff,
            x5 == (value >> 40u64) & 0xff,
            x6 == (value >> 48u64) & 0xff,
            x7 == (value >> 56u64) & 0xff,
    ;
    assert(b[0] == x0 && b[1] == x1 && b[2] == x2 && b[3] == x3 && b[4] == x4 && b[5] == x5 && b[6] == x6
        && b[7] == x7);
    assert(x0 + 256 * (x1 + 256 * (x2 + 256 * (x3 + 256 * (x4 + 256 * (x5 + 256 * (x6 + 256 * x7))))))
        == value) by (bit_vector)
        requires
            x0 == value & 0xff,
            x1 == (value >> 8u64) & 0xff,
            x2 == (value >> 16u64) & 0xff,
            x3 == (value >> 24u64) & 0xff,
            x4 == (value >> 32u64) & 0xff,
            x5 == (value >> 40u64) & 0xff,
            x6 == (value >> 48u64) & 0xff,
            x7 == (value >> 56u64) & 0xff,
    ;
}

/// Decoding the little-endian bytes of a timestamp pair gives the pair back.
pub proof fn law_timestamp_pair_roundtrips(beginning: u64, end: u64)
    ensures
        decoded_ticks(le_bytes(beginning) + le_bytes(end)) == Some(QueryTicks { beginning, end }),
{
    let bytes = le_bytes(beginning) + le_bytes(end);
    lemma_le_bytes_value(beginning);
    lemma_le_bytes_value(end);
    assert(bytes.subrange(0, 8) =~= le_bytes(beginning));
    assert(bytes.subrange(8, 16) =~= le_bytes(end));
    assert(le_u64(bytes, 0) == le_u64(le_bytes(beginning), 0));
    assert(le_u64(bytes, 8) == le_u64(le_bytes(end), 0));
}

/// Why a timestamp readback could not be started or finished.
#[derive(Clone, Copy, Debug, PartialEq, Eq, Structural)]
pub enum TimingError {
    ReadbackAlreadyPending,
    Poll,
    MapFailed,
    MappedRange,
    CallbackDisconnected,
    InvalidReadback,
}

/// What the map callback channel reported when the device was polled.
#[derive(Debug)]
pub enum ReadbackEvent {
    /// The buffer mapped; these are the bytes of its mapped range.
    Mapped(Vec<u8>),
    /// The buffer mapped but its range could not be borrowed.
    MappedRangeUnavailable,
    /// Mapping the buffer failed.
    MapFailed,
    /// The callback has not run yet.
    NotReady,
    /// The callback was dropped without reporting.
    Disconnected,
}

/// The outcome of one poll of a pending readback, given what the callback reported.
pub open spec fn readback_result<C>(context: C, event: ReadbackEvent) -> Result<Option<(C, QueryTicks)>, TimingError> {
    match event {
        ReadbackEvent::Mapped(bytes) => match decoded_ticks(bytes@) {
            Some(ticks) => Ok(Some((context, ticks))),
            None => Err(TimingError::InvalidReadback),
        },
        ReadbackEvent::MappedRangeUnavailable => Err(TimingError::MappedRange),
        ReadbackEvent::MapFailed => Err(TimingError::MapFailed),
        ReadbackEvent::NotReady => Ok(None),
        ReadbackEvent::Disconnected => Err(TimingError::CallbackDisconnected),
    }
}

/// One poll of the readback slot: the slot afterwards and what the poll reports. Nothing
/// pending reports nothing; a callback that has not run keeps the readback pending; any other
/// report consumes it.
pub open spec fn readback_poll<C>(pending: Option<C>, event: ReadbackEvent) -> (Option<C>, Result<
    Option<(C, QueryTicks)>,
    TimingError,
>) {
    match pending {
        None => (None, Ok(None)),
        Some(context) => (
            if event is NotReady { Some(context) } else { None },
            readback_result(context, event),
        ),
    }
}

/// A readback whose mapping failed reports the failure once and frees the slot, so the next
/// readback can be encoded and a later poll reports nothing more.
pub proof fn law_failed_mapping_frees_the_slot<C>(context: C, later: ReadbackEvent)
    ensures
        readback_poll(Some(context), ReadbackEvent::MapFailed) == (
            None::<C>,
            Err::<Option<(C, QueryTicks)>, TimingError>(TimingError::MapFailed),
        ),
        readback_poll(readback_poll(Some(context), ReadbackEvent::MapFailed).0, later) == (
            None::<C>,
            Ok::<Option<(C, QueryTicks)>, TimingError>(None),
        ),
{
}

/// The timestamp readback slot: at most one readback, tagged with its context, is in flight.
#[derive(Debug)]
pub struct TimestampReadback<C> {
    pending: Option<C>,
}

impl<C> View for TimestampReadback<C> {
    type V = Option<C>;

    closed spec fn view(&self) -> Option<C> {
        self.pending
    }
}

impl<C> TimestampReadback<C> {
    pub fn new() -> (slot: Self)
        ensures
            slot@ is None,
    {
        TimestampReadback { pending: None }
    }

    /// Whether a new readback may be encoded.
    pub fn capture_available(&self) -> (available: bool)
        ensures
            available == self@ is None,
    {
        self.pending.is_none()
    }

    pub fn has_pending_readback(&self) -> (pending: bool)
        ensures
            pending == self@ is Some,
    {
        self.pending.is_some()
    }

    /// Records an encoded readback for `context`; refused while another one is pending.
    pub fn encode_readback(&mut self, context: C) -> (result: Result<(), TimingError>)
        ensures
            old(self)@ is Some ==> result == Err::<(), TimingError>(TimingError::ReadbackAlreadyPending)
                && final(self)@ == old(self)@,
            old(self)@ is None ==> result is Ok && final(self)@ == Some(context),
    {
        if self.pending.is_some() {
            return Err(TimingError::ReadbackAlreadyPending);
        }
        self.pending = Some(context);
        Ok(())
    }

    /// Finishes a poll of the device with what the map callback reported; see [`readback_poll`].
    pub fn complete(&mut self, event: ReadbackEvent) -> (result: Result<Option<(C, QueryTicks)>, TimingError>)
        ensures
            (final(self)@, result) == readback_poll(old(self)@, event),
    {
        let context = match self.pending.take() {
            Some(context) => context,
            None => return Ok(None),
        };
        match event {
            ReadbackEvent::Mapped(bytes) => match decode_query_ticks(bytes.as_slice()) {
                Some(ticks) => Ok(Some((context, ticks))),
                None => Err(TimingError::InvalidReadback),
            },
            ReadbackEvent::MappedRangeUnavailable => Err(TimingError::MappedRange),
            ReadbackEvent::MapFailed => Err(TimingError::MapFailed),
            ReadbackEvent::NotReady => {
                self.pending = Some(context);
                Ok(None)
            },
            ReadbackEvent::Disconnected => Err(TimingError::CallbackDisconnected),
        }
    }
}

} // verus!
