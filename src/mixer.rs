//! The mixing step: the two playback streams' latest packets are added
//! sample by sample, with saturation, into the packet sent to the host.

use vstd::prelude::*;

verus! {

/// Bytes of one isochronous packet: 96 samples of 16 bits.
pub const PACKET_BYTES: usize = 192;

/// Samples in one packet.
pub const PACKET_SAMPLES: usize = 96;

/// Capacity of each receive buffer.
pub const BUFFER_BYTES: usize = 256;

/// `x` clamped to the range of a 16-bit signed sample.
pub open spec fn clamp16(x: int) -> int {
    if x < -32768 {
        -32768
    } else if x > 32767 {
        32767
    } else {
        x
    }
}

/// The sample whose little-endian bytes are `lo`, `hi`.
pub open spec fn le_sample(lo: u8, hi: u8) -> int {
    let u = lo as int + 256 * hi as int;
    if u >= 32768 {
        u - 65536
    } else {
        u
    }
}

/// Sample `i` of a little-endian byte stream.
pub open spec fn sample_at(bytes: Seq<u8>, i: int) -> int {
    le_sample(bytes[2 * i], bytes[2 * i + 1])
}

/// The 16-bit two's-complement pattern of a sample.
pub open spec fn pattern(s: int) -> int {
    if s < 0 {
        s + 65536
    } else {
        s
    }
}

/// Low (first) byte of a sample on the wire.
pub open spec fn low_byte(s: int) -> u8 {
    (pattern(s) % 256) as u8
}

/// High (second) byte of a sample on the wire.
pub open spec fn high_byte(s: int) -> u8 {
    (pattern(s) / 256) as u8
}

/// The sum of sample `i` of the two packets, clamped.
pub open spec fn mixed_sample(b1: Seq<u8>, b2: Seq<u8>, i: int) -> int {
    clamp16(sample_at(b1, i) + sample_at(b2, i))
}

/// The packet that mixes the first 96 samples of `b1` and `b2`.
pub open spec fn mixed_packet(b1: Seq<u8>, b2: Seq<u8>) -> Seq<u8> {
    Seq::new(
        PACKET_BYTES as nat,
        |j: int|
            if j % 2 == 0 {
                low_byte(mixed_sample(b1, b2, j / 2))
            } else {
                high_byte(mixed_sample(b1, b2, j / 2))
            },
    )
}

/// Adds two samples, saturating at the bounds of 16-bit signed audio
/// instead of wrapping.
pub fn mix_sample(a: i16, b: i16) -> (r: i16)
    ensures
        r as int == clamp16(a as int + b as int),
{
    let s: i32 = a as i32 + b as i32;
    if s < -32768 {
        -32768
    } else if s > 32767 {
        32767
    } else {
        s as i16
    }
}

/// Reads the sample whose little-endian bytes are `lo`, `hi`.
pub fn decode_sample(lo: u8, hi: u8) -> (r: i16)
    ensures
        r as int == le_sample(lo, hi),
{
    let u: u32 = lo as u32 + 256 * hi as u32;
    if u >= 32768 {
        (u as i32 - 65536) as i16
    } else {
        u as i16
    }
}

/// Writes a sample as its little-endian bytes.
pub fn encode_sample(s: i16) -> (r: (u8, u8))
    ensures
        r.0 == low_byte(s as int),
        r.1 == high_byte(s as int),
{
    let u: u32 = if s < 0 {
        (s as i32 + 65536) as u32
    } else {
        s as u32
    };
    ((u % 256) as u8, (u / 256) as u8)
}

/// Mixes the first 96 samples of `b1` and `b2` into `out`.
pub fn mix_packets(b1: &[u8], b2: &[u8], out: &mut Vec<u8>)
    requires
        b1@.len() >= PACKET_BYTES,
        b2@.len() >= PACKET_BYTES,
        old(out)@.len() == PACKET_BYTES,
    ensures
        final(out)@ == mixed_packet(b1@, b2@),
{
    let mut i: usize = 0;
    while i < PACKET_SAMPLES
        invariant
            i <= PACKET_SAMPLES,
            b1@.len() >= PACKET_BYTES,
            b2@.len() >= PACKET_BYTES,
            out@.len() == PACKET_BYTES,
            forall|j: int| 0 <= j < 2 * i ==> out@[j] == #[trigger] mixed_packet(b1@, b2@)[j],
        decreases PACKET_SAMPLES - i,
    {
        let a = decode_sample(b1[2 * i], b1[2 * i + 1]);
        let b = decode_sample(b2[2 * i], b2[2 * i + 1]);
        let (lo, hi) = encode_sample(mix_sample(a, b));
        out.set(2 * i, lo);
        out.set(2 * i + 1, hi);
        proof {
            let ii = i as int;
            assert((2 * ii) / 2 == ii && (2 * ii) % 2 == 0);
            assert((2 * ii + 1) / 2 == ii && (2 * ii + 1) % 2 == 1);
        }
        i = i + 1;
    }
    assert(out@ =~= mixed_packet(b1@, b2@));
}

/// The mathematical model of a [`MixerSession`].
pub struct MixState {
    /// Receive buffer of output stream 1.
    pub bytes1: Seq<u8>,
    /// Receive buffer of output stream 2.
    pub bytes2: Seq<u8>,
    /// Output stream 1 delivered a packet since the last mix.
    pub filled1: bool,
    /// Output stream 2 delivered a packet since the last mix.
    pub filled2: bool,
    /// The last mixed packet.
    pub mixed: Seq<u8>,
}

/// Buffers of their fixed sizes, and never both streams pending: a poll
/// that sees both filled mixes them at once.
pub open spec fn well_formed(s: MixState) -> bool {
    &&& s.bytes1.len() == BUFFER_BYTES
    &&& s.bytes2.len() == BUFFER_BYTES
    &&& s.mixed.len() == PACKET_BYTES
    &&& !(s.filled1 && s.filled2)
}

/// A receive buffer after a read that delivered `packet` (or none): the
/// packet's bytes land at its start, the rest keeps its old bytes.
pub open spec fn deliver(buf: Seq<u8>, packet: Option<Seq<u8>>) -> Seq<u8> {
    match packet {
        Some(d) => d + buf.subrange(d.len() as int, buf.len() as int),
        None => buf,
    }
}

/// One polling cycle: each stream's delivered packet is stored and marks it
/// filled; once both are filled, they are mixed, the flags are cleared and
/// the mixed packet is to be written (the `bool`).
pub open spec fn poll_spec(s: MixState, packet1: Option<Seq<u8>>, packet2: Option<Seq<u8>>) -> (
    MixState,
    bool,
) {
    let b1 = deliver(s.bytes1, packet1);
    let b2 = deliver(s.bytes2, packet2);
    let f1 = s.filled1 || packet1 is Some;
    let f2 = s.filled2 || packet2 is Some;
    if f1 && f2 {
        (
            MixState {
                bytes1: b1,
                bytes2: b2,
                filled1: false,
                filled2: false,
                mixed: mixed_packet(b1, b2),
            },
            true,
        )
    } else {
        (MixState { bytes1: b1, bytes2: b2, filled1: f1, filled2: f2, mixed: s.mixed }, false)
    }
}

/// A series of polling cycles, each with the packets that the two output
/// streams delivered in it; the `bool` says whether any cycle wrote.
pub open spec fn run(s: MixState, events: Seq<(Option<Seq<u8>>, Option<Seq<u8>>)>) -> (
    MixState,
    bool,
)
    decreases events.len(),
{
    if events.len() == 0 {
        (s, false)
    } else {
        let before = run(s, events.drop_last());
        let after = poll_spec(before.0, events.last().0, events.last().1);
        (after.0, before.1 || after.1)
    }
}

pub open spec fn packet_view(p: Option<&[u8]>) -> Option<Seq<u8>> {
    match p {
        Some(d) => Some(d@),
        None => None,
    }
}

/// The mixing loop's state, owned by the one loop that polls the device.
pub struct MixerSession {
    bytes1: Vec<u8>,
    bytes2: Vec<u8>,
    filled1: bool,
    filled2: bool,
    mixed: Vec<u8>,
}

impl View for MixerSession {
    type V = MixState;

    closed spec fn view(&self) -> MixState {
        MixState {
            bytes1: self.bytes1@,
            bytes2: self.bytes2@,
            filled1: self.filled1,
            filled2: self.filled2,
            mixed: self.mixed@,
        }
    }
}

/// Copies `data` to the start of `buf`.
fn store(buf: &mut Vec<u8>, data: &[u8])
    requires
        data@.len() <= old(buf)@.len(),
    ensures
        final(buf)@ == deliver(old(buf)@, Some(data@)),
{
    let mut i: usize = 0;
    while i < data.len()
        invariant
            i <= data@.len(),
            data@.len() <= buf@.len(),
            buf@.len() == old(buf)@.len(),
            forall|j: int| 0 <= j < i ==> buf@[j] == data@[j],
            forall|j: int| i <= j < buf@.len() ==> buf@[j] == old(buf)@[j],
        decreases data@.len() - i,
    {
        buf.set(i, data[i]);
        i = i + 1;
    }
    assert(buf@ =~= deliver(old(buf)@, Some(data@)));
}

impl MixerSession {
    /// A session with zeroed buffers and no stream pending.
    pub fn new() -> (r: MixerSession)
        ensures
            well_formed(r@),
            r@.bytes1 == Seq::new(BUFFER_BYTES as nat, |i: int| 0u8),
            r@.bytes2 == Seq::new(BUFFER_BYTES as nat, |i: int| 0u8),
            r@.mixed == Seq::new(PACKET_BYTES as nat, |i: int| 0u8),
            !r@.filled1,
            !r@.filled2,
    {
        let r = MixerSession {
            bytes1: vec![0u8; BUFFER_BYTES],
            bytes2: vec![0u8; BUFFER_BYTES],
            filled1: false,
            filled2: false,
            mixed: vec![0u8; PACKET_BYTES],
        };
        assert(r@.bytes1 =~= Seq::new(BUFFER_BYTES as nat, |i: int| 0u8));
        assert(r@.bytes2 =~= Seq::new(BUFFER_BYTES as nat, |i: int| 0u8));
        assert(r@.mixed =~= Seq::new(PACKET_BYTES as nat, |i: int| 0u8));
        r
    }

    /// One polling cycle. `packet1` and `packet2` are what the two output
    /// endpoints delivered in it (`None`: nothing was ready). Returns
    /// whether the mixed packet, [`MixerSession::packet`], is to be
    /// written to the input endpoint now.
    pub fn poll(&mut self, packet1: Option<&[u8]>, packet2: Option<&[u8]>) -> (write: bool)
        requires
            well_formed(old(self)@),
            packet1 matches Some(d) ==> d@.len() <= BUFFER_BYTES,
            packet2 matches Some(d) ==> d@.len() <= BUFFER_BYTES,
        ensures
            (final(self)@, write) == poll_spec(old(self)@, packet_view(packet1), packet_view(packet2)),
            well_formed(final(self)@),
    {
        if let Some(d) = packet1 {
            store(&mut self.bytes1, d);
            self.filled1 = true;
        }
        if let Some(d) = packet2 {
            store(&mut self.bytes2, d);
            self.filled2 = true;
        }
        if self.filled1 && self.filled2 {
            self.filled1 = false;
            self.filled2 = false;
            mix_packets(self.bytes1.as_slice(), self.bytes2.as_slice(), &mut self.mixed);
            true
        } else {
            false
        }
    }

    /// The last mixed packet.
    pub fn packet(&self) -> (r: &[u8])
        ensures
            r@ == self@.mixed,
    {
        self.mixed.as_slice()
    }

    /// Whether each output stream has delivered a packet since the last mix.
    pub fn pending(&self) -> (r: (bool, bool))
        ensures
            r == (self@.filled1, self@.filled2),
    {
        (self.filled1, self.filled2)
    }
}

/// As long as output stream 2 delivers nothing, nothing is written to the
/// input endpoint, however many packets output stream 1 delivers.
pub proof fn lemma_no_write_without_output2(
    s: MixState,
    events: Seq<(Option<Seq<u8>>, Option<Seq<u8>>)>,
)
    requires
        !s.filled2,
        forall|i: int| 0 <= i < events.len() ==> (#[trigger] events[i]).1 is None,
    ensures
        !run(s, events).1,
        !run(s, events).0.filled2,
    decreases events.len(),
{
    if events.len() > 0 {
        let rest = events.drop_last();
        assert forall|i: int| 0 <= i < rest.len() implies (#[trigger] rest[i]).1 is None by {
            assert(rest[i] == events[i]);
        }
        lemma_no_write_without_output2(s, rest);
        assert(events[events.len() - 1].1 is None);
    }
}

/// Polling again and again with no new data from either output stream
/// writes nothing and leaves the session as it is.
pub proof fn lemma_idle_polls(s: MixState, n: nat)
    requires
        well_formed(s),
    ensures
        run(s, Seq::new(n, |i: int| (None::<Seq<u8>>, None::<Seq<u8>>))) == (s, false),
    decreases n,
{
    let events = Seq::new(n, |i: int| (None::<Seq<u8>>, None::<Seq<u8>>));
    if n > 0 {
        lemma_idle_polls(s, (n - 1) as nat);
        assert(events.drop_last() =~= Seq::new(
            (n - 1) as nat,
            |i: int| (None::<Seq<u8>>, None::<Seq<u8>>),
        ));
        assert(events.last() == (None::<Seq<u8>>, None::<Seq<u8>>));
    }
}

} // verus!
