//! The wire format of an announcement that carries service ports: the
//! header, the sender's id and the ports, each as a little-endian integer
//! of fixed width, one after the other with nothing in between.

use super::{DiscoveryMsg, Port};
use vstd::arithmetic::div_mod::lemma_div_denominator;
use vstd::prelude::*;
use vstd::slice::slice_subrange;

verus! {

/// No announcement on the wire is longer than this many bytes, and none
/// that arrives is read beyond them.
pub const MAX_DATAGRAM: usize = 1024;

/// Bytes that the header and the id take on the wire.
pub const ENVELOPE: usize = 16;

/// The largest number of ports whose announcement still fits a datagram.
pub const MAX_PORTS: usize = 504;

/// The eight bytes of a number, least significant first.
pub open spec fn le_bytes_u64(value: u64) -> Seq<u8> {
    seq![
        (value % 0x100) as u8,
        (value / 0x100 % 0x100) as u8,
        (value / 0x1_0000 % 0x100) as u8,
        (value / 0x100_0000 % 0x100) as u8,
        (value / 0x1_0000_0000 % 0x100) as u8,
        (value / 0x100_0000_0000 % 0x100) as u8,
        (value / 0x1_0000_0000_0000 % 0x100) as u8,
        (value / 0x100_0000_0000_0000) as u8,
    ]
}

/// The number that eight bytes spell, least significant first.
pub open spec fn le_u64(bytes: Seq<u8>) -> u64
    recommends
        bytes.len() == 8,
{
    (bytes[0] + 0x100 * bytes[1] + 0x1_0000 * bytes[2] + 0x100_0000 * bytes[3] + 0x1_0000_0000
        * bytes[4] + 0x100_0000_0000 * bytes[5] + 0x1_0000_0000_0000 * bytes[6]
        + 0x100_0000_0000_0000 * bytes[7]) as u64
}

/// The two bytes of a number, least significant first.
pub open spec fn le_bytes_u16(value: u16) -> Seq<u8> {
    seq![(value % 0x100) as u8, (value / 0x100) as u8]
}

/// The number that two bytes spell, least significant first.
pub open spec fn le_u16(bytes: Seq<u8>) -> u16
    recommends
        bytes.len() == 2,
{
    (bytes[0] + 0x100 * bytes[1]) as u16
}

/// The bytes of a number spell that number.
pub proof fn lemma_le_bytes(long: u64, short: u16)
    ensures
        le_bytes_u64(long).len() == 8,
        le_u64(le_bytes_u64(long)) == long,
        le_bytes_u16(short).len() == 2,
        le_u16(le_bytes_u16(short)) == short,
{
    let x = long as int;
    let q1 = x / 0x100;
    let q2 = x / 0x1_0000;
    let q3 = x / 0x100_0000;
    let q4 = x / 0x1_0000_0000;
    let q5 = x / 0x100_0000_0000;
    let q6 = x / 0x1_0000_0000_0000;
    let q7 = x / 0x100_0000_0000_0000;
    lemma_div_denominator(x, 0x100, 0x100);
    lemma_div_denominator(x, 0x1_0000, 0x100);
    lemma_div_denominator(x, 0x100_0000, 0x100);
    lemma_div_denominator(x, 0x1_0000_0000, 0x100);
    lemma_div_denominator(x, 0x100_0000_0000, 0x100);
    lemma_div_denominator(x, 0x1_0000_0000_0000, 0x100);
    assert(q2 == q1 / 0x100 && q3 == q2 / 0x100 && q4 == q3 / 0x100 && q5 == q4 / 0x100 && q6 == q5
        / 0x100 && q7 == q6 / 0x100);
    assert(0 <= q7 < 0x100);
    let bytes = le_bytes_u64(long);
    assert(bytes[0] == x % 0x100 && bytes[1] == q1 % 0x100 && bytes[2] == q2 % 0x100 && bytes[3]
        == q3 % 0x100);
    assert(bytes[4] == q4 % 0x100 && bytes[5] == q5 % 0x100 && bytes[6] == q6 % 0x100 && bytes[7]
        == q7);
    assert(x == x % 0x100 + 0x100 * q1);
    assert(q1 == q1 % 0x100 + 0x100 * q2);
    assert(q2 == q2 % 0x100 + 0x100 * q3);
    assert(q3 == q3 % 0x100 + 0x100 * q4);
    assert(q4 == q4 % 0x100 + 0x100 * q5);
    assert(q5 == q5 % 0x100 + 0x100 * q6);
    assert(q6 == q6 % 0x100 + 0x100 * q7);
    assert(bytes[0] + 0x100 * bytes[1] + 0x1_0000 * bytes[2] + 0x100_0000 * bytes[3]
        + 0x1_0000_0000 * bytes[4] + 0x100_0000_0000 * bytes[5] + 0x1_0000_0000_0000 * bytes[6]
        + 0x100_0000_0000_0000 * bytes[7] == x);
}

/// `bincode::serialize` of a `u64`: its eight bytes, least significant
/// first. Writing into a vector does not fail.
#[verifier::external_body]
fn serialize_u64(value: u64) -> (bytes: Vec<u8>)
    ensures
        bytes@ == le_bytes_u64(value),
{
    bincode::serialize(&value).unwrap_or_default()
}

/// `bincode::serialize` of a `u16`: its two bytes, least significant first.
/// Writing into a vector does not fail.
#[verifier::external_body]
fn serialize_u16(value: u16) -> (bytes: Vec<u8>)
    ensures
        bytes@ == le_bytes_u16(value),
{
    bincode::serialize(&value).unwrap_or_default()
}

/// `bincode::deserialize` of a `u64`: read from the first eight bytes,
/// least significant first; what follows them is ignored. It fails where
/// there are fewer than eight.
#[verifier::external_body]
fn deserialize_u64(bytes: &[u8]) -> (value: Option<u64>)
    ensures
        value == if bytes@.len() >= 8 {
            Some(le_u64(bytes@.subrange(0, 8)))
        } else {
            None
        },
{
    bincode::deserialize::<u64>(bytes).ok()
}

/// `bincode::deserialize` of a `u16`: read from the first two bytes, least
/// significant first; what follows them is ignored. It fails where there
/// are fewer than two.
#[verifier::external_body]
fn deserialize_u16(bytes: &[u8]) -> (value: Option<u16>)
    ensures
        value == if bytes@.len() >= 2 {
            Some(le_u16(bytes@.subrange(0, 2)))
        } else {
            None
        },
{
    bincode::deserialize::<u16>(bytes).ok()
}

/// The ports on the wire: two bytes each, in order.
pub open spec fn ports_bytes(ports: Seq<Port>) -> Seq<u8>
    decreases ports.len(),
{
    if ports.len() == 0 {
        Seq::empty()
    } else {
        ports_bytes(ports.drop_last()) + le_bytes_u16(ports.last())
    }
}

/// On the wire each port takes two bytes, and the bytes of the port at
/// `i` stand at `2 * i`.
pub proof fn lemma_ports_bytes(ports: Seq<Port>)
    ensures
        ports_bytes(ports).len() == 2 * ports.len(),
        forall|i: int|
            0 <= i < ports.len() ==> #[trigger] ports_bytes(ports).subrange(2 * i, 2 * i + 2)
                == le_bytes_u16(ports[i]),
    decreases ports.len(),
{
    if ports.len() > 0 {
        let front = ports.drop_last();
        lemma_ports_bytes(front);
        lemma_le_bytes(0, ports.last());
        let last = le_bytes_u16(ports.last());
        assert forall|i: int| 0 <= i < ports.len() implies #[trigger] ports_bytes(ports).subrange(
            2 * i,
            2 * i + 2,
        ) == le_bytes_u16(ports[i]) by {
            if i < front.len() {
                assert(ports_bytes(ports).subrange(2 * i, 2 * i + 2) =~= ports_bytes(
                    front,
                ).subrange(2 * i, 2 * i + 2));
                assert(front[i] == ports[i]);
            } else {
                assert(ports_bytes(ports).subrange(2 * i, 2 * i + 2) =~= last);
            }
        }
    }
}

impl<const N: usize> DiscoveryMsg<N, Port> {
    /// The announcement on the wire.
    pub open spec fn spec_encode(&self) -> Seq<u8> {
        le_bytes_u64(self.header) + le_bytes_u64(self.id) + ports_bytes(self.msg@)
    }

    /// Whether a datagram is long enough to hold an announcement. Bytes
    /// beyond the announcement are allowed and ignored.
    pub open spec fn decodable(buf: Seq<u8>) -> bool {
        buf.len() >= ENVELOPE + 2 * N
    }

    /// Whether `msg` is what the first bytes of a datagram say.
    pub open spec fn decodes_to(buf: Seq<u8>, msg: Self) -> bool {
        &&& msg.header == le_u64(buf.subrange(0, 8))
        &&& msg.id == le_u64(buf.subrange(8, 16))
        &&& forall|i: int|
            0 <= i < N ==> #[trigger] msg.msg@[i] == le_u16(
                buf.subrange(16 + 2 * i, 18 + 2 * i),
            )
    }

    /// What a datagram says: the announcement at its start, if it is long
    /// enough to hold one.
    pub closed spec fn spec_decode(buf: Seq<u8>) -> Option<Self> {
        if Self::decodable(buf) {
            Some(choose|msg: Self| Self::decodes_to(buf, msg))
        } else {
            None
        }
    }

    /// A datagram too short to hold an announcement says nothing.
    pub proof fn lemma_undecodable(buf: Seq<u8>)
        requires
            !Self::decodable(buf),
        ensures
            Self::spec_decode(buf) is None,
    {
    }

    /// A datagram says at most one thing: an announcement that its first
    /// bytes spell out is the one it decodes to.
    pub proof fn lemma_decodes_to(buf: Seq<u8>, msg: Self)
        requires
            Self::decodable(buf),
            Self::decodes_to(buf, msg),
        ensures
            Self::spec_decode(buf) == Some(msg),
    {
        let chosen = choose|m: Self| Self::decodes_to(buf, m);
        assert(Self::decodes_to(buf, chosen));
        assert forall|i: int| 0 <= i < N implies chosen.msg@[i] == msg.msg@[i] by {
            assert(chosen.msg@[i] == le_u16(buf.subrange(16 + 2 * i, 18 + 2 * i)));
            assert(msg.msg@[i] == le_u16(buf.subrange(16 + 2 * i, 18 + 2 * i)));
        }
        assert(chosen.msg@ =~= msg.msg@);
        assert(chosen.msg == msg.msg);
    }

    /// Writes the announcement as it goes over the wire.
    pub fn encode(&self) -> (buf: Vec<u8>)
        ensures
            buf@ == self.spec_encode(),
            buf@.len() == ENVELOPE + 2 * N,
    {
        proof {
            lemma_ports_bytes(self.msg@);
        }
        let mut buf = serialize_u64(self.header);
        let mut id = serialize_u64(self.id);
        buf.append(&mut id);
        let ghost envelope = buf@;
        let mut i: usize = 0;
        while i < N
            invariant
                i <= N,
                envelope == le_bytes_u64(self.header) + le_bytes_u64(self.id),
                buf@ == envelope + ports_bytes(self.msg@.subrange(0, i as int)),
            decreases N - i,
        {
            let mut port = serialize_u16(self.msg[i]);
            buf.append(&mut port);
            proof {
                let upto = self.msg@.subrange(0, i + 1);
                assert(upto.drop_last() =~= self.msg@.subrange(0, i as int));
                assert(upto.last() == self.msg@[i as int]);
                assert(buf@ =~= envelope + ports_bytes(upto));
            }
            i += 1;
        }
        assert(self.msg@.subrange(0, N as int) =~= self.msg@);
        buf
    }

    /// Reads an announcement from the start of a datagram. A datagram too
    /// short to hold one is refused; every other holds one.
    pub fn decode(buf: &[u8]) -> (msg: Option<Self>)
        ensures
            msg == Self::spec_decode(buf@),
            msg is Some <==> Self::decodable(buf@),
            msg matches Some(m) ==> Self::decodes_to(buf@, m),
    {
        let len: usize = buf.len();
        if len < ENVELOPE {
            return None;
        }
        if (len - ENVELOPE) / 2 < N {
            return None;
        }
        let header = deserialize_u64(slice_subrange(buf, 0, 8));
        let id = deserialize_u64(slice_subrange(buf, 8, 16));
        assert(buf@.subrange(0, 8).subrange(0, 8) =~= buf@.subrange(0, 8));
        assert(buf@.subrange(8, 16).subrange(0, 8) =~= buf@.subrange(8, 16));
        let mut msg: [Port; N] = [0u16; N];
        let mut i: usize = 0;
        while i < N
            invariant
                i <= N,
                len == buf@.len(),
                len >= ENVELOPE + 2 * N,
                forall|j: int|
                    0 <= j < i ==> #[trigger] msg@[j] == le_u16(
                        buf@.subrange(16 + 2 * j, 18 + 2 * j),
                    ),
            decreases N - i,
        {
            let at: usize = ENVELOPE + 2 * i;
            let port = deserialize_u16(slice_subrange(buf, at, at + 2));
            assert(buf@.subrange(at as int, at + 2).subrange(0, 2) =~= buf@.subrange(
                at as int,
                at + 2,
            ));
            msg[i] = port.unwrap();
            i += 1;
        }
        let msg = DiscoveryMsg { header: header.unwrap(), id: id.unwrap(), msg };
        proof {
            Self::lemma_decodes_to(buf@, msg);
        }
        Some(msg)
    }
}

/// Reading what was written gives the announcement back, whatever follows
/// it in the datagram.
pub proof fn lemma_decode_encode<const N: usize>(msg: DiscoveryMsg<N, Port>, trailing: Seq<u8>)
    ensures
        DiscoveryMsg::<N, Port>::decodable(msg.spec_encode() + trailing),
        DiscoveryMsg::<N, Port>::decodes_to(msg.spec_encode() + trailing, msg),
        DiscoveryMsg::<N, Port>::spec_decode(msg.spec_encode() + trailing) == Some(msg),
        DiscoveryMsg::<N, Port>::spec_decode(msg.spec_encode()) == Some(msg),
{
    lemma_decode_encode_relation(msg, trailing);
    DiscoveryMsg::<N, Port>::lemma_decodes_to(msg.spec_encode() + trailing, msg);
    assert(msg.spec_encode() + Seq::<u8>::empty() =~= msg.spec_encode());
    lemma_decode_encode_relation(msg, Seq::empty());
    DiscoveryMsg::<N, Port>::lemma_decodes_to(msg.spec_encode(), msg);
}

proof fn lemma_decode_encode_relation<const N: usize>(msg: DiscoveryMsg<N, Port>, trailing: Seq<u8>)
    ensures
        DiscoveryMsg::<N, Port>::decodable(msg.spec_encode() + trailing),
        DiscoveryMsg::<N, Port>::decodes_to(msg.spec_encode() + trailing, msg),
{
    lemma_ports_bytes(msg.msg@);
    lemma_le_bytes(msg.header, 0);
    lemma_le_bytes(msg.id, 0);
    let wire = msg.spec_encode() + trailing;
    let ports = ports_bytes(msg.msg@);
    assert(wire.subrange(0, 8) =~= le_bytes_u64(msg.header));
    assert(wire.subrange(8, 16) =~= le_bytes_u64(msg.id));
    assert forall|i: int| 0 <= i < N implies #[trigger] msg.msg@[i] == le_u16(
        wire.subrange(16 + 2 * i, 18 + 2 * i),
    ) by {
        assert(wire.subrange(16 + 2 * i, 18 + 2 * i) =~= ports.subrange(2 * i, 2 * i + 2));
        lemma_le_bytes(0, msg.msg@[i]);
    }
}

/// Whatever is read from a written announcement is that announcement, so
/// writing it again gives the same bytes: encoding, decoding and encoding
/// once more changes nothing.
pub proof fn lemma_encode_decode_encode<const N: usize>(
    msg: DiscoveryMsg<N, Port>,
    trailing: Seq<u8>,
    read: DiscoveryMsg<N, Port>,
)
    requires
        DiscoveryMsg::<N, Port>::spec_decode(msg.spec_encode() + trailing) == Some(read),
    ensures
        read == msg,
        read.spec_encode() == msg.spec_encode(),
{
    lemma_decode_encode(msg, trailing);
}

} // verus!
