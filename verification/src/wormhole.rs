//! Wormhole bridge messages: the transfer a VAA carries and its binary
//! encoding, the prefix `HBS\0` followed by fixed-width big-endian fields.
use vstd::prelude::*;
use crate::common::Hash32;

pub mod chain_id;

verus! {

/// Length of an encoded transfer: prefix 4, token 32, recipient 32,
/// amount 16, source and target chain 4 each, nonce 8.
pub const PAYLOAD_LEN: usize = 100;

/// A cross-chain transfer of shares.
#[derive(Clone, Copy, PartialEq, Eq, Debug)]
pub struct BridgeTransferPayload {
    pub token_address: Hash32,
    pub recipient: Hash32,
    pub amount: i128,
    pub source_chain: u32,
    pub target_chain: u32,
    pub nonce: u64,
}

/// A transfer by value.
pub struct PayloadInfo {
    pub token_address: Seq<u8>,
    pub recipient: Seq<u8>,
    pub amount: i128,
    pub source_chain: u32,
    pub target_chain: u32,
    pub nonce: u64,
}

impl View for BridgeTransferPayload {
    type V = PayloadInfo;

    open spec fn view(&self) -> PayloadInfo {
        PayloadInfo {
            token_address: self.token_address@,
            recipient: self.recipient@,
            amount: self.amount,
            source_chain: self.source_chain,
            target_chain: self.target_chain,
            nonce: self.nonce,
        }
    }
}

/// What the Wormhole core contract reports of a VAA it verified.
#[derive(Clone, Debug)]
pub struct ParsedVaa {
    pub emitter_chain: u32,
    pub emitter_address: Hash32,
    pub payload: Vec<u8>,
}

/// A verified VAA by value.
pub struct ParsedVaaInfo {
    pub emitter_chain: u32,
    pub emitter_address: Seq<u8>,
    pub payload: Seq<u8>,
}

impl View for ParsedVaa {
    type V = ParsedVaaInfo;

    open spec fn view(&self) -> ParsedVaaInfo {
        ParsedVaaInfo {
            emitter_chain: self.emitter_chain,
            emitter_address: self.emitter_address@,
            payload: self.payload@,
        }
    }
}

/// The payload prefix `HBS\0`.
pub open spec fn payload_magic() -> Seq<u8> {
    seq![72u8, 66u8, 83u8, 0u8]
}

/// 256 to the power `n`.
pub open spec fn pow256(n: nat) -> nat
    decreases n,
{
    if n == 0 {
        1
    } else {
        256 * pow256((n - 1) as nat)
    }
}

/// The `n` low-order base-256 digits of `v`, most significant first.
pub open spec fn be_bytes(v: nat, n: nat) -> Seq<u8>
    decreases n,
{
    if n == 0 {
        Seq::empty()
    } else {
        be_bytes(v / 256, (n - 1) as nat).push((v % 256) as u8)
    }
}

/// The number whose base-256 digits, most significant first, are `b`.
pub open spec fn be_value(b: Seq<u8>) -> nat
    decreases b.len(),
{
    if b.len() == 0 {
        0
    } else {
        be_value(b.drop_last()) * 256 + (b.last() as nat)
    }
}

/// The encoding of a transfer. The amount is written as its 128-bit two's
/// complement.
pub open spec fn encode_payload(p: PayloadInfo) -> Seq<u8> {
    payload_magic() + p.token_address + p.recipient + be_bytes((p.amount as u128) as nat, 16)
        + be_bytes(p.source_chain as nat, 4) + be_bytes(p.target_chain as nat, 4) + be_bytes(
        p.nonce as nat,
        8,
    )
}

/// The transfer a byte string encodes, if it is well formed: exactly
/// `PAYLOAD_LEN` bytes starting with the prefix.
pub open spec fn decode_payload(b: Seq<u8>) -> Option<PayloadInfo> {
    if b.len() != PAYLOAD_LEN || b.subrange(0, 4) != payload_magic() {
        None
    } else {
        Some(
            PayloadInfo {
                token_address: b.subrange(4, 36),
                recipient: b.subrange(36, 68),
                amount: (be_value(b.subrange(68, 84)) as u128) as i128,
                source_chain: be_value(b.subrange(84, 88)) as u32,
                target_chain: be_value(b.subrange(88, 92)) as u32,
                nonce: be_value(b.subrange(92, 100)) as u64,
            },
        )
    }
}

proof fn lemma_pow256_facts()
    ensures
        pow256(4) == 0x1_0000_0000,
        pow256(8) == 0x1_0000_0000_0000_0000,
        pow256(16) == 0x1_0000_0000_0000_0000_0000_0000_0000_0000,
{
    reveal_with_fuel(pow256, 17);
}

proof fn lemma_pow256_monotone(a: nat, b: nat)
    requires
        a <= b,
    ensures
        1 <= pow256(a) <= pow256(b),
    decreases b,
{
    if b > 0 {
        if a < b {
            lemma_pow256_monotone(a, (b - 1) as nat);
        } else {
            lemma_pow256_monotone(0, (b - 1) as nat);
        }
    }
}

proof fn lemma_be_bytes_len(v: nat, n: nat)
    ensures
        be_bytes(v, n).len() == n,
    decreases n,
{
    if n > 0 {
        lemma_be_bytes_len(v / 256, (n - 1) as nat);
    }
}

proof fn lemma_be_value_bound(b: Seq<u8>)
    ensures
        be_value(b) < pow256(b.len()),
    decreases b.len(),
{
    if b.len() > 0 {
        lemma_be_value_bound(b.drop_last());
        let x = be_value(b.drop_last());
        let p = pow256((b.len() - 1) as nat);
        assert(x * 256 + b.last() < p * 256) by (nonlinear_arith)
            requires
                x < p,
                b.last() < 256,
        ;
    }
}

/// Reading back the digits of `v` gives `v` modulo `256^n`.
proof fn lemma_be_roundtrip(v: nat, n: nat)
    ensures
        be_value(be_bytes(v, n)) == v % pow256(n),
    decreases n,
{
    if n > 0 {
        lemma_be_roundtrip(v / 256, (n - 1) as nat);
        let b = be_bytes(v, n);
        assert(b.drop_last() =~= be_bytes(v / 256, (n - 1) as nat));
        let p = pow256((n - 1) as nat);
        lemma_pow256_monotone(0, (n - 1) as nat);
        assert((v / 256) % p * 256 + v % 256 == v % (256 * p)) by (nonlinear_arith)
            requires
                p >= 1,
        {
            vstd::arithmetic::div_mod::lemma_breakdown(v as int, 256, p as int);
        }
    }
}

/// Writing the digits of the number that `b` denotes gives back `b`.
proof fn lemma_be_canonical(b: Seq<u8>)
    ensures
        be_bytes(be_value(b), b.len()) == b,
    decreases b.len(),
{
    if b.len() > 0 {
        lemma_be_canonical(b.drop_last());
        let x = be_value(b.drop_last());
        let v = be_value(b);
        assert(v / 256 == x && v % 256 == b.last()) by (nonlinear_arith)
            requires
                v == x * 256 + b.last(),
                b.last() < 256,
        ;
        assert(b =~= b.drop_last().push(b.last()));
    }
}

/// Decoding an encoded transfer gives the transfer back.
pub proof fn law_payload_roundtrip(p: PayloadInfo)
    requires
        p.token_address.len() == 32,
        p.recipient.len() == 32,
    ensures
        decode_payload(encode_payload(p)) == Some(p),
{
    let a = (p.amount as u128) as nat;
    let b = encode_payload(p);
    lemma_be_bytes_len(a, 16);
    lemma_be_bytes_len(p.source_chain as nat, 4);
    lemma_be_bytes_len(p.target_chain as nat, 4);
    lemma_be_bytes_len(p.nonce as nat, 8);
    lemma_pow256_facts();
    lemma_be_roundtrip(a, 16);
    lemma_be_roundtrip(p.source_chain as nat, 4);
    lemma_be_roundtrip(p.target_chain as nat, 4);
    lemma_be_roundtrip(p.nonce as nat, 8);
    assert(b.subrange(0, 4) =~= payload_magic());
    assert(b.subrange(4, 36) =~= p.token_address);
    assert(b.subrange(36, 68) =~= p.recipient);
    assert(b.subrange(68, 84) =~= be_bytes(a, 16));
    assert(b.subrange(84, 88) =~= be_bytes(p.source_chain as nat, 4));
    assert(b.subrange(88, 92) =~= be_bytes(p.target_chain as nat, 4));
    assert(b.subrange(92, 100) =~= be_bytes(p.nonce as nat, 8));
    let amt = p.amount;
    assert(((amt as u128) as i128) == amt) by (bit_vector);
}

/// A well-formed payload is the encoding of the transfer it decodes to:
/// every transfer has exactly one encoding.
pub proof fn law_payload_canonical(b: Seq<u8>)
    requires
        decode_payload(b) is Some,
    ensures
        encode_payload(decode_payload(b)->Some_0) == b,
{
    let p = decode_payload(b)->Some_0;
    let s_amount = b.subrange(68, 84);
    let s_src = b.subrange(84, 88);
    let s_dst = b.subrange(88, 92);
    let s_nonce = b.subrange(92, 100);
    lemma_pow256_facts();
    lemma_be_value_bound(s_amount);
    lemma_be_value_bound(s_src);
    lemma_be_value_bound(s_dst);
    lemma_be_value_bound(s_nonce);
    lemma_be_canonical(s_amount);
    lemma_be_canonical(s_src);
    lemma_be_canonical(s_dst);
    lemma_be_canonical(s_nonce);
    let v = be_value(s_amount) as u128;
    assert(((v as i128) as u128) == v) by (bit_vector);
    assert(encode_payload(p) =~= b.subrange(0, 4) + b.subrange(4, 36) + b.subrange(36, 68)
        + s_amount + s_src + s_dst + s_nonce);
    assert(b =~= b.subrange(0, 4) + b.subrange(4, 36) + b.subrange(36, 68) + s_amount + s_src
        + s_dst + s_nonce);
}

/// Appends the `n` low-order base-256 digits of `v`, most significant first.
fn push_be(out: &mut Vec<u8>, v: u128, n: usize)
    ensures
        final(out)@ == old(out)@ + be_bytes(v as nat, n as nat),
    decreases n,
{
    if n == 0 {
        assert(old(out)@ + be_bytes(v as nat, 0) =~= old(out)@);
    } else {
        push_be(out, v / 256, n - 1);
        out.push((v % 256) as u8);
        assert(final(out)@ =~= old(out)@ + be_bytes(v as nat, n as nat)) by {
            assert(be_bytes(v as nat, n as nat) == be_bytes((v / 256) as nat, (n - 1) as nat).push(
                (v % 256) as u8,
            ));
        }
    }
}

/// The number whose big-endian digits are `b[start..start + n]`.
fn read_be(b: &[u8], start: usize, n: usize) -> (r: u128)
    requires
        start + n <= b@.len(),
        n <= 16,
    ensures
        r == be_value(b@.subrange(start as int, start + n)),
{
    let mut acc: u128 = 0;
    let mut i: usize = 0;
    proof {
        lemma_pow256_facts();
        assert(b@.subrange(start as int, start as int) =~= Seq::<u8>::empty());
    }
    while i < n
        invariant
            start + n <= b.len(),
            n <= 16,
            i <= n,
            acc == be_value(b@.subrange(start as int, start + i)),
            acc < pow256(i as nat),
            pow256(16) == 0x1_0000_0000_0000_0000_0000_0000_0000_0000,
        decreases n - i,
    {
        let ghost prev = b@.subrange(start as int, start + i);
        let ghost next = b@.subrange(start as int, start + i + 1);
        proof {
            assert(next.drop_last() =~= prev);
            lemma_pow256_monotone((i + 1) as nat, 16);
            lemma_be_value_bound(next);
            assert(next.last() == b@[start + i]);
        }
        acc = acc * 256 + b[start + i] as u128;
        i = i + 1;
    }
    acc
}

/// Copies 32 bytes of `b` starting at `start`.
fn read_hash(b: &[u8], start: usize) -> (r: Hash32)
    requires
        start + 32 <= b@.len(),
    ensures
        r@ == b@.subrange(start as int, start + 32),
{
    let mut out: Hash32 = [0u8; 32];
    let mut i: usize = 0;
    while i < 32
        invariant
            start + 32 <= b.len(),
            i <= 32,
            forall|j: int| 0 <= j < i ==> out@[j] == b@[start + j],
        decreases 32 - i,
    {
        out[i] = b[start + i];
        i = i + 1;
    }
    assert(out@ =~= b@.subrange(start as int, start + 32));
    out
}

/// Encode a transfer for publication through Wormhole.
pub fn serialize_bridge_payload(payload: &BridgeTransferPayload) -> (r: Vec<u8>)
    ensures
        r@ == encode_payload(payload@),
{
    let mut out: Vec<u8> = Vec::new();
    out.push(72u8);
    out.push(66u8);
    out.push(83u8);
    out.push(0u8);
    let mut i: usize = 0;
    while i < 32
        invariant
            i <= 32,
            out@ == payload_magic() + payload.token_address@.subrange(0, i as int),
        decreases 32 - i,
    {
        out.push(payload.token_address[i]);
        i = i + 1;
        assert(out@ =~= payload_magic() + payload.token_address@.subrange(0, i as int));
    }
    assert(payload.token_address@.subrange(0, 32) =~= payload.token_address@);
    let ghost head = out@;
    let mut j: usize = 0;
    while j < 32
        invariant
            j <= 32,
            out@ == head + payload.recipient@.subrange(0, j as int),
        decreases 32 - j,
    {
        out.push(payload.recipient[j]);
        j = j + 1;
        assert(out@ =~= head + payload.recipient@.subrange(0, j as int));
    }
    assert(payload.recipient@.subrange(0, 32) =~= payload.recipient@);
    push_be(&mut out, payload.amount as u128, 16);
    push_be(&mut out, payload.source_chain as u128, 4);
    push_be(&mut out, payload.target_chain as u128, 4);
    push_be(&mut out, payload.nonce as u128, 8);
    assert(out@ =~= encode_payload(payload@));
    out
}

/// Decode a transfer message; `None` when it is not well formed.
pub fn parse_bridge_payload(bytes: &[u8]) -> (r: Option<BridgeTransferPayload>)
    ensures
        match r {
            Some(p) => decode_payload(bytes@) == Some(p@),
            None => decode_payload(bytes@) is None,
        },
{
    if bytes.len() != PAYLOAD_LEN {
        return None;
    }
    if bytes[0] != 72u8 || bytes[1] != 66u8 || bytes[2] != 83u8 || bytes[3] != 0u8 {
        assert(bytes@.subrange(0, 4) != payload_magic()) by {
            let s = bytes@.subrange(0, 4);
            assert(s[0] == bytes@[0] && s[1] == bytes@[1] && s[2] == bytes@[2] && s[3]
                == bytes@[3]);
        }
        return None;
    }
    assert(bytes@.subrange(0, 4) =~= payload_magic());
    let token_address = read_hash(bytes, 4);
    let recipient = read_hash(bytes, 36);
    let amount = read_be(bytes, 68, 16);
    let source_chain = read_be(bytes, 84, 4);
    let target_chain = read_be(bytes, 88, 4);
    let nonce = read_be(bytes, 92, 8);
    proof {
        lemma_pow256_facts();
        lemma_be_value_bound(bytes@.subrange(84, 88));
        lemma_be_value_bound(bytes@.subrange(88, 92));
        lemma_be_value_bound(bytes@.subrange(92, 100));
    }
    Some(
        BridgeTransferPayload {
            token_address,
            recipient,
            amount: amount as i128,
            source_chain: source_chain as u32,
            target_chain: target_chain as u32,
            nonce: nonce as u64,
        },
    )
}

} // verus!
