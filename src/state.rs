use vstd::prelude::*;
use crate::codec::{
    Address, le_value, le_bytes, i64_bits, i64_from_bits, key_at, lemma_pow256_small,
    lemma_le_bytes_len, lemma_le_round_trip, lemma_i64_bits_round_trip,
    lemma_key_at, read_key, read_le, push_le, push_bytes,
};

verus! {

/// Layout version written into every escrow record.
pub const ESCROW_VERSION: u8 = 2;

/// Layout version written into the configuration record.
pub const CONFIG_VERSION: u8 = 1;

/// Size in bytes of an encoded escrow record.
pub const ESCROW_LEN: usize = 221;

/// Size in bytes of an encoded configuration record.
pub const CONFIG_LEN: usize = 68;

/// Where an escrow stands. `Claimed` and `Refunded` are terminal.
#[derive(Clone, Copy, Debug, PartialEq, Eq, Structural)]
pub enum EscrowStatus {
    Active,
    Claimed,
    Refunded,
}

/// The persisted record of one escrow, keyed by its payment hash.
#[derive(Clone, Copy, Debug)]
pub struct EscrowState {
    pub v: u8,
    pub status: EscrowStatus,
    pub payment_hash: Address,
    pub recipient: Address,
    pub refund: Address,
    pub refund_after: i64,
    pub mint: Address,
    pub net_amount: u64,
    pub fee_amount: u64,
    pub fee_bps: u16,
    pub fee_collector: Address,
    pub vault: Address,
    pub bump: u8,
}

/// The persisted singleton holding the fee terms.
#[derive(Clone, Copy, Debug)]
pub struct ConfigState {
    pub v: u8,
    pub authority: Address,
    pub fee_collector: Address,
    pub fee_bps: u16,
    pub bump: u8,
}

impl EscrowState {
    /// A settled record holds no amounts.
    pub open spec fn wf(self) -> bool {
        self.status != EscrowStatus::Active ==> self.net_amount == 0 && self.fee_amount == 0
    }
}

impl ConfigState {
    /// Authority and collector are one key, and the rate is within the ceiling.
    pub open spec fn wf(self) -> bool {
        self.authority == self.fee_collector && self.fee_bps <= crate::fee::MAX_FEE_BPS
    }
}

/// The byte that stores a status.
pub open spec fn status_byte(s: EscrowStatus) -> u8 {
    match s {
        EscrowStatus::Active => 0,
        EscrowStatus::Claimed => 1,
        EscrowStatus::Refunded => 2,
    }
}

/// The status that a stored byte names, for bytes `0`, `1` and `2`.
pub open spec fn status_of(b: u8) -> EscrowStatus {
    if b == 0 {
        EscrowStatus::Active
    } else if b == 1 {
        EscrowStatus::Claimed
    } else {
        EscrowStatus::Refunded
    }
}

/// The fixed-layout encoding of an escrow record: each field in order,
/// integers little-endian, no padding.
pub open spec fn escrow_bytes(s: EscrowState) -> Seq<u8> {
    seq![s.v, status_byte(s.status)] + s.payment_hash@ + s.recipient@ + s.refund@
        + le_bytes(i64_bits(s.refund_after), 8) + s.mint@ + le_bytes(s.net_amount as nat, 8)
        + le_bytes(s.fee_amount as nat, 8) + le_bytes(s.fee_bps as nat, 2) + s.fee_collector@
        + s.vault@ + seq![s.bump]
}

/// The escrow record that `b` holds, if it holds one: exactly `ESCROW_LEN`
/// bytes with a known status byte.
pub open spec fn parse_escrow(b: Seq<u8>) -> Option<EscrowState> {
    if b.len() == ESCROW_LEN && b[1] <= 2 {
        Some(
            EscrowState {
                v: b[0],
                status: status_of(b[1]),
                payment_hash: key_at(b, 2),
                recipient: key_at(b, 34),
                refund: key_at(b, 66),
                refund_after: i64_from_bits(le_value(b.subrange(98, 106))) as i64,
                mint: key_at(b, 106),
                net_amount: le_value(b.subrange(138, 146)) as u64,
                fee_amount: le_value(b.subrange(146, 154)) as u64,
                fee_bps: le_value(b.subrange(154, 156)) as u16,
                fee_collector: key_at(b, 156),
                vault: key_at(b, 188),
                bump: b[220],
            },
        )
    } else {
        None
    }
}

/// The fixed-layout encoding of the configuration record.
pub open spec fn config_bytes(c: ConfigState) -> Seq<u8> {
    seq![c.v] + c.authority@ + c.fee_collector@ + le_bytes(c.fee_bps as nat, 2) + seq![c.bump]
}

/// The configuration record that `b` holds, if it is exactly `CONFIG_LEN` bytes.
pub open spec fn parse_config(b: Seq<u8>) -> Option<ConfigState> {
    if b.len() == CONFIG_LEN {
        Some(
            ConfigState {
                v: b[0],
                authority: key_at(b, 1),
                fee_collector: key_at(b, 33),
                fee_bps: le_value(b.subrange(65, 67)) as u16,
                bump: b[67],
            },
        )
    } else {
        None
    }
}

/// Decoding an encoded escrow record gives the record back.
pub proof fn lemma_escrow_round_trip(s: EscrowState)
    ensures
        escrow_bytes(s).len() == ESCROW_LEN,
        parse_escrow(escrow_bytes(s)) == Some(s),
{
    let b = escrow_bytes(s);
    lemma_le_bytes_len(i64_bits(s.refund_after), 8);
    lemma_le_bytes_len(s.net_amount as nat, 8);
    lemma_le_bytes_len(s.fee_amount as nat, 8);
    lemma_le_bytes_len(s.fee_bps as nat, 2);
    lemma_pow256_small(2);
    lemma_i64_bits_round_trip(s.refund_after);
    lemma_le_round_trip(i64_bits(s.refund_after), 8);
    lemma_le_round_trip(s.net_amount as nat, 8);
    lemma_le_round_trip(s.fee_amount as nat, 8);
    lemma_le_round_trip(s.fee_bps as nat, 2);
    assert(b.len() == ESCROW_LEN);
    assert(b.subrange(2, 34) =~= s.payment_hash@);
    assert(b.subrange(34, 66) =~= s.recipient@);
    assert(b.subrange(66, 98) =~= s.refund@);
    assert(b.subrange(98, 106) =~= le_bytes(i64_bits(s.refund_after), 8));
    assert(b.subrange(106, 138) =~= s.mint@);
    assert(b.subrange(138, 146) =~= le_bytes(s.net_amount as nat, 8));
    assert(b.subrange(146, 154) =~= le_bytes(s.fee_amount as nat, 8));
    assert(b.subrange(154, 156) =~= le_bytes(s.fee_bps as nat, 2));
    assert(b.subrange(156, 188) =~= s.fee_collector@);
    assert(b.subrange(188, 220) =~= s.vault@);
    lemma_key_at(b, 2, s.payment_hash);
    lemma_key_at(b, 34, s.recipient);
    lemma_key_at(b, 66, s.refund);
    lemma_key_at(b, 106, s.mint);
    lemma_key_at(b, 156, s.fee_collector);
    lemma_key_at(b, 188, s.vault);
    assert(b[0] == s.v);
    assert(b[1] == status_byte(s.status));
    assert(b[220] == s.bump);
}

/// Decoding an encoded configuration record gives the record back.
pub proof fn lemma_config_round_trip(c: ConfigState)
    ensures
        config_bytes(c).len() == CONFIG_LEN,
        parse_config(config_bytes(c)) == Some(c),
{
    let b = config_bytes(c);
    lemma_le_bytes_len(c.fee_bps as nat, 2);
    lemma_pow256_small(2);
    lemma_le_round_trip(c.fee_bps as nat, 2);
    assert(b.subrange(1, 33) =~= c.authority@);
    assert(b.subrange(33, 65) =~= c.fee_collector@);
    assert(b.subrange(65, 67) =~= le_bytes(c.fee_bps as nat, 2));
    lemma_key_at(b, 1, c.authority);
    lemma_key_at(b, 33, c.fee_collector);
    assert(b[0] == c.v);
    assert(b[67] == c.bump);
}

/// The signed value whose two's-complement bits are `u`.
fn i64_from_u64(u: u64) -> (r: i64)
    ensures
        r == i64_from_bits(u as nat),
{
    if u < 0x8000_0000_0000_0000 {
        u as i64
    } else {
        let below: u64 = u64::MAX - u;
        -1 - (below as i64)
    }
}

/// The two's-complement bits of `x`.
fn i64_to_u64(x: i64) -> (r: u64)
    ensures
        r == i64_bits(x),
{
    if x >= 0 {
        x as u64
    } else {
        let shifted: i64 = x + i64::MAX + 1;
        shifted as u64 + 0x8000_0000_0000_0000
    }
}

impl EscrowState {
    /// Reads an escrow record; `None` unless `data` is exactly one record
    /// with a known status byte.
    pub fn decode(data: &[u8]) -> (r: Option<EscrowState>)
        ensures
            r == parse_escrow(data@),
    {
        if data.len() != ESCROW_LEN || data[1] > 2 {
            return None;
        }
        let status = if data[1] == 0 {
            EscrowStatus::Active
        } else if data[1] == 1 {
            EscrowStatus::Claimed
        } else {
            EscrowStatus::Refunded
        };
        let bits = read_le(data, 98, 8);
        Some(
            EscrowState {
                v: data[0],
                status,
                payment_hash: read_key(data, 2),
                recipient: read_key(data, 34),
                refund: read_key(data, 66),
                refund_after: i64_from_u64(bits),
                mint: read_key(data, 106),
                net_amount: read_le(data, 138, 8),
                fee_amount: read_le(data, 146, 8),
                fee_bps: read_le(data, 154, 2) as u16,
                fee_collector: read_key(data, 156),
                vault: read_key(data, 188),
                bump: data[220],
            },
        )
    }

    /// The record's fixed-layout bytes.
    pub fn encode(&self) -> (r: Vec<u8>)
        ensures
            r@ == escrow_bytes(*self),
    {
        let mut out: Vec<u8> = Vec::new();
        out.push(self.v);
        let status: u8 = match self.status {
            EscrowStatus::Active => 0,
            EscrowStatus::Claimed => 1,
            EscrowStatus::Refunded => 2,
        };
        out.push(status);
        push_bytes(&mut out, self.payment_hash.as_slice());
        push_bytes(&mut out, self.recipient.as_slice());
        push_bytes(&mut out, self.refund.as_slice());
        push_le(&mut out, i64_to_u64(self.refund_after), 8);
        push_bytes(&mut out, self.mint.as_slice());
        push_le(&mut out, self.net_amount, 8);
        push_le(&mut out, self.fee_amount, 8);
        push_le(&mut out, self.fee_bps as u64, 2);
        push_bytes(&mut out, self.fee_collector.as_slice());
        push_bytes(&mut out, self.vault.as_slice());
        out.push(self.bump);
        assert(out@ =~= escrow_bytes(*self));
        out
    }
}

impl ConfigState {
    /// Reads the configuration record; `None` unless `data` is exactly one record.
    pub fn decode(data: &[u8]) -> (r: Option<ConfigState>)
        ensures
            r == parse_config(data@),
    {
        if data.len() != CONFIG_LEN {
            return None;
        }
        Some(
            ConfigState {
                v: data[0],
                authority: read_key(data, 1),
                fee_collector: read_key(data, 33),
                fee_bps: read_le(data, 65, 2) as u16,
                bump: data[67],
            },
        )
    }

    /// The record's fixed-layout bytes.
    pub fn encode(&self) -> (r: Vec<u8>)
        ensures
            r@ == config_bytes(*self),
    {
        let mut out: Vec<u8> = Vec::new();
        out.push(self.v);
        push_bytes(&mut out, self.authority.as_slice());
        push_bytes(&mut out, self.fee_collector.as_slice());
        push_le(&mut out, self.fee_bps as u64, 2);
        out.push(self.bump);
        assert(out@ =~= config_bytes(*self));
        out
    }
}

} // verus!
