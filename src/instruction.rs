use vstd::prelude::*;
use crate::codec::{
    Address, le_value, i64_from_bits, key_at, lemma_key_at, lemma_le_value_bound, lemma_pow256_small,
    read_le,
};
use crate::error::EscrowError;

verus! {

/// One decoded instruction.
#[derive(Clone, Copy, Debug)]
pub enum EscrowInstruction {
    Init {
        payment_hash: Address,
        recipient: Address,
        refund: Address,
        refund_after: i64,
        amount: u64,
    },
    Claim { preimage: Address },
    Refund,
    InitConfig { fee_collector: Address, fee_bps: u16 },
    SetConfig { fee_collector: Address, fee_bps: u16 },
    WithdrawFees { amount: u64 },
}

/// The instruction that `d` encodes: a tag byte, then that instruction's
/// fixed-width little-endian fields; bytes past them are ignored. `None` for
/// an empty buffer, an unknown tag, or a buffer too short for its fields.
pub open spec fn parse_ix_spec(d: Seq<u8>) -> Option<EscrowInstruction> {
    if d.len() == 0 {
        None
    } else if d[0] == 0 {
        if d.len() >= 113 {
            Some(
                EscrowInstruction::Init {
                    payment_hash: key_at(d, 1),
                    recipient: key_at(d, 33),
                    refund: key_at(d, 65),
                    refund_after: i64_from_bits(le_value(d.subrange(97, 105))) as i64,
                    amount: le_value(d.subrange(105, 113)) as u64,
                },
            )
        } else {
            None
        }
    } else if d[0] == 1 {
        if d.len() >= 33 {
            Some(EscrowInstruction::Claim { preimage: key_at(d, 1) })
        } else {
            None
        }
    } else if d[0] == 2 {
        Some(EscrowInstruction::Refund)
    } else if d[0] == 3 || d[0] == 4 {
        if d.len() >= 35 {
            let fee_collector = key_at(d, 1);
            let fee_bps = le_value(d.subrange(33, 35)) as u16;
            if d[0] == 3 {
                Some(EscrowInstruction::InitConfig { fee_collector, fee_bps })
            } else {
                Some(EscrowInstruction::SetConfig { fee_collector, fee_bps })
            }
        } else {
            None
        }
    } else if d[0] == 5 {
        if d.len() >= 9 {
            Some(EscrowInstruction::WithdrawFees { amount: le_value(d.subrange(1, 9)) as u64 })
        } else {
            None
        }
    } else {
        None
    }
}

/// Takes the first `N` bytes off `data`; fails with `InvalidInstruction`,
/// leaving `data` as it was, when fewer remain.
pub fn read_bytes<const N: usize>(data: &mut &[u8]) -> (r: Result<[u8; N], EscrowError>)
    ensures
        old(data)@.len() < N ==> r == Err::<[u8; N], EscrowError>(EscrowError::InvalidInstruction)
            && final(data)@ == old(data)@,
        old(data)@.len() >= N ==> (r matches Ok(a) && a@ == old(data)@.subrange(0, N as int)
            && final(data)@ == old(data)@.subrange(N as int, old(data)@.len() as int)),
{
    if data.len() < N {
        return Err(EscrowError::InvalidInstruction);
    }
    let (head, tail) = data.split_at(N);
    *data = tail;
    let mut out: [u8; N] = [0u8; N];
    let mut i: usize = 0;
    while i < N
        invariant
            i <= N,
            head@.len() == N,
            out@.len() == N,
            forall|j: int| 0 <= j < i ==> out@[j] == head@[j],
        decreases N - i,
    {
        out[i] = head[i];
        i = i + 1;
    }
    assert(out@ =~= head@);
    Ok(out)
}

/// Takes a little-endian u64 off `data`.
pub fn read_u64_le(data: &mut &[u8]) -> (r: Result<u64, EscrowError>)
    ensures
        old(data)@.len() < 8 ==> r == Err::<u64, EscrowError>(EscrowError::InvalidInstruction)
            && final(data)@ == old(data)@,
        old(data)@.len() >= 8 ==> r == Ok::<u64, EscrowError>(
            le_value(old(data)@.subrange(0, 8)) as u64,
        ) && final(data)@ == old(data)@.subrange(8, old(data)@.len() as int),
{
    match read_bytes::<8>(data) {
        Ok(b) => {
            let v = read_le(b.as_slice(), 0, 8);
            assert(b@.subrange(0, 8) =~= b@);
            Ok(v)
        },
        Err(e) => Err(e),
    }
}

/// Takes a little-endian two's-complement i64 off `data`.
pub fn read_i64_le(data: &mut &[u8]) -> (r: Result<i64, EscrowError>)
    ensures
        old(data)@.len() < 8 ==> r == Err::<i64, EscrowError>(EscrowError::InvalidInstruction)
            && final(data)@ == old(data)@,
        old(data)@.len() >= 8 ==> r == Ok::<i64, EscrowError>(
            i64_from_bits(le_value(old(data)@.subrange(0, 8))) as i64,
        ) && final(data)@ == old(data)@.subrange(8, old(data)@.len() as int),
{
    proof {
        lemma_le_value_bound(old(data)@.subrange(0, 8));
        lemma_pow256_small(8);
    }
    match read_u64_le(data) {
        Ok(u) => {
            if u < 0x8000_0000_0000_0000 {
                Ok(u as i64)
            } else {
                let below: u64 = u64::MAX - u;
                Ok(-1 - (below as i64))
            }
        },
        Err(e) => Err(e),
    }
}

/// Takes a little-endian u16 off `data`.
pub fn read_u16_le(data: &mut &[u8]) -> (r: Result<u16, EscrowError>)
    ensures
        old(data)@.len() < 2 ==> r == Err::<u16, EscrowError>(EscrowError::InvalidInstruction)
            && final(data)@ == old(data)@,
        old(data)@.len() >= 2 ==> r == Ok::<u16, EscrowError>(
            le_value(old(data)@.subrange(0, 2)) as u16,
        ) && final(data)@ == old(data)@.subrange(2, old(data)@.len() as int),
{
    match read_bytes::<2>(data) {
        Ok(b) => {
            let v = read_le(b.as_slice(), 0, 2);
            assert(b@.subrange(0, 2) =~= b@);
            proof {
                lemma_le_value_bound(b@);
                lemma_pow256_small(2);
            }
            Ok(v as u16)
        },
        Err(e) => Err(e),
    }
}

/// Decodes an instruction buffer; fails with `InvalidInstruction` exactly
/// when `parse_ix_spec` finds no instruction in it.
pub fn parse_ix(input: &[u8]) -> (r: Result<EscrowInstruction, EscrowError>)
    ensures
        r == (match parse_ix_spec(input@) {
            Some(ix) => Ok::<EscrowInstruction, EscrowError>(ix),
            None => Err(EscrowError::InvalidInstruction),
        }),
{
    let ghost d = input@;
    if input.len() == 0 {
        return Err(EscrowError::InvalidInstruction);
    }
    let tag = input[0];
    let (_, rest) = input.split_at(1);
    let mut data: &[u8] = rest;
    assert(data@ =~= d.subrange(1, d.len() as int));
    if tag == 0 {
        let payment_hash = match read_bytes::<32>(&mut data) {
            Ok(a) => a,
            Err(e) => return Err(e),
        };
        assert(data@ =~= d.subrange(33, d.len() as int));
        let recipient = match read_bytes::<32>(&mut data) {
            Ok(a) => a,
            Err(e) => return Err(e),
        };
        assert(data@ =~= d.subrange(65, d.len() as int));
        let refund = match read_bytes::<32>(&mut data) {
            Ok(a) => a,
            Err(e) => return Err(e),
        };
        assert(data@ =~= d.subrange(97, d.len() as int));
        proof {
            if d.len() >= 105 {
                assert(data@.subrange(0, 8) =~= d.subrange(97, 105));
            }
        }
        let refund_after = match read_i64_le(&mut data) {
            Ok(v) => v,
            Err(e) => return Err(e),
        };
        assert(data@ =~= d.subrange(105, d.len() as int));
        proof {
            if d.len() >= 113 {
                assert(data@.subrange(0, 8) =~= d.subrange(105, 113));
            }
        }
        let amount = match read_u64_le(&mut data) {
            Ok(v) => v,
            Err(e) => return Err(e),
        };
        proof {
            assert(payment_hash@ =~= d.subrange(1, 33));
            assert(recipient@ =~= d.subrange(33, 65));
            assert(refund@ =~= d.subrange(65, 97));
            lemma_key_at(d, 1, payment_hash);
            lemma_key_at(d, 33, recipient);
            lemma_key_at(d, 65, refund);
        }
        Ok(EscrowInstruction::Init { payment_hash, recipient, refund, refund_after, amount })
    } else if tag == 1 {
        let preimage = match read_bytes::<32>(&mut data) {
            Ok(a) => a,
            Err(e) => return Err(e),
        };
        proof {
            assert(preimage@ =~= d.subrange(1, 33));
            lemma_key_at(d, 1, preimage);
        }
        Ok(EscrowInstruction::Claim { preimage })
    } else if tag == 2 {
        Ok(EscrowInstruction::Refund)
    } else if tag == 3 || tag == 4 {
        let fee_collector = match read_bytes::<32>(&mut data) {
            Ok(a) => a,
            Err(e) => return Err(e),
        };
        assert(data@ =~= d.subrange(33, d.len() as int));
        proof {
            if d.len() >= 35 {
                assert(data@.subrange(0, 2) =~= d.subrange(33, 35));
            }
        }
        let fee_bps = match read_u16_le(&mut data) {
            Ok(v) => v,
            Err(e) => return Err(e),
        };
        proof {
            assert(fee_collector@ =~= d.subrange(1, 33));
            lemma_key_at(d, 1, fee_collector);
        }
        if tag == 3 {
            Ok(EscrowInstruction::InitConfig { fee_collector, fee_bps })
        } else {
            Ok(EscrowInstruction::SetConfig { fee_collector, fee_bps })
        }
    } else if tag == 5 {
        proof {
            if d.len() >= 9 {
                assert(data@.subrange(0, 8) =~= d.subrange(1, 9));
            }
        }
        let amount = match read_u64_le(&mut data) {
            Ok(v) => v,
            Err(e) => return Err(e),
        };
        Ok(EscrowInstruction::WithdrawFees { amount })
    } else {
        Err(EscrowError::InvalidInstruction)
    }
}

} // verus!
