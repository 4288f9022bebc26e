//! The pool record: the persistent state of one pool and its byte layout.

use vstd::prelude::*;
use crate::bytes::{lemma_u16_le_round_trip, read_key, read_u16_le, u16_le, u16_le_bytes};
use crate::engine::FEE_DENOMINATOR;
use crate::error::ProgramError;
use crate::pubkey::{lemma_key_is_its_bytes, lp_mint_address, pool_address, Pubkey};

verus! {

/// The record of one pool. Its layout is fixed: the six addresses in the
/// order of the fields, the fee rate as a little-endian 16-bit integer, and
/// the two bumps, with no padding.
#[derive(Clone, Copy, Debug, PartialEq, Eq)]
pub struct Pool {
    /// The account that created the pool.
    pub authority: Pubkey,
    pub token_a_mint: Pubkey,
    pub token_b_mint: Pubkey,
    pub token_a_vault: Pubkey,
    pub token_b_vault: Pubkey,
    pub lp_mint: Pubkey,
    /// The swap fee in basis points.
    pub fee_rate: u16,
    /// The bump of the pool's own address.
    pub bump: u8,
    /// The bump of the LP-mint address.
    pub lp_mint_bump: u8,
}

impl Pool {
    /// The length of the record in bytes.
    pub const LEN: usize = 196;

    /// What holds of every record for its lifetime, as far as the record
    /// itself shows it: the two assets differ and the fee is at most the whole.
    pub open spec fn wf(self) -> bool {
        &&& self.token_a_mint != self.token_b_mint
        &&& self.fee_rate <= FEE_DENOMINATOR
    }

    /// The record is stored at the address derived from its two mints and
    /// names the LP mint derived from that address, each with its bump.
    pub open spec fn stored_at(self, pool: Pubkey) -> bool {
        &&& pool_address(self.token_a_mint, self.token_b_mint) == Some((pool@, self.bump))
        &&& lp_mint_address(pool) == Some((self.lp_mint@, self.lp_mint_bump))
    }

    /// The 196 bytes of the record.
    pub open spec fn encoding(self) -> Seq<u8> {
        self.authority@ + self.token_a_mint@ + self.token_b_mint@ + self.token_a_vault@
            + self.token_b_vault@ + self.lp_mint@ + u16_le_bytes(self.fee_rate) + seq![
            self.bump,
            self.lp_mint_bump,
        ]
    }

    /// The record is what the first 196 bytes of `bytes` hold: each field
    /// at its offset.
    pub open spec fn decoded_from(self, bytes: Seq<u8>) -> bool {
        &&& bytes.len() >= Pool::LEN
        &&& self.authority@ == bytes.subrange(0, 32)
        &&& self.token_a_mint@ == bytes.subrange(32, 64)
        &&& self.token_b_mint@ == bytes.subrange(64, 96)
        &&& self.token_a_vault@ == bytes.subrange(96, 128)
        &&& self.token_b_vault@ == bytes.subrange(128, 160)
        &&& self.lp_mint@ == bytes.subrange(160, 192)
        &&& self.fee_rate == Pool::recorded_fee_rate(bytes)
        &&& self.bump == bytes[194]
        &&& self.lp_mint_bump == bytes[195]
    }

    /// The fee rate of the record that `bytes` hold.
    pub open spec fn recorded_fee_rate(bytes: Seq<u8>) -> u16 {
        u16_le(bytes, 192)
    }

    /// Sets every field of the record. Two distinct mints and a fee of at
    /// most the whole make it well formed.
    pub fn set_inner_full(
        &mut self,
        authority: Pubkey,
        token_a_mint: Pubkey,
        token_b_mint: Pubkey,
        token_a_vault: Pubkey,
        token_b_vault: Pubkey,
        lp_mint: Pubkey,
        fee_rate: u16,
        bump: u8,
        lp_mint_bump: u8,
    )
        ensures
            *final(self) == (Pool {
                authority,
                token_a_mint,
                token_b_mint,
                token_a_vault,
                token_b_vault,
                lp_mint,
                fee_rate,
                bump,
                lp_mint_bump,
            }),
            token_a_mint != token_b_mint && fee_rate <= FEE_DENOMINATOR ==> final(self).wf(),
    {
        self.authority = authority;
        self.token_a_mint = token_a_mint;
        self.token_b_mint = token_b_mint;
        self.token_a_vault = token_a_vault;
        self.token_b_vault = token_b_vault;
        self.lp_mint = lp_mint;
        self.fee_rate = fee_rate;
        self.bump = bump;
        self.lp_mint_bump = lp_mint_bump;
    }

    /// Reads the record from the first 196 bytes of an account's data. A
    /// shorter buffer is refused before any byte is read.
    pub fn load_mut(data: &[u8]) -> (r: Result<Pool, ProgramError>)
        ensures
            data@.len() < Pool::LEN ==> r == Err::<Pool, ProgramError>(
                ProgramError::InvalidAccountData,
            ),
            data@.len() >= Pool::LEN ==> r is Ok && r->Ok_0.decoded_from(data@),
    {
        if data.len() < Pool::LEN {
            return Err(ProgramError::InvalidAccountData);
        }
        let pool = Pool {
            authority: read_key(data, 0),
            token_a_mint: read_key(data, 32),
            token_b_mint: read_key(data, 64),
            token_a_vault: read_key(data, 96),
            token_b_vault: read_key(data, 128),
            lp_mint: read_key(data, 160),
            fee_rate: read_u16_le(data, 192),
            bump: data[194],
            lp_mint_bump: data[195],
        };
        Ok(pool)
    }

    /// The 196 bytes of the record.
    pub fn to_bytes(&self) -> (bytes: Vec<u8>)
        ensures
            bytes@ == self.encoding(),
    {
        let mut bytes: Vec<u8> = Vec::new();
        append_key(&mut bytes, &self.authority);
        append_key(&mut bytes, &self.token_a_mint);
        append_key(&mut bytes, &self.token_b_mint);
        append_key(&mut bytes, &self.token_a_vault);
        append_key(&mut bytes, &self.token_b_vault);
        append_key(&mut bytes, &self.lp_mint);
        bytes.push((self.fee_rate % 0x100) as u8);
        bytes.push((self.fee_rate / 0x100) as u8);
        bytes.push(self.bump);
        bytes.push(self.lp_mint_bump);
        assert(bytes@ =~= self.encoding());
        bytes
    }

    /// Writes the record over the first 196 bytes of an account's data and
    /// leaves the rest as it is. A shorter buffer is refused, unchanged.
    pub fn store(&self, data: &mut Vec<u8>) -> (r: Result<(), ProgramError>)
        ensures
            old(data)@.len() < Pool::LEN ==> r == Err::<(), ProgramError>(
                ProgramError::InvalidAccountData,
            ) && final(data)@ == old(data)@,
            old(data)@.len() >= Pool::LEN ==> r == Ok::<(), ProgramError>(()) && final(data)@
                == self.encoding() + old(data)@.subrange(
                Pool::LEN as int,
                old(data)@.len() as int,
            ),
    {
        if data.len() < Pool::LEN {
            return Err(ProgramError::InvalidAccountData);
        }
        let bytes = self.to_bytes();
        proof {
            lemma_encoding_len(*self);
        }
        let mut i: usize = 0;
        while i < Pool::LEN
            invariant
                i <= Pool::LEN,
                bytes@ == self.encoding(),
                bytes@.len() == Pool::LEN,
                data@.len() == old(data)@.len(),
                data@.len() >= Pool::LEN,
                forall|j: int| 0 <= j < i ==> data@[j] == bytes@[j],
                forall|j: int| i <= j < data@.len() ==> data@[j] == old(data)@[j],
            decreases Pool::LEN - i,
        {
            data.set(i, bytes[i]);
            i = i + 1;
        }
        assert(data@ =~= self.encoding() + old(data)@.subrange(
            Pool::LEN as int,
            old(data)@.len() as int,
        ));
        Ok(())
    }
}

fn append_key(bytes: &mut Vec<u8>, key: &Pubkey)
    ensures
        final(bytes)@ == old(bytes)@ + key@,
{
    let mut i: usize = 0;
    while i < 32
        invariant
            i <= 32,
            bytes@ == old(bytes)@ + key@.subrange(0, i as int),
        decreases 32 - i,
    {
        bytes.push(key[i]);
        assert(bytes@ =~= old(bytes)@ + key@.subrange(0, i + 1));
        i = i + 1;
    }
    assert(key@.subrange(0, 32) =~= key@);
}

/// A record takes 196 bytes.
pub proof fn lemma_encoding_len(pool: Pool)
    ensures
        pool.encoding().len() == Pool::LEN,
{
}

/// A record is read from a buffer exactly when the buffer starts with the
/// bytes of the record.
pub proof fn lemma_decoded_is_encoded(pool: Pool, bytes: Seq<u8>)
    ensures
        pool.decoded_from(bytes) <==> (bytes.len() >= Pool::LEN && pool.encoding()
            == bytes.subrange(0, Pool::LEN as int)),
{
    let e = pool.encoding();
    let fee = u16_le_bytes(pool.fee_rate);
    assert(fee[0] == e[192] && fee[1] == e[193]);
    lemma_u16_le_round_trip(pool.fee_rate);
    assert(pool.authority@ =~= e.subrange(0, 32));
    assert(pool.token_a_mint@ =~= e.subrange(32, 64));
    assert(pool.token_b_mint@ =~= e.subrange(64, 96));
    assert(pool.token_a_vault@ =~= e.subrange(96, 128));
    assert(pool.token_b_vault@ =~= e.subrange(128, 160));
    assert(pool.lp_mint@ =~= e.subrange(160, 192));
    if bytes.len() >= Pool::LEN {
        let head = bytes.subrange(0, Pool::LEN as int);
        if pool.decoded_from(bytes) {
            assert(fee[0] == bytes[192] && fee[1] == bytes[193]) by {
                assert(u16_le(fee, 0) == u16_le(bytes, 192));
            }
            assert forall|i: int| 0 <= i < Pool::LEN implies e[i] == head[i] by {
                if i < 32 {
                    assert(e[i] == bytes.subrange(0, 32)[i]);
                } else if i < 64 {
                    assert(e[i] == bytes.subrange(32, 64)[i - 32]);
                } else if i < 96 {
                    assert(e[i] == bytes.subrange(64, 96)[i - 64]);
                } else if i < 128 {
                    assert(e[i] == bytes.subrange(96, 128)[i - 96]);
                } else if i < 160 {
                    assert(e[i] == bytes.subrange(128, 160)[i - 128]);
                } else if i < 192 {
                    assert(e[i] == bytes.subrange(160, 192)[i - 160]);
                }
            }
            assert(e =~= head);
        }
        if e == head {
            assert(e.subrange(0, 32) =~= bytes.subrange(0, 32));
            assert(e.subrange(32, 64) =~= bytes.subrange(32, 64));
            assert(e.subrange(64, 96) =~= bytes.subrange(64, 96));
            assert(e.subrange(96, 128) =~= bytes.subrange(96, 128));
            assert(e.subrange(128, 160) =~= bytes.subrange(128, 160));
            assert(e.subrange(160, 192) =~= bytes.subrange(160, 192));
            assert(e[192] == bytes[192] && e[193] == bytes[193]);
            assert(e[194] == bytes[194] && e[195] == bytes[195]);
        }
    }
}

/// Two records read from the same bytes are the same record.
pub proof fn lemma_decoding_is_unique(p: Pool, q: Pool, bytes: Seq<u8>)
    requires
        p.decoded_from(bytes),
        q.decoded_from(bytes),
    ensures
        p == q,
{
    lemma_key_is_its_bytes(p.authority, q.authority);
    lemma_key_is_its_bytes(p.token_a_mint, q.token_a_mint);
    lemma_key_is_its_bytes(p.token_b_mint, q.token_b_mint);
    lemma_key_is_its_bytes(p.token_a_vault, q.token_a_vault);
    lemma_key_is_its_bytes(p.token_b_vault, q.token_b_vault);
    lemma_key_is_its_bytes(p.lp_mint, q.lp_mint);
}

/// What is read back from a buffer that a record was written to is that
/// record, whatever follows its 196 bytes.
pub proof fn lemma_load_after_store(stored: Pool, loaded: Pool, rest: Seq<u8>)
    requires
        loaded.decoded_from(stored.encoding() + rest),
    ensures
        loaded == stored,
{
    let bytes = stored.encoding() + rest;
    lemma_encoding_len(stored);
    assert(bytes.subrange(0, Pool::LEN as int) =~= stored.encoding());
    lemma_decoded_is_encoded(stored, bytes);
    lemma_decoding_is_unique(loaded, stored, bytes);
}

} // verus!
