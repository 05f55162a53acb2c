//! The escrow record and its fixed 105-byte storage layout.
use vstd::prelude::*;
use vstd::bytes::{spec_u64_from_le_bytes, spec_u64_to_le_bytes, u64_from_le_bytes, u64_to_le_bytes};

use crate::error::ProcessError;

verus! {

/// Size in bytes of a stored escrow record.
pub const ESCROW_LEN: usize = 105;

/// One open trade, as stored in the escrow record's account.
#[derive(Debug, Clone, Copy, PartialEq, Eq)]
pub struct Escrow {
    pub is_initialized: bool,
    /// The party who opened the trade.
    pub initializer_pubkey: [u8; 32],
    /// The holding slot in which the initializer's deposit waits.
    pub temp_token_account_pubkey: [u8; 32],
    /// The initializer's account that receives the counter-asset.
    pub initializer_token_to_receive_account_pubkey: [u8; 32],
    /// The quantity of the counter-asset the initializer demands.
    pub expected_amount: u64,
}

/// The content of an escrow record, with its identities as byte sequences.
pub struct EscrowView {
    pub is_initialized: bool,
    pub initializer: Seq<u8>,
    pub holding: Seq<u8>,
    pub receive: Seq<u8>,
    pub expected_amount: u64,
}

impl View for Escrow {
    type V = EscrowView;

    open spec fn view(&self) -> EscrowView {
        EscrowView {
            is_initialized: self.is_initialized,
            initializer: self.initializer_pubkey@,
            holding: self.temp_token_account_pubkey@,
            receive: self.initializer_token_to_receive_account_pubkey@,
            expected_amount: self.expected_amount,
        }
    }
}

impl EscrowView {
    /// Every identity is 32 bytes long, as in any stored record.
    pub open spec fn well_formed(self) -> bool {
        &&& self.initializer.len() == 32
        &&& self.holding.len() == 32
        &&& self.receive.len() == 32
    }
}

/// The stored bytes of a record: the flag, the three identities, the amount
/// in little-endian order.
pub open spec fn spec_pack(e: EscrowView) -> Seq<u8> {
    seq![if e.is_initialized { 1u8 } else { 0u8 }] + e.initializer + e.holding + e.receive
        + spec_u64_to_le_bytes(e.expected_amount)
}

/// The record that 105 stored bytes hold; any non-zero flag byte reads as open.
pub open spec fn spec_unpack(s: Seq<u8>) -> EscrowView {
    EscrowView {
        is_initialized: s[0] != 0,
        initializer: s.subrange(1, 33),
        holding: s.subrange(33, 65),
        receive: s.subrange(65, 97),
        expected_amount: spec_u64_from_le_bytes(s.subrange(97, 105)),
    }
}

/// Reading a record back from the bytes it was stored as gives the same
/// record, and the stored form is always 105 bytes long.
pub proof fn lemma_pack_unpack(e: EscrowView)
    requires
        e.well_formed(),
    ensures
        spec_pack(e).len() == ESCROW_LEN,
        spec_unpack(spec_pack(e)) == e,
{
    vstd::bytes::lemma_auto_spec_u64_to_from_le_bytes();
    let s = spec_pack(e);
    assert(s.subrange(1, 33) =~= e.initializer);
    assert(s.subrange(33, 65) =~= e.holding);
    assert(s.subrange(65, 97) =~= e.receive);
    assert(s.subrange(97, 105) =~= spec_u64_to_le_bytes(e.expected_amount));
}

fn copy_key(src: &[u8], start: usize) -> (r: [u8; 32])
    requires
        start + 32 <= src@.len(),
    ensures
        r@ == src@.subrange(start as int, start + 32),
{
    let mut r = [0u8; 32];
    let mut i: usize = 0;
    while i < 32
        invariant
            i <= 32,
            start + 32 <= src.len(),
            forall|j: int| 0 <= j < i ==> r@[j] == src@[start + j],
        decreases 32 - i,
    {
        r[i] = src[start + i];
        i = i + 1;
    }
    assert(r@ =~= src@.subrange(start as int, start + 32));
    r
}

fn push_key(dst: &mut Vec<u8>, key: &[u8; 32])
    ensures
        final(dst)@ == old(dst)@ + key@,
{
    let mut i: usize = 0;
    while i < 32
        invariant
            i <= 32,
            dst@ == old(dst)@ + key@.subrange(0, i as int),
        decreases 32 - i,
    {
        dst.push(key[i]);
        i = i + 1;
        assert(dst@ =~= old(dst)@ + key@.subrange(0, i as int));
    }
    assert(key@.subrange(0, 32) =~= key@);
}

impl Escrow {
    pub fn get_packed_len() -> (r: usize)
        ensures
            r == ESCROW_LEN,
    {
        ESCROW_LEN
    }

    /// Whether the record describes an open trade.
    pub fn is_initialized(&self) -> (r: bool)
        ensures
            r == self.is_initialized,
    {
        self.is_initialized
    }

    /// The record's stored form.
    pub fn to_bytes(&self) -> (r: Vec<u8>)
        ensures
            r@ == spec_pack(self@),
    {
        let mut r: Vec<u8> = Vec::new();
        r.push(if self.is_initialized { 1u8 } else { 0u8 });
        push_key(&mut r, &self.initializer_pubkey);
        push_key(&mut r, &self.temp_token_account_pubkey);
        push_key(&mut r, &self.initializer_token_to_receive_account_pubkey);
        let amount = u64_to_le_bytes(self.expected_amount);
        let mut i: usize = 0;
        let ghost base = r@;
        while i < 8
            invariant
                i <= 8,
                amount@.len() == 8,
                r@ == base + amount@.subrange(0, i as int),
            decreases 8 - i,
        {
            r.push(amount[i]);
            i = i + 1;
            assert(r@ =~= base + amount@.subrange(0, i as int));
        }
        assert(amount@.subrange(0, 8) =~= amount@);
        assert(r@ =~= spec_pack(self@));
        r
    }

    /// Reads a record from exactly 105 bytes.
    pub fn unpack_from_slice(src: &[u8]) -> (r: Escrow)
        requires
            src@.len() == ESCROW_LEN,
        ensures
            r@ == spec_unpack(src@),
    {
        let amount = u64_from_le_bytes(vstd::slice::slice_subrange(src, 97, 105));
        Escrow {
            is_initialized: src[0] != 0,
            initializer_pubkey: copy_key(src, 1),
            temp_token_account_pubkey: copy_key(src, 33),
            initializer_token_to_receive_account_pubkey: copy_key(src, 65),
            expected_amount: amount,
        }
    }

    /// Reads a record whatever its flag says; only the length is checked.
    pub fn unpack_unchecked(input: &[u8]) -> (r: Result<Escrow, ProcessError>)
        ensures
            input@.len() == ESCROW_LEN ==> (r matches Ok(e) && e@ == spec_unpack(input@)),
            input@.len() != ESCROW_LEN ==> r == Err::<Escrow, ProcessError>(
                ProcessError::InvalidAccountData,
            ),
    {
        if input.len() != ESCROW_LEN {
            return Err(ProcessError::InvalidAccountData);
        }
        Ok(Self::unpack_from_slice(input))
    }

    /// Reads a record that must describe an open trade.
    pub fn unpack(input: &[u8]) -> (r: Result<Escrow, ProcessError>)
        ensures
            input@.len() != ESCROW_LEN ==> r == Err::<Escrow, ProcessError>(
                ProcessError::InvalidAccountData,
            ),
            input@.len() == ESCROW_LEN && input@[0] == 0 ==> r == Err::<Escrow, ProcessError>(
                ProcessError::UninitializedAccount,
            ),
            input@.len() == ESCROW_LEN && input@[0] != 0 ==> (r matches Ok(e) && e@
                == spec_unpack(input@)),
    {
        let value = Self::unpack_unchecked(input)?;
        if value.is_initialized() {
            Ok(value)
        } else {
            Err(ProcessError::UninitializedAccount)
        }
    }

    /// Writes the record into a buffer of exactly 105 bytes.
    pub fn pack(src: Escrow, dst: &mut Vec<u8>) -> (r: Result<(), ProcessError>)
        ensures
            old(dst)@.len() == ESCROW_LEN ==> r is Ok && final(dst)@ == spec_pack(src@),
            old(dst)@.len() != ESCROW_LEN ==> r == Err::<(), ProcessError>(
                ProcessError::InvalidAccountData,
            ) && final(dst)@ == old(dst)@,
    {
        if dst.len() != ESCROW_LEN {
            return Err(ProcessError::InvalidAccountData);
        }
        proof {
            vstd::bytes::lemma_auto_spec_u64_to_from_le_bytes();
        }
        *dst = src.to_bytes();
        Ok(())
    }
}

} // verus!
