use vstd::prelude::*;
use crate::bytes::{le_bytes, le_u64, lemma_le_round_trip, push_u64_le, read_u64_le};
use crate::error::SwapError;
use crate::identity::Identity;

verus! {

/// The width of a stored record: flag, admin, swapped total, funded account.
pub const RECORD_LEN: usize = 73;

/// The persisted state of one exchange.
#[derive(Clone, Copy, Debug, PartialEq, Eq)]
pub struct SwapStore {
    pub is_initialized: bool,
    pub admin: Identity,
    pub amount_swapped: u64,
    pub token_funded_account: Identity,
}

/// The bytes of a record with the given fields: a flag byte, the admin, the
/// swapped total little-endian, the funded token account.
pub open spec fn encode_record(
    is_initialized: bool,
    admin: Seq<u8>,
    amount_swapped: u64,
    funded: Seq<u8>,
) -> Seq<u8> {
    seq![if is_initialized { 1u8 } else { 0u8 }] + admin + le_bytes(amount_swapped) + funded
}

/// Whether the bytes are a stored record: the fixed width and a flag of 0 or 1.
pub open spec fn record_decodes(d: Seq<u8>) -> bool {
    d.len() == 73 && d[0] <= 1
}

pub open spec fn record_initialized(d: Seq<u8>) -> bool {
    d[0] == 1
}

pub open spec fn record_admin(d: Seq<u8>) -> Seq<u8> {
    d.subrange(1, 33)
}

pub open spec fn record_amount(d: Seq<u8>) -> u64 {
    le_u64(d.subrange(33, 41))
}

pub open spec fn record_funded(d: Seq<u8>) -> Seq<u8> {
    d.subrange(41, 73)
}

/// A record's fields read back from its bytes are the fields it was written with.
pub proof fn lemma_record_round_trip(
    is_initialized: bool,
    admin: Seq<u8>,
    amount_swapped: u64,
    funded: Seq<u8>,
)
    requires
        admin.len() == 32,
        funded.len() == 32,
    ensures
        record_decodes(encode_record(is_initialized, admin, amount_swapped, funded)),
        record_initialized(encode_record(is_initialized, admin, amount_swapped, funded))
            == is_initialized,
        record_admin(encode_record(is_initialized, admin, amount_swapped, funded)) == admin,
        record_amount(encode_record(is_initialized, admin, amount_swapped, funded))
            == amount_swapped,
        record_funded(encode_record(is_initialized, admin, amount_swapped, funded)) == funded,
{
    let d = encode_record(is_initialized, admin, amount_swapped, funded);
    lemma_le_round_trip(amount_swapped);
    assert(record_admin(d) =~= admin);
    assert(d.subrange(33, 41) =~= le_bytes(amount_swapped));
    assert(record_funded(d) =~= funded);
}

impl SwapStore {
    /// Reads a record from its stored bytes.
    pub fn unpack(data: &[u8]) -> (r: Result<SwapStore, SwapError>)
        ensures
            match r {
                Ok(s) => {
                    &&& record_decodes(data@)
                    &&& s.is_initialized == record_initialized(data@)
                    &&& s.admin@ == record_admin(data@)
                    &&& s.amount_swapped == record_amount(data@)
                    &&& s.token_funded_account@ == record_funded(data@)
                },
                Err(e) => !record_decodes(data@) && e == SwapError::StateError,
            },
    {
        if data.len() != RECORD_LEN || data[0] > 1 {
            return Err(SwapError::StateError);
        }
        let is_initialized = data[0] == 1;
        let admin = Identity::read(data, 1);
        let amount_swapped = read_u64_le(data, 33);
        let token_funded_account = Identity::read(data, 41);
        Ok(SwapStore { is_initialized, admin, amount_swapped, token_funded_account })
    }

    /// The stored bytes of the record.
    pub fn pack(&self) -> (r: Vec<u8>)
        ensures
            r@ == encode_record(
                self.is_initialized,
                self.admin@,
                self.amount_swapped,
                self.token_funded_account@,
            ),
            r@.len() == RECORD_LEN,
    {
        let mut out: Vec<u8> = Vec::new();
        out.push(if self.is_initialized { 1u8 } else { 0u8 });
        self.admin.write(&mut out);
        push_u64_le(&mut out, self.amount_swapped);
        self.token_funded_account.write(&mut out);
        out
    }

    pub fn is_initialized(&self) -> (r: bool)
        ensures
            r == self.is_initialized,
    {
        self.is_initialized
    }
}

} // verus!
