use vstd::prelude::*;

use crate::state::AccountId;
use crate::state::Vault;

verus! {

/// The 8-byte type tag that opens every vault account's data.
pub open spec fn vault_discriminator() -> Seq<u8> {
    seq![211u8, 8u8, 232u8, 43u8, 2u8, 152u8, 117u8, 119u8]
}

/// The discriminator as a byte vector, for building records and query filters.
pub fn vault_discriminator_bytes() -> (r: Vec<u8>)
    ensures
        r@ == vault_discriminator(),
{
    let mut out: Vec<u8> = Vec::new();
    out.push(211);
    out.push(8);
    out.push(232);
    out.push(43);
    out.push(2);
    out.push(152);
    out.push(117);
    out.push(119);
    proof {
        assert(out@ =~= vault_discriminator());
    }
    out
}

/// The eight little-endian bytes of `x`.
pub open spec fn le8(x: u64) -> Seq<u8> {
    seq![
        (x % 256) as u8,
        ((x / 256) % 256) as u8,
        ((x / 65536) % 256) as u8,
        ((x / 16777216) % 256) as u8,
        ((x / 4294967296) % 256) as u8,
        ((x / 1099511627776) % 256) as u8,
        ((x / 281474976710656) % 256) as u8,
        ((x / 72057594037927936) % 256) as u8,
    ]
}

/// The value of eight little-endian bytes.
pub open spec fn le8_val(s: Seq<u8>) -> u64
    recommends
        s.len() == 8,
{
    (s[0] + s[1] * 256 + s[2] * 65536 + s[3] * 16777216 + s[4] * 4294967296 + s[5]
        * 1099511627776 + s[6] * 281474976710656 + s[7] * 72057594037927936) as u64
}

pub proof fn lemma_le8_val_of_le8(x: u64)
    ensures
        le8_val(le8(x)) == x,
{
    assert(x % 256 + (x / 256) % 256 * 256 + (x / 65536) % 256 * 65536 + (x / 16777216) % 256
        * 16777216 + (x / 4294967296) % 256 * 4294967296 + (x / 1099511627776) % 256
        * 1099511627776 + (x / 281474976710656) % 256 * 281474976710656 + (x / 72057594037927936)
        % 256 * 72057594037927936 == x) by (bit_vector);
}

pub proof fn lemma_le8_of_le8_val(s: Seq<u8>)
    requires
        s.len() == 8,
    ensures
        le8(le8_val(s)) == s,
{
    let b0: u8 = s[0];
    let b1: u8 = s[1];
    let b2: u8 = s[2];
    let b3: u8 = s[3];
    let b4: u8 = s[4];
    let b5: u8 = s[5];
    let b6: u8 = s[6];
    let b7: u8 = s[7];
    assert({
        let v = (b0 + b1 * 256 + b2 * 65536 + b3 * 16777216 + b4 * 4294967296 + b5 * 1099511627776
            + b6 * 281474976710656 + b7 * 72057594037927936) as u64;
        v % 256 == b0 && (v / 256) % 256 == b1 && (v / 65536) % 256 == b2 && (v / 16777216) % 256
            == b3 && (v / 4294967296) % 256 == b4 && (v / 1099511627776) % 256 == b5 && (v
            / 281474976710656) % 256 == b6 && (v / 72057594037927936) % 256 == b7
    }) by (bit_vector);
    assert(le8(le8_val(s)) =~= s);
}

/// The unsigned value whose eight bytes store the timestamp `t`
/// (two's complement).
pub open spec fn ts_to_u64(t: i64) -> u64 {
    if t >= 0 {
        t as u64
    } else {
        (t + 0x10000000000000000) as u64
    }
}

/// The timestamp stored by the unsigned value `u` (two's complement).
pub open spec fn u64_to_ts(u: u64) -> i64 {
    if u < 0x8000000000000000 {
        u as i64
    } else {
        (u - 0x10000000000000000) as i64
    }
}

pub proof fn lemma_ts_round_trip(t: i64)
    ensures
        u64_to_ts(ts_to_u64(t)) == t,
{
}

pub proof fn lemma_u64_round_trip(u: u64)
    ensures
        ts_to_u64(u64_to_ts(u)) == u,
{
}

/// The 80-byte wire form of a vault record: discriminator, timestamp
/// (little-endian, two's complement), user address, mint address.
pub open spec fn vault_record_bytes(v: Vault) -> Seq<u8> {
    vault_discriminator() + le8(ts_to_u64(v.last_interest_payment_timestamp)) + v.user@ + v.mint@
}

/// Whether `s` is a well-formed vault record: exactly 80 bytes opening with
/// the vault discriminator.
pub open spec fn valid_vault_record(s: Seq<u8>) -> bool {
    s.len() == 80 && s.subrange(0, 8) == vault_discriminator()
}

fn encode_u64_le(x: u64) -> (r: Vec<u8>)
    ensures
        r@ == le8(x),
{
    let mut out: Vec<u8> = Vec::new();
    out.push((x % 256) as u8);
    out.push(((x / 256) % 256) as u8);
    out.push(((x / 65536) % 256) as u8);
    out.push(((x / 16777216) % 256) as u8);
    out.push(((x / 4294967296) % 256) as u8);
    out.push(((x / 1099511627776) % 256) as u8);
    out.push(((x / 281474976710656) % 256) as u8);
    out.push(((x / 72057594037927936) % 256) as u8);
    proof {
        assert(out@ =~= le8(x));
    }
    out
}

fn encode_ts(t: i64) -> (r: u64)
    ensures
        r == ts_to_u64(t),
{
    if t >= 0 {
        t as u64
    } else {
        let m: u64 = (-(t + 1)) as u64;
        u64::MAX - m
    }
}

fn decode_ts(u: u64) -> (r: i64)
    ensures
        r == u64_to_ts(u),
{
    if u < 0x8000000000000000 {
        u as i64
    } else {
        let m: i64 = (u64::MAX - u) as i64;
        -m - 1
    }
}

fn copy_range(data: &Vec<u8>, start: usize, len: usize) -> (r: Vec<u8>)
    requires
        start + len <= data@.len(),
    ensures
        r@ == data@.subrange(start as int, start + len),
{
    let n: usize = data.len();
    let mut out: Vec<u8> = Vec::new();
    let mut i: usize = 0;
    while i < len
        invariant
            start + len <= data@.len(),
            data@.len() == n,
            i <= len,
            out@ == data@.subrange(start as int, start + i),
        decreases len - i,
    {
        out.push(data[start + i]);
        proof {
            assert(out@ =~= data@.subrange(start as int, start + i + 1));
        }
        i = i + 1;
    }
    out
}

/// Serialize a vault record into its 80-byte wire form.
pub fn encode_vault(v: &Vault) -> (r: Vec<u8>)
    requires
        v.wf(),
    ensures
        r@ == vault_record_bytes(*v),
{
    let mut out = vault_discriminator_bytes();
    let mut ts = encode_u64_le(encode_ts(v.last_interest_payment_timestamp));
    out.append(&mut ts);
    let mut user = v.user.dup();
    out.append(&mut user.bytes);
    let mut mint = v.mint.dup();
    out.append(&mut mint.bytes);
    proof {
        assert(out@ =~= vault_record_bytes(*v));
    }
    out
}

/// Whether `data` opens with the vault discriminator, as the account scan's
/// byte-prefix filter asks.
pub fn has_vault_discriminator(data: &Vec<u8>) -> (r: bool)
    ensures
        r == (data@.len() >= 8 && data@.subrange(0, 8) == vault_discriminator()),
{
    if data.len() < 8 {
        return false;
    }
    let disc = vault_discriminator_bytes();
    let mut i: usize = 0;
    while i < 8
        invariant
            data@.len() >= 8,
            disc@ == vault_discriminator(),
            i <= 8,
            forall|j: int| 0 <= j < i ==> data@[j] == vault_discriminator()[j],
        decreases 8 - i,
    {
        if data[i] != disc[i] {
            proof {
                assert(data@.subrange(0, 8)[i as int] != vault_discriminator()[i as int]);
            }
            return false;
        }
        i = i + 1;
    }
    proof {
        assert(data@.subrange(0, 8) =~= vault_discriminator());
    }
    true
}

/// Parse an 80-byte vault record. Returns the record exactly when `data` is
/// a well-formed vault record, and recovers every field the wire form holds.
pub fn decode_vault(data: &Vec<u8>) -> (r: Option<Vault>)
    ensures
        r is Some <==> valid_vault_record(data@),
        r matches Some(v) ==> {
            &&& v.wf()
            &&& v.last_interest_payment_timestamp == u64_to_ts(le8_val(data@.subrange(8, 16)))
            &&& v.user@ == data@.subrange(16, 48)
            &&& v.mint@ == data@.subrange(48, 80)
            &&& vault_record_bytes(v) == data@
        },
{
    if data.len() != 80 {
        return None;
    }
    if !has_vault_discriminator(data) {
        return None;
    }
    let ts_bytes = copy_range(data, 8, 8);
    let ts_val: u64 = (ts_bytes[0] as u64) + (ts_bytes[1] as u64) * 256 + (ts_bytes[2] as u64) * 65536
        + (ts_bytes[3] as u64) * 16777216 + (ts_bytes[4] as u64) * 4294967296 + (
    ts_bytes[5] as u64) * 1099511627776 + (ts_bytes[6] as u64) * 281474976710656 + (
    ts_bytes[7] as u64) * 72057594037927936;
    proof {
        assert(ts_val == le8_val(data@.subrange(8, 16)));
    }
    let timestamp = decode_ts(ts_val);
    let user = AccountId::new(copy_range(data, 16, 32));
    let mint = AccountId::new(copy_range(data, 48, 32));
    let v = Vault { last_interest_payment_timestamp: timestamp, user, mint };
    proof {
        lemma_le8_of_le8_val(data@.subrange(8, 16));
        lemma_u64_round_trip(ts_val);
        assert(vault_record_bytes(v) =~= data@);
    }
    Some(v)
}

/// The wire form loses nothing: a well-formed record's bytes are a valid
/// vault record, and each field can be read back from its fixed offsets.
pub proof fn lemma_vault_record_invertible(v: Vault)
    requires
        v.wf(),
    ensures
        valid_vault_record(vault_record_bytes(v)),
        u64_to_ts(le8_val(vault_record_bytes(v).subrange(8, 16)))
            == v.last_interest_payment_timestamp,
        vault_record_bytes(v).subrange(16, 48) == v.user@,
        vault_record_bytes(v).subrange(48, 80) == v.mint@,
{
    let s = vault_record_bytes(v);
    assert(s.subrange(0, 8) =~= vault_discriminator());
    assert(s.subrange(8, 16) =~= le8(ts_to_u64(v.last_interest_payment_timestamp)));
    lemma_le8_val_of_le8(ts_to_u64(v.last_interest_payment_timestamp));
    lemma_ts_round_trip(v.last_interest_payment_timestamp);
    assert(s.subrange(16, 48) =~= v.user@);
    assert(s.subrange(48, 80) =~= v.mint@);
}

} // verus!
