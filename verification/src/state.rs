use vstd::prelude::*;

verus! {

/// A 32-byte on-chain address: a user wallet, a token mint, a derived
/// authority, or a program identity.
pub struct AccountId {
    pub bytes: Vec<u8>,
}

impl AccountId {
    /// An address is exactly 32 bytes long.
    pub open spec fn wf(&self) -> bool {
        self.bytes@.len() == 32
    }

    pub open spec fn view(&self) -> Seq<u8> {
        self.bytes@
    }

    pub fn new(bytes: Vec<u8>) -> (r: AccountId)
        requires
            bytes@.len() == 32,
        ensures
            r.wf(),
            r@ == bytes@,
    {
        AccountId { bytes }
    }

    pub fn dup(&self) -> (r: AccountId)
        ensures
            r@ == self@,
            self.wf() ==> r.wf(),
    {
        let mut out: Vec<u8> = Vec::new();
        let mut i: usize = 0;
        while i < self.bytes.len()
            invariant
                i <= self.bytes@.len(),
                out@ == self.bytes@.subrange(0, i as int),
            decreases self.bytes@.len() - i,
        {
            out.push(self.bytes[i]);
            i = i + 1;
        }
        assert(out@ == self.bytes@.subrange(0, self.bytes@.len() as int));
        assert(self.bytes@.subrange(0, self.bytes@.len() as int) =~= self.bytes@);
        AccountId { bytes: out }
    }

    /// Byte-for-byte equality of two addresses.
    pub fn matches(&self, other: &AccountId) -> (r: bool)
        ensures
            r == (self@ == other@),
    {
        if self.bytes.len() != other.bytes.len() {
            proof {
                assert(self@ != other@);
            }
            return false;
        }
        let mut i: usize = 0;
        while i < self.bytes.len()
            invariant
                self.bytes@.len() == other.bytes@.len(),
                i <= self.bytes@.len(),
                forall|j: int| 0 <= j < i ==> self.bytes@[j] == other.bytes@[j],
            decreases self.bytes@.len() - i,
        {
            if self.bytes[i] != other.bytes[i] {
                return false;
            }
            i = i + 1;
        }
        proof {
            assert(self@ =~= other@);
        }
        true
    }
}

/// The per-user vault record: owner, token mint, and the time of the last
/// interest payout. `user` and `mint` are fixed at creation; only
/// `last_interest_payment_timestamp` changes afterwards.
pub struct Vault {
    pub last_interest_payment_timestamp: i64,
    pub user: AccountId,
    pub mint: AccountId,
}

impl Vault {
    pub open spec fn wf(&self) -> bool {
        self.user.wf() && self.mint.wf()
    }
}

} // verus!
