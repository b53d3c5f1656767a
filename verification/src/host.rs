//! The parts of the host environment that contract logic reads: account
//! addresses, the ledger clock and the set of addresses that signed the call.

use vstd::prelude::*;

verus! {

/// An account or contract address, identified by a number.
#[derive(Clone, Copy, Debug, PartialEq, Eq, Hash, Structural)]
pub struct Address(pub u64);

impl Address {
    /// The key under which per-address records are stored.
    pub open spec fn key(self) -> u64 {
        self.0
    }
}

/// `m[k]`, or `d` where `m` holds no entry for `k`: a storage read with a
/// default.
pub open spec fn get_or<V>(m: Map<u64, V>, k: u64, d: V) -> V {
    if m.contains_key(k) {
        m[k]
    } else {
        d
    }
}

/// What a contract call can observe of its environment: the ledger clock and
/// the authorizations attached to the transaction.
pub struct Invocation {
    /// Ledger close time, in seconds.
    pub timestamp: u64,
    /// Ledger sequence number.
    pub sequence: u32,
    /// Every `require_auth` succeeds (the test environment's mocked auths).
    pub all_authorized: bool,
    /// Addresses whose signatures are attached to the call.
    pub signers: Vec<Address>,
}

impl Invocation {
    /// `who` has authorized this invocation.
    pub open spec fn authorizes(&self, who: Address) -> bool {
        self.all_authorized || self.signers@.contains(who)
    }

    /// A call at the given ledger in which every address is authorized.
    pub fn mocked(timestamp: u64, sequence: u32) -> (r: Invocation)
        ensures
            r.timestamp == timestamp,
            r.sequence == sequence,
            r.all_authorized,
            r.signers@ == Seq::<Address>::empty(),
    {
        Invocation { timestamp, sequence, all_authorized: true, signers: Vec::new() }
    }

    /// A call at the given ledger signed by exactly `signers`.
    pub fn signed_by(timestamp: u64, sequence: u32, signers: Vec<Address>) -> (r: Invocation)
        ensures
            r.timestamp == timestamp,
            r.sequence == sequence,
            !r.all_authorized,
            r.signers@ == signers@,
    {
        Invocation { timestamp, sequence, all_authorized: false, signers }
    }

    /// Checks that `who` authorized this invocation.
    pub fn require_auth(&self, who: Address) -> (ok: bool)
        ensures
            ok == self.authorizes(who),
    {
        if self.all_authorized {
            return true;
        }
        let n = self.signers.len();
        let mut i: usize = 0;
        while i < n
            invariant
                n == self.signers@.len(),
                i <= n,
                forall|j: int| 0 <= j < i ==> self.signers@[j] != who,
            decreases n - i,
        {
            if self.signers[i] == who {
                return true;
            }
            i = i + 1;
        }
        false
    }
}

/// Why a contract call was rejected: the contract's own error, or a missing
/// signature (which aborts the call before any state changes).
#[derive(Debug, PartialEq, Eq)]
pub enum Rejection<E> {
    Contract(E),
    NotAuthorized(Address),
}

} // verus!
