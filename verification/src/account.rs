//! Accounts: an owner and a storage region of fixed capacity.
//!
//! The region never changes its length. The record stored in an account
//! occupies the leading `len` bytes of the region; an account with `len == 0`
//! holds no record.

use crate::failure::Failure;
use crate::identity::Identity;
use vstd::prelude::*;

verus! {

/// What an account is, as a mathematical value.
pub struct AccountState {
    /// The bytes of the owner's identity.
    pub owner: Seq<u8>,
    /// The whole storage region; its length is the account's capacity.
    pub region: Seq<u8>,
    /// How many leading bytes of the region are in use.
    pub len: nat,
}

/// `n` zero bytes.
pub open spec fn zeros(n: nat) -> Seq<u8> {
    Seq::new(n, |i: int| 0u8)
}

impl AccountState {
    /// The bytes in use do not exceed the region, and the region is one that
    /// a machine can hold.
    pub open spec fn wf(self) -> bool {
        self.len <= self.region.len() <= usize::MAX
    }

    /// The fixed number of bytes the account can hold.
    pub open spec fn capacity(self) -> nat {
        self.region.len()
    }

    /// The bytes in use: the account's storage.
    pub open spec fn stored(self) -> Seq<u8> {
        self.region.subrange(0, self.len as int)
    }

    /// The account after `bytes` were written at the front of its region:
    /// they are its storage now, and the region behind them is as before.
    pub open spec fn written(self, bytes: Seq<u8>) -> AccountState
        recommends
            bytes.len() <= self.region.len(),
    {
        AccountState {
            owner: self.owner,
            region: bytes + self.region.skip(bytes.len() as int),
            len: bytes.len(),
        }
    }

    /// The account after its region was filled with zeros: same capacity,
    /// nothing in use.
    pub open spec fn cleared(self) -> AccountState {
        AccountState { owner: self.owner, region: zeros(self.region.len()), len: 0 }
    }
}

/// A vector of `n` zero bytes.
fn zeroed(n: usize) -> (bytes: Vec<u8>)
    ensures
        bytes@ == zeros(n as nat),
{
    let mut bytes: Vec<u8> = Vec::new();
    let mut i: usize = 0;
    while i < n
        invariant
            i <= n,
            bytes@ == zeros(i as nat),
        decreases n - i,
    {
        bytes.push(0u8);
        i += 1;
        assert(bytes@ =~= zeros(i as nat));
    }
    bytes
}

/// An account of the host: an owner and a storage region.
#[derive(Debug)]
pub struct Account {
    owner: Identity,
    region: Vec<u8>,
    len: usize,
}

impl View for Account {
    type V = AccountState;

    /// The length is capped by the region, so that the view of any value is
    /// well-formed; of a value that a program holds the cap changes nothing.
    closed spec fn view(&self) -> AccountState {
        AccountState {
            owner: self.owner@,
            region: self.region@,
            len: if self.len <= self.region@.len() {
                self.len as nat
            } else {
                self.region@.len()
            },
        }
    }
}

impl Account {
    #[verifier::type_invariant]
    spec fn in_bounds(self) -> bool {
        self.len <= self.region@.len()
    }

    /// The bytes in use never exceed the region.
    pub proof fn lemma_wf(self)
        ensures
            self@.wf(),
    {
        vstd::std_specs::vec::axiom_spec_len(&self.region);
    }

    /// An account of the given capacity that holds nothing: its region is
    /// all zeros.
    pub fn new(owner: Identity, capacity: usize) -> (account: Account)
        ensures
            account@ == (AccountState { owner: owner@, region: zeros(capacity as nat), len: 0 }),
    {
        Account { owner, region: zeroed(capacity), len: 0 }
    }

    /// The account with the given region, of which the leading `len` bytes
    /// are in use. There is none if `len` exceeds the region.
    pub fn from_parts(owner: Identity, region: Vec<u8>, len: usize) -> (res: Option<Account>)
        ensures
            res is Some <==> len <= region@.len(),
            res matches Some(account) ==> account@ == (AccountState {
                owner: owner@,
                region: region@,
                len: len as nat,
            }),
    {
        if len <= region.len() {
            Some(Account { owner, region, len })
        } else {
            None
        }
    }

    /// The owner of the account.
    pub fn owner(&self) -> (owner: &Identity)
        ensures
            owner@ == self@.owner,
    {
        &self.owner
    }

    /// The fixed number of bytes the account can hold.
    pub fn capacity(&self) -> (capacity: usize)
        ensures
            capacity == self@.capacity(),
    {
        self.region.len()
    }

    /// The number of bytes in use.
    pub fn len(&self) -> (len: usize)
        ensures
            len == self@.len,
    {
        proof {
            use_type_invariant(self);
        }
        self.len
    }

    /// Whether the account holds a record.
    pub fn is_initialized(&self) -> (initialized: bool)
        ensures
            initialized == (self@.len > 0),
    {
        proof {
            use_type_invariant(self);
        }
        self.len > 0
    }

    /// The whole storage region.
    pub fn region(&self) -> (region: &[u8])
        ensures
            region@ == self@.region,
    {
        self.region.as_slice()
    }

    /// The bytes in use.
    pub fn stored(&self) -> (stored: &[u8])
        ensures
            stored@ == self@.stored(),
    {
        proof {
            use_type_invariant(self);
        }
        vstd::slice::slice_subrange(self.region.as_slice(), 0, self.len)
    }

    /// Writes `bytes` at the front of the region and takes them as the
    /// account's storage.
    ///
    /// Fails with `StorageSizeMismatch`, and changes nothing, exactly when
    /// there are more bytes than the region holds.
    pub fn write(&mut self, bytes: &[u8]) -> (res: Result<(), Failure>)
        ensures
            bytes@.len() <= old(self)@.capacity() ==> res == Ok::<(), Failure>(()) && final(self)@
                == old(self)@.written(bytes@),
            bytes@.len() > old(self)@.capacity() ==> res == Err::<(), Failure>(
                Failure::StorageSizeMismatch,
            ) && final(self)@ == old(self)@,
    {
        proof {
            use_type_invariant(&*self);
        }
        let n = bytes.len();
        if n > self.region.len() {
            return Err(Failure::StorageSizeMismatch);
        }
        let capacity = self.region.len();
        let mut region: Vec<u8> = Vec::new();
        let mut i: usize = 0;
        while i < capacity
            invariant
                i <= capacity,
                n == bytes@.len(),
                n <= capacity,
                capacity == self.region@.len(),
                region@.len() == i,
                forall|j: int| 0 <= j < i && j < n ==> region@[j] == bytes@[j],
                forall|j: int| n <= j < i ==> region@[j] == self.region@[j],
            decreases capacity - i,
        {
            if i < n {
                region.push(bytes[i]);
            } else {
                region.push(self.region[i]);
            }
            i += 1;
        }
        assert(region@ =~= bytes@ + self.region@.skip(n as int));
        self.region = region;
        self.len = n;
        Ok(())
    }

    /// Fills the region with zeros and leaves nothing in use.
    pub fn clear(&mut self)
        ensures
            final(self)@ == old(self)@.cleared(),
    {
        let region = zeroed(self.region.len());
        self.len = 0;
        self.region = region;
    }
}

} // verus!
