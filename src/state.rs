use vstd::prelude::*;

verus! {

/// A 32-byte identity: an owner, a program, a queue or a derived address.
#[derive(Clone, Copy, Debug)]
pub struct Address {
    pub bytes: [u8; 32],
}

impl View for Address {
    type V = Seq<u8>;

    open spec fn view(&self) -> Seq<u8> {
        self.bytes@
    }
}

impl Address {
    /// Byte-wise comparison of two identities.
    pub fn same_as(&self, other: &Address) -> (r: bool)
        ensures
            r == (self@ == other@),
    {
        let mut i: usize = 0;
        while i < 32
            invariant
                0 <= i <= 32,
                self@.len() == 32,
                other@.len() == 32,
                forall|j: int| 0 <= j < i ==> self@[j] == other@[j],
            decreases 32 - i,
        {
            if self.bytes[i] != other.bytes[i] {
                return false;
            }
            i = i + 1;
        }
        assert(self@ =~= other@);
        true
    }
}

impl PartialEq for Address {
    fn eq(&self, other: &Address) -> (r: bool) {
        self.same_as(other)
    }
}

impl vstd::std_specs::cmp::PartialEqSpecImpl for Address {
    open spec fn obeys_eq_spec() -> bool {
        true
    }

    open spec fn eq_spec(&self, other: &Address) -> bool {
        self@ == other@
    }
}

impl Eq for Address {
}

/// Which execution layer holds write authority over a record.
#[derive(Clone, Copy, Debug, PartialEq, Eq, Structural)]
pub enum Authority {
    /// The base layer is authoritative.
    Local,
    /// The ephemeral layer is authoritative; the base layer keeps a checkpoint.
    Delegated,
}

/// The errors an instruction can end with. Every error leaves the record as it was.
#[derive(Clone, Copy, Debug, PartialEq, Eq, Structural)]
pub enum ErrorCode {
    AlreadyInitialized,
    AccountNotInitialized,
    NotOwner,
    AddressMismatch,
    AlreadyDelegated,
    NotDelegated,
    OracleQueueMismatch,
    UnauthorizedCallback,
}

/// One owner's record.
///
/// `data` is the value the authoritative layer sees; `committed` is the value
/// the base layer holds for it, which equals `data` whenever the record is
/// `Local` and is the last checkpoint while it is `Delegated`.
#[derive(Clone, Copy, Debug, PartialEq, Eq)]
pub struct UserAccount {
    pub owner: Address,
    pub data: u64,
    pub bump: u8,
    pub authority: Authority,
    pub committed: u64,
}

impl UserAccount {
    /// A record is well formed when, held locally, its base-layer value is its value.
    pub open spec fn wf(&self) -> bool {
        self.authority == Authority::Local ==> self.committed == self.data
    }

    /// A fresh record, as `initialize` creates it.
    pub fn new(owner: Address, bump: u8) -> (r: UserAccount)
        ensures
            r.owner == owner,
            r.bump == bump,
            r.data == 0,
            r.committed == 0,
            r.authority == Authority::Local,
            r.wf(),
    {
        UserAccount { owner, data: 0, bump, authority: Authority::Local, committed: 0 }
    }

    /// Whether `caller` owns this record.
    pub fn is_owned_by(&self, caller: &Address) -> (r: bool)
        ensures
            r == (self.owner@ == caller@),
    {
        self.owner.same_as(caller)
    }
}

} // verus!
