//! The keyed record store: creation and destruction of comment and reaction
//! records at derived addresses, with per-identity funding balances. Every
//! operation's effect is stated by a transition function over the store's
//! mathematical model.
use vstd::prelude::*;

use crate::address::Address;
use crate::errors::TwitterError;
use crate::kv::KvList;
use crate::states::{Comment, CommentModel, Reaction, ReactionModel};

verus! {

/// Largest record size the store accepts, in bytes.
pub const MAX_RECORD_SIZE: u64 = 10485760;

/// Fixed per-record byte overhead counted by the funding formula.
pub const STORAGE_OVERHEAD: u64 = 128;

/// Funding owed per counted byte of a record.
pub const FUNDING_PER_BYTE: u64 = 6960;

/// The payload of a stored record: a comment or a reaction.
pub enum RecordData {
    CommentRecord(Comment),
    ReactionRecord(Reaction),
}

/// The mathematical model of a record payload.
pub enum RecordDataModel {
    CommentRecord(CommentModel),
    ReactionRecord(ReactionModel),
}

impl View for RecordData {
    type V = RecordDataModel;

    open spec fn view(&self) -> RecordDataModel {
        match self {
            RecordData::CommentRecord(c) => RecordDataModel::CommentRecord(c@),
            RecordData::ReactionRecord(x) => RecordDataModel::ReactionRecord(x@),
        }
    }
}

/// A stored record: its payload and the funding it holds, refunded when the
/// record is closed.
pub struct StoredRecord {
    pub data: RecordData,
    pub lamports: u64,
}

/// The mathematical model of a stored record.
pub struct StoredRecordModel {
    pub data: RecordDataModel,
    pub lamports: u64,
}

impl View for StoredRecord {
    type V = StoredRecordModel;

    open spec fn view(&self) -> StoredRecordModel {
        StoredRecordModel { data: self.data@, lamports: self.lamports }
    }
}

/// The mathematical model of the store: records by address, and funding
/// balances by identity. An identity without an entry has balance zero.
#[verifier::ext_equal]
pub struct StoreModel {
    pub records: Map<Seq<u8>, StoredRecordModel>,
    pub balances: Map<Seq<u8>, u64>,
}

impl StoreModel {
    pub open spec fn balance_of(self, id: Seq<u8>) -> u64 {
        if self.balances.dom().contains(id) {
            self.balances[id]
        } else {
            0u64
        }
    }
}

/// The minimum funding a record of the given size must hold.
pub open spec fn min_funding_spec(size: u64) -> u64 {
    ((STORAGE_OVERHEAD + size) * FUNDING_PER_BYTE) as u64
}

/// Unsigned addition clamped at the largest 64-bit value.
pub open spec fn saturating_add_spec(a: u64, b: u64) -> u64 {
    if a + b > u64::MAX {
        u64::MAX
    } else {
        (a + b) as u64
    }
}

/// What `create` does: refuses an occupied address, then an underfunded
/// funder; otherwise records the payload at the address, holding the
/// minimum funding taken from the funder's balance.
pub open spec fn create_spec(
    s: StoreModel,
    address: Seq<u8>,
    size: u64,
    funder: Seq<u8>,
    data: RecordDataModel,
) -> (StoreModel, Result<(), TwitterError>) {
    let fee = min_funding_spec(size);
    if s.records.dom().contains(address) {
        (s, Err(TwitterError::AddressInUse))
    } else if s.balance_of(funder) < fee {
        (s, Err(TwitterError::InsufficientFunds))
    } else {
        (
            StoreModel {
                records: s.records.insert(address, StoredRecordModel { data, lamports: fee }),
                balances: s.balances.insert(funder, (s.balance_of(funder) - fee) as u64),
            },
            Ok(()),
        )
    }
}

/// What `close` does: refuses an empty address; otherwise drops the record
/// and refunds its held funding to the refund target, clamped at the
/// largest balance.
pub open spec fn close_spec(s: StoreModel, address: Seq<u8>, refund: Seq<u8>) -> (
    StoreModel,
    Result<(), TwitterError>,
) {
    if !s.records.dom().contains(address) {
        (s, Err(TwitterError::NotFound))
    } else {
        (
            StoreModel {
                records: s.records.remove(address),
                balances: s.balances.insert(
                    refund,
                    saturating_add_spec(s.balance_of(refund), s.records[address].lamports),
                ),
            },
            Ok(()),
        )
    }
}

/// The executable record store.
pub struct RecordStore {
    records: KvList<StoredRecord>,
    balances: KvList<u64>,
}

impl View for RecordStore {
    type V = StoreModel;

    closed spec fn view(&self) -> StoreModel {
        StoreModel { records: self.records@, balances: self.balances@ }
    }
}

impl RecordStore {
    pub closed spec fn wf(&self) -> bool {
        self.records.wf() && self.balances.wf()
    }

    pub fn new() -> (r: RecordStore)
        ensures
            r.wf(),
            r@ == (StoreModel {
                records: Map::<Seq<u8>, StoredRecordModel>::empty(),
                balances: Map::<Seq<u8>, u64>::empty(),
            }),
    {
        RecordStore { records: KvList::new(), balances: KvList::new() }
    }

    /// Sets an identity's funding balance; the ledger layer owns balances,
    /// this entry point stands for its deposits.
    pub fn set_balance(&mut self, id: &Address, amount: u64)
        requires
            old(self).wf(),
        ensures
            final(self).wf(),
            final(self)@ == (StoreModel {
                records: old(self)@.records,
                balances: old(self)@.balances.insert(id@, amount),
            }),
    {
        self.balances.set(id.dup(), amount);
    }

    pub fn balance_of(&self, id: &Address) -> (r: u64)
        requires
            self.wf(),
        ensures
            r == self@.balance_of(id@),
    {
        match self.balances.get(id) {
            Some(b) => *b,
            None => 0,
        }
    }

    pub fn contains(&self, address: &Address) -> (r: bool)
        requires
            self.wf(),
        ensures
            r == self@.records.dom().contains(address@),
    {
        self.records.contains_key(address)
    }

    /// The minimum funding a record of the given size must hold.
    pub fn minimum_funding(size: u64) -> (r: u64)
        requires
            size <= MAX_RECORD_SIZE,
        ensures
            r == min_funding_spec(size),
            r > 0,
    {
        (STORAGE_OVERHEAD + size) * FUNDING_PER_BYTE
    }

    /// Creates a record at an address, funded by `funder`.
    pub fn create(&mut self, address: &Address, size: u64, funder: &Address, data: RecordData) -> (r:
        Result<(), TwitterError>)
        requires
            old(self).wf(),
            size <= MAX_RECORD_SIZE,
        ensures
            final(self).wf(),
            (final(self)@, r) == create_spec(old(self)@, address@, size, funder@, data@),
    {
        if self.records.contains_key(address) {
            return Err(TwitterError::AddressInUse);
        }
        let fee = Self::minimum_funding(size);
        let bal = self.balance_of(funder);
        if bal < fee {
            return Err(TwitterError::InsufficientFunds);
        }
        self.records.set(address.dup(), StoredRecord { data, lamports: fee });
        self.balances.set(funder.dup(), bal - fee);
        proof {
            assert(self@ =~= create_spec(old(self)@, address@, size, funder@, data@).0);
        }
        Ok(())
    }

    /// Looks up the record at an address; the ledger model supports point
    /// lookups only.
    pub fn read(&self, address: &Address) -> (r: Option<&StoredRecord>)
        requires
            self.wf(),
        ensures
            match r {
                Some(rec) => self@.records.dom().contains(address@) && rec@
                    == self@.records[address@],
                None => !self@.records.dom().contains(address@),
            },
    {
        self.records.get(address)
    }

    /// Closes the record at an address, refunding its held funding.
    pub fn close(&mut self, address: &Address, refund_target: &Address) -> (r: Result<
        (),
        TwitterError,
    >)
        requires
            old(self).wf(),
        ensures
            final(self).wf(),
            (final(self)@, r) == close_spec(old(self)@, address@, refund_target@),
    {
        let lam = match self.records.get(address) {
            Some(rec) => rec.lamports,
            None => {
                return Err(TwitterError::NotFound);
            },
        };
        self.records.remove(address);
        let bal = self.balance_of(refund_target);
        let refunded = if bal > u64::MAX - lam {
            u64::MAX
        } else {
            bal + lam
        };
        self.balances.set(refund_target.dup(), refunded);
        proof {
            assert(self@ =~= close_spec(old(self)@, address@, refund_target@).0);
        }
        Ok(())
    }
}

} // verus!
