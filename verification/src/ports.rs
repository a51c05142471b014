//! The three narrow collaborator interfaces the coordinator composes:
//! code generation, record storage, and out-of-band delivery.
//!
//! Each trait carries its own model: a store is a map from key to record
//! model, a sender is the sequence of deliveries it performed. `reliable`
//! marks an implementation that never fails; contracts promise success only
//! under it, and state for every implementation what each outcome did.

use vstd::prelude::*;
use crate::record::{CodeRecord, Rec};
use crate::policy::lookup;

verus! {

/// The storage backend refused a read or a write.
pub struct StorageFailure;

/// The delivery collaborator refused a send.
pub struct SendFailure;

/// Stateless producer of code values. An implementation should draw codes
/// unpredictably from its value space; unpredictability is a duty of the
/// implementation, not a verified property.
pub trait Generator: Sized {
    /// `Some(c)` for a deterministic implementation that always produces
    /// `c`; `None` where nothing is promised of the produced value.
    spec fn fixed_code(&self) -> Option<Seq<char>>;

    fn generate(&self) -> (code: String)
        ensures
            self.fixed_code() matches Some(c) ==> code@ == c,
    ;
}

/// Per-key record storage with point lookup, unconditional upsert, and
/// removal. A failed operation leaves the contents as they were.
pub trait Store: Sized {
    /// The stored contents, one record model per key.
    spec fn contents(&self) -> Map<Seq<char>, Rec>;

    /// True of an implementation whose operations never fail.
    spec fn reliable(&self) -> bool;

    fn get(&self, key: &String) -> (r: Result<Option<CodeRecord>, StorageFailure>)
        ensures
            self.reliable() ==> r is Ok,
            r matches Ok(cur) ==> crate::policy::opt_rec(cur) == lookup(
                self.contents(),
                key@,
            ),
    ;

    fn put(&mut self, key: &String, record: CodeRecord) -> (r: Result<(), StorageFailure>)
        ensures
            final(self).reliable() == old(self).reliable(),
            old(self).reliable() ==> r is Ok,
            r is Ok ==> final(self).contents() == old(self).contents().insert(
                key@,
                record@,
            ),
            r is Err ==> final(self).contents() == old(self).contents(),
    ;

    fn remove(&mut self, key: &String) -> (r: Result<(), StorageFailure>)
        ensures
            final(self).reliable() == old(self).reliable(),
            old(self).reliable() ==> r is Ok,
            r is Ok ==> final(self).contents() == old(self).contents().remove(key@),
            r is Err ==> final(self).contents() == old(self).contents(),
    ;
}

/// Out-of-band delivery of a code to a destination key. Side-effecting and
/// independently failable; nothing is retried here.
pub trait Sender: Sized {
    /// The deliveries performed so far, each a key and the code it carried.
    spec fn sent(&self) -> Seq<(Seq<char>, Seq<char>)>;

    /// True of an implementation whose sends never fail.
    spec fn reliable(&self) -> bool;

    fn send(&mut self, key: &String, code: &String) -> (r: Result<(), SendFailure>)
        ensures
            final(self).reliable() == old(self).reliable(),
            old(self).reliable() ==> r is Ok,
            r is Ok ==> final(self).sent() == old(self).sent().push((key@, code@)),
            r is Err ==> final(self).sent() == old(self).sent(),
    ;
}

} // verus!
