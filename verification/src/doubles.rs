//! Verified in-memory collaborators: a map-backed store, a fixed-code
//! generator, a sender that records its deliveries, and failing counterparts
//! that exercise the storage and delivery failure paths.

use vstd::prelude::*;
use vstd::hash_map::StringHashMap;
use crate::ports::{Generator, SendFailure, Sender, StorageFailure, Store};
use crate::record::{CodeRecord, Rec};

verus! {

/// An in-process store holding one record per key; never fails.
pub struct MemStore {
    pub m: StringHashMap<CodeRecord>,
}

impl MemStore {
    pub fn new() -> (s: MemStore)
        ensures
            s.contents() == Map::<Seq<char>, Rec>::empty(),
            s.reliable(),
    {
        let s = MemStore { m: StringHashMap::new() };
        proof {
            assert(s.contents() =~= Map::<Seq<char>, Rec>::empty());
        }
        s
    }
}

impl Store for MemStore {
    open spec fn contents(&self) -> Map<Seq<char>, Rec> {
        self.m@.map_values(|r: CodeRecord| r@)
    }

    open spec fn reliable(&self) -> bool {
        true
    }

    fn get(&self, key: &String) -> (r: Result<Option<CodeRecord>, StorageFailure>) {
        match self.m.get(key.as_str()) {
            Option::Some(rec) => Result::Ok(Option::Some(rec.duplicate())),
            Option::None => Result::Ok(Option::None),
        }
    }

    fn put(&mut self, key: &String, record: CodeRecord) -> (r: Result<(), StorageFailure>) {
        self.m.insert(key.clone(), record);
        proof {
            assert(self.contents() =~= old(self).contents().insert(
                key@,
                self.m@[key@]@,
            ));
        }
        Result::Ok(())
    }

    fn remove(&mut self, key: &String) -> (r: Result<(), StorageFailure>) {
        self.m.remove(key.as_str());
        proof {
            assert(self.contents() =~= old(self).contents().remove(key@));
        }
        Result::Ok(())
    }
}

/// A generator that always hands out the code it was built with; meant for
/// tests, where the issued code must be known.
pub struct FixedGenerator {
    pub code: String,
}

impl FixedGenerator {
    pub fn new(code: String) -> (g: FixedGenerator)
        ensures
            g.code@ == code@,
    {
        FixedGenerator { code }
    }
}

impl Generator for FixedGenerator {
    open spec fn fixed_code(&self) -> Option<Seq<char>> {
        Some(self.code@)
    }

    fn generate(&self) -> (code: String) {
        self.code.clone()
    }
}

/// A sender that delivers nowhere and records every delivery; never fails.
pub struct RecordingSender {
    pub log: Vec<(String, String)>,
}

impl RecordingSender {
    pub fn new() -> (s: RecordingSender)
        ensures
            s.sent() == Seq::<(Seq<char>, Seq<char>)>::empty(),
            s.reliable(),
    {
        let s = RecordingSender { log: Vec::new() };
        proof {
            assert(s.sent() =~= Seq::<(Seq<char>, Seq<char>)>::empty());
        }
        s
    }
}

impl Sender for RecordingSender {
    open spec fn sent(&self) -> Seq<(Seq<char>, Seq<char>)> {
        Seq::new(self.log@.len(), |i: int| (self.log@[i].0@, self.log@[i].1@))
    }

    open spec fn reliable(&self) -> bool {
        true
    }

    fn send(&mut self, key: &String, code: &String) -> (r: Result<(), SendFailure>) {
        self.log.push((key.clone(), code.clone()));
        proof {
            assert(self.sent() =~= old(self).sent().push((key@, code@)));
        }
        Result::Ok(())
    }
}

/// A store whose backend is always down; its reads and writes all fail.
pub struct FailingStore;

impl Store for FailingStore {
    open spec fn contents(&self) -> Map<Seq<char>, Rec> {
        Map::empty()
    }

    open spec fn reliable(&self) -> bool {
        false
    }

    fn get(&self, key: &String) -> (r: Result<Option<CodeRecord>, StorageFailure>) {
        Result::Err(StorageFailure)
    }

    fn put(&mut self, key: &String, record: CodeRecord) -> (r: Result<(), StorageFailure>) {
        Result::Err(StorageFailure)
    }

    fn remove(&mut self, key: &String) -> (r: Result<(), StorageFailure>) {
        Result::Err(StorageFailure)
    }
}

/// A sender whose channel is always down; every delivery fails.
pub struct FailingSender;

impl Sender for FailingSender {
    open spec fn sent(&self) -> Seq<(Seq<char>, Seq<char>)> {
        Seq::empty()
    }

    open spec fn reliable(&self) -> bool {
        false
    }

    fn send(&mut self, key: &String, code: &String) -> (r: Result<(), SendFailure>) {
        Result::Err(SendFailure)
    }
}

} // verus!
