//! The process-wide registry mapping each key to its executor.
//!
//! The registry grows monotonically: an executor is created on first use of
//! its key and never evicted. Its core invariant — at most one executor per
//! key, each bound to the key it is registered under and carrying the
//! service's policy constants — is `wf`, established by `new` and preserved
//! by `acquire`.

use vstd::prelude::*;
use vstd::hash_map::StringHashMap;
use crate::executor::Executor;

verus! {

/// Key-indexed registry of executors, created on demand.
pub struct ExecutorPool {
    pub m: StringHashMap<Executor>,
}

impl ExecutorPool {
    /// Every registered executor is bound to the key it stands under and
    /// carries the given policy constants.
    pub open spec fn wf(&self, ttl: u64, cooldown: u64, max_attempts: u64) -> bool {
        forall|k: Seq<char>|
            self.m@.contains_key(k) ==> {
                &&& (#[trigger] self.m@[k]).key@ == k
                &&& self.m@[k].ttl == ttl
                &&& self.m@[k].cooldown == cooldown
                &&& self.m@[k].max_attempts == max_attempts
            }
    }

    pub fn new() -> (p: ExecutorPool)
        ensures
            p.m@ == Map::<Seq<char>, Executor>::empty(),
            forall|ttl: u64, cooldown: u64, max_attempts: u64|
                #[trigger] p.wf(ttl, cooldown, max_attempts),
    {
        ExecutorPool { m: StringHashMap::new() }
    }

    /// Returns the executor registered for `key`, creating and registering
    /// it first if none exists; existing executors are never replaced, so no
    /// two executors ever coexist for one key.
    pub fn acquire(&mut self, key: &String, ttl: u64, cooldown: u64, max_attempts: u64) -> (e:
        Executor)
        requires
            old(self).wf(ttl, cooldown, max_attempts),
        ensures
            final(self).wf(ttl, cooldown, max_attempts),
            final(self).m@.contains_key(key@),
            old(self).m@.contains_key(key@) ==> final(self).m@ == old(self).m@,
            !old(self).m@.contains_key(key@) ==> final(self).m@ == old(self).m@.insert(
                key@,
                final(self).m@[key@],
            ),
            forall|k2: Seq<char>|
                old(self).m@.contains_key(k2) ==> final(self).m@.contains_key(k2)
                    && final(self).m@[k2] == old(self).m@[k2],
            e.key@ == key@,
            e.ttl == ttl,
            e.cooldown == cooldown,
            e.max_attempts == max_attempts,
    {
        match self.m.get(key.as_str()) {
            Option::Some(found) => found.duplicate(),
            Option::None => {
                let fresh = Executor::new(key.clone(), ttl, cooldown, max_attempts);
                let handed_out = fresh.duplicate();
                self.m.insert(key.clone(), fresh);
                handed_out
            },
        }
    }
}

} // verus!
