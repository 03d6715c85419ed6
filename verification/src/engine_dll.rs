//! The loading of the engine library: how often a failed load is retried and
//! what is reported when it gives up, and the process-wide cache that loads
//! the library of each directory once.
use vstd::prelude::*;
use vstd::string::StringExecFns;
use crate::text::{decimal, push_decimal_u64};

verus! {

/// The file name of the engine library.
pub const ENGINE_DLL_NAME: &'static str = "flutter_engine.dll";

/// How many times a load is tried before giving up.
pub const MAX_LOAD_ATTEMPTS: u32 = 50;

/// The pause between two tries, in milliseconds.
pub const RETRY_DELAY_MS: u64 = 100;

/// What follows a failed try.
#[derive(Debug)]
pub enum RetryDecision {
    /// Wait this many milliseconds and try again.
    Retry { delay_ms: u64 },
    /// Give up with this message.
    GiveUp(String),
}

/// The message of a load that gave up.
pub open spec fn give_up_text(path: Seq<char>, attempts: u32) -> Seq<char> {
    "Failed to load "@ + path + " after "@ + decimal(attempts as int) + " attempts"@
}

/// The tries of one load so far.
pub struct LoadRetry {
    pub attempts: u32,
}

impl LoadRetry {
    pub fn new() -> (r: Self)
        ensures
            r.attempts == 0,
    {
        LoadRetry { attempts: 0 }
    }

    /// A try of loading `path` failed: try again after the pause, or give up
    /// once the fiftieth try has failed.
    pub fn note_failure(&mut self, path: &str) -> (d: RetryDecision)
        requires
            old(self).attempts < MAX_LOAD_ATTEMPTS,
        ensures
            final(self).attempts == old(self).attempts + 1,
            final(self).attempts < MAX_LOAD_ATTEMPTS ==> (d matches RetryDecision::Retry { delay_ms } && delay_ms == RETRY_DELAY_MS),
            final(self).attempts >= MAX_LOAD_ATTEMPTS ==> (d matches RetryDecision::GiveUp(m)
                && m@ == give_up_text(path@, final(self).attempts)),
    {
        self.attempts = self.attempts + 1;
        if self.attempts >= MAX_LOAD_ATTEMPTS {
            let mut m = String::from_str("Failed to load ");
            m.append(path);
            m.append(" after ");
            push_decimal_u64(&mut m, self.attempts as u64);
            m.append(" attempts");
            proof {
                reveal_strlit("Failed to load ");
                reveal_strlit(" after ");
                reveal_strlit(" attempts");
                assert(m@ =~= give_up_text(path@, self.attempts));
            }
            RetryDecision::GiveUp(m)
        } else {
            RetryDecision::Retry { delay_ms: RETRY_DELAY_MS }
        }
    }
}

/// The keys of the cache entries, in order.
pub open spec fn cache_keys<T>(s: Seq<(String, T)>) -> Seq<Seq<char>> {
    s.map_values(|e: (String, T)| e.0@)
}

/// The libraries loaded so far, by directory. Each directory is loaded once.
pub struct DllCache<T> {
    entries: Vec<(String, T)>,
}

impl<T> DllCache<T> {
    pub closed spec fn entries(&self) -> Seq<(String, T)> {
        self.entries@
    }

    /// No directory occurs twice.
    pub open spec fn wf(&self) -> bool {
        forall|i: int, j: int| 0 <= i < j < self.entries().len()
            ==> #[trigger] self.entries()[i].0@ != #[trigger] self.entries()[j].0@
    }

    /// The entry of a directory.
    pub open spec fn holds(&self, key: Seq<char>) -> bool {
        exists|i: int| 0 <= i < self.entries().len() && #[trigger] self.entries()[i].0@ == key
    }

    pub fn new() -> (c: Self)
        ensures
            c.wf(),
            c.entries().len() == 0,
    {
        DllCache { entries: Vec::new() }
    }

    /// The library loaded for `key`, if any.
    pub fn lookup(&self, key: &str) -> (r: Option<&T>)
        ensures
            match r {
                Some(v) => exists|i: int| 0 <= i < self.entries().len()
                    && #[trigger] self.entries()[i].0@ == key@ && self.entries()[i].1 == *v,
                None => !self.holds(key@),
            },
    {
        let wanted = String::from_str(key);
        let mut i: usize = 0;
        while i < self.entries.len()
            invariant
                wanted@ == key@,
                i <= self.entries@.len(),
                forall|j: int| 0 <= j < i ==> #[trigger] self.entries@[j].0@ != key@,
            decreases self.entries@.len() - i,
        {
            if self.entries[i].0 == wanted {
                proof {
                    assert(self.entries()[i as int].0@ == key@);
                }
                return Some(&self.entries[i].1);
            }
            i = i + 1;
        }
        None
    }

    /// Keeps the library loaded for a directory that had none.
    pub fn insert(&mut self, key: String, value: T)
        requires
            old(self).wf(),
            !old(self).holds(key@),
        ensures
            final(self).wf(),
            final(self).entries() == old(self).entries().push((key, value)),
            final(self).holds(key@),
            forall|k: Seq<char>| k != key@ ==> (final(self).holds(k) == old(self).holds(k)),
    {
        let ghost k = key@;
        let ghost kv = (key, value);
        self.entries.push((key, value));
        proof {
            let n = old(self).entries().len();
            assert(self.entries@ == old(self).entries().push(kv));
            assert(self.entries@[n as int].0@ == k);
            assert(self.entries()[n as int].0@ == k);
            assert forall|other: Seq<char>| other != k implies self.holds(other) == old(self).holds(other) by {
                if self.holds(other) {
                    let j = choose|j: int| 0 <= j < self.entries().len() && #[trigger] self.entries()[j].0@ == other;
                    assert(j < n);
                    assert(old(self).entries()[j].0@ == other);
                }
                if old(self).holds(other) {
                    let j = choose|j: int| 0 <= j < old(self).entries().len() && #[trigger] old(self).entries()[j].0@ == other;
                    assert(self.entries()[j].0@ == other);
                }
            }
        }
    }
}

} // verus!
