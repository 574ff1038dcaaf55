use crate::cache::MAX_TTL_SECS;
use crate::engine::UpdateEngine;
use crate::error::CycleError;
use vstd::prelude::*;

verus! {

/// The pieces of `s` between commas, in order; a text without a comma is
/// one piece, and the empty text is one empty piece.
pub open spec fn split_commas(s: Seq<char>) -> Seq<Seq<char>>
    decreases s.len(),
{
    if s.len() == 0 {
        seq![Seq::empty()]
    } else {
        let init = split_commas(s.drop_last());
        if s.last() == ',' {
            init.push(Seq::empty())
        } else {
            init.update(init.len() - 1, init.last().push(s.last()))
        }
    }
}

/// Splitting never gives an empty list.
pub proof fn lemma_split_nonempty(s: Seq<char>)
    ensures
        split_commas(s).len() >= 1,
    decreases s.len(),
{
    if s.len() > 0 {
        lemma_split_nonempty(s.drop_last());
    }
}

/// The settings of a run.
#[derive(Clone, Debug)]
pub struct Opts {
    /// Provider token.
    pub token: String,
    /// Zone name.
    pub zone: String,
    /// Record names separated with commas, e.g. `a.x.com,b.x.com`.
    pub records: String,
    /// Run on a schedule rather than once.
    pub daemon: bool,
    /// Schedule in cron syntax, with seconds; used in daemon mode only.
    pub cron: String,
    /// Seconds that resolved identifiers stay cached; zero disables it.
    pub cache_seconds: u64,
}

impl Opts {
    /// The record names: the pieces of `records` between commas.
    pub fn record_name_list(&self) -> (r: Vec<String>)
        ensures
            r@.len() == split_commas(self.records@).len(),
            forall|i: int| 0 <= i < r@.len() ==> #[trigger] r@[i]@ == split_commas(self.records@)[i],
    {
        let s = self.records.as_str();
        let n = s.unicode_len();
        let mut r: Vec<String> = Vec::new();
        let mut start: usize = 0;
        let mut i: usize = 0;
        while i < n
            invariant
                n == s@.len(),
                s@ == self.records@,
                start <= i <= n,
                split_commas(s@.subrange(0, i as int)).len() == r@.len() + 1,
                forall|k: int|
                    0 <= k < r@.len() ==> #[trigger] r@[k]@ == split_commas(
                        s@.subrange(0, i as int),
                    )[k],
                split_commas(s@.subrange(0, i as int)).last() == s@.subrange(
                    start as int,
                    i as int,
                ),
            decreases n - i,
        {
            let c = s.get_char(i);
            let ghost before = s@.subrange(0, i as int);
            let ghost after = s@.subrange(0, i as int + 1);
            assert(after.drop_last() =~= before);
            assert(after.last() == c);
            if c == ',' {
                let piece = s.substring_char(start, i);
                r.push(String::from_str(piece));
                start = i + 1;
                assert(s@.subrange(start as int, i as int + 1) =~= Seq::<char>::empty());
            } else {
                proof {
                    lemma_split_nonempty(before);
                }
                assert(s@.subrange(start as int, i as int + 1) =~= s@.subrange(
                    start as int,
                    i as int,
                ).push(c));
            }
            i = i + 1;
        }
        let last = s.substring_char(start, n);
        r.push(String::from_str(last));
        assert(s@.subrange(0, n as int) =~= s@);
        r
    }

    /// An engine for these settings; a cache time longer than the cache
    /// accepts (or more record names than can be counted) is a fatal
    /// configuration error.
    pub fn engine(&self) -> (r: Result<UpdateEngine, CycleError>)
        ensures
            self.cache_seconds > MAX_TTL_SECS || split_commas(self.records@).len() >= usize::MAX
                ==> r matches Err(CycleError::Fatal(_)),
            self.cache_seconds <= MAX_TTL_SECS && split_commas(self.records@).len() < usize::MAX
                ==> (r matches Ok(e) && e.wf() && e.zone() == self.zone
                && e.ttl() == self.cache_seconds && e.last() is None && e.stage() is Idle
                && e.cached().dom().is_empty() && e.names().len() == split_commas(
                self.records@,
            ).len() && forall|i: int|
                0 <= i < e.names().len() ==> #[trigger] e.names()[i]@ == split_commas(
                    self.records@,
                )[i]),
    {
        if self.cache_seconds > MAX_TTL_SECS {
            return Err(CycleError::Fatal(String::from_str("cache time is too long")));
        }
        let names = self.record_name_list();
        if names.len() == usize::MAX {
            return Err(CycleError::Fatal(String::from_str("too many record names")));
        }
        Ok(UpdateEngine::new(self.zone.clone(), names, self.cache_seconds))
    }
}

} // verus!
