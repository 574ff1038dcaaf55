use crate::address::Ipv4;
use crate::cache::{
    key_of, lookup_allows, store_effect, text_of, EntityKind, IdentifierCache, MAX_TTL_SECS,
};
use crate::error::{CycleError, UpdateFailure};
use crate::resolve::{
    failures_upto, first_error_from, gather_records, judge_updates, lemma_failures_empty,
    lemma_failures_listed, lemma_misses_monotone, missed_names, misses_before, outcome_spec,
    pick_identifier, pick_spec, record_outcomes,
};
use vstd::prelude::*;

verus! {

/// How one update cycle ended.
#[derive(Debug)]
pub enum CycleResult {
    /// The public address had not changed: nothing was sent.
    Skipped,
    /// This many records now point at the new address.
    Updated(usize),
    /// The cycle failed; the last known address was kept.
    Failed(CycleError),
}

/// Where a cycle stands, between two pieces of outside work.
#[derive(Debug)]
pub enum Stage {
    /// No cycle is under way.
    Idle,
    /// Waiting for the public address.
    AwaitingIp,
    /// Waiting for the provider's zones of the configured name.
    AwaitingZone { ip: Ipv4 },
    /// Waiting for the provider's records of the names the cache missed;
    /// `cached` holds the cache's answer for each configured record name.
    AwaitingRecords { ip: Ipv4, zone_id: String, cached: Vec<Option<String>> },
    /// Waiting for the outcome of each record update.
    AwaitingUpdates { ip: Ipv4, zone_id: String, records: Vec<(String, String)> },
}

/// The outside work that a cycle asks for next.
#[derive(Debug)]
pub enum Action {
    /// Fetch the public IPv4 address.
    FetchIp,
    /// List the provider's zones called `name`, by identifier.
    LookupZone { name: String },
    /// For each name, list the identifiers of the zone's records so called;
    /// all lookups may run at once.
    LookupRecords { zone_id: String, names: Vec<String> },
    /// Point each record, given as (identifier, name), at `ip` with an A
    /// record; all updates may run at once and each is attempted.
    UpdateRecords { zone_id: String, records: Vec<(String, String)>, ip: Ipv4 },
    /// The cycle is over.
    Finish(CycleResult),
}

/// What the outside work brought back.
#[derive(Debug)]
pub enum Event {
    /// The public address, or `None` where it could not be fetched.
    IpFetched(Option<Ipv4>),
    /// The identifiers of the zones listed under the name, or the failure.
    ZoneListed(Result<Vec<String>, String>),
    /// One listing per name asked for, in the same order.
    RecordsListed(Vec<Result<Vec<String>, String>>),
    /// One outcome per record to update, in the same order.
    RecordsUpdated(Vec<Result<(), String>>),
}

/// Each cache answer is one that the cache could give for that record name.
pub open spec fn answers_allowed(
    cache: Map<(u8, Seq<char>), Seq<char>>,
    names: Seq<String>,
    cached: Seq<Option<String>>,
) -> bool {
    &&& cached.len() == names.len()
    &&& forall|i: int|
        0 <= i < names.len() ==> lookup_allows(
            cache,
            key_of(EntityKind::Record, names[i]@),
            text_of(#[trigger] cached[i]),
        )
}

/// The records to update come out as `records` (identifier, name), and the
/// cycle waits for their outcomes.
pub open spec fn updating(
    a: Action,
    s: Stage,
    ip: Ipv4,
    zone_id: String,
    records: Seq<(String, String)>,
) -> bool {
    &&& match a {
        Action::UpdateRecords { zone_id: z, records: r, ip: i } => z == zone_id && r@ == records
            && i == ip,
        _ => false,
    }
    &&& match s {
        Stage::AwaitingUpdates { ip: i, zone_id: z, records: r } => z == zone_id && r@ == records
            && i == ip,
        _ => false,
    }
}

/// The names that the cache missed are looked up at the provider, in their
/// order, and the cycle waits for the listings.
pub open spec fn looking_up(
    a: Action,
    s: Stage,
    ip: Ipv4,
    zone_id: String,
    names: Seq<String>,
) -> bool {
    match s {
        Stage::AwaitingRecords { ip: i, zone_id: z, cached } => {
            &&& i == ip && z == zone_id
            &&& cached@.len() == names.len()
            &&& misses_before(cached@, names.len() as int) > 0
            &&& match a {
                Action::LookupRecords { zone_id: z2, names: asked } => {
                    &&& z2 == zone_id
                    &&& asked@.len() == misses_before(cached@, names.len() as int)
                    &&& forall|k: int|
                        0 <= k < names.len() && (#[trigger] cached@[k]) is None ==> asked@[misses_before(
                            cached@,
                            k,
                        ) as int] == names[k]
                },
                _ => false,
            }
        },
        _ => false,
    }
}

/// What follows once the zone identifier is known: every record name was
/// put to the cache (`cache`), and either the names it missed are looked up,
/// or, all of them hit, the updates are asked for with the cached
/// identifiers.
pub open spec fn records_next(
    a: Action,
    s: Stage,
    cache: Map<(u8, Seq<char>), Seq<char>>,
    names: Seq<String>,
    ip: Ipv4,
    zone_id: String,
) -> bool {
    ||| looking_up(a, s, ip, zone_id, names) && (s matches Stage::AwaitingRecords { cached, .. }
        ==> answers_allowed(cache, names, cached@))
    ||| exists|records: Seq<(String, String)>|
        {
            &&& updating(a, s, ip, zone_id, records)
            &&& records.len() == names.len()
            &&& forall|i: int|
                0 <= i < records.len() ==> (#[trigger] records[i]).1 == names[i] && lookup_allows(
                    cache,
                    key_of(EntityKind::Record, names[i]@),
                    Some(records[i].0@),
                )
        }
}

/// The outcome of each record resolution, from the cache answers and the
/// provider's listings.
pub open spec fn outcomes_spec(
    names: Seq<String>,
    cached: Seq<Option<String>>,
    listed: Seq<Result<Vec<String>, String>>,
) -> Seq<Result<String, CycleError>> {
    Seq::new(names.len(), |i: int| outcome_spec(names, cached, listed, i))
}

/// The resolved records (identifier, name), where no resolution failed.
pub open spec fn resolved_records(names: Seq<String>, outcomes: Seq<Result<String, CycleError>>) -> Seq<
    (String, String),
> {
    Seq::new(names.len(), |i: int| (outcomes[i]->Ok_0, names[i]))
}

/// Each entry of `after` was in `before` with the same value, or is the
/// identifier that this step resolved for a record name.
pub open spec fn only_resolved_added(
    before: Map<(u8, Seq<char>), Seq<char>>,
    after: Map<(u8, Seq<char>), Seq<char>>,
    names: Seq<String>,
    outcomes: Seq<Result<String, CycleError>>,
) -> bool {
    forall|k: (u8, Seq<char>)|
        #[trigger] after.contains_key(k) ==> (before.contains_key(k) && after[k] == before[k])
            || exists|i: int|
            0 <= i < names.len() && k == key_of(EntityKind::Record, names[i]@) && (
            #[trigger] outcomes[i]) is Ok && after[k] == outcomes[i]->Ok_0@
}

/// The cycle fails with `e` and is over.
pub open spec fn fails_with(a: Action, s: Stage, e: CycleError) -> bool {
    a == Action::Finish(CycleResult::Failed(e)) && s is Idle
}

/// The cycle fails with an error of the fatal kind and is over.
pub open spec fn fails_fatally(a: Action, s: Stage) -> bool {
    a matches Action::Finish(CycleResult::Failed(CycleError::Fatal(_))) && s is Idle
}

/// The configuration and the cache's capacity stay as they were.
pub open spec fn config_kept(pre: UpdateEngine, post: UpdateEngine) -> bool {
    &&& post.zone() == pre.zone()
    &&& post.names() == pre.names()
    &&& post.ttl() == pre.ttl()
    &&& post.cache_capacity() == pre.cache_capacity()
}

/// How the engine moves on once the public address was fetched (or not):
/// a failed fetch fails the cycle; an address equal to the last known one
/// ends it as skipped, with nothing asked of the provider; a new one goes to
/// the zone, from the cache where it hits, else by a lookup.
pub open spec fn ip_step(pre: UpdateEngine, post: UpdateEngine, fetched: Option<Ipv4>, a: Action) -> bool {
    &&& config_kept(pre, post)
    &&& post.cached() == pre.cached()
    &&& post.last() == pre.last()
    &&& fetched is None ==> fails_with(a, post.stage(), CycleError::NoPublicIp)
    &&& fetched is Some && pre.last() == fetched ==> a == Action::Finish(CycleResult::Skipped)
        && post.stage() is Idle
    &&& fetched is Some && pre.last() != fetched ==> {
        ||| a == Action::LookupZone { name: pre.zone() } && post.stage() == Stage::AwaitingZone {
            ip: fetched->Some_0,
        }
        ||| exists|id: String|
            lookup_allows(pre.cached(), key_of(EntityKind::Zone, pre.zone()@), Some(id@))
                && records_next(a, post.stage(), pre.cached(), pre.names(), fetched->Some_0, id)
    }
}

/// How the engine moves on once the zone listing came back: no zone of
/// that name, or a failed listing, fails the cycle with nothing else
/// attempted; otherwise the first zone's identifier is cached and its
/// records are resolved.
pub open spec fn zone_step(
    pre: UpdateEngine,
    post: UpdateEngine,
    ip: Ipv4,
    listed: Result<Vec<String>, String>,
    a: Action,
) -> bool {
    &&& config_kept(pre, post)
    &&& post.last() == pre.last()
    &&& pick_spec(pre.zone(), listed) is Err ==> fails_with(
        a,
        post.stage(),
        pick_spec(pre.zone(), listed)->Err_0,
    ) && post.cached() == pre.cached()
    &&& pick_spec(pre.zone(), listed) is Ok ==> {
        let id = pick_spec(pre.zone(), listed)->Ok_0;
        &&& store_effect(
            pre.cached(),
            post.cached(),
            key_of(EntityKind::Zone, pre.zone()@),
            id@,
            pre.ttl(),
            pre.cache_capacity(),
        )
        &&& records_next(a, post.stage(), post.cached(), pre.names(), ip, id)
    }
}

/// How the engine moves on once the record listings came back: every name
/// gets its outcome, fresh identifiers are cached, and the updates are
/// asked for only when every name resolved; else the first failure in name
/// order fails the cycle.
pub open spec fn records_step(
    pre: UpdateEngine,
    post: UpdateEngine,
    ip: Ipv4,
    zone_id: String,
    cached: Vec<Option<String>>,
    listed: Vec<Result<Vec<String>, String>>,
    a: Action,
) -> bool {
    let matching = cached@.len() == pre.names().len() && listed@.len() == misses_before(
        cached@,
        cached@.len() as int,
    );
    let outs = outcomes_spec(pre.names(), cached@, listed@);
    &&& config_kept(pre, post)
    &&& post.last() == pre.last()
    &&& !matching ==> fails_fatally(a, post.stage()) && post.cached() == pre.cached()
    &&& matching ==> {
        &&& only_resolved_added(pre.cached(), post.cached(), pre.names(), outs)
        &&& pre.ttl() == 0 ==> post.cached() == pre.cached()
        &&& first_error_from(outs, 0) is Some ==> fails_with(
            a,
            post.stage(),
            first_error_from(outs, 0)->Some_0,
        )
        &&& first_error_from(outs, 0) is None ==> updating(
            a,
            post.stage(),
            ip,
            zone_id,
            resolved_records(pre.names(), outs),
        )
    }
}

/// How the engine moves on once every record update came back: the cycle
/// is over; only when every update succeeded does the address become the
/// last known one, otherwise the failures are reported together and the
/// last known address stays.
pub open spec fn updates_step(
    pre: UpdateEngine,
    post: UpdateEngine,
    ip: Ipv4,
    records: Vec<(String, String)>,
    results: Vec<Result<(), String>>,
    a: Action,
) -> bool {
    let failures = failures_upto(records@, results@, results@.len() as int);
    &&& config_kept(pre, post)
    &&& post.cached() == pre.cached()
    &&& post.stage() is Idle
    &&& results@.len() != records@.len() ==> fails_fatally(a, post.stage()) && post.last()
        == pre.last()
    &&& results@.len() == records@.len() && failures.len() == 0 ==> a == Action::Finish(
        CycleResult::Updated(records@.len() as usize),
    ) && post.last() == Some(ip)
    &&& results@.len() == records@.len() && failures.len() > 0 ==> post.last() == pre.last() && (
    a matches Action::Finish(CycleResult::Failed(CycleError::Aggregate(f))) && f@ == failures)
}

/// One step of a cycle: what the engine does with an event, given the
/// stage it was waiting in. An event that the stage does not wait for ends
/// the cycle with a fatal error and changes nothing else.
pub open spec fn advance_spec(pre: UpdateEngine, post: UpdateEngine, event: Event, a: Action) -> bool {
    match (pre.stage(), event) {
        (Stage::AwaitingIp, Event::IpFetched(fetched)) => ip_step(pre, post, fetched, a),
        (Stage::AwaitingZone { ip }, Event::ZoneListed(listed)) => zone_step(
            pre,
            post,
            ip,
            listed,
            a,
        ),
        (
            Stage::AwaitingRecords { ip, zone_id, cached },
            Event::RecordsListed(listed),
        ) => records_step(pre, post, ip, zone_id, cached, listed, a),
        (
            Stage::AwaitingUpdates { ip, zone_id, records },
            Event::RecordsUpdated(results),
        ) => updates_step(pre, post, ip, records, results, a),
        _ => {
            &&& config_kept(pre, post)
            &&& post.cached() == pre.cached()
            &&& post.last() == pre.last()
            &&& fails_fatally(a, post.stage())
        },
    }
}

/// A copy of the records, element for element.
fn copy_records(records: &Vec<(String, String)>) -> (r: Vec<(String, String)>)
    ensures
        r@ == records@,
{
    let mut r: Vec<(String, String)> = Vec::new();
    let mut i: usize = 0;
    while i < records.len()
        invariant
            i <= records@.len(),
            r@ == records@.subrange(0, i as int),
        decreases records@.len() - i,
    {
        r.push((records[i].0.clone(), records[i].1.clone()));
        i = i + 1;
        assert(r@ =~= records@.subrange(0, i as int));
    }
    assert(r@ =~= records@);
    r
}

/// The update engine: its configuration, the identifier cache, and the
/// last address that every record was set to.
pub struct UpdateEngine {
    zone: String,
    record_names: Vec<String>,
    ttl_secs: u64,
    cache: IdentifierCache,
    last_ip: Option<Ipv4>,
    stage: Stage,
}

impl UpdateEngine {
    /// The zone name.
    pub closed spec fn zone(&self) -> String {
        self.zone
    }

    /// The record names, in their configured order.
    pub closed spec fn names(&self) -> Seq<String> {
        self.record_names@
    }

    /// Seconds that a resolved identifier stays cached; zero disables it.
    pub closed spec fn ttl(&self) -> nat {
        self.ttl_secs as nat
    }

    /// The entries of the identifier cache.
    pub closed spec fn cached(&self) -> Map<(u8, Seq<char>), Seq<char>> {
        self.cache@
    }

    /// The capacity of the identifier cache.
    pub closed spec fn cache_capacity(&self) -> nat {
        self.cache.capacity()
    }

    /// The address that every record was last set to, if any.
    pub closed spec fn last(&self) -> Option<Ipv4> {
        self.last_ip
    }

    /// Where the current cycle stands.
    pub closed spec fn stage(&self) -> Stage {
        self.stage
    }

    /// The configuration holds a time to live that the cache accepts.
    pub open spec fn wf(&self) -> bool {
        self.ttl() <= MAX_TTL_SECS
    }

    /// An engine for the zone and its record names, caching identifiers for
    /// `ttl_secs` seconds (zero disables caching). The cache has room for
    /// the zone and each record.
    pub fn new(zone: String, record_names: Vec<String>, ttl_secs: u64) -> (r: UpdateEngine)
        requires
            ttl_secs <= MAX_TTL_SECS,
            record_names@.len() < usize::MAX,
        ensures
            r.wf(),
            r.zone() == zone,
            r.names() == record_names@,
            r.ttl() == ttl_secs as nat,
            r.cached().dom().is_empty(),
            r.cache_capacity() == record_names@.len() + 1,
            r.last() is None,
            r.stage() is Idle,
    {
        let capacity = record_names.len() + 1;
        UpdateEngine {
            zone,
            record_names,
            ttl_secs,
            cache: IdentifierCache::new(capacity),
            last_ip: None,
            stage: Stage::Idle,
        }
    }

    /// The address that every record was last set to, if any.
    pub fn last_known_ip(&self) -> (r: Option<Ipv4>)
        ensures
            r == self.last(),
    {
        self.last_ip
    }

    /// Whether no cycle is under way.
    pub fn is_idle(&self) -> (r: bool)
        ensures
            r <==> self.stage() is Idle,
    {
        matches!(self.stage, Stage::Idle)
    }

    /// Asks the cache for every record name; on a full hit the updates
    /// follow at once, otherwise the missed names are looked up.
    fn lookup_records(&mut self, ip: Ipv4, zone_id: String) -> (a: Action)
        ensures
            final(self).zone() == old(self).zone(),
            final(self).names() == old(self).names(),
            final(self).ttl() == old(self).ttl(),
            final(self).cached() == old(self).cached(),
            final(self).cache_capacity() == old(self).cache_capacity(),
            final(self).last() == old(self).last(),
            records_next(a, final(self).stage(), old(self).cached(), old(self).names(), ip, zone_id),
    {
        let ghost zid = zone_id;
        let n = self.record_names.len();
        let mut cached: Vec<Option<String>> = Vec::new();
        let mut i: usize = 0;
        while i < n
            invariant
                n == self.record_names@.len(),
                i <= n,
                cached@.len() == i,
                forall|k: int|
                    0 <= k < i ==> lookup_allows(
                        self.cache@,
                        key_of(EntityKind::Record, self.record_names@[k]@),
                        text_of(#[trigger] cached@[k]),
                    ),
            decreases n - i,
        {
            let answer = self.cache.get(EntityKind::Record, self.record_names[i].as_str());
            cached.push(answer);
            i = i + 1;
        }
        let missed = missed_names(&self.record_names, &cached);
        if missed.len() == 0 {
            let mut for_action: Vec<(String, String)> = Vec::new();
            let mut for_stage: Vec<(String, String)> = Vec::new();
            let mut j: usize = 0;
            while j < n
                invariant
                    n == self.record_names@.len(),
                    cached@.len() == n,
                    misses_before(cached@, n as int) == 0,
                    j <= n,
                    for_action@.len() == j,
                    for_stage@ == for_action@,
                    forall|k: int|
                        0 <= k < j ==> (#[trigger] for_action@[k]).1 == self.record_names@[k]
                            && cached@[k] == Some(for_action@[k].0),
                decreases n - j,
            {
                proof {
                    lemma_misses_monotone(cached@, j as int + 1, n as int);
                }
                if let Some(id) = &cached[j] {
                    for_action.push((id.clone(), self.record_names[j].clone()));
                    for_stage.push((id.clone(), self.record_names[j].clone()));
                }
                j = j + 1;
            }
            let ghost records = for_action@;
            self.stage = Stage::AwaitingUpdates { ip, zone_id: zone_id.clone(), records: for_stage };
            let a = Action::UpdateRecords { zone_id, records: for_action, ip };
            proof {
                assert forall|k: int| 0 <= k < records.len() implies (#[trigger] records[k]).1
                    == self.record_names@[k] && lookup_allows(
                    self.cache@,
                    key_of(EntityKind::Record, self.record_names@[k]@),
                    Some(records[k].0@),
                ) by {
                    assert(text_of(cached@[k]) == Some(records[k].0@));
                }
                assert(updating(a, self.stage, ip, zid, records));
            }
            a
        } else {
            self.stage = Stage::AwaitingRecords { ip, zone_id: zone_id.clone(), cached };
            let a = Action::LookupRecords { zone_id, names: missed };
            assert(looking_up(a, self.stage, ip, zid, self.record_names@));
            a
        }
    }

    /// The public address came back (or did not). An unchanged address ends
    /// the cycle at once, with no call to the provider; a new one is
    /// resolved against the zone, from the cache where it can be.
    fn on_ip(&mut self, fetched: Option<Ipv4>) -> (a: Action)
        ensures
            ip_step(*old(self), *final(self), fetched, a),
    {
        match fetched {
            None => {
                self.stage = Stage::Idle;
                Action::Finish(CycleResult::Failed(CycleError::NoPublicIp))
            },
            Some(ip) => {
                let unchanged = match self.last_ip {
                    Some(last) => last == ip,
                    None => false,
                };
                if unchanged {
                    self.stage = Stage::Idle;
                    Action::Finish(CycleResult::Skipped)
                } else {
                    match self.cache.get(EntityKind::Zone, self.zone.as_str()) {
                        Some(id) => self.lookup_records(ip, id),
                        None => {
                            self.stage = Stage::AwaitingZone { ip };
                            Action::LookupZone { name: self.zone.clone() }
                        },
                    }
                }
            },
        }
    }

    /// The provider listed the zones of the configured name: the first one
    /// is taken and cached, and its records are resolved; none, or a failed
    /// listing, ends the cycle before any record is looked at.
    fn on_zone(&mut self, ip: Ipv4, listed: Result<Vec<String>, String>) -> (a: Action)
        requires
            old(self).wf(),
        ensures
            zone_step(*old(self), *final(self), ip, listed, a),
    {
        match pick_identifier(&self.zone, &listed) {
            Err(e) => {
                self.stage = Stage::Idle;
                Action::Finish(CycleResult::Failed(e))
            },
            Ok(id) => {
                self.cache.set(EntityKind::Zone, self.zone.as_str(), id.as_str(), self.ttl_secs);
                self.lookup_records(ip, id)
            },
        }
    }

    /// The provider listed the records of the missed names: each name gets
    /// its identifier (cached or listed), fresh ones are cached, and the
    /// updates follow only if every name resolved; otherwise the cycle fails
    /// with the first failure in name order.
    fn on_records(
        &mut self,
        ip: Ipv4,
        zone_id: String,
        cached: Vec<Option<String>>,
        listed: Vec<Result<Vec<String>, String>>,
    ) -> (a: Action)
        requires
            old(self).wf(),
        ensures
            records_step(*old(self), *final(self), ip, zone_id, cached, listed, a),
    {
        let n = self.record_names.len();
        if cached.len() != n {
            self.stage = Stage::Idle;
            return Action::Finish(
                CycleResult::Failed(
                    CycleError::Fatal(String::from_str("cache answers do not match the names")),
                ),
            );
        }
        let missed = missed_names(&self.record_names, &cached);
        if listed.len() != missed.len() {
            self.stage = Stage::Idle;
            return Action::Finish(
                CycleResult::Failed(
                    CycleError::Fatal(String::from_str("listings do not match the names asked for")),
                ),
            );
        }
        let outcomes = record_outcomes(&self.record_names, &cached, listed);
        let ghost outs = outcomes@;
        let ghost before = self.cache@;
        assert(outs =~= outcomes_spec(self.record_names@, cached@, listed@));
        let mut i: usize = 0;
        while i < n
            invariant
                n == self.record_names@.len(),
                cached@.len() == n,
                self.zone == old(self).zone,
                self.record_names == old(self).record_names,
                self.ttl_secs == old(self).ttl_secs,
                self.last_ip == old(self).last_ip,
                outcomes@ == outs,
                outs.len() == n,
                self.ttl_secs <= MAX_TTL_SECS,
                i <= n,
                self.cache.capacity() == old(self).cache.capacity(),
                self.ttl_secs == 0 ==> self.cache@ == before,
                only_resolved_added(before, self.cache@, self.record_names@, outs),
            decreases n - i,
        {
            if cached[i].is_none() {
                if let Ok(id) = &outcomes[i] {
                    let ghost mid = self.cache@;
                    self.cache.set(
                        EntityKind::Record,
                        self.record_names[i].as_str(),
                        id.as_str(),
                        self.ttl_secs,
                    );
                    proof {
                        let key = key_of(EntityKind::Record, self.record_names@[i as int]@);
                        if self.ttl_secs > 0 {
                            assert forall|k: (u8, Seq<char>)| #[trigger]
                                self.cache@.contains_key(k) implies (before.contains_key(k)
                                && self.cache@[k] == before[k]) || exists|j: int|
                                0 <= j < self.record_names@.len() && k == key_of(
                                    EntityKind::Record,
                                    self.record_names@[j]@,
                                ) && (#[trigger] outs[j]) is Ok && self.cache@[k]
                                == outs[j]->Ok_0@ by {
                                let m = mid.insert(key, id@);
                                assert(m.contains_key(k));
                                assert(self.cache@[k] == m[k]);
                                if k == key {
                                    assert(outs[i as int] is Ok);
                                } else {
                                    assert(mid.contains_key(k));
                                }
                            }
                        }
                    }
                }
            }
            i = i + 1;
        }
        match gather_records(&self.record_names, outcomes) {
            Err(e) => {
                self.stage = Stage::Idle;
                Action::Finish(CycleResult::Failed(e))
            },
            Ok(records) => {
                let copy = copy_records(&records);
                assert(records@ =~= resolved_records(self.record_names@, outs));
                self.stage = Stage::AwaitingUpdates { ip, zone_id: zone_id.clone(), records: copy };
                Action::UpdateRecords { zone_id, records, ip }
            },
        }
    }

    /// Every record update came back: the address is recorded as the last
    /// known one only if all of them succeeded.
    fn on_updates(
        &mut self,
        ip: Ipv4,
        records: Vec<(String, String)>,
        results: Vec<Result<(), String>>,
    ) -> (a: Action)
        ensures
            updates_step(*old(self), *final(self), ip, records, results, a),
    {
        self.stage = Stage::Idle;
        if results.len() != records.len() {
            return Action::Finish(
                CycleResult::Failed(
                    CycleError::Fatal(String::from_str("update outcomes do not match the records")),
                ),
            );
        }
        match judge_updates(&records, results) {
            Ok(n) => {
                self.last_ip = Some(ip);
                Action::Finish(CycleResult::Updated(n))
            },
            Err(e) => Action::Finish(CycleResult::Failed(e)),
        }
    }

    /// Hands the engine what the outside work brought back, and returns the
    /// work to do next; `Action::Finish` ends the cycle.
    pub fn advance(&mut self, event: Event) -> (a: Action)
        requires
            old(self).wf(),
        ensures
            final(self).wf(),
            advance_spec(*old(self), *final(self), event, a),
    {
        let mut stage = Stage::Idle;
        std::mem::swap(&mut stage, &mut self.stage);
        let ghost mid = *self;
        assert(mid.zone() == old(self).zone() && mid.names() == old(self).names() && mid.ttl()
            == old(self).ttl() && mid.cached() == old(self).cached() && mid.cache_capacity()
            == old(self).cache_capacity() && mid.last() == old(self).last());
        match (stage, event) {
            (Stage::AwaitingIp, Event::IpFetched(fetched)) => {
                let a = self.on_ip(fetched);
                assert(ip_step(*old(self), *self, fetched, a));
                a
            },
            (Stage::AwaitingZone { ip }, Event::ZoneListed(listed)) => {
                let ghost l = listed;
                let a = self.on_zone(ip, listed);
                assert(zone_step(*old(self), *self, ip, l, a));
                a
            },
            (
                Stage::AwaitingRecords { ip, zone_id, cached },
                Event::RecordsListed(listed),
            ) => {
                let ghost (z, c, l) = (zone_id, cached, listed);
                let a = self.on_records(ip, zone_id, cached, listed);
                assert(records_step(*old(self), *self, ip, z, c, l, a));
                a
            },
            (
                Stage::AwaitingUpdates { ip, zone_id, records },
                Event::RecordsUpdated(results),
            ) => {
                let ghost (r, rs) = (records, results);
                let a = self.on_updates(ip, records, results);
                assert(updates_step(*old(self), *self, ip, r, rs, a));
                a
            },
            _ => Action::Finish(
                CycleResult::Failed(
                    CycleError::Fatal(String::from_str("event does not match the cycle's stage")),
                ),
            ),
        }
    }

    /// Starts a cycle (dropping one left unfinished): the public address
    /// is fetched first.
    pub fn begin(&mut self) -> (a: Action)
        ensures
            a is FetchIp,
            final(self).stage() is AwaitingIp,
            final(self).zone() == old(self).zone(),
            final(self).names() == old(self).names(),
            final(self).ttl() == old(self).ttl(),
            final(self).cached() == old(self).cached(),
            final(self).cache_capacity() == old(self).cache_capacity(),
            final(self).last() == old(self).last(),
    {
        self.stage = Stage::AwaitingIp;
        Action::FetchIp
    }
}

} // verus!

verus! {

/// When the fetched address equals the last known one, the cycle ends as
/// skipped: no zone, record or update call is asked for, and neither the
/// cache nor the last known address changes.
pub proof fn lemma_unchanged_address_skips(
    pre: UpdateEngine,
    post: UpdateEngine,
    ip: Ipv4,
    a: Action,
)
    requires
        pre.stage() is AwaitingIp,
        pre.last() == Some(ip),
        advance_spec(pre, post, Event::IpFetched(Some(ip)), a),
    ensures
        a == Action::Finish(CycleResult::Skipped),
        post.stage() is Idle,
        post.cached() == pre.cached(),
        post.last() == pre.last(),
{
}

/// The last known address changes only when a cycle ends with every
/// record updated, and then it becomes the address that the cycle fetched.
pub proof fn lemma_last_ip_moves_only_on_success(
    pre: UpdateEngine,
    post: UpdateEngine,
    event: Event,
    a: Action,
)
    requires
        advance_spec(pre, post, event, a),
    ensures
        post.last() != pre.last() ==> {
            &&& a matches Action::Finish(CycleResult::Updated(_))
            &&& pre.stage() matches Stage::AwaitingUpdates { ip, .. } && post.last() == Some(ip)
        },
{
}

/// When the provider lists no zone of the configured name, the cycle fails
/// with that name not found and is over: no record is looked up or updated
/// afterwards, and the last known address stays.
pub proof fn lemma_missing_zone_fails(
    pre: UpdateEngine,
    post: UpdateEngine,
    ip: Ipv4,
    ids: Vec<String>,
    a: Action,
)
    requires
        pre.stage() == (Stage::AwaitingZone { ip }),
        ids@.len() == 0,
        advance_spec(pre, post, Event::ZoneListed(Ok(ids)), a),
    ensures
        a == Action::Finish(CycleResult::Failed(CycleError::NotFound(pre.zone()))),
        post.stage() is Idle,
        post.cached() == pre.cached(),
        post.last() == pre.last(),
{
}

/// When one record update succeeds and another fails, the cycle fails with
/// the failures reported together, the failed record among them, and the
/// last known address stays as it was, so that the next cycle retries.
pub proof fn lemma_partial_update_fails(
    pre: UpdateEngine,
    post: UpdateEngine,
    ip: Ipv4,
    zone_id: String,
    records: Vec<(String, String)>,
    results: Vec<Result<(), String>>,
    ok: int,
    failed: int,
    a: Action,
)
    requires
        pre.stage() == (Stage::AwaitingUpdates { ip, zone_id, records }),
        results@.len() == records@.len(),
        0 <= ok < results@.len(),
        0 <= failed < results@.len(),
        results@[ok] is Ok,
        results@[failed] is Err,
        advance_spec(pre, post, Event::RecordsUpdated(results), a),
    ensures
        post.last() == pre.last(),
        post.stage() is Idle,
        a matches Action::Finish(CycleResult::Failed(CycleError::Aggregate(f))) && exists|p: int|
            0 <= p < f@.len() && f@[p] == (UpdateFailure {
                record: records@[failed].1,
                message: results@[failed]->Err_0,
            }),
{
    lemma_failures_empty(records@, results@, results@.len() as int);
    lemma_failures_listed(records@, results@, results@.len() as int);
}

/// Every record that an update step asks for is one that was resolved, and
/// all of them are asked for together: when the listings resolve every
/// name, the updates cover every configured record, in order.
pub proof fn lemma_all_records_updated(
    pre: UpdateEngine,
    post: UpdateEngine,
    ip: Ipv4,
    zone_id: String,
    cached: Vec<Option<String>>,
    listed: Vec<Result<Vec<String>, String>>,
    a: Action,
)
    requires
        pre.stage() == (Stage::AwaitingRecords { ip, zone_id, cached }),
        cached@.len() == pre.names().len(),
        listed@.len() == misses_before(cached@, cached@.len() as int),
        first_error_from(outcomes_spec(pre.names(), cached@, listed@), 0) is None,
        advance_spec(pre, post, Event::RecordsListed(listed), a),
    ensures
        a matches Action::UpdateRecords { records, ip: to, .. } && to == ip && records@.len()
            == pre.names().len() && forall|i: int|
            0 <= i < records@.len() ==> (#[trigger] records@[i]).1 == pre.names()[i],
{
}

} // verus!
