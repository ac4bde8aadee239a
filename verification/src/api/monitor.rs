//! Subscription state of the polling monitors: which services are watched,
//! at what interval, from which cursor, and which of them are due.
//!
//! Timing is by plain integers: intervals in seconds, check times and the
//! current time in milliseconds of a monotonic clock read by the caller.

use vstd::prelude::*;
use vstd::pervasive::VecAdditionalExecFns;
use crate::text::{clone_opt_string, str_eq};

verus! {

/// Default polling interval of a service, in seconds.
pub open spec fn default_interval_of(service: Seq<char>) -> u64 {
    if service == "gmail"@ {
        30
    } else if service == "drive"@ {
        60
    } else if service == "calendar"@ {
        60
    } else if service == "keep"@ {
        120
    } else {
        60
    }
}

/// Default polling interval of a service, in seconds: 30 for gmail, 60 for
/// drive and calendar, 120 for keep, 60 for any other.
pub fn default_interval(service: &str) -> (secs: u64)
    ensures
        secs == default_interval_of(service@),
{
    if str_eq(service, "gmail") {
        30
    } else if str_eq(service, "drive") {
        60
    } else if str_eq(service, "calendar") {
        60
    } else if str_eq(service, "keep") {
        120
    } else {
        60
    }
}

/// Whether a monitor is due: never checked, or its interval has elapsed
/// since the last check (elapsed time never goes below zero).
pub open spec fn poll_due(last_check_ms: Option<u64>, interval_secs: u64, now_ms: u64) -> bool {
    match last_check_ms {
        None => true,
        Some(last) => (if now_ms >= last { now_ms - last } else { 0 }) >= interval_secs * 1000,
    }
}

/// Whether a monitor is due (see `poll_due`).
pub fn should_poll(last_check_ms: Option<u64>, interval_secs: u64, now_ms: u64) -> (r: bool)
    ensures
        r == poll_due(last_check_ms, interval_secs, now_ms),
{
    match last_check_ms {
        None => true,
        Some(last) => {
            let elapsed = now_ms.saturating_sub(last);
            assert(elapsed / 1000 >= interval_secs <==> elapsed >= interval_secs * 1000)
                by (nonlinear_arith);
            elapsed / 1000 >= interval_secs
        },
    }
}

/// The monitor state of one subscribed service.
#[derive(Debug, Clone)]
pub struct ServiceMonitor {
    pub service: String,
    pub interval_secs: u64,
    pub cursor: Option<String>,
    pub last_check_ms: Option<u64>,
}

/// What the subscription map holds for a service: interval in seconds,
/// cursor, time of the last check.
pub type MonitorEntry = (u64, Option<Seq<char>>, Option<u64>);

/// The view of an optional string.
pub open spec fn opt_view(o: Option<String>) -> Option<Seq<char>> {
    match o {
        Some(s) => Some(s@),
        None => None,
    }
}

/// The entry a monitor stands for.
pub open spec fn entry_of(m: ServiceMonitor) -> MonitorEntry {
    (m.interval_secs, opt_view(m.cursor), m.last_check_ms)
}

/// The subscription map of a list of monitors, later ones winning.
pub open spec fn monitors_map(s: Seq<ServiceMonitor>) -> Map<Seq<char>, MonitorEntry>
    decreases s.len(),
{
    if s.len() == 0 {
        Map::empty()
    } else {
        monitors_map(s.drop_last()).insert(s.last().service@, entry_of(s.last()))
    }
}

/// No service is listed twice.
pub open spec fn names_unique(s: Seq<ServiceMonitor>) -> bool {
    forall|i: int, j: int| 0 <= i < j < s.len() ==> s[i].service@ != s[j].service@
}

/// The entry of a newly subscribed service: the override interval, else the
/// service's default; no cursor; never checked.
pub open spec fn fresh_entry(service: Seq<char>, interval_override: Option<u64>) -> MonitorEntry {
    (
        match interval_override {
            Some(d) => d,
            None => default_interval_of(service),
        },
        None,
        None,
    )
}

/// The map after subscribing `services` in order: each gets a fresh entry,
/// replacing any it had.
pub open spec fn subscribed(
    m: Map<Seq<char>, MonitorEntry>,
    services: Seq<Seq<char>>,
    interval_override: Option<u64>,
) -> Map<Seq<char>, MonitorEntry>
    decreases services.len(),
{
    if services.len() == 0 {
        m
    } else {
        subscribed(m, services.drop_last(), interval_override).insert(
            services.last(),
            fresh_entry(services.last(), interval_override),
        )
    }
}

/// The map without any of `services`.
pub open spec fn removed_all(m: Map<Seq<char>, MonitorEntry>, services: Seq<Seq<char>>) -> Map<
    Seq<char>,
    MonitorEntry,
>
    decreases services.len(),
{
    if services.len() == 0 {
        m
    } else {
        removed_all(m, services.drop_last()).remove(services.last())
    }
}

/// The map after an unsubscribe: an empty list clears every subscription,
/// otherwise the listed services are dropped.
pub open spec fn unsubscribed(m: Map<Seq<char>, MonitorEntry>, services: Seq<Seq<char>>) -> Map<
    Seq<char>,
    MonitorEntry,
> {
    if services.len() == 0 {
        Map::empty()
    } else {
        removed_all(m, services)
    }
}

/// After subscribing, exactly the services already subscribed or listed are
/// subscribed; each listed one has a fresh entry, every other keeps its own.
pub proof fn lemma_subscribe_effect(
    m: Map<Seq<char>, MonitorEntry>,
    services: Seq<Seq<char>>,
    interval_override: Option<u64>,
)
    ensures
        forall|k: Seq<char>|
            #[trigger] subscribed(m, services, interval_override).contains_key(k) <==> (m.contains_key(k)
                || services.contains(k)),
        forall|k: Seq<char>|
            services.contains(k) ==> #[trigger] subscribed(m, services, interval_override)[k]
                == fresh_entry(k, interval_override),
        forall|k: Seq<char>|
            !services.contains(k) && m.contains_key(k) ==> #[trigger] subscribed(
                m,
                services,
                interval_override,
            )[k] == m[k],
    decreases services.len(),
{
    if services.len() > 0 {
        let p = services.drop_last();
        lemma_subscribe_effect(m, p, interval_override);
        assert forall|k: Seq<char>| #[trigger] services.contains(k) <==> (p.contains(k) || k == services.last()) by {
            if services.contains(k) {
                let i = choose|i: int| 0 <= i < services.len() && services[i] == k;
                if i < services.len() - 1 {
                    assert(p[i] == k);
                }
            }
            if p.contains(k) {
                let i = choose|i: int| 0 <= i < p.len() && p[i] == k;
                assert(services[i] == k);
            }
            if k == services.last() {
                assert(services[services.len() - 1] == k);
            }
        }
        let sp = subscribed(m, p, interval_override);
        let last = services.last();
        assert(subscribed(m, services, interval_override) == sp.insert(last, fresh_entry(last, interval_override)));
        assert forall|k: Seq<char>| services.contains(k) implies #[trigger] subscribed(
            m,
            services,
            interval_override,
        )[k] == fresh_entry(k, interval_override) by {
            if k != last {
                assert(p.contains(k));
            }
        }
        assert forall|k: Seq<char>| !services.contains(k) && m.contains_key(k) implies #[trigger] subscribed(
            m,
            services,
            interval_override,
        )[k] == m[k] by {
            assert(!p.contains(k));
            assert(k != last);
        }
        assert forall|k: Seq<char>|
            #[trigger] subscribed(m, services, interval_override).contains_key(k) <==> (m.contains_key(k)
                || services.contains(k)) by {
            assert(sp.contains_key(k) <==> (m.contains_key(k) || p.contains(k)));
        }
    }
}

/// Dropping a list of services removes exactly those services.
pub proof fn lemma_unsubscribe_effect(m: Map<Seq<char>, MonitorEntry>, services: Seq<Seq<char>>)
    ensures
        removed_all(m, services) == m.remove_keys(services.to_set()),
    decreases services.len(),
{
    if services.len() > 0 {
        let p = services.drop_last();
        lemma_unsubscribe_effect(m, p);
        assert(services.to_set() =~= p.to_set().insert(services.last())) by {
            assert forall|k: Seq<char>| services.to_set().contains(k) <==> p.to_set().insert(
                services.last(),
            ).contains(k) by {
                if services.contains(k) {
                    let i = choose|i: int| 0 <= i < services.len() && services[i] == k;
                    if i < services.len() - 1 {
                        assert(p[i] == k);
                    }
                }
                if p.contains(k) {
                    let i = choose|i: int| 0 <= i < p.len() && p[i] == k;
                    assert(services[i] == k);
                }
                if k == services.last() {
                    assert(services[services.len() - 1] == k);
                }
            }
        }
        assert(removed_all(m, services) =~= m.remove_keys(services.to_set()));
    }
}

/// Unsubscribing a list right after subscribing it leaves the table as
/// unsubscribing alone would: no trace of the subscription remains.
pub proof fn lemma_unsubscribe_undoes_subscribe(
    m: Map<Seq<char>, MonitorEntry>,
    services: Seq<Seq<char>>,
    interval_override: Option<u64>,
)
    ensures
        unsubscribed(subscribed(m, services, interval_override), services) == unsubscribed(m, services),
{
    if services.len() > 0 {
        let sub = subscribed(m, services, interval_override);
        lemma_subscribe_effect(m, services, interval_override);
        lemma_unsubscribe_effect(sub, services);
        lemma_unsubscribe_effect(m, services);
        assert forall|k: Seq<char>| services.to_set().contains(k) <==> services.contains(k) by {}
        assert(sub.remove_keys(services.to_set()) =~= m.remove_keys(services.to_set()));
    }
}

/// The views of a list of strings.
pub open spec fn names_view(s: Seq<String>) -> Seq<Seq<char>> {
    s.map_values(|x: String| x@)
}

proof fn lemma_map_keys(s: Seq<ServiceMonitor>)
    requires
        names_unique(s),
    ensures
        monitors_map(s).dom().finite(),
        monitors_map(s).dom().len() == s.len(),
        forall|k: Seq<char>|
            monitors_map(s).dom().contains(k) <==> exists|i: int| 0 <= i < s.len() && s[i].service@ == k,
        forall|i: int| 0 <= i < s.len() ==> #[trigger] monitors_map(s)[s[i].service@] == entry_of(s[i]),
    decreases s.len(),
{
    if s.len() > 0 {
        let p = s.drop_last();
        lemma_map_keys(p);
        let k = s.last().service@;
        assert(!monitors_map(p).dom().contains(k)) by {
            if monitors_map(p).dom().contains(k) {
                let i = choose|i: int| 0 <= i < p.len() && p[i].service@ == k;
                assert(s[i].service@ == s[s.len() - 1].service@);
            }
        }
        assert forall|k2: Seq<char>|
            monitors_map(s).dom().contains(k2) <==> exists|i: int| 0 <= i < s.len() && s[i].service@ == k2 by {
            if monitors_map(s).dom().contains(k2) && k2 != k {
                let i = choose|i: int| 0 <= i < p.len() && p[i].service@ == k2;
                assert(s[i].service@ == k2);
            }
            if exists|i: int| 0 <= i < s.len() && s[i].service@ == k2 {
                let i = choose|i: int| 0 <= i < s.len() && s[i].service@ == k2;
                if i < s.len() - 1 {
                    assert(p[i].service@ == k2);
                }
            }
        }
        assert forall|i: int| 0 <= i < s.len() implies #[trigger] monitors_map(s)[s[i].service@] == entry_of(
            s[i],
        ) by {
            if i < s.len() - 1 {
                assert(p[i] == s[i]);
                assert(monitors_map(p)[p[i].service@] == entry_of(p[i]));
            }
        }
    }
}

proof fn lemma_map_update(s: Seq<ServiceMonitor>, i: int, e: ServiceMonitor)
    requires
        names_unique(s),
        0 <= i < s.len(),
        s[i].service@ == e.service@,
    ensures
        names_unique(s.update(i, e)),
        monitors_map(s.update(i, e)) == monitors_map(s).insert(e.service@, entry_of(e)),
    decreases s.len(),
{
    let u = s.update(i, e);
    assert(u.last() == if i == s.len() - 1 { e } else { s.last() });
    if i == s.len() - 1 {
        assert(u.drop_last() =~= s.drop_last());
        assert(monitors_map(u) =~= monitors_map(s).insert(e.service@, entry_of(e)));
    } else {
        assert(u.drop_last() =~= s.drop_last().update(i, e));
        lemma_map_update(s.drop_last(), i, e);
        assert(s[i].service@ != s.last().service@);
        assert(monitors_map(u) =~= monitors_map(s).insert(e.service@, entry_of(e)));
    }
}

proof fn lemma_map_push(s: Seq<ServiceMonitor>, e: ServiceMonitor)
    requires
        names_unique(s),
        !monitors_map(s).dom().contains(e.service@),
    ensures
        names_unique(s.push(e)),
        monitors_map(s.push(e)) == monitors_map(s).insert(e.service@, entry_of(e)),
{
    lemma_map_keys(s);
    assert(s.push(e).drop_last() =~= s);
    assert forall|i: int, j: int| 0 <= i < j < s.push(e).len() implies s.push(e)[i].service@ != s.push(
        e,
    )[j].service@ by {
        if j == s.len() {
            assert(s[i].service@ == s.push(e)[i].service@);
        }
    }
}

proof fn lemma_map_remove(s: Seq<ServiceMonitor>, i: int)
    requires
        names_unique(s),
        0 <= i < s.len(),
    ensures
        names_unique(s.remove(i)),
        monitors_map(s.remove(i)) == monitors_map(s).remove(s[i].service@),
    decreases s.len(),
{
    let r = s.remove(i);
    let k = s[i].service@;
    let p = s.drop_last();
    assert forall|a: int, b: int| 0 <= a < b < r.len() implies r[a].service@ != r[b].service@ by {
        let sa = if a < i { a } else { a + 1 };
        let sb = if b < i { b } else { b + 1 };
        assert(r[a] == s[sa]);
        assert(r[b] == s[sb]);
    }
    lemma_map_keys(p);
    if i == s.len() - 1 {
        assert(r =~= p);
        assert(!monitors_map(p).dom().contains(k)) by {
            if monitors_map(p).dom().contains(k) {
                let j = choose|j: int| 0 <= j < p.len() && p[j].service@ == k;
                assert(s[j].service@ == s[i].service@);
            }
        }
        assert(monitors_map(r) =~= monitors_map(s).remove(k));
    } else {
        assert(r.drop_last() =~= p.remove(i));
        assert(r.last() == s.last());
        lemma_map_remove(p, i);
        assert(s.last().service@ != k);
        assert(monitors_map(r) =~= monitors_map(s).remove(k));
    }
}

/// The subscription table of the polling monitors.
pub struct MonitorManager {
    monitors: Vec<ServiceMonitor>,
}

impl View for MonitorManager {
    type V = Map<Seq<char>, MonitorEntry>;

    closed spec fn view(&self) -> Map<Seq<char>, MonitorEntry> {
        monitors_map(self.monitors@)
    }
}

impl MonitorManager {
    #[verifier::type_invariant]
    spec fn inv(self) -> bool {
        names_unique(self.monitors@)
    }

    /// No subscriptions.
    pub fn new() -> (r: Self)
        ensures
            r@ == Map::<Seq<char>, MonitorEntry>::empty(),
    {
        MonitorManager { monitors: Vec::new() }
    }

    fn position(mons: &Vec<ServiceMonitor>, service: &str) -> (r: Option<usize>)
        ensures
            match r {
                Some(i) => i < mons@.len() && mons@[i as int].service@ == service@,
                None => forall|i: int| 0 <= i < mons@.len() ==> mons@[i].service@ != service@,
            },
    {
        let mut i: usize = 0;
        while i < mons.len()
            invariant
                i <= mons@.len(),
                forall|j: int| 0 <= j < i ==> mons@[j].service@ != service@,
            decreases mons.len() - i,
        {
            if str_eq(mons[i].service.as_str(), service) {
                return Some(i);
            }
            i = i + 1;
        }
        None
    }

    /// Subscribes the services, in order, each with the override interval
    /// or its default; a service already subscribed starts afresh.
    pub fn subscribe(&mut self, services: &[String], interval_override: Option<u64>)
        ensures
            final(self)@ == subscribed(old(self)@, names_view(services@), interval_override),
    {
        proof {
            use_type_invariant(&*self);
        }
        let mut mons: Vec<ServiceMonitor> = Vec::new();
        std::mem::swap(&mut mons, &mut self.monitors);
        let ghost start = monitors_map(mons@);
        let ghost names = names_view(services@);
        let mut i: usize = 0;
        while i < services.len()
            invariant
                i <= services@.len(),
                names == names_view(services@),
                names_unique(mons@),
                monitors_map(mons@) == subscribed(start, names.take(i as int), interval_override),
            decreases services.len() - i,
        {
            let service = &services[i];
            let interval = match interval_override {
                Some(d) => d,
                None => default_interval(service.as_str()),
            };
            let m = ServiceMonitor {
                service: service.clone(),
                interval_secs: interval,
                cursor: None,
                last_check_ms: None,
            };
            assert(names.take(i + 1).drop_last() =~= names.take(i as int));
            assert(names.take(i + 1).last() == service@);
            assert(entry_of(m) == fresh_entry(service@, interval_override));
            match Self::position(&mons, service.as_str()) {
                Some(j) => {
                    proof {
                        lemma_map_update(mons@, j as int, m);
                    }
                    mons.set(j, m);
                },
                None => {
                    proof {
                        lemma_map_keys(mons@);
                        lemma_map_push(mons@, m);
                    }
                    mons.push(m);
                },
            }
            i = i + 1;
        }
        assert(names.take(services@.len() as int) =~= names);
        self.monitors = mons;
    }

    /// Drops the listed services; with an empty list, drops every one.
    pub fn unsubscribe(&mut self, services: &[String])
        ensures
            final(self)@ == unsubscribed(old(self)@, names_view(services@)),
    {
        proof {
            use_type_invariant(&*self);
        }
        if services.len() == 0 {
            self.monitors = Vec::new();
            assert(monitors_map(self.monitors@) =~= Map::<Seq<char>, MonitorEntry>::empty());
            return;
        }
        let mut mons: Vec<ServiceMonitor> = Vec::new();
        std::mem::swap(&mut mons, &mut self.monitors);
        let ghost start = monitors_map(mons@);
        let ghost names = names_view(services@);
        let mut i: usize = 0;
        while i < services.len()
            invariant
                i <= services@.len(),
                names == names_view(services@),
                names_unique(mons@),
                monitors_map(mons@) == removed_all(start, names.take(i as int)),
            decreases services.len() - i,
        {
            let service = &services[i];
            assert(names.take(i + 1).drop_last() =~= names.take(i as int));
            assert(names.take(i + 1).last() == service@);
            match Self::position(&mons, service.as_str()) {
                Some(j) => {
                    proof {
                        lemma_map_remove(mons@, j as int);
                    }
                    mons.remove(j);
                },
                None => {
                    proof {
                        lemma_map_keys(mons@);
                        assert(monitors_map(mons@).remove(service@) =~= monitors_map(mons@));
                    }
                },
            }
            i = i + 1;
        }
        assert(names.take(services@.len() as int) =~= names);
        self.monitors = mons;
    }

    /// Every subscription: service, interval in seconds, cursor. Each
    /// subscribed service appears once, in no promised order.
    pub fn status(&self) -> (r: Vec<(String, u64, Option<String>)>)
        ensures
            r@.len() == self@.dom().len(),
            forall|i: int, j: int| 0 <= i < j < r@.len() ==> r@[i].0@ != r@[j].0@,
            forall|i: int|
                0 <= i < r@.len() ==> {
                    &&& self@.contains_key(#[trigger] r@[i].0@)
                    &&& self@[r@[i].0@].0 == r@[i].1
                    &&& self@[r@[i].0@].1 == opt_view(r@[i].2)
                },
    {
        proof {
            use_type_invariant(self);
            lemma_map_keys(self.monitors@);
        }
        let mut out: Vec<(String, u64, Option<String>)> = Vec::new();
        let mut i: usize = 0;
        while i < self.monitors.len()
            invariant
                i <= self.monitors@.len(),
                out@.len() == i,
                forall|k: int|
                    0 <= k < i ==> {
                        &&& (#[trigger] out@[k]).0@ == self.monitors@[k].service@
                        &&& out@[k].1 == self.monitors@[k].interval_secs
                        &&& opt_view(out@[k].2) == opt_view(self.monitors@[k].cursor)
                    },
            decreases self.monitors.len() - i,
        {
            let m = &self.monitors[i];
            let c = clone_opt_string(&m.cursor);
            out.push((m.service.clone(), m.interval_secs, c));
            i = i + 1;
        }
        proof {
            assert forall|a: int| 0 <= a < out@.len() implies {
                &&& self@.contains_key(#[trigger] out@[a].0@)
                &&& self@[out@[a].0@].0 == out@[a].1
                &&& self@[out@[a].0@].1 == opt_view(out@[a].2)
            } by {
                assert(monitors_map(self.monitors@)[self.monitors@[a].service@] == entry_of(self.monitors@[a]));
            }
        }
        out
    }

    /// The services due for a poll at `now_ms`, each once.
    pub fn due(&self, now_ms: u64) -> (r: Vec<String>)
        ensures
            forall|i: int, j: int| 0 <= i < j < r@.len() ==> r@[i]@ != r@[j]@,
            forall|k: Seq<char>|
                (exists|i: int| 0 <= i < r@.len() && r@[i]@ == k) <==> (self@.contains_key(k)
                    && poll_due(self@[k].2, self@[k].0, now_ms)),
    {
        proof {
            use_type_invariant(self);
            lemma_map_keys(self.monitors@);
        }
        let ghost s = self.monitors@;
        let mut out: Vec<String> = Vec::new();
        let ghost mut idx: Seq<int> = Seq::empty();
        let mut i: usize = 0;
        while i < self.monitors.len()
            invariant
                i <= s.len(),
                s == self.monitors@,
                names_unique(s),
                idx.len() == out@.len(),
                forall|a: int| 0 <= a < idx.len() ==> 0 <= #[trigger] idx[a] < i,
                forall|a: int, b: int| 0 <= a < b < idx.len() ==> idx[a] < idx[b],
                forall|a: int| 0 <= a < idx.len() ==> out@[a]@ == s[#[trigger] idx[a]].service@,
                forall|k: int|
                    0 <= k < i ==> (poll_due(#[trigger] s[k].last_check_ms, s[k].interval_secs, now_ms)
                        <==> exists|a: int| 0 <= a < idx.len() && idx[a] == k),
            decreases s.len() - i,
        {
            let m = &self.monitors[i];
            let ghost old_idx = idx;
            let due_now = should_poll(m.last_check_ms, m.interval_secs, now_ms);
            if due_now {
                out.push(m.service.clone());
                proof {
                    idx = idx.push(i as int);
                }
            }
            proof {
                assert forall|k: int| 0 <= k < i + 1 implies (poll_due(
                    #[trigger] s[k].last_check_ms,
                    s[k].interval_secs,
                    now_ms,
                ) <==> exists|a: int| 0 <= a < idx.len() && idx[a] == k) by {
                    if k < i {
                        if exists|a: int| 0 <= a < idx.len() && idx[a] == k {
                            let a = choose|a: int| 0 <= a < idx.len() && idx[a] == k;
                            if a < old_idx.len() {
                                assert(old_idx[a] == k);
                            }
                        }
                        if poll_due(s[k].last_check_ms, s[k].interval_secs, now_ms) {
                            let a = choose|a: int| 0 <= a < old_idx.len() && old_idx[a] == k;
                            assert(idx[a] == k);
                        }
                    } else {
                        if due_now {
                            assert(idx[idx.len() - 1] == k);
                        }
                        if exists|a: int| 0 <= a < idx.len() && idx[a] == k {
                            let a = choose|a: int| 0 <= a < idx.len() && idx[a] == k;
                            if a < old_idx.len() {
                                assert(old_idx[a] < i);
                            }
                        }
                    }
                }
            }
            i = i + 1;
        }
        proof {
            assert forall|a: int, b: int| 0 <= a < b < out@.len() implies out@[a]@ != out@[b]@ by {
                assert(idx[a] < idx[b]);
            }
            assert forall|k: Seq<char>|
                (exists|a: int| 0 <= a < out@.len() && out@[a]@ == k) <==> (self@.contains_key(k)
                    && poll_due(self@[k].2, self@[k].0, now_ms)) by {
                if exists|a: int| 0 <= a < out@.len() && out@[a]@ == k {
                    let a = choose|a: int| 0 <= a < out@.len() && out@[a]@ == k;
                    let j = idx[a];
                    assert(monitors_map(s)[s[j].service@] == entry_of(s[j]));
                }
                if self@.contains_key(k) && poll_due(self@[k].2, self@[k].0, now_ms) {
                    let j = choose|j: int| 0 <= j < s.len() && s[j].service@ == k;
                    assert(monitors_map(s)[s[j].service@] == entry_of(s[j]));
                    assert(poll_due(s[j].last_check_ms, s[j].interval_secs, now_ms));
                    let a = choose|a: int| 0 <= a < idx.len() && idx[a] == j;
                    assert(out@[a]@ == k);
                }
            }
        }
        out
    }
}

} // verus!
