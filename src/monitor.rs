//! The observation loop: which containers a tick records, and the counted
//! sequence of engine queries and pauses that makes up a run.
use vstd::prelude::*;

use crate::error::RunError;
use crate::manifest::{declared_names, lemma_unnamed_services_expect_nothing, no_explicit_names, ServiceDeclaration};
use crate::names::{clone_string, strip_separators, stripped};

verus! {

/// One container as the engine reported it at one tick.
#[derive(Debug, Clone)]
pub struct ContainerSnapshot {
    pub id: String,
    pub image: String,
    pub names: Vec<String>,
    pub status: String,
}

pub open spec fn strings_view(v: Seq<String>) -> Seq<Seq<char>> {
    v.map_values(|s: String| s@)
}

impl View for ContainerSnapshot {
    /// Identifier, image, names and status.
    type V = (Seq<char>, Seq<char>, Seq<Seq<char>>, Seq<char>);

    open spec fn view(&self) -> Self::V {
        (self.id@, self.image@, strings_view(self.names@), self.status@)
    }
}

pub open spec fn snapshots_view(v: Seq<ContainerSnapshot>) -> Seq<<ContainerSnapshot as View>::V> {
    v.map_values(|c: ContainerSnapshot| c@)
}

/// Some reported name, once stripped, is an expected one.
pub open spec fn is_expected(names: Seq<Seq<char>>, expected: Seq<Seq<char>>) -> bool {
    exists|i: int| 0 <= i < names.len() && expected.contains(stripped(#[trigger] names[i]))
}

/// The entries a tick appends: the listed containers that are expected, in
/// the engine's order.
pub open spec fn matching(
    listing: Seq<<ContainerSnapshot as View>::V>,
    expected: Seq<Seq<char>>,
) -> Seq<<ContainerSnapshot as View>::V>
    decreases listing.len(),
{
    if listing.len() == 0 {
        seq![]
    } else {
        let rest = matching(listing.drop_last(), expected);
        if is_expected(listing.last().2, expected) {
            rest.push(listing.last())
        } else {
            rest
        }
    }
}

/// The observation log after the given ticks' listings: each tick's matches,
/// tick after tick, with no deduplication across ticks.
pub open spec fn collected(
    listings: Seq<Seq<<ContainerSnapshot as View>::V>>,
    expected: Seq<Seq<char>>,
) -> Seq<<ContainerSnapshot as View>::V>
    decreases listings.len(),
{
    if listings.len() == 0 {
        seq![]
    } else {
        collected(listings.drop_last(), expected) + matching(listings.last(), expected)
    }
}

/// With no expected name, no tick records anything.
pub proof fn lemma_nothing_expected_nothing_collected(
    listings: Seq<Seq<<ContainerSnapshot as View>::V>>,
    expected: Seq<Seq<char>>,
)
    requires
        expected.len() == 0,
    ensures
        collected(listings, expected).len() == 0,
    decreases listings.len(),
{
    if listings.len() > 0 {
        lemma_nothing_expected_nothing_matches(listings.last(), expected);
        lemma_nothing_expected_nothing_collected(listings.drop_last(), expected);
    }
}

/// With no expected name, no listed container matches.
pub proof fn lemma_nothing_expected_nothing_matches(
    listing: Seq<<ContainerSnapshot as View>::V>,
    expected: Seq<Seq<char>>,
)
    requires
        expected.len() == 0,
    ensures
        matching(listing, expected).len() == 0,
    decreases listing.len(),
{
    if listing.len() > 0 {
        lemma_nothing_expected_nothing_matches(listing.drop_last(), expected);
    }
}

fn contains_name(expected: &Vec<String>, name: &String) -> (r: bool)
    ensures
        r == strings_view(expected@).contains(name@),
{
    let mut i: usize = 0;
    while i < expected.len()
        invariant
            i <= expected@.len(),
            forall|j: int| 0 <= j < i ==> expected@[j]@ != name@,
        decreases expected@.len() - i,
    {
        if expected[i] == *name {
            proof {
                assert(strings_view(expected@)[i as int] == name@);
            }
            return true;
        }
        i = i + 1;
    }
    proof {
        if strings_view(expected@).contains(name@) {
            let k = choose|k: int| 0 <= k < strings_view(expected@).len() && strings_view(expected@)[k] == name@;
            assert(expected@[k]@ == name@);
        }
    }
    false
}

/// Whether one of `names`, stripped of its leading separators, is expected.
pub fn names_match(names: &Vec<String>, expected: &Vec<String>) -> (r: bool)
    ensures
        r == is_expected(strings_view(names@), strings_view(expected@)),
{
    let mut i: usize = 0;
    while i < names.len()
        invariant
            i <= names@.len(),
            forall|j: int|
                0 <= j < i ==> !strings_view(expected@).contains(stripped(#[trigger] strings_view(names@)[j])),
        decreases names@.len() - i,
    {
        let n = strip_separators(names[i].as_str());
        if contains_name(expected, &n) {
            proof {
                assert(strings_view(names@)[i as int] == names@[i as int]@);
            }
            return true;
        }
        proof {
            assert(strings_view(names@)[i as int] == names@[i as int]@);
        }
        i = i + 1;
    }
    false
}

fn clone_strings(v: &Vec<String>) -> (r: Vec<String>)
    ensures
        strings_view(r@) == strings_view(v@),
{
    let mut r: Vec<String> = Vec::new();
    let mut i: usize = 0;
    while i < v.len()
        invariant
            i <= v@.len(),
            r@.len() == i,
            strings_view(r@) == strings_view(v@.subrange(0, i as int)),
        decreases v@.len() - i,
    {
        let ghost before = r@;
        r.push(clone_string(&v[i]));
        proof {
            assert forall|j: int| 0 <= j < i + 1 implies #[trigger] strings_view(r@)[j] == strings_view(
                v@.subrange(0, i + 1),
            )[j] by {
                if j < i {
                    assert(r@[j] == before[j]);
                    assert(strings_view(before)[j] == strings_view(v@.subrange(0, i as int))[j]);
                }
            }
            assert(strings_view(r@) =~= strings_view(v@.subrange(0, i + 1)));
        }
        i = i + 1;
    }
    proof {
        assert(v@.subrange(0, i as int) =~= v@);
    }
    r
}

impl ContainerSnapshot {
    /// A copy with the same identifier, image, names and status.
    pub fn duplicate(&self) -> (r: ContainerSnapshot)
        ensures
            r@ == self@,
    {
        ContainerSnapshot {
            id: clone_string(&self.id),
            image: clone_string(&self.image),
            names: clone_strings(&self.names),
            status: clone_string(&self.status),
        }
    }
}

/// Appends to `log` the containers of one engine listing that bear an
/// expected name, in the listing's order.
pub fn record_tick(log: &mut Vec<ContainerSnapshot>, listing: &Vec<ContainerSnapshot>, expected: &Vec<String>)
    ensures
        snapshots_view(final(log)@) == snapshots_view(old(log)@) + matching(
            snapshots_view(listing@),
            strings_view(expected@),
        ),
{
    let ghost start = snapshots_view(log@);
    let mut i: usize = 0;
    while i < listing.len()
        invariant
            i <= listing@.len(),
            snapshots_view(log@) == start + matching(
                snapshots_view(listing@.subrange(0, i as int)),
                strings_view(expected@),
            ),
        decreases listing@.len() - i,
    {
        let ghost prev = snapshots_view(listing@.subrange(0, i as int));
        let ghost next = snapshots_view(listing@.subrange(0, i + 1));
        proof {
            assert(next.drop_last() =~= prev);
            assert(next.last() == listing@[i as int]@);
        }
        let ghost before = log@;
        if names_match(&listing[i].names, expected) {
            log.push(listing[i].duplicate());
            proof {
                assert(snapshots_view(log@) =~= snapshots_view(before).push(listing@[i as int]@));
            }
        }
        i = i + 1;
    }
    proof {
        assert(listing@.subrange(0, i as int) =~= listing@);
    }
}


/// What the driver of a run does next.
#[derive(Debug, Clone, Copy, PartialEq, Eq, Structural)]
pub enum MonitorAction {
    /// List the engine's containers and hand the result to `on_listing`.
    QueryEngine,
    /// Pause for one tick interval and then call `on_slept`.
    Sleep,
    /// Every tick is done: take the log with `into_log`.
    Report,
    /// An engine query failed; the run is over and nothing is reported.
    Abort,
}

/// A monitoring run of a fixed number of ticks. Each tick is one engine
/// query followed by one pause, the last tick included.
pub struct Monitor {
    expected: Vec<String>,
    ticks: u64,
    queries: u64,
    sleeps: u64,
    failed: bool,
    log: Vec<ContainerSnapshot>,
    listings: Ghost<Seq<Seq<<ContainerSnapshot as View>::V>>>,
}

impl Monitor {
    pub closed spec fn expected_view(&self) -> Seq<Seq<char>> {
        strings_view(self.expected@)
    }

    pub closed spec fn tick_count(&self) -> nat {
        self.ticks as nat
    }

    pub closed spec fn query_count(&self) -> nat {
        self.queries as nat
    }

    pub closed spec fn sleep_count(&self) -> nat {
        self.sleeps as nat
    }

    pub closed spec fn has_failed(&self) -> bool {
        self.failed
    }

    /// The listings that the engine returned, one per completed query.
    pub closed spec fn listings(&self) -> Seq<Seq<<ContainerSnapshot as View>::V>> {
        self.listings@
    }

    pub closed spec fn log_view(&self) -> Seq<<ContainerSnapshot as View>::V> {
        snapshots_view(self.log@)
    }

    pub closed spec fn wf(&self) -> bool {
        &&& self.sleeps <= self.queries <= self.ticks
        &&& self.queries <= self.sleeps + 1
        &&& self.listings@.len() == self.queries
        &&& self.failed ==> self.log@.len() == 0
        &&& !self.failed ==> self.log_view() == collected(self.listings@, self.expected_view())
    }

    /// The step the run is at.
    pub open spec fn action(&self) -> MonitorAction {
        if self.has_failed() {
            MonitorAction::Abort
        } else if self.query_count() > self.sleep_count() {
            MonitorAction::Sleep
        } else if self.query_count() == self.tick_count() {
            MonitorAction::Report
        } else {
            MonitorAction::QueryEngine
        }
    }

    /// The number of steps left before the run reports.
    pub open spec fn steps_left(&self) -> nat {
        ((2 * self.tick_count()) - self.query_count() - self.sleep_count()) as nat
    }

    /// A run over `ticks` ticks that keeps containers bearing one of `expected`.
    pub fn new(expected: Vec<String>, ticks: u64) -> (r: Monitor)
        ensures
            r.wf(),
            r.expected_view() == strings_view(expected@),
            r.tick_count() == ticks,
            r.query_count() == 0,
            r.sleep_count() == 0,
            !r.has_failed(),
            r.listings() == Seq::<Seq<<ContainerSnapshot as View>::V>>::empty(),
            r.log_view() == Seq::<<ContainerSnapshot as View>::V>::empty(),
    {
        let r = Monitor {
            expected,
            ticks,
            queries: 0,
            sleeps: 0,
            failed: false,
            log: Vec::new(),
            listings: Ghost(Seq::empty()),
        };
        proof {
            assert(r.log_view() =~= seq![]);
        }
        r
    }

    pub fn ticks(&self) -> (r: u64)
        ensures
            r == self.tick_count(),
    {
        self.ticks
    }

    pub fn queries(&self) -> (r: u64)
        ensures
            r == self.query_count(),
    {
        self.queries
    }

    pub fn sleeps(&self) -> (r: u64)
        ensures
            r == self.sleep_count(),
    {
        self.sleeps
    }

    pub fn expected(&self) -> (r: &Vec<String>)
        ensures
            strings_view(r@) == self.expected_view(),
    {
        &self.expected
    }

    pub fn next_action(&self) -> (r: MonitorAction)
        ensures
            r == self.action(),
    {
        if self.failed {
            MonitorAction::Abort
        } else if self.queries > self.sleeps {
            MonitorAction::Sleep
        } else if self.queries == self.ticks {
            MonitorAction::Report
        } else {
            MonitorAction::QueryEngine
        }
    }

    /// Takes the outcome of one engine query. A listing appends its expected
    /// containers to the log; a failure ends the run at once with
    /// `EngineQuery`, and what earlier ticks recorded is discarded.
    pub fn on_listing(&mut self, listing: Result<Vec<ContainerSnapshot>, String>) -> (r: Result<(), RunError>)
        requires
            old(self).wf(),
            old(self).action() == MonitorAction::QueryEngine,
        ensures
            final(self).wf(),
            final(self).expected_view() == old(self).expected_view(),
            final(self).tick_count() == old(self).tick_count(),
            final(self).sleep_count() == old(self).sleep_count(),
            match listing {
                Ok(cs) => {
                    &&& r is Ok
                    &&& !final(self).has_failed()
                    &&& final(self).query_count() == old(self).query_count() + 1
                    &&& final(self).listings() == old(self).listings().push(snapshots_view(cs@))
                    &&& final(self).log_view() == old(self).log_view() + matching(
                        snapshots_view(cs@),
                        old(self).expected_view(),
                    )
                    &&& final(self).steps_left() + 1 == old(self).steps_left()
                },
                Err(m) => {
                    &&& r matches Err(RunError::EngineQuery(e)) && e@ == m@
                    &&& final(self).has_failed()
                    &&& final(self).query_count() == old(self).query_count()
                    &&& final(self).log_view().len() == 0
                },
            },
    {
        match listing {
            Ok(cs) => {
                proof {
                    let ls = self.listings@.push(snapshots_view(cs@));
                    assert(ls.drop_last() =~= self.listings@);
                }
                record_tick(&mut self.log, &cs, &self.expected);
                self.listings = Ghost(self.listings@.push(snapshots_view(cs@)));
                self.queries = self.queries + 1;
                Ok(())
            },
            Err(m) => {
                self.failed = true;
                self.log = Vec::new();
                Err(RunError::EngineQuery(m))
            },
        }
    }

    /// Records that the pause after a tick has passed.
    pub fn on_slept(&mut self)
        requires
            old(self).wf(),
            old(self).action() == MonitorAction::Sleep,
        ensures
            final(self).wf(),
            final(self).expected_view() == old(self).expected_view(),
            final(self).tick_count() == old(self).tick_count(),
            final(self).query_count() == old(self).query_count(),
            final(self).sleep_count() == old(self).sleep_count() + 1,
            final(self).has_failed() == old(self).has_failed(),
            final(self).listings() == old(self).listings(),
            final(self).log_view() == old(self).log_view(),
            final(self).steps_left() + 1 == old(self).steps_left(),
    {
        self.sleeps = self.sleeps + 1;
    }

    /// The observation log of a completed run: every tick's matches, tick
    /// after tick, in the engine's order within a tick.
    pub fn into_log(self) -> (r: Vec<ContainerSnapshot>)
        requires
            self.wf(),
            self.action() == MonitorAction::Report,
        ensures
            self.listings().len() == self.tick_count(),
            snapshots_view(r@) == collected(self.listings(), self.expected_view()),
    {
        self.log
    }
}

/// A run reports only after exactly as many engine queries and as many
/// pauses as it has ticks, and until then every step brings it one closer.
pub proof fn lemma_report_after_every_tick(m: Monitor)
    requires
        m.wf(),
    ensures
        m.query_count() <= m.tick_count(),
        m.sleep_count() <= m.query_count(),
        m.action() == MonitorAction::Report ==> m.query_count() == m.tick_count() && m.sleep_count()
            == m.tick_count() && m.steps_left() == 0,
        m.action() == MonitorAction::QueryEngine || m.action() == MonitorAction::Sleep ==> m.steps_left()
            > 0,
{
}

/// With no expected name, the log of a run stays empty whatever the engine lists.
pub proof fn lemma_nothing_expected_nothing_logged(m: Monitor)
    requires
        m.wf(),
        m.expected_view().len() == 0,
    ensures
        m.log_view().len() == 0,
{
    if !m.has_failed() {
        lemma_nothing_expected_nothing_collected(m.listings(), m.expected_view());
    }
}


/// A run watching the names of a manifest without explicit container names
/// expects nothing and logs nothing, whatever the engine lists.
pub proof fn lemma_unnamed_manifest_logs_nothing(services: Seq<ServiceDeclaration>, m: Monitor)
    requires
        no_explicit_names(services),
        m.wf(),
        m.expected_view() == declared_names(services),
    ensures
        m.expected_view().len() == 0,
        m.log_view().len() == 0,
{
    lemma_unnamed_services_expect_nothing(services);
    lemma_nothing_expected_nothing_logged(m);
}

} // verus!
