//! Watching the cluster: each poll of the topic list is compared with the
//! names seen at the previous poll, and the differences are announced.
use vstd::prelude::*;

use crate::api::{listed_resource, topic_to_resource, SseEvent, SseEventView};
use crate::domain::{Topic, TopicDetailView, TopicView};
use crate::error::SiegeError;
use crate::text::string_eq_str;

verus! {

/// The views of a list of events.
pub open spec fn event_views(s: Seq<SseEvent>) -> Seq<SseEventView> {
    s.map_values(|e: SseEvent| e@)
}

/// The views of a list of topics.
pub open spec fn topic_views(s: Seq<Topic>) -> Seq<TopicView> {
    s.map_values(|t: Topic| t@)
}

/// The names of a list of topics, in order.
pub open spec fn topic_names(s: Seq<TopicView>) -> Seq<Seq<char>> {
    s.map_values(|t: TopicView| t.name)
}

/// `s` with every repeated element after its first occurrence removed.
pub open spec fn dedup(s: Seq<Seq<char>>) -> Seq<Seq<char>>
    decreases s.len(),
{
    if s.len() == 0 {
        Seq::empty()
    } else {
        let d = dedup(s.drop_last());
        if d.contains(s.last()) {
            d
        } else {
            d.push(s.last())
        }
    }
}

/// One creation event for each topic, in order, whose name is not in
/// `known`.
pub open spec fn created_events(known: Set<Seq<char>>, topics: Seq<TopicView>) -> Seq<SseEventView>
    decreases topics.len(),
{
    if topics.len() == 0 {
        Seq::empty()
    } else {
        let rest = created_events(known, topics.drop_last());
        if known.contains(topics.last().name) {
            rest
        } else {
            rest.push(SseEventView::TopicCreated { topic: listed_resource(topics.last()) })
        }
    }
}

/// One deletion event for each name of `known`, in order, that is not in
/// `current`.
pub open spec fn deleted_events(known: Seq<Seq<char>>, current: Set<Seq<char>>) -> Seq<SseEventView>
    decreases known.len(),
{
    if known.len() == 0 {
        Seq::empty()
    } else {
        let rest = deleted_events(known.drop_last(), current);
        if current.contains(known.last()) {
            rest
        } else {
            rest.push(SseEventView::TopicDeleted { name: known.last() })
        }
    }
}

/// What one poll announces: the topics that appeared, then the names that
/// disappeared.
pub open spec fn poll_events(known: Seq<Seq<char>>, topics: Seq<TopicView>) -> Seq<SseEventView> {
    created_events(known.to_set(), topics) + deleted_events(
        known,
        topic_names(topics).to_set(),
    )
}

/// The names that a watcher remembers: those of the last poll.
#[derive(Debug)]
pub struct ClusterWatcher {
    known: Vec<String>,
}

impl ClusterWatcher {
    /// The remembered names, each once, in the order first seen.
    pub closed spec fn known(&self) -> Seq<Seq<char>> {
        self.known@.map_values(|s: String| s@)
    }

    #[verifier::type_invariant]
    spec fn names_unique(&self) -> bool {
        self.known().no_duplicates()
    }

    /// A watcher that has seen no topic yet.
    pub fn new() -> (r: Self)
        ensures
            r.known() == Seq::<Seq<char>>::empty(),
    {
        let r = ClusterWatcher { known: Vec::new() };
        assert(r.known() =~= Seq::<Seq<char>>::empty());
        r
    }

    /// Whether `name` is remembered.
    fn remembers(&self, name: &String) -> (r: bool)
        ensures
            r == self.known().contains(name@),
    {
        let n: usize = self.known.len();
        let mut i: usize = 0;
        while i < n
            invariant
                n == self.known@.len(),
                self.known().len() == n,
                i <= n,
                forall|j: int| 0 <= j < i ==> self.known()[j] != name@,
            decreases n - i,
        {
            if string_eq_str(&self.known[i], name.as_str()) {
                assert(self.known()[i as int] == name@);
                return true;
            }
            i = i + 1;
        }
        false
    }

    /// Takes in the current topic list: announces each topic whose name was
    /// not seen at the previous poll and each remembered name that is gone,
    /// then remembers the current names.
    pub fn observe(&mut self, topics: &Vec<Topic>) -> (r: Vec<SseEvent>)
        ensures
            event_views(r@) == poll_events(old(self).known(), topic_views(topics@)),
            final(self).known() == dedup(topic_names(topic_views(topics@))),
    {
        proof {
            use_type_invariant(&*self);
        }
        let ghost known0 = self.known();
        let ghost views = topic_views(topics@);
        let n: usize = topics.len();
        let mut r: Vec<SseEvent> = Vec::new();
        let mut i: usize = 0;
        while i < n
            invariant
                n == topics@.len(),
                views == topic_views(topics@),
                known0 == self.known(),
                i <= n,
                event_views(r@) == created_events(known0.to_set(), views.take(i as int)),
            decreases n - i,
        {
            proof {
                assert(views.take(i as int + 1).drop_last() =~= views.take(i as int));
                assert(views.take(i as int + 1).last() == topics@[i as int]@);
            }
            if !self.remembers(&topics[i].name) {
                let e = SseEvent::TopicCreated { topic: topic_to_resource(&topics[i]) };
                proof {
                    assert(event_views(r@.push(e)) =~= event_views(r@).push(e@));
                }
                r.push(e);
            }
            i = i + 1;
        }
        assert(views.take(n as int) =~= views);
        let mut current: Vec<String> = Vec::new();
        let mut i: usize = 0;
        while i < n
            invariant
                n == topics@.len(),
                views == topic_views(topics@),
                i <= n,
                current@.map_values(|s: String| s@) == dedup(topic_names(views.take(i as int))),
            decreases n - i,
        {
            let ghost cur = current@.map_values(|s: String| s@);
            proof {
                let names = topic_names(views.take(i as int + 1));
                assert(names.drop_last() =~= topic_names(views.take(i as int)));
                assert(names.last() == topics@[i as int].name@);
            }
            let mut seen = false;
            let mut j: usize = 0;
            while j < current.len()
                invariant
                    i < n,
                    n == topics@.len(),
                    j <= current@.len(),
                    cur == current@.map_values(|s: String| s@),
                    seen == exists|k: int| 0 <= k < j && cur[k] == topics@[i as int].name@,
                decreases current@.len() - j,
            {
                assert(cur[j as int] == current@[j as int]@);
                if string_eq_str(&current[j], topics[i].name.as_str()) {
                    seen = true;
                }
                j = j + 1;
            }
            proof {
                if cur.contains(topics@[i as int].name@) {
                    let k = choose|k: int| 0 <= k < cur.len() && cur[k] == topics@[i as int].name@;
                    assert(seen);
                }
            }
            if !seen {
                let name = topics[i].name.clone();
                proof {
                    assert(current@.push(name).map_values(|s: String| s@) =~= cur.push(name@));
                }
                current.push(name);
            }
            i = i + 1;
        }
        proof {
            lemma_dedup_unique(topic_names(views));
        }
        let ghost names_now = topic_names(views).to_set();
        let mut j: usize = 0;
        let m: usize = self.known.len();
        while j < m
            invariant
                m == self.known@.len(),
                known0 == self.known(),
                known0.len() == m,
                j <= m,
                current@.map_values(|s: String| s@) == dedup(topic_names(views)),
                names_now == topic_names(views).to_set(),
                event_views(r@) == created_events(known0.to_set(), views) + deleted_events(
                    known0.take(j as int),
                    names_now,
                ),
            decreases m - j,
        {
            proof {
                assert(known0.take(j as int + 1).drop_last() =~= known0.take(j as int));
                assert(known0.take(j as int + 1).last() == self.known@[j as int]@);
                lemma_dedup_contains(topic_names(views), self.known@[j as int]@);
            }
            let mut present = false;
            let mut k: usize = 0;
            let ghost cur = current@.map_values(|s: String| s@);
            while k < current.len()
                invariant
                    j < m,
                    m == self.known@.len(),
                    k <= current@.len(),
                    cur == current@.map_values(|s: String| s@),
                    present == exists|q: int| 0 <= q < k && cur[q] == self.known@[j as int]@,
                decreases current@.len() - k,
            {
                assert(cur[k as int] == current@[k as int]@);
                if string_eq_str(&current[k], self.known[j].as_str()) {
                    present = true;
                }
                k = k + 1;
            }
            proof {
                if cur.contains(self.known@[j as int]@) {
                    let q = choose|q: int| 0 <= q < cur.len() && cur[q] == self.known@[j as int]@;
                    assert(present);
                }
            }
            if !present {
                let e = SseEvent::TopicDeleted { name: self.known[j].clone() };
                proof {
                    assert(event_views(r@.push(e)) =~= event_views(r@).push(e@));
                }
                r.push(e);
            }
            j = j + 1;
        }
        assert(known0.take(m as int) =~= known0);
        self.known = current;
        r
    }

    /// Takes in the outcome of one listing of the cluster: a successful
    /// listing is observed; a failed one announces nothing and leaves the
    /// remembered names as they were, so the next successful listing is
    /// compared with the last successful one.
    pub fn step(&mut self, listing: Result<Vec<Topic>, SiegeError>) -> (r: Vec<SseEvent>)
        ensures
            final(self).known() == remembered(
                seq![old(self).known()],
                seq![listing_view(listing)],
            ),
            event_views(r@) == announced(old(self).known(), listing_view(listing)),
    {
        proof {
            let one = seq![listing_view(listing)];
            assert(one.drop_last() =~= Seq::<Option<Seq<TopicView>>>::empty());
            assert(remembered(seq![old(self).known()], one.drop_last()) == old(self).known());
        }
        match listing {
            Ok(topics) => self.observe(&topics),
            Err(_) => {
                let r: Vec<SseEvent> = Vec::new();
                assert(event_views(r@) =~= Seq::<SseEventView>::empty());
                r
            },
        }
    }
}

/// What a listing of the cluster gave: the topics, or nothing when it
/// failed.
pub open spec fn listing_view(l: Result<Vec<Topic>, SiegeError>) -> Option<Seq<TopicView>> {
    match l {
        Ok(ts) => Some(topic_views(ts@)),
        Err(_) => None,
    }
}

/// What one listing announces, given the names remembered before it: the
/// differences for a successful listing, nothing for a failed one.
pub open spec fn announced(known: Seq<Seq<char>>, l: Option<Seq<TopicView>>) -> Seq<SseEventView> {
    match l {
        Some(ts) => poll_events(known, ts),
        None => Seq::empty(),
    }
}

/// The names remembered after the listings `ls`, starting from the names
/// `start[0]`: those of the last successful listing, or the starting
/// names when none succeeded.
pub open spec fn remembered(start: Seq<Seq<Seq<char>>>, ls: Seq<Option<Seq<TopicView>>>) -> Seq<Seq<char>>
    decreases ls.len(),
{
    if ls.len() == 0 {
        start[0]
    } else {
        match ls.last() {
            Some(ts) => dedup(topic_names(ts)),
            None => remembered(start, ls.drop_last()),
        }
    }
}

/// The last successful listing among `ls`, if any.
pub open spec fn last_success(ls: Seq<Option<Seq<TopicView>>>) -> Option<Seq<TopicView>>
    decreases ls.len(),
{
    if ls.len() == 0 {
        None
    } else {
        match ls.last() {
            Some(ts) => Some(ts),
            None => last_success(ls.drop_last()),
        }
    }
}

/// Successive listings, from a fresh watcher: after any run of listings
/// the watcher remembers exactly the names of the last successful one
/// (nothing when none succeeded), each once.  So each successful listing
/// announces its topics that the last successful listing lacked, then the
/// names of that listing that it lacks; failed listings change nothing.
pub proof fn law_successive_listings(ls: Seq<Option<Seq<TopicView>>>)
    ensures
        remembered(seq![Seq::<Seq<char>>::empty()], ls).no_duplicates(),
        forall|n: Seq<char>|
            #[trigger] remembered(seq![Seq::<Seq<char>>::empty()], ls).contains(n) <==> (
            last_success(ls) matches Some(ts) && topic_names(ts).contains(n)),
    decreases ls.len(),
{
    let start = seq![Seq::<Seq<char>>::empty()];
    if ls.len() == 0 {
    } else {
        match ls.last() {
            Some(ts) => {
                lemma_dedup_unique(topic_names(ts));
                assert forall|n: Seq<char>|
                    #[trigger] remembered(start, ls).contains(n) <==> topic_names(ts).contains(n) by {
                    lemma_dedup_contains(topic_names(ts), n);
                }
            },
            None => {
                law_successive_listings(ls.drop_last());
            },
        }
    }
}

/// A failed listing changes nothing: it announces nothing, and the names
/// remembered afterwards are those remembered before it.
pub proof fn law_failed_listing_changes_nothing(
    start: Seq<Seq<Seq<char>>>,
    ls: Seq<Option<Seq<TopicView>>>,
)
    ensures
        remembered(start, ls.push(None)) == remembered(start, ls),
        announced(remembered(start, ls), None) == Seq::<SseEventView>::empty(),
{
    assert(ls.push(None).drop_last() =~= ls);
}

/// One more listing continues a run: the names remembered after it are
/// those that a single step from the names remembered before it leaves.
pub proof fn law_step_continues_run(
    start: Seq<Seq<Seq<char>>>,
    ls: Seq<Option<Seq<TopicView>>>,
    l: Option<Seq<TopicView>>,
)
    ensures
        remembered(start, ls.push(l)) == remembered(seq![remembered(start, ls)], seq![l]),
{
    assert(ls.push(l).drop_last() =~= ls);
    assert(seq![l].drop_last() =~= Seq::<Option<Seq<TopicView>>>::empty());
    assert(remembered(seq![remembered(start, ls)], seq![l].drop_last()) == remembered(start, ls));
}

/// An element of a non-empty sequence is its last element or an element
/// of the rest.
pub proof fn lemma_contains_split(s: Seq<Seq<char>>, x: Seq<char>)
    requires
        s.len() > 0,
    ensures
        s.contains(x) == (s.drop_last().contains(x) || s.last() == x),
{
    if s.contains(x) {
        let i = choose|i: int| 0 <= i < s.len() && s[i] == x;
        if i < s.len() - 1 {
            assert(s.drop_last()[i] == x);
        }
    }
    if s.drop_last().contains(x) {
        let i = choose|i: int| 0 <= i < s.drop_last().len() && s.drop_last()[i] == x;
        assert(s[i] == x);
    }
    if s.last() == x {
        assert(s[s.len() - 1] == x);
    }
}

/// Appending adds exactly one element.
pub proof fn lemma_push_contains(d: Seq<Seq<char>>, y: Seq<char>, x: Seq<char>)
    ensures
        d.push(y).contains(x) == (d.contains(x) || y == x),
{
    lemma_contains_split(d.push(y), x);
    assert(d.push(y).drop_last() =~= d);
}

/// `dedup` keeps exactly the elements of its argument.
pub proof fn lemma_dedup_contains(s: Seq<Seq<char>>, x: Seq<char>)
    ensures
        dedup(s).contains(x) == s.contains(x),
    decreases s.len(),
{
    if s.len() > 0 {
        lemma_dedup_contains(s.drop_last(), x);
        lemma_dedup_contains(s.drop_last(), s.last());
        lemma_contains_split(s, x);
        let d = dedup(s.drop_last());
        if !d.contains(s.last()) {
            lemma_push_contains(d, s.last(), x);
        }
    }
}

/// `dedup` leaves no duplicates.
pub proof fn lemma_dedup_unique(s: Seq<Seq<char>>)
    ensures
        dedup(s).no_duplicates(),
    decreases s.len(),
{
    if s.len() > 0 {
        lemma_dedup_unique(s.drop_last());
        let d = dedup(s.drop_last());
        if !d.contains(s.last()) {
            let e = d.push(s.last());
            assert forall|i: int, j: int| 0 <= i < e.len() && 0 <= j < e.len() && i != j implies e[i]
                != e[j] by {
                if i == d.len() as int {
                    assert(e[j] == d[j]);
                } else if j == d.len() as int {
                    assert(e[i] == d[i]);
                } else {
                    assert(e[i] == d[i] && e[j] == d[j]);
                }
            }
        }
    }
}

/// No topic is announced as created when every name is already known.
pub proof fn lemma_created_none(known: Set<Seq<char>>, topics: Seq<TopicView>)
    requires
        forall|i: int| 0 <= i < topics.len() ==> known.contains(#[trigger] topics[i].name),
    ensures
        created_events(known, topics) == Seq::<SseEventView>::empty(),
    decreases topics.len(),
{
    if topics.len() > 0 {
        let rest = topics.drop_last();
        assert forall|i: int| 0 <= i < rest.len() implies known.contains(#[trigger] rest[i].name) by {
            assert(rest[i] == topics[i]);
        }
        lemma_created_none(known, rest);
        assert(known.contains(topics[topics.len() - 1].name));
    }
}

/// No name is announced as deleted when every known name is current.
pub proof fn lemma_deleted_none(known: Seq<Seq<char>>, current: Set<Seq<char>>)
    requires
        forall|i: int| 0 <= i < known.len() ==> current.contains(#[trigger] known[i]),
    ensures
        deleted_events(known, current) == Seq::<SseEventView>::empty(),
    decreases known.len(),
{
    if known.len() > 0 {
        let rest = known.drop_last();
        assert forall|i: int| 0 <= i < rest.len() implies current.contains(#[trigger] rest[i]) by {
            assert(rest[i] == known[i]);
        }
        lemma_deleted_none(rest, current);
        assert(current.contains(known[known.len() - 1]));
    }
}

/// A watcher that polls the same topic list twice announces nothing the
/// second time: what `observe` remembers after a poll of `topics` makes a
/// second poll of `topics` silent.
pub proof fn law_repeated_poll_is_silent(topics: Seq<TopicView>)
    ensures
        poll_events(dedup(topic_names(topics)), topics) == Seq::<SseEventView>::empty(),
{
    let names = topic_names(topics);
    let known = dedup(names);
    assert forall|i: int| 0 <= i < topics.len() implies known.to_set().contains(
        #[trigger] topics[i].name,
    ) by {
        assert(names[i] == topics[i].name);
        assert(names.contains(topics[i].name));
        lemma_dedup_contains(names, topics[i].name);
    }
    lemma_created_none(known.to_set(), topics);
    assert forall|i: int| 0 <= i < known.len() implies names.to_set().contains(#[trigger] known[i]) by {
        assert(known.contains(known[i]));
        lemma_dedup_contains(names, known[i]);
    }
    lemma_deleted_none(known, names.to_set());
    assert(Seq::<SseEventView>::empty() + Seq::<SseEventView>::empty() =~= Seq::<SseEventView>::empty());
}

/// Every name announced as deleted was known and is absent from the
/// current list, and it is announced once.
pub proof fn law_deleted_names_were_known(known: Seq<Seq<char>>, current: Set<Seq<char>>, i: int)
    requires
        0 <= i < deleted_events(known, current).len(),
    ensures
        deleted_events(known, current)[i] matches SseEventView::TopicDeleted { name } && known.contains(
            name,
        ) && !current.contains(name),
    decreases known.len(),
{
    let rest = deleted_events(known.drop_last(), current);
    if i < rest.len() {
        law_deleted_names_were_known(known.drop_last(), current, i);
        if let SseEventView::TopicDeleted { name } = rest[i] {
            let j = choose|j: int| 0 <= j < known.drop_last().len() && known.drop_last()[j] == name;
            assert(known[j] == name);
        }
    } else {
        assert(known[known.len() - 1] == known.last());
    }
}

/// The announcement of a newly listed topic: its own name, partition
/// count and replication factor, with no configuration.
pub open spec fn creation_of(t: TopicView) -> SseEventView {
    SseEventView::TopicCreated {
        topic: TopicDetailView {
            name: t.name,
            partitions: t.partitions,
            replication_factor: t.replication_factor,
            config: Map::empty(),
        },
    }
}

/// Each creation a poll announces carries a listed topic whose name was
/// not known, with that topic's own name, partition count and
/// replication factor and an empty configuration; and every listed topic
/// whose name was not known is announced so.
pub proof fn law_created_events_carry_topics(known: Set<Seq<char>>, ts: Seq<TopicView>)
    ensures
        forall|i: int|
            0 <= i < created_events(known, ts).len() ==> exists|j: int|
                0 <= j < ts.len() && !known.contains(ts[j].name) && #[trigger] created_events(
                    known,
                    ts,
                )[i] == creation_of(ts[j]),
        forall|j: int|
            0 <= j < ts.len() && !known.contains(ts[j].name) ==> created_events(known, ts).contains(
                creation_of(#[trigger] ts[j]),
            ),
    decreases ts.len(),
{
    if ts.len() > 0 {
        let init = ts.drop_last();
        law_created_events_carry_topics(known, init);
        let rest = created_events(known, init);
        let all = created_events(known, ts);
        assert(listed_resource(ts.last()) == (TopicDetailView {
            name: ts.last().name,
            partitions: ts.last().partitions,
            replication_factor: ts.last().replication_factor,
            config: Map::empty(),
        }));
        assert forall|i: int| 0 <= i < all.len() implies exists|j: int|
            0 <= j < ts.len() && !known.contains(ts[j].name) && #[trigger] all[i] == creation_of(ts[j]) by {
            if i < rest.len() {
                assert(all[i] == rest[i]);
                let j = choose|j: int|
                    0 <= j < init.len() && !known.contains(init[j].name) && #[trigger] rest[i]
                        == creation_of(init[j]);
                assert(init[j] == ts[j]);
            } else {
                assert(all[i] == creation_of(ts.last()));
                assert(ts[ts.len() - 1] == ts.last());
            }
        }
        assert forall|j: int| 0 <= j < ts.len() && !known.contains(ts[j].name) implies all.contains(
            creation_of(#[trigger] ts[j]),
        ) by {
            if j < init.len() {
                assert(init[j] == ts[j]);
                assert(rest.contains(creation_of(init[j])));
                let k = choose|k: int| 0 <= k < rest.len() && rest[k] == creation_of(init[j]);
                assert(all[k] == rest[k]);
            } else {
                assert(ts[j] == ts.last());
                assert(all[all.len() - 1] == creation_of(ts.last()));
            }
        }
    }
}

} // verus!
