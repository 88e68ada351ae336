//! State of the web console: the colour theme, the topic list kept in step
//! with the event stream, the selected topic and seeding progress.
use vstd::prelude::*;

use crate::api::{resource_to_detail, resource_views, SseEvent, SseEventView, TopicDetailResource, TopicResource};
use crate::domain::TopicDetailView;
use crate::keyed::{
    has_key, keys_distinct, lemma_empty, lemma_lookup, lemma_push, lemma_remove, lemma_update,
    pairs_to_map,
};
use crate::actions::{success_parts, ChaosAction};
use crate::text::string_eq_str;
use crate::toast::{ToastKind, ToastView, Toaster};

verus! {

/// The colour theme of the console.
#[derive(Debug, Clone, Copy, PartialEq, Eq, Structural)]
pub enum Theme {
    Light,
    Dark,
    System,
}

/// The value under which `t` is remembered.
pub open spec fn stored_value(t: Theme) -> Seq<char> {
    match t {
        Theme::Light => "light"@,
        Theme::Dark => "dark"@,
        Theme::System => "system"@,
    }
}

/// The theme remembered as `stored`: `light` and `dark` name their
/// themes, any other value means the system theme, and nothing stored
/// means the dark theme.
pub open spec fn theme_from(stored: Option<Seq<char>>) -> Theme {
    match stored {
        None => Theme::Dark,
        Some(s) => if s == "light"@ {
            Theme::Light
        } else if s == "dark"@ {
            Theme::Dark
        } else {
            Theme::System
        },
    }
}

/// The theme that follows `t` when the toggle is pressed.
pub open spec fn next_theme(t: Theme) -> Theme {
    match t {
        Theme::Light => Theme::Dark,
        Theme::Dark => Theme::System,
        Theme::System => Theme::Light,
    }
}

impl Theme {
    /// Light, then dark, then system, then light again.
    pub fn next(self) -> (r: Theme)
        ensures
            r == next_theme(self),
    {
        match self {
            Theme::Light => Theme::Dark,
            Theme::Dark => Theme::System,
            Theme::System => Theme::Light,
        }
    }

    /// The name shown for the theme.
    pub fn label(self) -> (r: &'static str)
        ensures
            self == Theme::Light ==> r@ == "Light"@,
            self == Theme::Dark ==> r@ == "Dark"@,
            self == Theme::System ==> r@ == "System"@,
    {
        match self {
            Theme::Light => "Light",
            Theme::Dark => "Dark",
            Theme::System => "System",
        }
    }

    /// The CSS class set on the page for the theme.
    pub fn css_class(self) -> (r: &'static str)
        ensures
            self == Theme::Light ==> r@ == ""@,
            self == Theme::Dark ==> r@ == "dark"@,
            self == Theme::System ==> r@ == "system"@,
    {
        match self {
            Theme::Light => "",
            Theme::Dark => "dark",
            Theme::System => "system",
        }
    }

    /// The value under which the theme is remembered in local storage.
    pub fn storage_value(self) -> (r: &'static str)
        ensures
            r@ == stored_value(self),
    {
        match self {
            Theme::Light => "light",
            Theme::Dark => "dark",
            Theme::System => "system",
        }
    }

    /// The theme remembered as `stored`: `light` and `dark` name their
    /// themes, any other value means the system theme, and nothing stored
    /// means the dark theme.
    pub fn from_stored(stored: Option<&str>) -> (r: Theme)
        ensures
            r == theme_from(match stored {
                Some(s) => Some(s@),
                None => None,
            }),
    {
        match stored {
            None => Theme::Dark,
            Some(s) => {
                let owned = s.to_owned();
                if string_eq_str(&owned, "light") {
                    Theme::Light
                } else if string_eq_str(&owned, "dark") {
                    Theme::Dark
                } else {
                    Theme::System
                }
            },
        }
    }
}

/// Three presses of the theme toggle come back to the starting theme.
pub proof fn law_theme_cycle(t: Theme)
    ensures
        next_theme(next_theme(next_theme(t))) == t,
        next_theme(t) != t,
{
}

/// A remembered theme is restored: reading back the stored value of a
/// theme gives that theme.
pub proof fn law_theme_storage_round_trip(t: Theme)
    ensures
        theme_from(Some(stored_value(t))) == t,
{
    reveal_strlit("light");
    reveal_strlit("dark");
    reveal_strlit("system");
    assert("dark"@ != "light"@) by {
        assert("dark"@[0] != "light"@[0]);
    }
    assert("system"@ != "light"@) by {
        assert("system"@[0] != "light"@[0]);
    }
    assert("system"@ != "dark"@) by {
        assert("system"@[0] != "dark"@[0]);
    }
}

/// Seeding progress of one topic.
#[derive(Debug, Clone, Copy, PartialEq, Eq, Structural)]
pub struct SeedProgress {
    pub records_generated: u32,
    pub total_records: u32,
}

/// The `(topic, progress)` pairs of a list.
pub open spec fn progress_entries(s: Seq<(String, SeedProgress)>) -> Seq<(Seq<char>, SeedProgress)> {
    s.map_values(|e: (String, SeedProgress)| (e.0@, e.1))
}

/// Seeding progress by topic name.
#[derive(Debug)]
pub struct SeedProgressTable {
    entries: Vec<(String, SeedProgress)>,
}

impl SeedProgressTable {
    /// The stored pairs.
    pub closed spec fn pairs(&self) -> Seq<(Seq<char>, SeedProgress)> {
        progress_entries(self.entries@)
    }

    #[verifier::type_invariant]
    spec fn topics_unique(&self) -> bool {
        keys_distinct(self.pairs())
    }
}

impl View for SeedProgressTable {
    type V = Map<Seq<char>, SeedProgress>;

    open spec fn view(&self) -> Map<Seq<char>, SeedProgress> {
        pairs_to_map(self.pairs())
    }
}

impl SeedProgressTable {
    /// No progress recorded.
    pub fn new() -> (r: Self)
        ensures
            r@ == Map::<Seq<char>, SeedProgress>::empty(),
    {
        let r = SeedProgressTable { entries: Vec::new() };
        proof {
            lemma_empty(r.pairs());
        }
        r
    }

    fn find(&self, topic: &str) -> (r: Option<usize>)
        ensures
            self.pairs().len() == self.entries@.len(),
            match r {
                Some(i) => i < self.pairs().len() && self.pairs()[i as int].0 == topic@,
                None => !has_key(self.pairs(), topic@),
            },
    {
        let n: usize = self.entries.len();
        let mut i: usize = 0;
        while i < n
            invariant
                n == self.entries@.len(),
                self.pairs().len() == n,
                i <= n,
                forall|j: int| 0 <= j < i ==> self.pairs()[j].0 != topic@,
            decreases n - i,
        {
            assert(self.pairs()[i as int].0 == self.entries@[i as int].0@);
            if string_eq_str(&self.entries[i].0, topic) {
                return Some(i);
            }
            i = i + 1;
        }
        assert(!has_key(self.pairs(), topic@)) by {
            if has_key(self.pairs(), topic@) {
                let j = choose|j: int| 0 <= j < self.pairs().len() && #[trigger] self.pairs()[j].0 == topic@;
                assert(self.pairs()[j].0 != topic@);
            }
        }
        None
    }

    /// The progress recorded for `topic`.
    pub fn get(&self, topic: &str) -> (r: Option<SeedProgress>)
        ensures
            r == (if self@.contains_key(topic@) {
                Some(self@[topic@])
            } else {
                None
            }),
    {
        proof {
            use_type_invariant(self);
        }
        match self.find(topic) {
            Some(i) => {
                proof {
                    lemma_lookup(self.pairs(), i as int);
                }
                Some(self.entries[i].1)
            },
            None => None,
        }
    }

    /// Records `progress` for `topic`, replacing what was recorded.
    pub fn insert(&mut self, topic: String, progress: SeedProgress)
        ensures
            final(self)@ == old(self)@.insert(topic@, progress),
    {
        proof {
            use_type_invariant(&*self);
        }
        let ghost old_pairs = self.pairs();
        let found = self.find(topic.as_str());
        let mut entries: Vec<(String, SeedProgress)> = Vec::new();
        std::mem::swap(&mut entries, &mut self.entries);
        assert(progress_entries(entries@) == old_pairs);
        match found {
            Some(i) => {
                proof {
                    lemma_update(old_pairs, i as int, progress);
                    assert(progress_entries(entries@.update(i as int, (topic, progress))) =~= old_pairs.update(
                        i as int,
                        (old_pairs[i as int].0, progress),
                    ));
                }
                entries.set(i, (topic, progress));
            },
            None => {
                proof {
                    lemma_push(old_pairs, topic@, progress);
                    assert(progress_entries(entries@.push((topic, progress))) =~= old_pairs.push(
                        (topic@, progress),
                    ));
                }
                entries.push((topic, progress));
            },
        }
        self.entries = entries;
    }

    /// Forgets the progress of `topic`.
    pub fn remove(&mut self, topic: &str)
        ensures
            final(self)@ == old(self)@.remove(topic@),
    {
        proof {
            use_type_invariant(&*self);
        }
        let ghost old_pairs = self.pairs();
        match self.find(topic) {
            Some(i) => {
                let mut entries: Vec<(String, SeedProgress)> = Vec::new();
                std::mem::swap(&mut entries, &mut self.entries);
                proof {
                    lemma_remove(old_pairs, i as int);
                    assert(progress_entries(entries@.remove(i as int)) =~= old_pairs.remove(i as int));
                }
                entries.remove(i);
                self.entries = entries;
            },
            None => {
                assert(old(self)@.remove(topic@) =~= old(self)@);
            },
        }
    }

    /// Forgets all progress.
    pub fn clear(&mut self)
        ensures
            final(self)@ == Map::<Seq<char>, SeedProgress>::empty(),
    {
        self.entries = Vec::new();
        proof {
            lemma_empty(self.pairs());
        }
    }
}

/// The mathematical content of a [`TopicsState`].
pub struct TopicsStateView {
    pub list: Seq<TopicDetailView>,
    pub selected: Option<TopicDetailView>,
    pub seed_progress: Map<Seq<char>, SeedProgress>,
}

/// `i` is the first index of `s` holding a topic named `name`.
pub open spec fn first_named(s: Seq<TopicDetailView>, name: Seq<char>, i: int) -> bool {
    0 <= i < s.len() && s[i].name == name && forall|j: int| 0 <= j < i ==> s[j].name != name
}

/// Some topic of `s` is named `name`.
pub open spec fn has_named(s: Seq<TopicDetailView>, name: Seq<char>) -> bool {
    exists|i: int| 0 <= i < s.len() && #[trigger] s[i].name == name
}

/// `s` with its first topic named like `t` replaced by `t`, or with `t`
/// appended when no topic has that name.
pub open spec fn upserted(s: Seq<TopicDetailView>, t: TopicDetailView) -> Seq<TopicDetailView> {
    if has_named(s, t.name) {
        s.update(choose|i: int| first_named(s, t.name, i), t)
    } else {
        s.push(t)
    }
}

/// `s` without the topics named `name`, in order.
pub open spec fn without_name(s: Seq<TopicDetailView>, name: Seq<char>) -> Seq<TopicDetailView>
    decreases s.len(),
{
    if s.len() == 0 {
        s
    } else {
        let rest = without_name(s.drop_last(), name);
        if s.last().name == name {
            rest
        } else {
            rest.push(s.last())
        }
    }
}

/// The state after `t` is shown: it replaces or joins the list, and it
/// replaces the selected topic of the same name.
pub open spec fn upsert_state(v: TopicsStateView, t: TopicDetailView) -> TopicsStateView {
    TopicsStateView {
        list: upserted(v.list, t),
        selected: if v.selected matches Some(s) && s.name == t.name {
            Some(t)
        } else {
            v.selected
        },
        seed_progress: v.seed_progress,
    }
}

/// The state after the topic `name` disappears: it leaves the list and
/// is no longer selected.
pub open spec fn remove_state(v: TopicsStateView, name: Seq<char>) -> TopicsStateView {
    TopicsStateView {
        list: without_name(v.list, name),
        selected: if v.selected matches Some(s) && s.name == name {
            None
        } else {
            v.selected
        },
        seed_progress: v.seed_progress,
    }
}

/// The state after each topic of `ts`, in order, is shown.
pub open spec fn upsert_all(v: TopicsStateView, ts: Seq<TopicDetailView>) -> TopicsStateView
    decreases ts.len(),
{
    if ts.len() == 0 {
        v
    } else {
        upsert_state(upsert_all(v, ts.drop_last()), ts.last())
    }
}

/// The state after an event of the stream is taken in.
pub open spec fn apply_event_view(v: TopicsStateView, e: SseEventView) -> TopicsStateView {
    match e {
        SseEventView::TopicsSnapshot { topics } => TopicsStateView { list: topics, ..v },
        SseEventView::TopicCreated { topic } => upsert_state(v, topic),
        SseEventView::TopicUpdated { topic } => upsert_state(v, topic),
        SseEventView::ChaosRetentionLowered { topic } => upsert_state(v, topic),
        SseEventView::ChaosCleanupPolicyFlipped { topic } => upsert_state(v, topic),
        SseEventView::ChaosPartitionsIncreased { topic } => upsert_state(v, topic),
        SseEventView::TopicDeleted { name } => remove_state(v, name),
        SseEventView::ChaosTopicDeleted { topic } => remove_state(v, topic),
        SseEventView::TopicsSeeded { topics } => upsert_all(v, topics),
        _ => v,
    }
}

/// The console's view of the cluster's topics.
#[derive(Debug)]
pub struct TopicsState {
    pub list: Vec<TopicResource>,
    pub selected: Option<TopicDetailResource>,
    pub seed_progress: SeedProgressTable,
}

/// The view of an optional page resource.
pub open spec fn selected_view(s: Option<TopicDetailResource>) -> Option<TopicDetailView> {
    match s {
        Some(d) => Some(d@),
        None => None,
    }
}

impl View for TopicsState {
    type V = TopicsStateView;

    open spec fn view(&self) -> TopicsStateView {
        TopicsStateView {
            list: resource_views(self.list@),
            selected: selected_view(self.selected),
            seed_progress: self.seed_progress@,
        }
    }
}

impl TopicsState {
    /// No topics, none selected, no progress.
    pub fn new() -> (r: Self)
        ensures
            r@.list == Seq::<TopicDetailView>::empty(),
            r@.selected is None,
            r@.seed_progress == Map::<Seq<char>, SeedProgress>::empty(),
    {
        let r = TopicsState { list: Vec::new(), selected: None, seed_progress: SeedProgressTable::new() };
        assert(resource_views(r.list@) =~= Seq::<TopicDetailView>::empty());
        r
    }

    /// Replaces the topic list.
    pub fn set_topics(&mut self, list: Vec<TopicResource>)
        ensures
            final(self)@ == (TopicsStateView { list: resource_views(list@), ..old(self)@ }),
    {
        self.list = list;
    }

    /// Whether the selected topic is named `name`.
    fn selected_is(&self, name: &String) -> (r: bool)
        ensures
            r == (self@.selected matches Some(s) && s.name == name@),
    {
        match &self.selected {
            Some(s) => string_eq_str(&s.name, name.as_str()),
            None => false,
        }
    }

    /// Shows `topic`: it replaces the first listed topic of its name, or
    /// joins the end of the list, and it replaces the selected topic of its
    /// name.
    pub fn upsert_topic(&mut self, topic: TopicResource)
        ensures
            final(self)@ == upsert_state(old(self)@, topic@),
    {
        let ghost s = resource_views(self.list@);
        let n: usize = self.list.len();
        let mut i: usize = 0;
        let mut found: Option<usize> = None;
        while i < n && found.is_none()
            invariant
                n == self.list@.len(),
                s == resource_views(self.list@),
                s.len() == n,
                i <= n,
                found matches Some(k) ==> first_named(s, topic.name@, k as int),
                found is None ==> forall|j: int| 0 <= j < i ==> s[j].name != topic.name@,
            decreases n - i,
        {
            assert(s[i as int] == self.list@[i as int]@);
            if string_eq_str(&self.list[i].name, topic.name.as_str()) {
                found = Some(i);
            }
            i = i + 1;
        }
        let select = self.selected_is(&topic.name);
        match found {
            Some(k) => {
                proof {
                    assert(first_named(s, topic.name@, k as int));
                    assert(has_named(s, topic.name@));
                    let c = choose|c: int| first_named(s, topic.name@, c);
                    assert(c == k) by {
                        if c < k {
                            assert(s[c].name != topic.name@);
                        }
                        if k < c {
                            assert(s[k as int].name != topic.name@);
                        }
                    }
                }
                let copy = topic.duplicate();
                proof {
                    assert(resource_views(self.list@.update(k as int, copy)) =~= s.update(k as int, topic@));
                }
                self.list.set(k, copy);
            },
            None => {
                proof {
                    assert(!has_named(s, topic.name@)) by {
                        if has_named(s, topic.name@) {
                            let j = choose|j: int| 0 <= j < s.len() && #[trigger] s[j].name == topic.name@;
                            assert(s[j].name != topic.name@);
                        }
                    }
                }
                let copy = topic.duplicate();
                proof {
                    assert(resource_views(self.list@.push(copy)) =~= s.push(topic@));
                }
                self.list.push(copy);
            },
        }
        if select {
            self.selected = Some(resource_to_detail(topic));
        }
    }

    /// Removes every listed topic named `name` and unselects it.
    pub fn remove_topic(&mut self, name: &str)
        ensures
            final(self)@ == remove_state(old(self)@, name@),
    {
        let ghost s = resource_views(self.list@);
        let n: usize = self.list.len();
        let mut kept: Vec<TopicResource> = Vec::new();
        let mut i: usize = 0;
        while i < n
            invariant
                n == self.list@.len(),
                s == resource_views(self.list@),
                s.len() == n,
                i <= n,
                resource_views(kept@) == without_name(s.take(i as int), name@),
            decreases n - i,
        {
            proof {
                assert(s.take(i as int + 1).drop_last() =~= s.take(i as int));
                assert(s.take(i as int + 1).last() == self.list@[i as int]@);
            }
            if !string_eq_str(&self.list[i].name, name) {
                let t = self.list[i].duplicate();
                proof {
                    assert(resource_views(kept@.push(t)) =~= resource_views(kept@).push(t@));
                }
                kept.push(t);
            }
            i = i + 1;
        }
        assert(s.take(n as int) =~= s);
        self.list = kept;
        let unselect = match &self.selected {
            Some(sel) => string_eq_str(&sel.name, name),
            None => false,
        };
        if unselect {
            self.selected = None;
        }
    }

    /// Records the seeding progress of `topic`.
    pub fn set_seed_progress(&mut self, topic: String, records_generated: u32, total_records: u32)
        ensures
            final(self)@ == (TopicsStateView {
                seed_progress: old(self)@.seed_progress.insert(
                    topic@,
                    SeedProgress { records_generated, total_records },
                ),
                ..old(self)@
            }),
    {
        self.seed_progress.insert(topic, SeedProgress { records_generated, total_records });
    }

    /// Forgets the seeding progress of `topic`.
    pub fn remove_seed_progress(&mut self, topic: &str)
        ensures
            final(self)@ == (TopicsStateView {
                seed_progress: old(self)@.seed_progress.remove(topic@),
                ..old(self)@
            }),
    {
        self.seed_progress.remove(topic);
    }

    /// Forgets all seeding progress.
    pub fn clear_seed_progress(&mut self)
        ensures
            final(self)@ == (TopicsStateView {
                seed_progress: Map::<Seq<char>, SeedProgress>::empty(),
                ..old(self)@
            }),
    {
        self.seed_progress.clear();
    }

    /// Takes in an event of the stream: a snapshot replaces the list,
    /// created and changed topics are shown, deleted topics are removed,
    /// seeded topics are shown one by one, and progress and message events
    /// change nothing.
    pub fn apply_event(&mut self, event: SseEvent)
        ensures
            final(self)@ == apply_event_view(old(self)@, event@),
            event matches SseEvent::TopicCreated { topic } ==> final(self)@.list.contains(topic@),
            event matches SseEvent::TopicUpdated { topic } ==> final(self)@.list.contains(topic@),
            event matches SseEvent::ChaosRetentionLowered { topic } ==> final(self)@.list.contains(
                topic@,
            ),
            event matches SseEvent::ChaosCleanupPolicyFlipped { topic } ==> final(self)@.list.contains(
                topic@,
            ),
            event matches SseEvent::ChaosPartitionsIncreased { topic } ==> final(self)@.list.contains(
                topic@,
            ),
    {
        let ghost ev = event@;
        let ghost start = self@;
        match event {
            SseEvent::TopicsSnapshot { topics } => self.set_topics(topics),
            SseEvent::TopicCreated { topic } => self.upsert_topic(topic),
            SseEvent::TopicUpdated { topic } => self.upsert_topic(topic),
            SseEvent::ChaosRetentionLowered { topic } => self.upsert_topic(topic),
            SseEvent::ChaosCleanupPolicyFlipped { topic } => self.upsert_topic(topic),
            SseEvent::ChaosPartitionsIncreased { topic } => self.upsert_topic(topic),
            SseEvent::TopicDeleted { name } => self.remove_topic(name.as_str()),
            SseEvent::ChaosTopicDeleted { topic } => self.remove_topic(topic.as_str()),
            SseEvent::TopicsSeeded { topics } => {
                let ghost start = self@;
                let ghost views = resource_views(topics@);
                let n: usize = topics.len();
                let mut i: usize = 0;
                while i < n
                    invariant
                        n == topics@.len(),
                        views == resource_views(topics@),
                        i <= n,
                        self@ == upsert_all(start, views.take(i as int)),
                    decreases n - i,
                {
                    proof {
                        assert(views.take(i as int + 1).drop_last() =~= views.take(i as int));
                        assert(views.take(i as int + 1).last() == topics@[i as int]@);
                    }
                    let t = topics[i].duplicate();
                    self.upsert_topic(t);
                    i = i + 1;
                }
                assert(views.take(n as int) =~= views);
            },
            SseEvent::ChaosPoisonPillsSent { .. } => {},
            SseEvent::ChaosSchemaBreakSent { .. } => {},
            SseEvent::SeedProgress { .. } => {},
        }
        proof {
            law_events_show_their_topic(start, ev);
        }
    }
}

/// Names in a list are pairwise distinct.
pub open spec fn names_distinct(s: Seq<TopicDetailView>) -> bool {
    forall|i: int, j: int|
        0 <= i < s.len() && 0 <= j < s.len() && i != j ==> #[trigger] s[i].name != #[trigger] s[j].name
}

/// A list that names `name` somewhere names it a first time.
pub proof fn lemma_first_named_exists(s: Seq<TopicDetailView>, name: Seq<char>)
    requires
        has_named(s, name),
    ensures
        exists|k: int| first_named(s, name, k),
    decreases s.len(),
{
    if s[0].name == name {
        assert(first_named(s, name, 0));
    } else {
        let j = choose|j: int| 0 <= j < s.len() && #[trigger] s[j].name == name;
        let t = s.drop_first();
        assert(t[j - 1] == s[j]);
        lemma_first_named_exists(t, name);
        let k = choose|k: int| first_named(t, name, k);
        assert forall|i: int| 0 <= i < k + 1 implies s[i].name != name by {
            if i > 0 {
                assert(s[i] == t[i - 1]);
            }
        }
        assert(first_named(s, name, k + 1));
    }
}

/// Lists that agree except at places where both hold a topic named `name`
/// lose the same topics when `name` is removed.
pub proof fn lemma_without_name_agree(a: Seq<TopicDetailView>, b: Seq<TopicDetailView>, name: Seq<char>)
    requires
        a.len() == b.len(),
        forall|i: int| 0 <= i < a.len() ==> #[trigger] a[i] == b[i] || (a[i].name == name && b[i].name == name),
    ensures
        without_name(a, name) == without_name(b, name),
    decreases a.len(),
{
    if a.len() > 0 {
        let (a0, b0) = (a.drop_last(), b.drop_last());
        assert forall|i: int| 0 <= i < a0.len() implies #[trigger] a0[i] == b0[i] || (a0[i].name == name
            && b0[i].name == name) by {
            assert(a0[i] == a[i] && b0[i] == b[i]);
        }
        lemma_without_name_agree(a0, b0, name);
        assert(a[a.len() - 1] == a.last() && b[b.len() - 1] == b.last());
    }
}

/// No topic named `name` is left after removing it.
pub proof fn lemma_without_name_gone(s: Seq<TopicDetailView>, name: Seq<char>)
    ensures
        !has_named(without_name(s, name), name),
        forall|i: int|
            0 <= i < without_name(s, name).len() ==> #[trigger] without_name(s, name)[i].name != name,
    decreases s.len(),
{
    if s.len() > 0 {
        lemma_without_name_gone(s.drop_last(), name);
        let rest = without_name(s.drop_last(), name);
        if s.last().name != name {
            let w = rest.push(s.last());
            assert forall|i: int| 0 <= i < w.len() implies #[trigger] w[i].name != name by {
                if i < rest.len() {
                    assert(w[i] == rest[i]);
                }
            }
        }
    }
    let w = without_name(s, name);
    if has_named(w, name) {
        let j = choose|j: int| 0 <= j < w.len() && #[trigger] w[j].name == name;
        assert(w[j].name != name);
    }
}

/// Removing a topic undoes showing it: after `t` is shown and then removed
/// by name, the state is what removing that name alone gives.
pub proof fn law_remove_undoes_upsert(v: TopicsStateView, t: TopicDetailView)
    ensures
        remove_state(upsert_state(v, t), t.name) == remove_state(v, t.name),
{
    let s = v.list;
    if has_named(s, t.name) {
        lemma_first_named_exists(s, t.name);
        let k = choose|i: int| first_named(s, t.name, i);
        let u = s.update(k, t);
        assert forall|i: int| 0 <= i < u.len() implies #[trigger] u[i] == s[i] || (u[i].name == t.name
            && s[i].name == t.name) by {}
        lemma_without_name_agree(u, s, t.name);
    } else {
        let u = s.push(t);
        assert(u.drop_last() =~= s);
    }
}

/// Showing a topic keeps the list's names distinct and leaves the topic
/// listed exactly once.
pub proof fn law_upsert_keeps_names_unique(v: TopicsStateView, t: TopicDetailView)
    requires
        names_distinct(v.list),
    ensures
        names_distinct(upsert_state(v, t).list),
        upsert_state(v, t).list.contains(t),
{
    let s = v.list;
    let u = upsert_state(v, t).list;
    if has_named(s, t.name) {
        lemma_first_named_exists(s, t.name);
        let k = choose|i: int| first_named(s, t.name, i);
        assert(u[k] == t);
        assert forall|i: int, j: int| 0 <= i < u.len() && 0 <= j < u.len() && i != j implies #[trigger] u[i].name
            != #[trigger] u[j].name by {
            assert(u[i].name == s[i].name);
            assert(u[j].name == s[j].name);
        }
    } else {
        assert(u[s.len() as int] == t);
        assert forall|i: int, j: int| 0 <= i < u.len() && 0 <= j < u.len() && i != j implies #[trigger] u[i].name
            != #[trigger] u[j].name by {
            if i < s.len() && j < s.len() {
                assert(u[i] == s[i] && u[j] == s[j]);
            } else if i < s.len() {
                assert(u[i] == s[i]);
                assert(!(s[i].name == t.name));
            } else {
                assert(u[j] == s[j]);
                assert(!(s[j].name == t.name));
            }
        }
    }
}

/// After a topic is removed, no listed or selected topic has its name.
pub proof fn law_removed_topic_is_gone(v: TopicsStateView, name: Seq<char>)
    ensures
        !has_named(remove_state(v, name).list, name),
        !(remove_state(v, name).selected matches Some(s) && s.name == name),
{
    lemma_without_name_gone(v.list, name);
}

/// What the topic panel does with the result of a chaos action on the
/// topic `name`.  On success a destructive action closes the panel (no
/// topic is selected any more) and a success toast shows the action's
/// success message; on failure an error toast shows the error and the
/// selection stays.  The topic list and seeding progress are untouched.
pub fn after_chaos(
    state: &mut TopicsState,
    toaster: &mut Toaster,
    action: ChaosAction,
    name: &str,
    result: Result<(), String>,
)
    requires
        old(toaster).next() < u64::MAX,
    ensures
        final(toaster).next() == old(toaster).next() + 1,
        result is Ok ==> final(toaster).items() == old(toaster).items().push(
            ToastView {
                id: old(toaster).next(),
                name: None,
                message: success_parts(action).0 + name@ + success_parts(action).1,
                kind: ToastKind::Success,
            },
        ),
        result matches Err(e) ==> final(toaster).items() == old(toaster).items().push(
            ToastView { id: old(toaster).next(), name: None, message: e@, kind: ToastKind::Error },
        ),
        final(state)@.list == old(state)@.list,
        final(state)@.seed_progress == old(state)@.seed_progress,
        final(state)@.selected == (if result is Ok && action == ChaosAction::Delete {
            None
        } else {
            old(state)@.selected
        }),
{
    match result {
        Ok(()) => {
            if action.is_destructive() {
                state.selected = None;
            }
            let msg = action.success_message(name);
            toaster.success(msg);
        },
        Err(e) => {
            toaster.error(e);
        },
    }
}

/// Showing a topic lists it exactly as given.
pub proof fn lemma_upserted_lists_topic(s: Seq<TopicDetailView>, t: TopicDetailView)
    ensures
        upserted(s, t).contains(t),
{
    if has_named(s, t.name) {
        lemma_first_named_exists(s, t.name);
        let i = choose|i: int| first_named(s, t.name, i);
        assert(upserted(s, t)[i] == t);
    } else {
        assert(upserted(s, t)[s.len() as int] == t);
    }
}

/// Every stream event that carries a created or changed topic (created,
/// updated, retention lowered, cleanup policy flipped, partitions
/// increased) leaves that topic listed exactly as carried; a deletion
/// leaves no topic of that name listed.
pub proof fn law_events_show_their_topic(v: TopicsStateView, e: SseEventView)
    ensures
        e matches SseEventView::TopicCreated { topic } ==> apply_event_view(v, e).list.contains(topic),
        e matches SseEventView::TopicUpdated { topic } ==> apply_event_view(v, e).list.contains(topic),
        e matches SseEventView::ChaosRetentionLowered { topic } ==> apply_event_view(v, e).list.contains(
            topic,
        ),
        e matches SseEventView::ChaosCleanupPolicyFlipped { topic } ==> apply_event_view(
            v,
            e,
        ).list.contains(topic),
        e matches SseEventView::ChaosPartitionsIncreased { topic } ==> apply_event_view(
            v,
            e,
        ).list.contains(topic),
        e matches SseEventView::TopicDeleted { name } ==> forall|i: int|
            0 <= i < apply_event_view(v, e).list.len() ==> #[trigger] apply_event_view(v, e).list[i].name
                != name,
        e matches SseEventView::ChaosTopicDeleted { topic } ==> forall|i: int|
            0 <= i < apply_event_view(v, e).list.len() ==> #[trigger] apply_event_view(v, e).list[i].name
                != topic,
{
    match e {
        SseEventView::TopicCreated { topic } => lemma_upserted_lists_topic(v.list, topic),
        SseEventView::TopicUpdated { topic } => lemma_upserted_lists_topic(v.list, topic),
        SseEventView::ChaosRetentionLowered { topic } => lemma_upserted_lists_topic(v.list, topic),
        SseEventView::ChaosCleanupPolicyFlipped { topic } => lemma_upserted_lists_topic(v.list, topic),
        SseEventView::ChaosPartitionsIncreased { topic } => lemma_upserted_lists_topic(v.list, topic),
        SseEventView::TopicDeleted { name } => law_removed_topic_is_gone(v, name),
        SseEventView::ChaosTopicDeleted { topic } => law_removed_topic_is_gone(v, topic),
        _ => {},
    }
}

} // verus!
