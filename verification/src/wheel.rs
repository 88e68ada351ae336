//! The wheel of chaos: its slices, each a chaos action with a story, and
//! how a story names the topic it hit.
use vstd::prelude::*;

use vstd::string::StrSliceExecFns;

use crate::actions::{label_text, success_parts, ChaosAction};
use crate::text::{append_str, chars_of, contains_seq, decimal, decimal_string, occurs_at, split_once_str};

verus! {

/// A slice of the wheel: what it shows and what landing on it means.
#[derive(Debug, Clone)]
pub struct WheelSlice<T> {
    pub label: String,
    pub color: String,
    pub payload: T,
}

/// What landing on a slice does: the chaos action, whether it hits every
/// topic or one at random, and the story told afterwards (where
/// `{topic}` stands for the topic hit).
#[derive(Debug, Clone)]
pub struct WheelOutcome {
    pub action: ChaosAction,
    pub all_topics: bool,
    pub label: String,
    pub description: String,
}

/// The placeholder for the topic in a story.
pub open spec fn placeholder() -> Seq<char> {
    "{topic}"@
}

/// `s` with every occurrence of `pat`, scanned from the left and not
/// overlapping, replaced by `with` (what `str::replace` does for a
/// non-empty pattern).
pub open spec fn replace_all(s: Seq<char>, pat: Seq<char>, with: Seq<char>) -> Seq<char>
    recommends
        pat.len() > 0,
    decreases s.len(),
{
    if s.len() == 0 || pat.len() == 0 {
        s
    } else if pat.len() <= s.len() && s.subrange(0, pat.len() as int) == pat {
        with + replace_all(s.subrange(pat.len() as int, s.len() as int), pat, with)
    } else {
        seq![s[0]] + replace_all(s.subrange(1, s.len() as int), pat, with)
    }
}

/// `s` with every non-overlapping occurrence of the non-empty `pat`,
/// scanned from the left, replaced by `with`.
pub fn replace_str(s: &str, pat: &str, with: &str) -> (r: String)
    requires
        pat@.len() > 0,
    ensures
        r@ == replace_all(s@, pat@, with@),
{
    let cs = chars_of(s);
    let ps = chars_of(pat);
    let n: usize = cs.len();
    let m: usize = ps.len();
    let mut out = String::new();
    let mut i: usize = 0;
    assert(s@.subrange(0, n as int) =~= s@);
    assert(out@ + replace_all(s@.subrange(0, n as int), pat@, with@) =~= replace_all(s@, pat@, with@));
    while i < n
        invariant
            cs@ == s@,
            ps@ == pat@,
            n == cs@.len(),
            m == ps@.len(),
            m > 0,
            i <= n,
            out@ + replace_all(s@.subrange(i as int, n as int), pat@, with@) == replace_all(
                s@,
                pat@,
                with@,
            ),
        decreases n - i,
    {
        let ghost rest = s@.subrange(i as int, n as int);
        let mut hit = m <= n - i;
        let mut j: usize = 0;
        while hit && j < m
            invariant
                cs@ == s@,
                ps@ == pat@,
                n == cs@.len(),
                m == ps@.len(),
                i < n,
                j <= m,
                rest == s@.subrange(i as int, n as int),
                hit ==> m <= n - i,
                hit ==> forall|k: int| 0 <= k < j ==> cs@[i + k] == ps@[k],
                !hit ==> !(m <= n - i && rest.subrange(0, m as int) == pat@),
            decreases m - j + (if hit { 1int } else { 0int }),
        {
            if cs[i + j] != ps[j] {
                assert(rest.subrange(0, m as int)[j as int] == cs@[i + j]);
                hit = false;
            } else {
                j = j + 1;
            }
        }
        if hit {
            assert(rest.subrange(0, m as int) =~= pat@);
            assert(rest.subrange(m as int, rest.len() as int) =~= s@.subrange(i + m, n as int));
            let ghost before = out@;
            append_str(&mut out, with);
            assert(before + replace_all(rest, pat@, with@) == before + (with@ + replace_all(
                s@.subrange(i + m, n as int),
                pat@,
                with@,
            )));
            assert(before + (with@ + replace_all(s@.subrange(i + m, n as int), pat@, with@)) =~= out@
                + replace_all(s@.subrange(i + m, n as int), pat@, with@));
            i = i + m;
        } else {
            assert(rest.subrange(1, rest.len() as int) =~= s@.subrange(i + 1, n as int));
            assert(rest[0] == cs@[i as int]);
            let ghost before = out@;
            out.push(cs[i]);
            assert(before + (seq![rest[0]] + replace_all(s@.subrange(i + 1, n as int), pat@, with@))
                =~= out@ + replace_all(s@.subrange(i + 1, n as int), pat@, with@));
            i = i + 1;
        }
    }
    assert(s@.subrange(n as int, n as int) =~= Seq::<char>::empty());
    assert(out@ + Seq::<char>::empty() =~= out@);
    out
}

/// The slice at index `i` of the wheel (0 to 6): its label, colour,
/// action, whether it hits every topic, and its story.
pub open spec fn slice_spec(i: int) -> (Seq<char>, Seq<char>, ChaosAction, bool, Seq<char>) {
    if i == 0 {
        ("Angry coworker"@, "#e11d48"@, ChaosAction::Delete, false, "A coworker just got fired for replying-all to the CEO with a meme. On his way out he rage-deleted {topic} and walked straight past security. Nobody noticed until the alerts started."@)
    } else if i == 1 {
        ("Terraform gone wrong"@, "#7c3aed"@, ChaosAction::LowRetention, false, "Someone copy-pasted a Terraform module from Stack Overflow and set retention to 1ms on {topic} \"because the example did it.\" The plan said 1 resource changed, the reality said otherwise."@)
    } else if i == 2 {
        ("Oops wrong tab"@, "#0891b2"@, ChaosAction::FlipCleanupPolicy, false, "You had 47 browser tabs open and picked the wrong one. Turns out that wasn't staging. The cleanup policy on {topic} is now backwards and your Slack is already blowing up."@)
    } else if i == 3 {
        ("Intern's first day"@, "#16a34a"@, ChaosAction::IncreasePartitions, false, "The intern googled \"how to make Kafka faster\" and the first answer said \"add more partitions.\" They added one to {topic}. Their mentor returns from lunch in 45 minutes."@)
    } else if i == 4 {
        ("Friday deploy"@, "#ca8a04"@, ChaosAction::PoisonPills, false, "It's 4:58 PM on a Friday and someone merged straight to main with the message \"fix: final final v2.\" {topic} is now full of garbage. The author's laptop is already in their backpack."@)
    } else if i == 5 {
        ("YOLO migration"@, "#ea580c"@, ChaosAction::SchemaBreak, false, "\"We don't need a schema registry\" said the tech lead, mass-deploying a breaking Avro change to {topic}. Every consumer is now throwing deserialization errors. The tech lead is \"working from home\" today."@)
    } else {
        ("Nuke from orbit"@, "#dc2626"@, ChaosAction::Delete, true, "The CTO said \"let's simplify the architecture\" during an all-hands and someone took it as a direct order. Every single topic has been deleted. The Kafka cluster is now a very expensive empty box."@)
    }
}

/// `s` shows and does what `spec` describes; the outcome carries the
/// slice's own label.
pub open spec fn slice_is(s: WheelSlice<WheelOutcome>, spec: (Seq<char>, Seq<char>, ChaosAction, bool, Seq<char>)) -> bool {
    &&& s.label@ == spec.0
    &&& s.color@ == spec.1
    &&& s.payload.action == spec.2
    &&& s.payload.all_topics == spec.3
    &&& s.payload.label@ == spec.0
    &&& s.payload.description@ == spec.4
}

fn make_slice(
    label: &str,
    color: &str,
    action: ChaosAction,
    all_topics: bool,
    description: &str,
) -> (s: WheelSlice<WheelOutcome>)
    ensures
        slice_is(s, (label@, color@, action, all_topics, description@)),
{
    WheelSlice {
        label: label.to_owned(),
        color: color.to_owned(),
        payload: WheelOutcome {
            action,
            all_topics,
            label: label.to_owned(),
            description: description.to_owned(),
        },
    }
}

/// The seven slices of the wheel, in the order they are drawn.
pub fn wheel_slices() -> (r: Vec<WheelSlice<WheelOutcome>>)
    ensures
        r.len() == 7,
        forall|i: int| 0 <= i < 7 ==> #[trigger] slice_is(r@[i], slice_spec(i)),
{
    let mut v: Vec<WheelSlice<WheelOutcome>> = Vec::new();
    v.push(make_slice(
        "Angry coworker",
        "#e11d48",
        ChaosAction::Delete,
        false,
        "A coworker just got fired for replying-all to the CEO with a meme. On his way out he rage-deleted {topic} and walked straight past security. Nobody noticed until the alerts started.",
    ));
    v.push(make_slice(
        "Terraform gone wrong",
        "#7c3aed",
        ChaosAction::LowRetention,
        false,
        "Someone copy-pasted a Terraform module from Stack Overflow and set retention to 1ms on {topic} \"because the example did it.\" The plan said 1 resource changed, the reality said otherwise.",
    ));
    v.push(make_slice(
        "Oops wrong tab",
        "#0891b2",
        ChaosAction::FlipCleanupPolicy,
        false,
        "You had 47 browser tabs open and picked the wrong one. Turns out that wasn't staging. The cleanup policy on {topic} is now backwards and your Slack is already blowing up.",
    ));
    v.push(make_slice(
        "Intern's first day",
        "#16a34a",
        ChaosAction::IncreasePartitions,
        false,
        "The intern googled \"how to make Kafka faster\" and the first answer said \"add more partitions.\" They added one to {topic}. Their mentor returns from lunch in 45 minutes.",
    ));
    v.push(make_slice(
        "Friday deploy",
        "#ca8a04",
        ChaosAction::PoisonPills,
        false,
        "It's 4:58 PM on a Friday and someone merged straight to main with the message \"fix: final final v2.\" {topic} is now full of garbage. The author's laptop is already in their backpack.",
    ));
    v.push(make_slice(
        "YOLO migration",
        "#ea580c",
        ChaosAction::SchemaBreak,
        false,
        "\"We don't need a schema registry\" said the tech lead, mass-deploying a breaking Avro change to {topic}. Every consumer is now throwing deserialization errors. The tech lead is \"working from home\" today.",
    ));
    v.push(make_slice(
        "Nuke from orbit",
        "#dc2626",
        ChaosAction::Delete,
        true,
        "The CTO said \"let's simplify the architecture\" during an all-hands and someone took it as a direct order. Every single topic has been deleted. The Kafka cluster is now a very expensive empty box.",
    ));
    v
}

impl WheelOutcome {
    /// The story told once the outcome hit `affected`: the description
    /// with every `{topic}` replaced by `affected`.
    pub fn story(&self, affected: &str) -> (r: String)
        ensures
            r@ == replace_all(self.description@, placeholder(), affected@),
    {
        proof {
            reveal_strlit("{topic}");
        }
        replace_str(self.description.as_str(), "{topic}", affected)
    }
}

/// The text standing for the topics hit when an outcome hit all `count`
/// of them, e.g. `5 topics`.
pub fn sweep_affected(count: u64) -> (r: String)
    ensures
        r@ == decimal(count as nat) + " topics"@,
{
    let mut s = decimal_string(count);
    append_str(&mut s, " topics");
    s
}

/// The toast after an action ran on each of `count` topics and failed on
/// `errors` of them: whether it is a success toast, and its text, e.g.
/// `Delete → 5 topics` or `Delete → 2/5 failed`.
pub fn sweep_report(action: ChaosAction, errors: u64, count: u64) -> (r: (bool, String))
    ensures
        r.0 == (errors == 0),
        errors == 0 ==> r.1@ == label_text(action) + " \u{2192} "@ + decimal(count as nat) + " topics"@,
        errors != 0 ==> r.1@ == label_text(action) + " \u{2192} "@ + decimal(errors as nat) + "/"@
            + decimal(count as nat) + " failed"@,
{
    let mut s = String::new();
    append_str(&mut s, action.label());
    append_str(&mut s, " \u{2192} ");
    if errors == 0 {
        append_str(&mut s, decimal_string(count).as_str());
        append_str(&mut s, " topics");
        assert(s@ =~= label_text(action) + " \u{2192} "@ + decimal(count as nat) + " topics"@);
        (true, s)
    } else {
        append_str(&mut s, decimal_string(errors).as_str());
        append_str(&mut s, "/");
        append_str(&mut s, decimal_string(count).as_str());
        append_str(&mut s, " failed");
        assert(s@ =~= label_text(action) + " \u{2192} "@ + decimal(errors as nat) + "/"@ + decimal(count as nat)
            + " failed"@);
        (false, s)
    }
}

/// How the result dialog sets the topic apart in a story: the text
/// before and after the first occurrence of `topic`, or `None` (the
/// story shown whole) when `topic` is empty or does not occur.
pub fn story_parts(story: &str, topic: &str) -> (r: Option<(String, String)>)
    ensures
        r is None <==> (topic@.len() == 0 || !contains_seq(story@, topic@)),
        r matches Some((a, b)) ==> {
            &&& story@ == a@ + topic@ + b@
            &&& forall|k: int| 0 <= k < a@.len() ==> !#[trigger] occurs_at(story@, topic@, k)
        },
{
    if topic.unicode_len() == 0 {
        None
    } else {
        split_once_str(story, topic)
    }
}

/// The text of the toast after a sweep of `count` topics with `errors`
/// failures.
pub open spec fn sweep_text(action: ChaosAction, errors: u64, count: u64) -> Seq<char> {
    if errors == 0 {
        label_text(action) + " \u{2192} "@ + decimal(count as nat) + " topics"@
    } else {
        label_text(action) + " \u{2192} "@ + decimal(errors as nat) + "/"@ + decimal(count as nat)
            + " failed"@
    }
}

/// What the page does once the wheel has stopped and the topics were
/// listed.
#[derive(Debug)]
pub enum SpinPlan {
    /// Show an error toast with this message and run nothing.
    Refuse { message: String },
    /// Run the outcome's action on each of these topics, in order.
    Sweep { topics: Vec<String> },
    /// Run the outcome's action on this one topic.
    Single { topic: String },
}

/// The views of a list of strings.
pub open spec fn string_views(s: Seq<String>) -> Seq<Seq<char>> {
    s.map_values(|x: String| x@)
}

/// Decides what a spin does with the topic listing: a failed listing
/// gives the toast `Failed to fetch topics: {e}`, an empty one `No topics
/// available`; an outcome that hits every topic runs on all of them in
/// order, any other on the topic at `pick` (taken modulo the count).
pub fn plan_spin(outcome: &WheelOutcome, listing: Result<Vec<String>, String>, pick: usize) -> (r: SpinPlan)
    ensures
        listing matches Err(e) ==> (r matches SpinPlan::Refuse { message } && message@
            == "Failed to fetch topics: "@ + e@),
        listing matches Ok(names) ==> (names@.len() == 0 ==> (r matches SpinPlan::Refuse { message }
            && message@ == "No topics available"@)),
        listing matches Ok(names) ==> (names@.len() > 0 && outcome.all_topics ==> (
        r matches SpinPlan::Sweep { topics } && string_views(topics@) == string_views(names@))),
        listing matches Ok(names) ==> (names@.len() > 0 && !outcome.all_topics ==> (
        r matches SpinPlan::Single { topic } && topic@ == names@[pick as int % names@.len() as int]@)),
{
    match listing {
        Err(e) => {
            let mut message = String::new();
            append_str(&mut message, "Failed to fetch topics: ");
            append_str(&mut message, e.as_str());
            assert(message@ =~= "Failed to fetch topics: "@ + e@);
            SpinPlan::Refuse { message }
        },
        Ok(names) => {
            if names.len() == 0 {
                SpinPlan::Refuse { message: "No topics available".to_owned() }
            } else if outcome.all_topics {
                SpinPlan::Sweep { topics: names }
            } else {
                let i: usize = pick % names.len();
                let topic = names[i].clone();
                SpinPlan::Single { topic }
            }
        },
    }
}

/// After the action ran on the single topic `topic`: whether the toast
/// reports success, its text, and the result dialog (title, story,
/// topic), shown only on success.  Success toasts the action's success
/// message; failure toasts `Failed: {label} - {e}`.
pub fn finish_single(outcome: &WheelOutcome, topic: &str, result: Result<(), String>) -> (r: (
    bool,
    String,
    Option<(String, String, String)>,
))
    ensures
        r.0 == (result is Ok),
        result is Ok ==> r.1@ == success_parts(outcome.action).0 + topic@ + success_parts(
            outcome.action,
        ).1,
        result matches Err(e) ==> r.1@ == "Failed: "@ + label_text(outcome.action) + " - "@ + e@,
        result is Ok ==> (r.2 matches Some((title, story, t)) && title@ == outcome.label@ && story@
            == replace_all(outcome.description@, placeholder(), topic@) && t@ == topic@),
        result is Err ==> r.2 is None,
{
    match result {
        Ok(()) => {
            let msg = outcome.action.success_message(topic);
            let story = outcome.story(topic);
            (true, msg, Some((outcome.label.clone(), story, topic.to_owned())))
        },
        Err(e) => {
            let mut msg = String::new();
            append_str(&mut msg, "Failed: ");
            append_str(&mut msg, outcome.action.label());
            append_str(&mut msg, " - ");
            append_str(&mut msg, e.as_str());
            assert(msg@ =~= "Failed: "@ + label_text(outcome.action) + " - "@ + e@);
            (false, msg, None)
        },
    }
}

/// After the action ran on each of `count` topics and failed on `errors`
/// of them: whether the toast reports success, its text, and the result
/// dialog, shown exactly when nothing failed, whose story names
/// `{count} topics`.
pub fn finish_sweep(outcome: &WheelOutcome, errors: u64, count: u64) -> (r: (
    bool,
    String,
    Option<(String, String, String)>,
))
    ensures
        r.0 == (errors == 0),
        r.1@ == sweep_text(outcome.action, errors, count),
        r.2 is Some <==> errors == 0,
        r.2 matches Some((title, story, t)) ==> title@ == outcome.label@ && t@ == decimal(count as nat)
            + " topics"@ && story@ == replace_all(outcome.description@, placeholder(), t@),
{
    let (ok, msg) = sweep_report(outcome.action, errors, count);
    if ok {
        let affected = sweep_affected(count);
        let story = outcome.story(affected.as_str());
        (true, msg, Some((outcome.label.clone(), story, affected)))
    } else {
        (false, msg, None)
    }
}

} // verus!
