//! The chaos actions offered by the console, their icons and how their
//! outcome is reported.
use vstd::prelude::*;

use crate::text::append_str;

verus! {

/// The icons of the console.
#[derive(Debug, Clone, Copy, PartialEq, Eq, Structural)]
pub enum IconName {
    Sun,
    Moon,
    Monitor,
    Layers,
    Copy,
    Compress,
    Skull,
    Hourglass,
    Swords,
    Shield,
    Flask,
    Zap,
    Sprout,
}

/// The SVG path data drawn for each icon, in drawing order.
pub open spec fn icon_paths(i: IconName) -> Seq<Seq<char>> {
    match i {
        IconName::Sun => seq![
            "M17 12a5 5 0 1 1-10 0 5 5 0 0 1 10 0z"@,
            "M12 1v2M12 21v2M4.22 4.22l1.42 1.42M19.78 4.22l-1.42 1.42M1 12h2M21 12h2M4.22 19.78l1.42-1.42M19.78 19.78l-1.42-1.42"@,
        ],
        IconName::Moon => seq![
            "M21 12.79A9 9 0 1 1 11.21 3 7 7 0 0 0 21 12.79z"@,
        ],
        IconName::Monitor => seq![
            "M4 3h16a2 2 0 0 1 2 2v10a2 2 0 0 1-2 2H4a2 2 0 0 1-2-2V5a2 2 0 0 1 2-2z"@,
            "M8 21h8M12 17v4"@,
        ],
        IconName::Layers => seq![
            "M12 2 2 7l10 5 10-5-10-5z"@,
            "M2 17l10 5 10-5"@,
            "M2 12l10 5 10-5"@,
        ],
        IconName::Copy => seq![
            "M11 9h9a2 2 0 0 1 2 2v9a2 2 0 0 1-2 2h-9a2 2 0 0 1-2-2v-9a2 2 0 0 1 2-2z"@,
            "M5 15H4a2 2 0 0 1-2-2V4a2 2 0 0 1 2-2h9a2 2 0 0 1 2 2v1"@,
        ],
        IconName::Compress => seq![
            "M4 14l5-5M4 14h5v-5"@,
            "M20 10l-5 5M20 10h-5v5"@,
        ],
        IconName::Skull => seq![
            "M12 2a8 8 0 0 0-8 8c0 3 2 5.5 4 7v5h8v-5c2-1.5 4-4 4-7a8 8 0 0 0-8-8z"@,
            "M9 10h.01M15 10h.01"@,
            "M8 17h8"@,
        ],
        IconName::Hourglass => seq![
            "M5 2h14M5 22h14"@,
            "M7 2v5l5 5-5 5v5"@,
            "M17 2v5l-5 5 5 5v5"@,
        ],
        IconName::Swords => seq![
            "M14.5 17.5 3 6V3h3l11.5 11.5"@,
            "M13 19l6-6M16 16l4 4M19 21l2-2"@,
            "M14.5 6.5 18 3h3v3l-3.5 3.5"@,
            "M5 14l4 4M7 17l-3 3M3 19l2 2"@,
        ],
        IconName::Shield => seq![
            "M12 22s8-4 8-10V5l-8-3-8 3v7c0 6 8 10 8 10z"@,
            "M12 8v8M8 12h8"@,
        ],
        IconName::Flask => seq![
            "M9 3h6"@,
            "M10 3v5.2L5 16a2 2 0 0 0 1.7 3h10.6a2 2 0 0 0 1.7-3l-5-7.8V3"@,
            "M6 15h12"@,
        ],
        IconName::Zap => seq![
            "M13 2 3 14h9l-1 8 10-12h-9z"@,
        ],
        IconName::Sprout => seq![
            "M7 20h10"@,
            "M10 20c5.5-2.5.8-6.4 3-10"@,
            "M9.5 9.4c1.1.8 1.8 2.2 2.3 3.7-2 .4-3.5.4-4.8-.3-1.2-.6-2.3-1.9-3-4.2 2.8-.5 4.4 0 5.5.8z"@,
            "M14.1 6a7 7 0 0 0-1.1 4c1.9-.1 3.3-.6 4.3-1.4 1-1 1.6-2.3 1.7-4.6-2.7.1-4 1-4.9 2z"@,
        ],
    }
}

/// The views of a list of string slices.
pub open spec fn str_views(s: Seq<&str>) -> Seq<Seq<char>> {
    s.map_values(|p: &str| p@)
}

impl IconName {
    /// The SVG path data of the icon, in drawing order.
    pub fn paths(self) -> (r: Vec<&'static str>)
        ensures
            str_views(r@) == icon_paths(self),
    {
        let r: Vec<&'static str> = match self {
            IconName::Sun => vec![
                "M17 12a5 5 0 1 1-10 0 5 5 0 0 1 10 0z",
                "M12 1v2M12 21v2M4.22 4.22l1.42 1.42M19.78 4.22l-1.42 1.42M1 12h2M21 12h2M4.22 19.78l1.42-1.42M19.78 19.78l-1.42-1.42",
            ],
            IconName::Moon => vec![
                "M21 12.79A9 9 0 1 1 11.21 3 7 7 0 0 0 21 12.79z",
            ],
            IconName::Monitor => vec![
                "M4 3h16a2 2 0 0 1 2 2v10a2 2 0 0 1-2 2H4a2 2 0 0 1-2-2V5a2 2 0 0 1 2-2z",
                "M8 21h8M12 17v4",
            ],
            IconName::Layers => vec![
                "M12 2 2 7l10 5 10-5-10-5z",
                "M2 17l10 5 10-5",
                "M2 12l10 5 10-5",
            ],
            IconName::Copy => vec![
                "M11 9h9a2 2 0 0 1 2 2v9a2 2 0 0 1-2 2h-9a2 2 0 0 1-2-2v-9a2 2 0 0 1 2-2z",
                "M5 15H4a2 2 0 0 1-2-2V4a2 2 0 0 1 2-2h9a2 2 0 0 1 2 2v1",
            ],
            IconName::Compress => vec![
                "M4 14l5-5M4 14h5v-5",
                "M20 10l-5 5M20 10h-5v5",
            ],
            IconName::Skull => vec![
                "M12 2a8 8 0 0 0-8 8c0 3 2 5.5 4 7v5h8v-5c2-1.5 4-4 4-7a8 8 0 0 0-8-8z",
                "M9 10h.01M15 10h.01",
                "M8 17h8",
            ],
            IconName::Hourglass => vec![
                "M5 2h14M5 22h14",
                "M7 2v5l5 5-5 5v5",
                "M17 2v5l-5 5 5 5v5",
            ],
            IconName::Swords => vec![
                "M14.5 17.5 3 6V3h3l11.5 11.5",
                "M13 19l6-6M16 16l4 4M19 21l2-2",
                "M14.5 6.5 18 3h3v3l-3.5 3.5",
                "M5 14l4 4M7 17l-3 3M3 19l2 2",
            ],
            IconName::Shield => vec![
                "M12 22s8-4 8-10V5l-8-3-8 3v7c0 6 8 10 8 10z",
                "M12 8v8M8 12h8",
            ],
            IconName::Flask => vec![
                "M9 3h6",
                "M10 3v5.2L5 16a2 2 0 0 0 1.7 3h10.6a2 2 0 0 0 1.7-3l-5-7.8V3",
                "M6 15h12",
            ],
            IconName::Zap => vec![
                "M13 2 3 14h9l-1 8 10-12h-9z",
            ],
            IconName::Sprout => vec![
                "M7 20h10",
                "M10 20c5.5-2.5.8-6.4 3-10",
                "M9.5 9.4c1.1.8 1.8 2.2 2.3 3.7-2 .4-3.5.4-4.8-.3-1.2-.6-2.3-1.9-3-4.2 2.8-.5 4.4 0 5.5.8z",
                "M14.1 6a7 7 0 0 0-1.1 4c1.9-.1 3.3-.6 4.3-1.4 1-1 1.6-2.3 1.7-4.6-2.7.1-4 1-4.9 2z",
            ],
        };
        assert(str_views(r@) =~= icon_paths(self));
        r
    }
}

/// The colour variants of a pill badge.
#[derive(Debug, Clone, Copy, PartialEq, Eq, Structural)]
pub enum PillVariant {
    Default,
    Accent,
    Destructive,
}

impl PillVariant {
    /// The CSS class of the dot shown when the pill has no icon.
    pub fn dot_class(self) -> (r: &'static str)
        ensures
            self == PillVariant::Default ==> r@ == "bg-muted-foreground"@,
            self == PillVariant::Accent ==> r@ == "bg-accent"@,
            self == PillVariant::Destructive ==> r@ == "bg-destructive"@,
    {
        match self {
            PillVariant::Default => "bg-muted-foreground",
            PillVariant::Accent => "bg-accent",
            PillVariant::Destructive => "bg-destructive",
        }
    }

    /// The CSS class of the pill's icon.
    pub fn icon_class(self) -> (r: &'static str)
        ensures
            self == PillVariant::Default ==> r@ == "text-muted-foreground"@,
            self == PillVariant::Accent ==> r@ == "text-accent"@,
            self == PillVariant::Destructive ==> r@ == "text-destructive"@,
    {
        match self {
            PillVariant::Default => "text-muted-foreground",
            PillVariant::Accent => "text-accent",
            PillVariant::Destructive => "text-destructive",
        }
    }
}

impl Default for PillVariant {
    fn default() -> (r: Self)
        ensures
            r == PillVariant::Default,
    {
        PillVariant::Default
    }
}

/// A chaos action that the console can run on a topic.
#[derive(Debug, Clone, Copy, PartialEq, Eq, Structural)]
pub enum ChaosAction {
    Delete,
    LowRetention,
    FlipCleanupPolicy,
    IncreasePartitions,
    PoisonPills,
    SchemaBreak,
}

/// The button label of `a`.
pub open spec fn label_text(a: ChaosAction) -> Seq<char> {
    match a {
        ChaosAction::Delete => "Delete"@,
        ChaosAction::LowRetention => "Low retention"@,
        ChaosAction::FlipCleanupPolicy => "Flip cleanup"@,
        ChaosAction::IncreasePartitions => "Add partition"@,
        ChaosAction::PoisonPills => "Poison pills"@,
        ChaosAction::SchemaBreak => "Schema break"@,
    }
}

/// The text before and after the topic name in the success message of
/// `a`.
pub open spec fn success_parts(a: ChaosAction) -> (Seq<char>, Seq<char>) {
    match a {
        ChaosAction::Delete => ("Deleted topic '"@, "'"@),
        ChaosAction::LowRetention => ("Set retention to 1ms for '"@, "'"@),
        ChaosAction::FlipCleanupPolicy => ("Flipped cleanup policy for '"@, "'"@),
        ChaosAction::IncreasePartitions => ("Increased partitions for '"@, "'"@),
        ChaosAction::PoisonPills => ("Sent 10 poison pills to '"@, "'"@),
        ChaosAction::SchemaBreak => ("Sent 10 schema-breaking messages to '"@, "'"@),
    }
}

impl ChaosAction {
    /// Every action, in the order the console shows them.
    pub fn all() -> (r: Vec<ChaosAction>)
        ensures
            r@ == seq![
                ChaosAction::Delete,
                ChaosAction::LowRetention,
                ChaosAction::FlipCleanupPolicy,
                ChaosAction::IncreasePartitions,
                ChaosAction::PoisonPills,
                ChaosAction::SchemaBreak,
            ],
    {
        let r = vec![
            ChaosAction::Delete,
            ChaosAction::LowRetention,
            ChaosAction::FlipCleanupPolicy,
            ChaosAction::IncreasePartitions,
            ChaosAction::PoisonPills,
            ChaosAction::SchemaBreak,
        ];
        assert(r@ =~= seq![
            ChaosAction::Delete,
            ChaosAction::LowRetention,
            ChaosAction::FlipCleanupPolicy,
            ChaosAction::IncreasePartitions,
            ChaosAction::PoisonPills,
            ChaosAction::SchemaBreak,
        ]);
        r
    }

    /// The button label of the action.
    pub fn label(self) -> (r: &'static str)
        ensures
            r@ == label_text(self),
    {
        match self {
            ChaosAction::Delete => "Delete",
            ChaosAction::LowRetention => "Low retention",
            ChaosAction::FlipCleanupPolicy => "Flip cleanup",
            ChaosAction::IncreasePartitions => "Add partition",
            ChaosAction::PoisonPills => "Poison pills",
            ChaosAction::SchemaBreak => "Schema break",
        }
    }

    /// The icon of the action.
    pub fn icon(self) -> (r: IconName)
        ensures
            r == (match self {
                ChaosAction::Delete => IconName::Skull,
                ChaosAction::LowRetention => IconName::Hourglass,
                ChaosAction::FlipCleanupPolicy => IconName::Swords,
                ChaosAction::IncreasePartitions => IconName::Shield,
                ChaosAction::PoisonPills => IconName::Flask,
                ChaosAction::SchemaBreak => IconName::Zap,
            }),
    {
        match self {
            ChaosAction::Delete => IconName::Skull,
            ChaosAction::LowRetention => IconName::Hourglass,
            ChaosAction::FlipCleanupPolicy => IconName::Swords,
            ChaosAction::IncreasePartitions => IconName::Shield,
            ChaosAction::PoisonPills => IconName::Flask,
            ChaosAction::SchemaBreak => IconName::Zap,
        }
    }

    /// Only deleting a topic destroys it.
    pub fn is_destructive(self) -> (r: bool)
        ensures
            r == (self == ChaosAction::Delete),
    {
        match self {
            ChaosAction::Delete => true,
            _ => false,
        }
    }

    /// The message shown when the action succeeded on topic `name`, e.g.
    /// `Deleted topic 'orders'`.
    pub fn success_message(self, name: &str) -> (r: String)
        ensures
            r@ == success_parts(self).0 + name@ + success_parts(self).1,
    {
        let (before, after): (&str, &str) = match self {
            ChaosAction::Delete => ("Deleted topic '", "'"),
            ChaosAction::LowRetention => ("Set retention to 1ms for '", "'"),
            ChaosAction::FlipCleanupPolicy => ("Flipped cleanup policy for '", "'"),
            ChaosAction::IncreasePartitions => ("Increased partitions for '", "'"),
            ChaosAction::PoisonPills => ("Sent 10 poison pills to '", "'"),
            ChaosAction::SchemaBreak => ("Sent 10 schema-breaking messages to '", "'"),
        };
        let mut s = String::new();
        append_str(&mut s, before);
        append_str(&mut s, name);
        append_str(&mut s, after);
        assert(Seq::<char>::empty() + before@ == before@);
        s
    }
}

} // verus!
