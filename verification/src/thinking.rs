//! How much a model is asked to think.
use vstd::prelude::*;

use crate::text::same_text;

verus! {

broadcast use vstd::string::group_string_axioms;

/// How much a model is asked to think, from not at all upwards.
#[derive(Clone, Copy, Debug, PartialEq, Eq, Structural)]
pub enum ThinkingLevel {
    Off,
    Minimal,
    Low,
    Medium,
    High,
    XHigh,
}

impl ThinkingLevel {
    /// The name of the level.
    pub open spec fn name(self) -> Seq<char> {
        match self {
            ThinkingLevel::Off => "off"@,
            ThinkingLevel::Minimal => "minimal"@,
            ThinkingLevel::Low => "low"@,
            ThinkingLevel::Medium => "medium"@,
            ThinkingLevel::High => "high"@,
            ThinkingLevel::XHigh => "xhigh"@,
        }
    }

    /// The place of the level, counted from not thinking at all.
    pub open spec fn rank(self) -> nat {
        match self {
            ThinkingLevel::Off => 0,
            ThinkingLevel::Minimal => 1,
            ThinkingLevel::Low => 2,
            ThinkingLevel::Medium => 3,
            ThinkingLevel::High => 4,
            ThinkingLevel::XHigh => 5,
        }
    }

    /// The level with a given name.
    pub open spec fn named(name: Seq<char>) -> Option<ThinkingLevel> {
        if name == "off"@ {
            Some(ThinkingLevel::Off)
        } else if name == "minimal"@ {
            Some(ThinkingLevel::Minimal)
        } else if name == "low"@ {
            Some(ThinkingLevel::Low)
        } else if name == "medium"@ {
            Some(ThinkingLevel::Medium)
        } else if name == "high"@ {
            Some(ThinkingLevel::High)
        } else if name == "xhigh"@ {
            Some(ThinkingLevel::XHigh)
        } else {
            None
        }
    }

    /// The name of the level.
    pub fn as_str(&self) -> (r: &'static str)
        ensures
            r@ == self.name(),
    {
        match self {
            ThinkingLevel::Off => "off",
            ThinkingLevel::Minimal => "minimal",
            ThinkingLevel::Low => "low",
            ThinkingLevel::Medium => "medium",
            ThinkingLevel::High => "high",
            ThinkingLevel::XHigh => "xhigh",
        }
    }

    /// The level with a given name.
    pub fn from_name(name: &str) -> (r: Option<ThinkingLevel>)
        ensures
            r == ThinkingLevel::named(name@),
    {
        if same_text(name, "off") {
            Some(ThinkingLevel::Off)
        } else if same_text(name, "minimal") {
            Some(ThinkingLevel::Minimal)
        } else if same_text(name, "low") {
            Some(ThinkingLevel::Low)
        } else if same_text(name, "medium") {
            Some(ThinkingLevel::Medium)
        } else if same_text(name, "high") {
            Some(ThinkingLevel::High)
        } else if same_text(name, "xhigh") {
            Some(ThinkingLevel::XHigh)
        } else {
            None
        }
    }

    /// The place of the level, counted from not thinking at all.
    fn place(&self) -> (r: u8)
        ensures
            r == self.rank(),
    {
        match self {
            ThinkingLevel::Off => 0,
            ThinkingLevel::Minimal => 1,
            ThinkingLevel::Low => 2,
            ThinkingLevel::Medium => 3,
            ThinkingLevel::High => 4,
            ThinkingLevel::XHigh => 5,
        }
    }
}

/// What is known of how a model thinks.
#[derive(Clone, Copy, Debug, PartialEq, Eq, Structural)]
pub struct ModelEntry {
    /// Whether the model thinks at all.
    pub reasoning: bool,
    /// The highest level that a thinking model takes.
    pub highest_level: ThinkingLevel,
}

impl ModelEntry {
    /// The level that the model takes instead of `level`: none where it does not think, and none
    /// above its highest.
    pub open spec fn clamp(self, level: ThinkingLevel) -> ThinkingLevel {
        if !self.reasoning {
            ThinkingLevel::Off
        } else if level.rank() > self.highest_level.rank() {
            self.highest_level
        } else {
            level
        }
    }

    /// The level that the model takes instead of `level`.
    pub fn clamp_thinking_level(&self, level: ThinkingLevel) -> (r: ThinkingLevel)
        ensures
            r == self.clamp(level),
    {
        if !self.reasoning {
            ThinkingLevel::Off
        } else if level.place() > self.highest_level.place() {
            self.highest_level
        } else {
            level
        }
    }
}

/// Every level is the level of its own name.
pub proof fn law_level_name_roundtrip(level: ThinkingLevel)
    ensures
        ThinkingLevel::named(level.name()) == Some(level),
{
    reveal_strlit("off");
    reveal_strlit("minimal");
    reveal_strlit("low");
    reveal_strlit("medium");
    reveal_strlit("high");
    reveal_strlit("xhigh");
    assert("off"@.len() == 3 && "low"@.len() == 3 && "high"@.len() == 4 && "xhigh"@.len() == 5);
    assert("medium"@.len() == 6 && "minimal"@.len() == 7);
    assert("off"@[0] != "low"@[0]);
}

/// Clamping a level that a model takes changes nothing.
pub proof fn law_clamp_is_idempotent(model: ModelEntry, level: ThinkingLevel)
    ensures
        model.clamp(model.clamp(level)) == model.clamp(level),
{
}

/// The names of the levels, and their order from not thinking at all upwards.
pub proof fn law_level_names_and_order()
    ensures
        ThinkingLevel::Off.name() == "off"@,
        ThinkingLevel::Minimal.name() == "minimal"@,
        ThinkingLevel::Low.name() == "low"@,
        ThinkingLevel::Medium.name() == "medium"@,
        ThinkingLevel::High.name() == "high"@,
        ThinkingLevel::XHigh.name() == "xhigh"@,
        ThinkingLevel::Off.rank() < ThinkingLevel::Minimal.rank() < ThinkingLevel::Low.rank()
            < ThinkingLevel::Medium.rank() < ThinkingLevel::High.rank()
            < ThinkingLevel::XHigh.rank(),
{
}

/// What has a level has the name of that level.
pub proof fn law_named_level_has_that_name(name: Seq<char>)
    ensures
        ThinkingLevel::named(name) matches Some(level) ==> level.name() == name,
        name == "off"@ || name == "minimal"@ || name == "low"@ || name == "medium"@ || name
            == "high"@ || name == "xhigh"@ <==> ThinkingLevel::named(name) is Some,
{
}

/// A model that does not think takes no level but `off`. A thinking model takes the level that is
/// asked for up to its highest, and its highest above that.
pub proof fn law_clamped_level(model: ModelEntry, level: ThinkingLevel)
    ensures
        !model.reasoning ==> model.clamp(level) is Off,
        model.reasoning && level.rank() <= model.highest_level.rank() ==> model.clamp(level)
            == level,
        model.reasoning && level.rank() > model.highest_level.rank() ==> model.clamp(level)
            == model.highest_level,
{
}

} // verus!
