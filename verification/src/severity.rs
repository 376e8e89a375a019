//! The three-level severity ranking attached to a finding.

use vstd::prelude::*;
use vstd::string::StringExecFns;
use core::cmp::Ordering;
use crate::text::{lowercase_of, same_text, to_lowercase};

verus! {

/// How serious a finding is. `High` outranks `Medium`, which outranks `Low`.
#[derive(Debug, Clone, Copy, PartialEq, Eq, Structural)]
pub enum Severity {
    High,
    Medium,
    Low,
}

/// Why a text is not a severity: it is none of the three labels.
#[derive(Debug, Clone, Copy, PartialEq, Eq, Structural)]
pub struct InvalidSeverity;

/// The severity that a lower-case label stands for, if it is one of the three.
pub open spec fn severity_of_label(lower: Seq<char>) -> Option<Severity> {
    if lower == "high"@ {
        Some(Severity::High)
    } else if lower == "medium"@ {
        Some(Severity::Medium)
    } else if lower == "low"@ {
        Some(Severity::Low)
    } else {
        None
    }
}

/// What parsing a text as a severity gives: the text is lower-cased, then read as a label.
pub open spec fn parsed_severity(text: Seq<char>) -> Result<Severity, InvalidSeverity> {
    match severity_of_label(lowercase_of(text)) {
        Some(severity) => Ok(severity),
        None => Err(InvalidSeverity),
    }
}

impl Severity {
    /// Position in the ranking: the higher the rank, the earlier a finding is shown.
    pub open spec fn spec_rank(self) -> u8 {
        match self {
            Severity::High => 2,
            Severity::Medium => 1,
            Severity::Low => 0,
        }
    }

    /// Position in the ranking: `High` is 2, `Medium` is 1, `Low` is 0.
    #[verifier::when_used_as_spec(spec_rank)]
    pub fn rank(self) -> (r: u8)
        ensures
            r == self.spec_rank(),
    {
        match self {
            Severity::High => 2,
            Severity::Medium => 1,
            Severity::Low => 0,
        }
    }

    /// Whether `self` is shown before `other` when findings are listed most severe first.
    pub fn outranks(self, other: Severity) -> (r: bool)
        ensures
            r == (self.spec_rank() > other.spec_rank()),
    {
        self > other
    }

    /// The name under which a severity is shown.
    pub open spec fn spec_label(self) -> Seq<char> {
        match self {
            Severity::High => "High"@,
            Severity::Medium => "Medium"@,
            Severity::Low => "Low"@,
        }
    }

    /// The name under which a severity is shown: `High`, `Medium` or `Low`.
    pub fn label(self) -> (name: String)
        ensures
            name@ == self.spec_label(),
    {
        match self {
            Severity::High => String::from_str("High"),
            Severity::Medium => String::from_str("Medium"),
            Severity::Low => String::from_str("Low"),
        }
    }

    /// The colour in which a finding of this severity is shown.
    pub open spec fn spec_color(self) -> Seq<char> {
        match self {
            Severity::High => "red"@,
            Severity::Medium => "yellow"@,
            Severity::Low => "green"@,
        }
    }

    /// The colour in which a finding of this severity is shown: red, yellow or green.
    pub fn color(self) -> (name: &'static str)
        ensures
            name@ == self.spec_color(),
    {
        match self {
            Severity::High => "red",
            Severity::Medium => "yellow",
            Severity::Low => "green",
        }
    }

    /// Reads a label that is already in lower case: exactly `high`, `medium` or `low`.
    pub fn from_label(lower: &str) -> (r: Result<Severity, InvalidSeverity>)
        ensures
            r == match severity_of_label(lower@) {
                Some(severity) => Ok::<Severity, InvalidSeverity>(severity),
                None => Err(InvalidSeverity),
            },
    {
        if same_text(lower, "high") {
            Ok(Severity::High)
        } else if same_text(lower, "medium") {
            Ok(Severity::Medium)
        } else if same_text(lower, "low") {
            Ok(Severity::Low)
        } else {
            Err(InvalidSeverity)
        }
    }

    /// Reads a severity from a text, whatever its case. Any text whose lower-case
    /// form is none of the three labels is refused.
    pub fn parse(text: &str) -> (r: Result<Severity, InvalidSeverity>)
        ensures
            r == parsed_severity(text@),
            r is Err <==> severity_of_label(lowercase_of(text@)) is None,
    {
        let lower = to_lowercase(text);
        Severity::from_label(lower.as_str())
    }
}

/// Severities are ordered by rank: `Low < Medium < High`.
impl PartialOrd for Severity {
    fn partial_cmp(&self, other: &Severity) -> (r: Option<Ordering>) {
        let mine: u8 = self.rank();
        let theirs: u8 = other.rank();
        if mine < theirs {
            Some(Ordering::Less)
        } else if mine == theirs {
            Some(Ordering::Equal)
        } else {
            Some(Ordering::Greater)
        }
    }
}

impl vstd::std_specs::cmp::PartialOrdSpecImpl for Severity {
    open spec fn obeys_partial_cmp_spec() -> bool {
        true
    }

    open spec fn partial_cmp_spec(&self, other: &Severity) -> Option<Ordering> {
        if self.spec_rank() < other.spec_rank() {
            Some(Ordering::Less)
        } else if self.spec_rank() == other.spec_rank() {
            Some(Ordering::Equal)
        } else {
            Some(Ordering::Greater)
        }
    }
}

/// The three labels are distinct texts, so each is read as its own severity.
pub proof fn labels_are_read_back()
    ensures
        severity_of_label("high"@) == Some(Severity::High),
        severity_of_label("medium"@) == Some(Severity::Medium),
        severity_of_label("low"@) == Some(Severity::Low),
{
    reveal_strlit("high");
    reveal_strlit("medium");
    reveal_strlit("low");
    assert("high"@.len() == 4 && "medium"@.len() == 6 && "low"@.len() == 3);
}

} // verus!
