//! Findings on a change: what the model suggests to improve, ranked by severity.

use vstd::prelude::*;
use vstd::string::StringExecFns;
use colored::Colorize;
use crate::json::{json_array, json_object, json_string, lookup, member_value, read_array,
    read_object, read_string};
use crate::severity::{parsed_severity, Severity};

verus! {

/// One finding: the code it is about, why it should change, and how much it matters.
#[derive(Debug, Clone, PartialEq, Eq)]
pub struct Improvement {
    code: String,
    reason: String,
    pub severity: Severity,
}

/// What a finding says, as plain values.
pub struct ImprovementView {
    pub code: Seq<char>,
    pub reason: Seq<char>,
    pub severity: Severity,
}

impl View for Improvement {
    type V = ImprovementView;

    closed spec fn view(&self) -> ImprovementView {
        ImprovementView { code: self.code@, reason: self.reason@, severity: self.severity }
    }
}

/// The findings of one reply, in the order in which they are shown.
#[derive(Debug, Clone, PartialEq, Eq)]
pub struct Improvements {
    pub improvements: Vec<Improvement>,
}

impl View for Improvements {
    type V = Seq<ImprovementView>;

    open spec fn view(&self) -> Seq<ImprovementView> {
        self.improvements@.map_values(|item: Improvement| item@)
    }
}

/// Why a payload holds no set of findings: it is not JSON of the expected shape,
/// a finding lacks a field, or a severity is none of the three labels.
#[derive(Debug, Clone, Copy, PartialEq, Eq, Structural)]
pub struct SchemaViolation;

/// The text of the member `name`, where it is there and holds a JSON string.
pub open spec fn text_field(members: Seq<(Seq<char>, Seq<char>)>, name: Seq<char>) -> Option<
    Seq<char>,
> {
    match member_value(members, name) {
        Some(raw) => json_string(raw),
        None => None,
    }
}

/// The severity of a finding whose `severity` member was read as `label`.
pub open spec fn severity_field(label: Option<Seq<char>>) -> Option<Severity> {
    match label {
        Some(text) => match parsed_severity(text) {
            Ok(severity) => Some(severity),
            Err(_) => None,
        },
        None => None,
    }
}

/// The finding made of three fields, which must all be there.
pub open spec fn finding_of_fields(
    code: Option<Seq<char>>,
    reason: Option<Seq<char>>,
    severity: Option<Severity>,
) -> Option<ImprovementView> {
    if code is Some && reason is Some && severity is Some {
        Some(
            ImprovementView {
                code: code.unwrap(),
                reason: reason.unwrap(),
                severity: severity.unwrap(),
            },
        )
    } else {
        None
    }
}

/// The finding that the JSON text of one array item holds: an object whose
/// members `code`, `reason` and `severity` are strings, the last one a severity
/// label in any case. Other members are ignored.
pub open spec fn finding_of_item(item: Seq<char>) -> Option<ImprovementView> {
    match json_object(item) {
        Some(members) => finding_of_fields(
            text_field(members, "code"@),
            text_field(members, "reason"@),
            severity_field(text_field(members, "severity"@)),
        ),
        None => None,
    }
}

/// The findings that a list of item texts holds: all of them, or none if one item fails.
pub open spec fn findings_of_items(items: Seq<Seq<char>>) -> Option<Seq<ImprovementView>> {
    if forall|i: int| 0 <= i < items.len() ==> (#[trigger] finding_of_item(items[i])) is Some {
        Some(items.map_values(|item: Seq<char>| finding_of_item(item).unwrap()))
    } else {
        None
    }
}

/// The findings that a payload holds: a JSON object whose member `improvements`
/// is an array of findings.
pub open spec fn findings_of_payload(payload: Seq<char>) -> Option<Seq<ImprovementView>> {
    match json_object(payload) {
        Some(members) => match member_value(members, "improvements"@) {
            Some(raw) => match json_array(raw) {
                Some(items) => findings_of_items(items),
                None => None,
            },
            None => None,
        },
        None => None,
    }
}

/// The line that closes the block of one finding.
pub const SEPARATOR: &'static str = "------------------------------------";

/// The block that shows one finding: the severity, the code, the reason and a
/// separator, each followed by an empty line but the separator. `label` and
/// `code` stand as they came back from colouring.
pub open spec fn block_text(label: Seq<char>, code: Seq<char>, reason: Seq<char>) -> Seq<char> {
    "Severity: "@ + label + "\n\n"@ + code + "\n\n"@ + reason + "\n\n"@ + SEPARATOR@ + "\n"@
}

/// The blocks of the findings `items`, one after the other, where `labels` and
/// `codes` hold the coloured label and the coloured code of each.
pub open spec fn listing(
    labels: Seq<Seq<char>>,
    codes: Seq<Seq<char>>,
    items: Seq<ImprovementView>,
) -> Seq<char>
    decreases items.len(),
{
    if items.len() == 0 {
        Seq::empty()
    } else {
        listing(labels.drop_last(), codes.drop_last(), items.drop_last()) + block_text(
            labels.last(),
            codes.last(),
            items.last().reason,
        )
    }
}

/// Calls `Colorize::color` of the crate `colored` on `text` and formats the
/// result. With colours switched off, which the environment and the terminal
/// decide, that is the text itself; otherwise the text stands between the escape
/// sequences of the colour. The contract promises nothing of the result.
#[verifier::external_body]
fn paint(text: &str, color: &str) -> (painted: String) {
    format!("{}", text.color(color))
}

/// The findings of `all` that have the severity `wanted`, in their order.
pub open spec fn with_severity(all: Seq<ImprovementView>, wanted: Severity) -> Seq<
    ImprovementView,
> {
    all.filter(|item: ImprovementView| item.severity == wanted)
}

/// The findings of `all`, most severe first; findings of one severity keep their order.
pub open spec fn most_severe_first(all: Seq<ImprovementView>) -> Seq<ImprovementView> {
    with_severity(all, Severity::High) + with_severity(all, Severity::Medium) + with_severity(
        all,
        Severity::Low,
    )
}

/// The views of a list of findings.
pub open spec fn findings_view(items: Seq<Improvement>) -> Seq<ImprovementView> {
    items.map_values(|item: Improvement| item@)
}

/// Adding a finding to a list adds it to the findings of its own severity, and to no others.
proof fn with_severity_push(all: Seq<ImprovementView>, item: ImprovementView, wanted: Severity)
    ensures
        with_severity(all.push(item), wanted) == if item.severity == wanted {
            with_severity(all, wanted).push(item)
        } else {
            with_severity(all, wanted)
        },
{
    let pred = |item: ImprovementView| item.severity == wanted;
    Seq::lemma_filter_push(all, item, pred);
}

/// Picking one severity out of the findings of another severity leaves nothing;
/// picking it out of the findings of the same severity changes nothing.
proof fn with_severity_twice(all: Seq<ImprovementView>, first: Severity, second: Severity)
    ensures
        with_severity(with_severity(all, first), second) == if first == second {
            with_severity(all, first)
        } else {
            Seq::<ImprovementView>::empty()
        },
    decreases all.len(),
{
    if all.len() == 0 {
        assert(with_severity(all, first) =~= Seq::<ImprovementView>::empty()) by {
            reveal(Seq::filter);
        }
        assert(with_severity(Seq::<ImprovementView>::empty(), second) =~= Seq::<
            ImprovementView,
        >::empty()) by {
            reveal(Seq::filter);
        }
    } else {
        let rest = all.drop_last();
        let last = all.last();
        assert(all =~= rest.push(last));
        with_severity_twice(rest, first, second);
        with_severity_push(rest, last, first);
        if last.severity == first {
            with_severity_push(with_severity(rest, first), last, second);
        }
    }
}

/// Shown most severe first, no finding stands before a more severe one.
pub proof fn most_severe_first_is_ranked(all: Seq<ImprovementView>)
    ensures
        most_severe_first(all).len() == all.len(),
        forall|i: int, j: int|
            0 <= i <= j < all.len() ==> (#[trigger] most_severe_first(all)[i]).severity.spec_rank()
                >= (#[trigger] most_severe_first(all)[j]).severity.spec_rank(),
{
    let high = with_severity(all, Severity::High);
    let medium = with_severity(all, Severity::Medium);
    let low = with_severity(all, Severity::Low);
    let shown = most_severe_first(all);
    most_severe_first_keeps_findings(all);
    shown.to_multiset_ensures();
    all.to_multiset_ensures();
    assert forall|i: int| 0 <= i < shown.len() implies (#[trigger] shown[i]).severity == (if i
        < high.len() {
        Severity::High
    } else if i < high.len() + medium.len() {
        Severity::Medium
    } else {
        Severity::Low
    }) by {
        if i < high.len() {
            all.lemma_filter_pred(|item: ImprovementView| item.severity == Severity::High, i);
        } else if i < high.len() + medium.len() {
            all.lemma_filter_pred(
                |item: ImprovementView| item.severity == Severity::Medium,
                i - high.len(),
            );
        } else {
            all.lemma_filter_pred(
                |item: ImprovementView| item.severity == Severity::Low,
                i - high.len() - medium.len(),
            );
        }
    }
}

/// Shown most severe first, the findings are the same as before, each as often as before.
pub proof fn most_severe_first_keeps_findings(all: Seq<ImprovementView>)
    ensures
        most_severe_first(all).to_multiset() == all.to_multiset(),
    decreases all.len(),
{
    let high = with_severity(all, Severity::High);
    let medium = with_severity(all, Severity::Medium);
    let low = with_severity(all, Severity::Low);
    vstd::seq_lib::lemma_multiset_commutative(high + medium, low);
    vstd::seq_lib::lemma_multiset_commutative(high, medium);
    if all.len() == 0 {
        assert(high =~= all && medium =~= all && low =~= all) by {
            reveal(Seq::filter);
        }
        assert(most_severe_first(all) =~= all);
    } else {
        let rest = all.drop_last();
        let last = all.last();
        assert(all =~= rest.push(last));
        most_severe_first_keeps_findings(rest);
        let rest_high = with_severity(rest, Severity::High);
        let rest_medium = with_severity(rest, Severity::Medium);
        let rest_low = with_severity(rest, Severity::Low);
        vstd::seq_lib::lemma_multiset_commutative(rest_high + rest_medium, rest_low);
        vstd::seq_lib::lemma_multiset_commutative(rest_high, rest_medium);
        with_severity_push(rest, last, Severity::High);
        with_severity_push(rest, last, Severity::Medium);
        with_severity_push(rest, last, Severity::Low);
        vstd::seq_lib::to_multiset_build(rest, last);
        vstd::seq_lib::to_multiset_build(rest_high, last);
        vstd::seq_lib::to_multiset_build(rest_medium, last);
        vstd::seq_lib::to_multiset_build(rest_low, last);
        assert(most_severe_first(all).to_multiset() =~= all.to_multiset());
    }
}

/// Shown most severe first, the findings of one severity keep the order they had.
pub proof fn most_severe_first_is_stable(all: Seq<ImprovementView>, severity: Severity)
    ensures
        with_severity(most_severe_first(all), severity) == with_severity(all, severity),
{
    let high = with_severity(all, Severity::High);
    let medium = with_severity(all, Severity::Medium);
    let low = with_severity(all, Severity::Low);
    let wanted = |item: ImprovementView| item.severity == severity;
    Seq::filter_distributes_over_add(high + medium, low, wanted);
    Seq::filter_distributes_over_add(high, medium, wanted);
    with_severity_twice(all, Severity::High, severity);
    with_severity_twice(all, Severity::Medium, severity);
    with_severity_twice(all, Severity::Low, severity);
    assert(with_severity(most_severe_first(all), severity) =~= with_severity(all, severity));
}

/// A set of findings is read whole or not at all: one item that holds no
/// finding makes the list hold none.
pub proof fn one_failing_item_fails_all(items: Seq<Seq<char>>, i: int)
    requires
        0 <= i < items.len(),
        finding_of_item(items[i]) is None,
    ensures
        findings_of_items(items) is None,
{
}

/// A payload with an item that lacks one of the members `code`, `reason` and
/// `severity` holds no findings at all, whatever its other items hold.
pub proof fn item_without_field_fails_payload(payload: Seq<char>, i: int, name: Seq<char>)
    requires
        name == "code"@ || name == "reason"@ || name == "severity"@,
        json_object(payload) matches Some(members) && member_value(members, "improvements"@)
            matches Some(raw) && json_array(raw) matches Some(items) && 0 <= i < items.len() && (
        json_object(items[i]) matches Some(fields) ==> member_value(fields, name) is None),
    ensures
        findings_of_payload(payload) is None,
{
    let items = json_array(
        member_value(json_object(payload).unwrap(), "improvements"@).unwrap(),
    ).unwrap();
    missing_field_is_no_finding(items[i], name);
    one_failing_item_fails_all(items, i);
}

/// An item that lacks one of the members `code`, `reason` and `severity` holds no finding.
pub proof fn missing_field_is_no_finding(item: Seq<char>, name: Seq<char>)
    requires
        name == "code"@ || name == "reason"@ || name == "severity"@,
        json_object(item) matches Some(members) ==> member_value(members, name) is None,
    ensures
        finding_of_item(item) is None,
{
}

impl Improvement {
    /// A finding with the given parts.
    pub fn new(code: String, reason: String, severity: Severity) -> (item: Improvement)
        ensures
            item@ == (ImprovementView { code: code@, reason: reason@, severity }),
    {
        Improvement { code, reason, severity }
    }

    /// The code that the finding is about.
    pub fn code(&self) -> (code: &str)
        ensures
            code@ == self@.code,
    {
        self.code.as_str()
    }

    /// Why the code should change.
    pub fn reason(&self) -> (reason: &str)
        ensures
            reason@ == self@.reason,
    {
        self.reason.as_str()
    }

    /// How much the finding matters.
    pub fn severity(&self) -> (severity: Severity)
        ensures
            severity == self@.severity,
    {
        self.severity
    }

    /// The block that shows this finding, given its label and its code as they
    /// came back from colouring.
    pub fn block(&self, painted_label: &str, painted_code: &str) -> (text: String)
        ensures
            text@ == block_text(painted_label@, painted_code@, self@.reason),
    {
        let mut text = String::from_str("Severity: ");
        text.append(painted_label);
        text.append("\n\n");
        text.append(painted_code);
        text.append("\n\n");
        text.append(self.reason.as_str());
        text.append("\n\n");
        text.append(SEPARATOR);
        text.append("\n");
        text
    }

    /// Builds a finding from the three fields as they were read. Every field is
    /// required: with one of them missing there is no finding.
    pub fn from_fields(
        code: Option<String>,
        reason: Option<String>,
        severity: Option<Severity>,
    ) -> (r: Result<Improvement, SchemaViolation>)
        ensures
            r is Ok <==> code is Some && reason is Some && severity is Some,
            r matches Ok(item) ==> item@ == (ImprovementView {
                code: code.unwrap()@,
                reason: reason.unwrap()@,
                severity: severity.unwrap(),
            }),
    {
        match (code, reason, severity) {
            (Some(code), Some(reason), Some(severity)) => Ok(
                Improvement { code, reason, severity },
            ),
            _ => Err(SchemaViolation),
        }
    }

    /// Reads the member `name` of an object as a text.
    fn read_field(members: &Vec<crate::json::Member>, name: &str) -> (text: Option<String>)
        ensures
            text is Some <==> text_field(crate::json::members_view(members@), name@) is Some,
            text matches Some(s) ==> s@ == text_field(
                crate::json::members_view(members@),
                name@,
            ).unwrap(),
    {
        match lookup(members, name) {
            Some(raw) => read_string(raw),
            None => None,
        }
    }

    /// Reads one finding from the JSON text of an array item.
    pub fn parse(item: &str) -> (r: Result<Improvement, SchemaViolation>)
        ensures
            r is Ok <==> finding_of_item(item@) is Some,
            r matches Ok(found) ==> found@ == finding_of_item(item@).unwrap(),
    {
        match read_object(item) {
            Some(members) => {
                let code = Improvement::read_field(&members, "code");
                let reason = Improvement::read_field(&members, "reason");
                let severity = match Improvement::read_field(&members, "severity") {
                    Some(label) => match Severity::parse(label.as_str()) {
                        Ok(severity) => Some(severity),
                        Err(_) => None,
                    },
                    None => None,
                };
                Improvement::from_fields(code, reason, severity)
            },
            None => Err(SchemaViolation),
        }
    }
}

impl Improvements {
    /// Reads every item of a list, or fails at the first item that holds no finding.
    pub fn from_items(items: &Vec<String>) -> (r: Result<Improvements, SchemaViolation>)
        ensures
            r is Ok <==> findings_of_items(crate::json::texts_view(items@)) is Some,
            r matches Ok(set) ==> set@ == findings_of_items(
                crate::json::texts_view(items@),
            ).unwrap(),
    {
        let ghost texts = crate::json::texts_view(items@);
        let mut found: Vec<Improvement> = Vec::new();
        let mut i: usize = 0;
        while i < items.len()
            invariant
                0 <= i <= items.len(),
                texts == crate::json::texts_view(items@),
                found@.len() == i,
                forall|j: int| 0 <= j < i ==> (#[trigger] finding_of_item(texts[j])) is Some,
                forall|j: int|
                    0 <= j < i ==> (#[trigger] found@[j])@ == finding_of_item(texts[j]).unwrap(),
            decreases items.len() - i,
        {
            assert(texts[i as int] == items@[i as int]@);
            match Improvement::parse(items[i].as_str()) {
                Ok(item) => {
                    found.push(item);
                },
                Err(_) => {
                    assert(finding_of_item(texts[i as int]) is None);
                    return Err(SchemaViolation);
                },
            }
            i += 1;
        }
        let set = Improvements { improvements: found };
        assert(set@ =~= findings_of_items(texts).unwrap());
        Ok(set)
    }

    /// The text that shows the findings, one block each, in their current order.
    /// The label and the code of a finding are coloured by its severity; how a
    /// coloured text looks is left to the terminal at hand, so the contract fixes
    /// the layout and the reasons, and says of the coloured parts only that there
    /// is one label and one code for each finding.
    pub fn display(&self) -> (text: String)
        ensures
            exists|labels: Seq<Seq<char>>, codes: Seq<Seq<char>>|
                labels.len() == self@.len() && codes.len() == self@.len() && text@ == #[trigger] listing(
                    labels,
                    codes,
                    self@,
                ),
    {
        let mut text = String::new();
        let ghost mut labels: Seq<Seq<char>> = Seq::empty();
        let ghost mut codes: Seq<Seq<char>> = Seq::empty();
        let mut i: usize = 0;
        while i < self.improvements.len()
            invariant
                0 <= i <= self.improvements.len(),
                labels.len() == i,
                codes.len() == i,
                text@ == listing(labels, codes, self@.take(i as int)),
            decreases self.improvements.len() - i,
        {
            let item = &self.improvements[i];
            let color = item.severity.color();
            let label = item.severity.label();
            let painted_label = paint(label.as_str(), color);
            let painted_code = paint(item.code.as_str(), color);
            let block = item.block(painted_label.as_str(), painted_code.as_str());
            text.append(block.as_str());
            proof {
                let next = self@.take(i + 1);
                assert(next.drop_last() =~= self@.take(i as int));
                assert(next.last() == item@);
                assert(labels.push(painted_label@).drop_last() =~= labels);
                assert(codes.push(painted_code@).drop_last() =~= codes);
                labels = labels.push(painted_label@);
                codes = codes.push(painted_code@);
            }
            i += 1;
        }
        assert(self@.take(i as int) =~= self@);
        text
    }

    /// Puts the findings in the order in which they are shown: most severe
    /// first, and findings of one severity in the order they had.
    pub fn sort_descending(&mut self)
        ensures
            final(self)@ == most_severe_first(old(self)@),
    {
        let mut items: Vec<Improvement> = Vec::new();
        core::mem::swap(&mut self.improvements, &mut items);
        let ghost all = findings_view(items@);
        let mut high: Vec<Improvement> = Vec::new();
        let mut medium: Vec<Improvement> = Vec::new();
        let mut low: Vec<Improvement> = Vec::new();
        let ghost mut done: Seq<ImprovementView> = Seq::empty();
        proof {
            assert(findings_view(high@) =~= with_severity(done, Severity::High));
            assert(findings_view(medium@) =~= with_severity(done, Severity::Medium));
            assert(findings_view(low@) =~= with_severity(done, Severity::Low));
        }
        for item in it: items
            invariant
                all == findings_view(it.seq()),
                done == all.take(it.index() as int),
                findings_view(high@) == with_severity(done, Severity::High),
                findings_view(medium@) == with_severity(done, Severity::Medium),
                findings_view(low@) == with_severity(done, Severity::Low),
        {
            proof {
                with_severity_push(done, item@, Severity::High);
                with_severity_push(done, item@, Severity::Medium);
                with_severity_push(done, item@, Severity::Low);
                assert(all.take(it.index() + 1) =~= done.push(item@));
                done = done.push(item@);
            }
            let ghost before = (high@, medium@, low@);
            match item.severity {
                Severity::High => {
                    high.push(item);
                    assert(findings_view(high@) =~= findings_view(before.0).push(item@));
                },
                Severity::Medium => {
                    medium.push(item);
                    assert(findings_view(medium@) =~= findings_view(before.1).push(item@));
                },
                Severity::Low => {
                    low.push(item);
                    assert(findings_view(low@) =~= findings_view(before.2).push(item@));
                },
            }
        }
        assert(done =~= all);
        let ghost parts = (high@, medium@, low@);
        high.append(&mut medium);
        high.append(&mut low);
        assert(findings_view(high@) =~= findings_view(parts.0) + findings_view(parts.1)
            + findings_view(parts.2));
        self.improvements = high;
    }

    /// Reads a set of findings from the JSON payload of a structured reply. The
    /// payload is an object whose member `improvements` is an array; each item
    /// needs the string members `code`, `reason` and `severity`. One item that
    /// fails makes the whole payload fail: no part of it is returned.
    pub fn parse(payload: &str) -> (r: Result<Improvements, SchemaViolation>)
        ensures
            r is Ok <==> findings_of_payload(payload@) is Some,
            r matches Ok(set) ==> set@ == findings_of_payload(payload@).unwrap(),
    {
        match read_object(payload) {
            Some(members) => match lookup(&members, "improvements") {
                Some(raw) => match read_array(raw) {
                    Some(items) => Improvements::from_items(&items),
                    None => Err(SchemaViolation),
                },
                None => Err(SchemaViolation),
            },
            None => Err(SchemaViolation),
        }
    }
}

} // verus!
