//! The rules that say which Timeular activity a Toggl time entry belongs to.
//!
//! A rule names a project and, if it wants, a description. The rules are
//! tried in the order in which they were given, and the first one that
//! matches an entry decides.

use crate::text::same_ignoring_case;
use crate::toggl::{SourceTimeEntry, TogglTimeEntry};
use vstd::prelude::*;

verus! {

/// One rule: entries of `project`, with `description` if one is given, belong
/// to the activity `activity_id`.
#[derive(Clone, Debug, PartialEq, Eq)]
pub struct ActivityMapping {
    pub project: String,
    pub description: Option<String>,
    pub activity_id: String,
}

/// The contents of an `ActivityMapping`.
pub struct FilterRule {
    pub project: Seq<char>,
    pub description: Option<Seq<char>>,
    pub activity_id: Seq<char>,
}

impl FilterRule {
    /// Whether the rule matches `entry`: the projects are the same text, and
    /// the rule asks for no description or for the entry's, letter case set
    /// aside.
    pub open spec fn matches(self, entry: SourceTimeEntry) -> bool {
        &&& entry.project == self.project
        &&& match self.description {
            Some(description) => same_ignoring_case(description, entry.description),
            None => true,
        }
    }
}

impl View for ActivityMapping {
    type V = FilterRule;

    open spec fn view(&self) -> FilterRule {
        FilterRule {
            project: self.project@,
            description: match self.description {
                Some(description) => Some(description@),
                None => None,
            },
            activity_id: self.activity_id@,
        }
    }
}

/// The activity of the first rule, from `rules[from]` on, that matches
/// `entry`; `None` where none of them does.
pub open spec fn resolve_from(
    rules: Seq<FilterRule>,
    entry: SourceTimeEntry,
    from: int,
) -> Option<Seq<char>>
    decreases rules.len() - from,
{
    if from < 0 || from >= rules.len() {
        None
    } else if rules[from].matches(entry) {
        Some(rules[from].activity_id)
    } else {
        resolve_from(rules, entry, from + 1)
    }
}

/// The activity that the rules give to `entry`: that of the first rule that
/// matches it, `None` where no rule does.
pub open spec fn resolve(rules: Seq<FilterRule>, entry: SourceTimeEntry) -> Option<Seq<char>> {
    resolve_from(rules, entry, 0)
}

/// Whether `rules[index]` is the first rule that matches `entry`.
pub open spec fn is_first_match(
    rules: Seq<FilterRule>,
    entry: SourceTimeEntry,
    index: int,
) -> bool {
    &&& 0 <= index < rules.len()
    &&& rules[index].matches(entry)
    &&& forall|earlier: int| 0 <= earlier < index ==> !(#[trigger] rules[earlier]).matches(entry)
}

/// Whether no rule matches `entry`.
pub open spec fn no_match(rules: Seq<FilterRule>, entry: SourceTimeEntry) -> bool {
    forall|index: int| 0 <= index < rules.len() ==> !(#[trigger] rules[index]).matches(entry)
}

/// Whether `found` is what `expected` says, the text taken by its contents.
pub open spec fn is_activity(found: Option<String>, expected: Option<Seq<char>>) -> bool {
    match found {
        Some(activity_id) => expected == Some(activity_id@),
        None => expected is None,
    }
}

/// Rules that do not match are passed over: the answer from `from` on is the
/// answer from `until` on, where no rule in between matches.
proof fn lemma_resolve_skips(rules: Seq<FilterRule>, entry: SourceTimeEntry, from: int, until: int)
    requires
        0 <= from <= until <= rules.len(),
        forall|between: int|
            from <= between < until ==> !(#[trigger] rules[between]).matches(entry),
    ensures
        resolve_from(rules, entry, from) == resolve_from(rules, entry, until),
    decreases until - from,
{
    if from < until {
        lemma_resolve_skips(rules, entry, from + 1, until);
    }
}

/// A rule that matches an entry, with no match before it, decides: its
/// activity is the answer, whatever rules come after it.
pub proof fn lemma_first_match_decides(rules: Seq<FilterRule>, entry: SourceTimeEntry, index: int)
    requires
        is_first_match(rules, entry, index),
    ensures
        resolve(rules, entry) == Some(rules[index].activity_id),
{
    lemma_resolve_skips(rules, entry, 0, index);
}

/// An entry that no rule matches gets no activity, and only such an entry.
pub proof fn lemma_no_match_is_none(rules: Seq<FilterRule>, entry: SourceTimeEntry)
    ensures
        no_match(rules, entry) <==> resolve(rules, entry) is None,
{
    if no_match(rules, entry) {
        lemma_resolve_skips(rules, entry, 0, rules.len() as int);
    } else {
        let some = choose|i: int| 0 <= i < rules.len() && (#[trigger] rules[i]).matches(entry);
        lemma_some_match_has_first(rules, entry, some);
        let first = choose|first: int| 0 <= first <= some && is_first_match(rules, entry, first);
        lemma_first_match_decides(rules, entry, first);
    }
}

/// Where some rule matches, one of them is the first.
pub proof fn lemma_some_match_has_first(rules: Seq<FilterRule>, entry: SourceTimeEntry, index: int)
    requires
        0 <= index < rules.len(),
        rules[index].matches(entry),
    ensures
        exists|first: int| 0 <= first <= index && is_first_match(rules, entry, first),
    decreases index,
{
    if exists|earlier: int| 0 <= earlier < index && (#[trigger] rules[earlier]).matches(entry) {
        let earlier = choose|earlier: int|
            0 <= earlier < index && (#[trigger] rules[earlier]).matches(entry);
        lemma_some_match_has_first(rules, entry, earlier);
    } else {
        assert(is_first_match(rules, entry, index));
    }
}

/// The rules after the first match are never consulted: with any other rules
/// in their place the answer is the same.
pub proof fn lemma_later_rules_ignored(
    rules: Seq<FilterRule>,
    entry: SourceTimeEntry,
    index: int,
    others: Seq<FilterRule>,
)
    requires
        is_first_match(rules, entry, index),
    ensures
        resolve(rules.take(index + 1) + others, entry) == resolve(rules, entry),
{
    let replaced = rules.take(index + 1) + others;
    assert forall|earlier: int| 0 <= earlier <= index implies replaced[earlier]
        == rules[earlier] by {}
    lemma_first_match_decides(replaced, entry, index);
    lemma_first_match_decides(rules, entry, index);
}

/// Whether a rule applies to an entry, going by the two projects and, where
/// the rule asks for a description, by the rule's and the entry's
/// description, both already in lower case.
pub open spec fn applies(
    rule_project: Seq<char>,
    entry_project: Seq<char>,
    lowered_descriptions: Option<(Seq<char>, Seq<char>)>,
) -> bool {
    &&& rule_project == entry_project
    &&& match lowered_descriptions {
        Some((of_rule, of_entry)) => of_rule == of_entry,
        None => true,
    }
}

/// Decides whether a rule applies to an entry: the projects must be the same
/// text, and so must the descriptions where the rule asks for one. The
/// descriptions are taken in lower case, the rule's first.
pub fn rule_applies(
    rule_project: &String,
    entry_project: &String,
    lowered_descriptions: Option<(String, String)>,
) -> (decision: bool)
    ensures
        decision == applies(
            rule_project@,
            entry_project@,
            match lowered_descriptions {
                Some((of_rule, of_entry)) => Some((of_rule@, of_entry@)),
                None => None,
            },
        ),
{
    if !(*rule_project == *entry_project) {
        return false;
    }
    match lowered_descriptions {
        Some((of_rule, of_entry)) => of_rule == of_entry,
        None => true,
    }
}

impl ActivityMapping {
    /// The rule's activity, if the rule matches `entry`.
    pub fn map(&self, entry: &TogglTimeEntry) -> (activity_id: Option<String>)
        ensures
            is_activity(
                activity_id,
                if self@.matches(entry@) {
                    Some(self@.activity_id)
                } else {
                    None
                },
            ),
    {
        let lowered_descriptions = match &self.description {
            Some(description) => Some(
                (description.as_str().to_lowercase(), entry.description.as_str().to_lowercase()),
            ),
            None => None,
        };
        if rule_applies(&self.project, &entry.project, lowered_descriptions) {
            Some(self.activity_id.clone())
        } else {
            None
        }
    }
}

/// The contents of a list of rules, in their order.
pub open spec fn rule_set(mappings: Seq<ActivityMapping>) -> Seq<FilterRule> {
    Seq::new(mappings.len(), |index: int| mappings[index]@)
}

/// The rules of a run, in the order in which they are tried.
#[derive(Clone, Debug, PartialEq, Eq)]
pub struct ActivityMapper {
    mappings: Vec<ActivityMapping>,
}

impl View for ActivityMapper {
    type V = Seq<FilterRule>;

    closed spec fn view(&self) -> Seq<FilterRule> {
        rule_set(self.mappings@)
    }
}

impl ActivityMapper {
    /// The rules `mappings`, tried from the first to the last.
    pub fn new(mappings: Vec<ActivityMapping>) -> (mapper: ActivityMapper)
        ensures
            mapper@ == rule_set(mappings@),
    {
        ActivityMapper { mappings }
    }

    /// The rules, in their order.
    pub fn mappings(&self) -> (mappings: &Vec<ActivityMapping>)
        ensures
            rule_set(mappings@) == self@,
            mappings@.len() == self@.len(),
    {
        &self.mappings
    }

    /// Map a Toggl time entry to a Timeular activity id: that of the first
    /// rule that matches the entry, `None` where no rule does.
    pub fn map(&self, entry: &TogglTimeEntry) -> (activity_id: Option<String>)
        ensures
            is_activity(activity_id, resolve(self@, entry@)),
            match activity_id {
                Some(id) => exists|index: int|
                    is_first_match(self@, entry@, index) && id@ == self@[index].activity_id,
                None => no_match(self@, entry@),
            },
    {
        let mut index: usize = 0;
        while index < self.mappings.len()
            invariant
                index <= self.mappings.len(),
                forall|earlier: int|
                    0 <= earlier < index ==> !(#[trigger] self@[earlier]).matches(entry@),
            decreases self.mappings.len() - index,
        {
            let found = self.mappings[index].map(entry);
            if found.is_some() {
                proof {
                    lemma_first_match_decides(self@, entry@, index as int);
                }
                return found;
            }
            assert(self@[index as int] == self.mappings@[index as int]@);
            index += 1;
        }
        proof {
            lemma_no_match_is_none(self@, entry@);
        }
        None
    }
}

} // verus!
