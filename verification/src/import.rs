//! The decisions of an import run, entry by entry.
//!
//! For each entry the run says what is to be done with it, and keeps what
//! has to be reported at the end: how many entries were imported, how many
//! were skipped as too short, and which ones no rule had an activity for. The
//! run itself touches nothing outside: whoever drives it reads the entries
//! and carries out the actions.

use crate::mapping::{no_match, resolve, ActivityMapper, FilterRule};
use crate::time::{too_short, utc_text, Instant, Zone};
use crate::timeular::{outbound, CreateTimeEntryRequest, OutboundTimeEntry};
use crate::toggl::{DateTimeError, DateTimeFailure, SourceTimeEntry, TogglTimeEntry};
use vstd::prelude::*;

verus! {

/// What an entry is found to be.
#[derive(Clone, Debug, PartialEq, Eq)]
pub enum Verdict {
    /// It lasts a minute or less: Timeular takes no such entry.
    TooShort,
    /// It is long enough, and no rule has an activity for it.
    Unmapped,
    /// It is long enough and has an activity: this is what to send for it.
    Mapped(CreateTimeEntryRequest),
}

/// The contents of a `Verdict`.
pub enum Judgement {
    TooShort,
    Unmapped,
    Mapped(OutboundTimeEntry),
}

impl View for Verdict {
    type V = Judgement;

    open spec fn view(&self) -> Judgement {
        match self {
            Verdict::TooShort => Judgement::TooShort,
            Verdict::Unmapped => Judgement::Unmapped,
            Verdict::Mapped(request) => Judgement::Mapped(request@),
        }
    }
}

/// What an entry is found to be, from everything that is known of it: the
/// instants at which it starts and ends, the activity that the rules give it,
/// the RFC 3339 texts in UTC of the two instants, and its description.
///
/// The length is looked at first: an entry of a minute or less is too short
/// whatever the rules say of it.
pub open spec fn judgement(
    start: Instant,
    end: Instant,
    activity_id: Option<Seq<char>>,
    started_at_utc: Seq<char>,
    stopped_at_utc: Seq<char>,
    description: Seq<char>,
) -> Judgement {
    if too_short(start, end) {
        Judgement::TooShort
    } else {
        match activity_id {
            None => Judgement::Unmapped,
            Some(activity_id) => Judgement::Mapped(
                outbound(activity_id, started_at_utc, stopped_at_utc, description),
            ),
        }
    }
}

/// What `entry` is found to be, its times read in `zone` and its activity
/// looked up in `rules`.
///
/// A start or an end that gives no instant is an error, the start's first.
pub open spec fn classify(
    entry: SourceTimeEntry,
    zone: Seq<char>,
    rules: Seq<FilterRule>,
) -> Result<Judgement, DateTimeFailure> {
    match entry.start(zone) {
        Err(failure) => Err(failure),
        Ok(start) => match entry.end(zone) {
            Err(failure) => Err(failure),
            Ok(end) => Ok(
                judgement(
                    start,
                    end,
                    resolve(rules, entry),
                    utc_text(start@).unwrap(),
                    utc_text(end@).unwrap(),
                    entry.description,
                ),
            ),
        },
    }
}

/// Whether `found` is what `expected` says, each side taken by its contents.
pub open spec fn is_verdict(
    found: Result<Verdict, DateTimeError>,
    expected: Result<Judgement, DateTimeFailure>,
) -> bool {
    match found {
        Ok(verdict) => expected == Ok::<Judgement, DateTimeFailure>(verdict@),
        Err(error) => expected == Err::<Judgement, DateTimeFailure>(error@),
    }
}

impl Verdict {
    /// Says what an entry is, from everything that is known of it: the
    /// instants at which it starts and ends, the activity that the rules
    /// give it, the RFC 3339 texts in UTC of the two instants, and its
    /// description.
    pub fn of(
        start: &Instant,
        end: &Instant,
        activity_id: Option<String>,
        started_at_utc: &str,
        stopped_at_utc: &str,
        description: &str,
    ) -> (verdict: Verdict)
        ensures
            verdict@ == judgement(
                *start,
                *end,
                match activity_id {
                    Some(activity_id) => Some(activity_id@),
                    None => None,
                },
                started_at_utc@,
                stopped_at_utc@,
                description@,
            ),
    {
        if start.is_too_short_until(end) {
            return Verdict::TooShort;
        }
        match activity_id {
            None => Verdict::Unmapped,
            Some(activity_id) => Verdict::Mapped(
                CreateTimeEntryRequest::new(
                    activity_id,
                    started_at_utc,
                    stopped_at_utc,
                    description,
                ),
            ),
        }
    }
}

/// Finds what `entry` is: reads its start and its end in `time_zone`, asks
/// `mapper` for its activity, and has the two instants written in UTC.
pub fn examine(
    entry: &TogglTimeEntry,
    time_zone: &Zone,
    mapper: &ActivityMapper,
) -> (found: Result<Verdict, DateTimeError>)
    ensures
        is_verdict(found, classify(entry@, time_zone@, mapper@)),
{
    let start = match entry.start(time_zone) {
        Ok(start) => start,
        Err(error) => {
            return Err(error);
        },
    };
    let end = match entry.end(time_zone) {
        Ok(end) => end,
        Err(error) => {
            return Err(error);
        },
    };
    let activity_id = mapper.map(entry);
    let started_at_utc = start.to_utc_text().unwrap();
    let stopped_at_utc = end.to_utc_text().unwrap();
    Ok(
        Verdict::of(
            &start,
            &end,
            activity_id,
            started_at_utc.as_str(),
            stopped_at_utc.as_str(),
            entry.description.as_str(),
        ),
    )
}

/// What whoever drives the run has to do for an entry.
#[derive(Clone, Debug, PartialEq, Eq)]
pub enum Action {
    /// Say that the entry was skipped because it is too short.
    SkipShort(TogglTimeEntry),
    /// Nothing now: the run keeps the entry among the unmapped ones.
    KeepUnmapped,
    /// Say that this would have been imported, and send nothing.
    Record(CreateTimeEntryRequest),
    /// Send this to the service, once.
    Submit(CreateTimeEntryRequest),
}

/// The contents of an `Action`.
pub enum Step {
    SkipShort(SourceTimeEntry),
    KeepUnmapped,
    Record(OutboundTimeEntry),
    Submit(OutboundTimeEntry),
}

impl View for Action {
    type V = Step;

    open spec fn view(&self) -> Step {
        match self {
            Action::SkipShort(entry) => Step::SkipShort(entry@),
            Action::KeepUnmapped => Step::KeepUnmapped,
            Action::Record(request) => Step::Record(request@),
            Action::Submit(request) => Step::Submit(request@),
        }
    }
}

/// What a run has come to.
pub struct Progress {
    /// Whether the run only says what it would do.
    pub dry_run: bool,
    /// How many entries were imported, or would have been.
    pub imported: nat,
    /// How many entries were skipped because they were too short.
    pub skipped: nat,
    /// The entries that no rule had an activity for, in the order in which
    /// they came.
    pub unmapped: Seq<SourceTimeEntry>,
}

/// The contents of a list of entries, in their order.
pub open spec fn entries_view(entries: Seq<TogglTimeEntry>) -> Seq<SourceTimeEntry> {
    Seq::new(entries.len(), |index: int| entries[index]@)
}

/// What is to be done for an entry that was found to be `judgement`.
pub open spec fn step_for(dry_run: bool, entry: SourceTimeEntry, judgement: Judgement) -> Step {
    match judgement {
        Judgement::TooShort => Step::SkipShort(entry),
        Judgement::Unmapped => Step::KeepUnmapped,
        Judgement::Mapped(request) => if dry_run {
            Step::Record(request)
        } else {
            Step::Submit(request)
        },
    }
}

/// What the run has come to after an entry that was found to be `judgement`.
pub open spec fn progress_after(
    before: Progress,
    entry: SourceTimeEntry,
    judgement: Judgement,
) -> Progress {
    match judgement {
        Judgement::TooShort => Progress { skipped: before.skipped + 1, ..before },
        Judgement::Unmapped => Progress { unmapped: before.unmapped.push(entry), ..before },
        Judgement::Mapped(_) => Progress { imported: before.imported + 1, ..before },
    }
}

/// An import run: whether it is a dry run, and what it has come to so far.
#[derive(Debug)]
pub struct ImportRun {
    dry_run: bool,
    imported_count: u64,
    skipped_count: u64,
    unmapped_entries: Vec<TogglTimeEntry>,
}

impl View for ImportRun {
    type V = Progress;

    closed spec fn view(&self) -> Progress {
        Progress {
            dry_run: self.dry_run,
            imported: self.imported_count as nat,
            skipped: self.skipped_count as nat,
            unmapped: entries_view(self.unmapped_entries@),
        }
    }
}

impl ImportRun {
    /// A run that has seen no entry yet.
    pub fn new(dry_run: bool) -> (run: ImportRun)
        ensures
            run@ == (Progress { dry_run, imported: 0, skipped: 0, unmapped: Seq::empty() }),
    {
        let run = ImportRun {
            dry_run,
            imported_count: 0,
            skipped_count: 0,
            unmapped_entries: Vec::new(),
        };
        assert(entries_view(run.unmapped_entries@) == Seq::<SourceTimeEntry>::empty());
        run
    }

    /// Whether the run only says what it would do.
    pub fn is_dry_run(&self) -> (dry_run: bool)
        ensures
            dry_run == self@.dry_run,
    {
        self.dry_run
    }

    /// How many entries were imported, or would have been in a dry run.
    pub fn imported_count(&self) -> (count: u64)
        ensures
            count == self@.imported,
    {
        self.imported_count
    }

    /// How many entries were skipped because they were too short.
    pub fn skipped_count(&self) -> (count: u64)
        ensures
            count == self@.skipped,
    {
        self.skipped_count
    }

    /// Whether there is an entry that no rule had an activity for, and so
    /// something to report besides the counts.
    pub fn has_unmapped(&self) -> (any: bool)
        ensures
            any == (self@.unmapped.len() > 0),
    {
        self.unmapped_entries.len() > 0
    }

    /// The entries that no rule had an activity for, in the order in which
    /// they came.
    pub fn unmapped_entries(&self) -> (entries: &Vec<TogglTimeEntry>)
        ensures
            entries_view(entries@) == self@.unmapped,
            entries@.len() == self@.unmapped.len(),
    {
        &self.unmapped_entries
    }

    /// Takes note of an entry that was found to be `verdict`, and says what
    /// is to be done for it.
    ///
    /// An entry that is too short is counted as skipped and handed back to
    /// be reported. One without an activity is kept among the unmapped ones.
    /// One with an activity is counted as imported, and comes back as what
    /// to send: to be sent in a real run, only to be reported in a dry run.
    pub fn record(&mut self, entry: TogglTimeEntry, verdict: Verdict) -> (action: Action)
        requires
            old(self)@.imported < u64::MAX,
            old(self)@.skipped < u64::MAX,
        ensures
            action@ == step_for(old(self)@.dry_run, entry@, verdict@),
            final(self)@ == progress_after(old(self)@, entry@, verdict@),
            action matches Action::SkipShort(skipped) ==> skipped == entry,
            action matches Action::Record(request) ==> verdict == Verdict::Mapped(request),
            action matches Action::Submit(request) ==> verdict == Verdict::Mapped(request),
    {
        match verdict {
            Verdict::TooShort => {
                self.skipped_count = self.skipped_count + 1;
                Action::SkipShort(entry)
            },
            Verdict::Unmapped => {
                self.unmapped_entries.push(entry);
                assert(entries_view(self.unmapped_entries@) == entries_view(
                    old(self).unmapped_entries@,
                ).push(entry@));
                Action::KeepUnmapped
            },
            Verdict::Mapped(request) => {
                self.imported_count = self.imported_count + 1;
                if self.dry_run {
                    Action::Record(request)
                } else {
                    Action::Submit(request)
                }
            },
        }
    }

    /// Takes the next entry of the run and says what is to be done for it.
    ///
    /// An entry whose start or end gives no instant is an error, and leaves
    /// the run as it was. Every other entry is examined and taken note of.
    pub fn accept(
        &mut self,
        entry: TogglTimeEntry,
        time_zone: &Zone,
        mapper: &ActivityMapper,
    ) -> (outcome: Result<Action, DateTimeError>)
        requires
            old(self)@.imported < u64::MAX,
            old(self)@.skipped < u64::MAX,
        ensures
            match outcome {
                Ok(action) => {
                    &&& classify(entry@, time_zone@, mapper@) matches Ok(judgement)
                    &&& action@ == step_for(old(self)@.dry_run, entry@, judgement)
                    &&& final(self)@ == progress_after(old(self)@, entry@, judgement)
                    &&& action matches Action::SkipShort(skipped) ==> skipped == entry
                },
                Err(error) => {
                    &&& classify(entry@, time_zone@, mapper@) == Err::<Judgement, DateTimeFailure>(
                        error@,
                    )
                    &&& final(self)@ == old(self)@
                },
            },
    {
        match examine(&entry, time_zone, mapper) {
            Ok(verdict) => Ok(self.record(entry, verdict)),
            Err(error) => Err(error),
        }
    }
}

/// An entry of a minute or less is left out: it is counted as skipped, and
/// neither imported nor kept among the unmapped entries, whatever the rules
/// say of it.
pub proof fn lemma_short_entry_is_left_out(
    before: Progress,
    entry: SourceTimeEntry,
    zone: Seq<char>,
    rules: Seq<FilterRule>,
    start: Instant,
    end: Instant,
)
    requires
        entry.start(zone) == Ok::<Instant, DateTimeFailure>(start),
        entry.end(zone) == Ok::<Instant, DateTimeFailure>(end),
        end@ - start@ <= 60_000,
    ensures
        classify(entry, zone, rules) == Ok::<Judgement, DateTimeFailure>(Judgement::TooShort),
        progress_after(before, entry, Judgement::TooShort).imported == before.imported,
        progress_after(before, entry, Judgement::TooShort).unmapped == before.unmapped,
        progress_after(before, entry, Judgement::TooShort).skipped == before.skipped + 1,
        step_for(before.dry_run, entry, Judgement::TooShort) == Step::SkipShort(entry),
{
}

/// An entry that is long enough and that no rule matches is no error: it is
/// kept among the unmapped entries and not counted as imported.
pub proof fn lemma_unmatched_entry_is_kept(
    before: Progress,
    entry: SourceTimeEntry,
    zone: Seq<char>,
    rules: Seq<FilterRule>,
    start: Instant,
    end: Instant,
)
    requires
        entry.start(zone) == Ok::<Instant, DateTimeFailure>(start),
        entry.end(zone) == Ok::<Instant, DateTimeFailure>(end),
        !too_short(start, end),
        no_match(rules, entry),
    ensures
        resolve(rules, entry) is None,
        classify(entry, zone, rules) == Ok::<Judgement, DateTimeFailure>(Judgement::Unmapped),
        progress_after(before, entry, Judgement::Unmapped).unmapped == before.unmapped.push(entry),
        progress_after(before, entry, Judgement::Unmapped).imported == before.imported,
        progress_after(before, entry, Judgement::Unmapped).skipped == before.skipped,
        step_for(before.dry_run, entry, Judgement::Unmapped) == Step::KeepUnmapped,
{
    crate::mapping::lemma_no_match_is_none(rules, entry);
}

/// A dry run never asks for anything to be sent. A real run asks for it
/// exactly for the entries that are long enough and have an activity, and
/// then for the very thing that the entry was found to be.
pub proof fn lemma_sent_exactly_when_real_and_mapped(
    dry_run: bool,
    entry: SourceTimeEntry,
    judgement: Judgement,
)
    ensures
        dry_run ==> !(step_for(dry_run, entry, judgement) is Submit),
        !dry_run ==> (step_for(dry_run, entry, judgement) is Submit <==> judgement is Mapped),
        step_for(dry_run, entry, judgement) matches Step::Submit(request) ==> judgement
            == Judgement::Mapped(request),
{
}

/// What is to be done, entry by entry, in a run whose entries were found to
/// be `judgements`.
pub open spec fn steps_of(
    dry_run: bool,
    entries: Seq<SourceTimeEntry>,
    judgements: Seq<Judgement>,
) -> Seq<Step>
    recommends
        entries.len() == judgements.len(),
{
    Seq::new(judgements.len(), |index: int| step_for(dry_run, entries[index], judgements[index]))
}

/// What a run has come to after entries that were found to be `judgements`.
pub open spec fn progress_over(
    before: Progress,
    entries: Seq<SourceTimeEntry>,
    judgements: Seq<Judgement>,
) -> Progress
    recommends
        entries.len() == judgements.len(),
    decreases judgements.len(),
{
    if judgements.len() == 0 {
        before
    } else {
        progress_after(
            progress_over(before, entries.drop_last(), judgements.drop_last()),
            entries.last(),
            judgements.last(),
        )
    }
}

/// How many of `steps` ask for something to be sent.
pub open spec fn sent_in(steps: Seq<Step>) -> nat
    decreases steps.len(),
{
    if steps.len() == 0 {
        0
    } else {
        sent_in(steps.drop_last()) + if steps.last() is Submit {
            1nat
        } else {
            0nat
        }
    }
}

/// How many of `judgements` are of entries that are long enough and have an
/// activity.
pub open spec fn mapped_in(judgements: Seq<Judgement>) -> nat
    decreases judgements.len(),
{
    if judgements.len() == 0 {
        0
    } else {
        mapped_in(judgements.drop_last()) + if judgements.last() is Mapped {
            1nat
        } else {
            0nat
        }
    }
}

/// Over a whole run, a dry run asks for nothing to be sent, and a real run
/// asks for it once for each entry that is long enough and has an activity.
/// Either way the run counts each of these entries as imported, and none
/// else.
pub proof fn lemma_run_sends_once_for_each_mapped_entry(
    before: Progress,
    entries: Seq<SourceTimeEntry>,
    judgements: Seq<Judgement>,
)
    requires
        entries.len() == judgements.len(),
    ensures
        before.dry_run ==> sent_in(steps_of(before.dry_run, entries, judgements)) == 0,
        !before.dry_run ==> sent_in(steps_of(before.dry_run, entries, judgements)) == mapped_in(
            judgements,
        ),
        progress_over(before, entries, judgements).dry_run == before.dry_run,
        progress_over(before, entries, judgements).imported == before.imported + mapped_in(
            judgements,
        ),
    decreases judgements.len(),
{
    if judgements.len() > 0 {
        lemma_run_sends_once_for_each_mapped_entry(
            before,
            entries.drop_last(),
            judgements.drop_last(),
        );
        assert(steps_of(before.dry_run, entries, judgements).drop_last() == steps_of(
            before.dry_run,
            entries.drop_last(),
            judgements.drop_last(),
        ));
    }
}

} // verus!
