//! The cycle that keeps a certificate fresh: fetch, persist, run the
//! command where one is configured, sleep, and fetch again. A stage that
//! fails sends the cycle back to fetching after a fixed pause.

use vstd::prelude::*;
use crate::cert::{
    borrowed_view, planned_writes, refetch_delay, CertView, CycleCert, DiskWrites, DiskWritesView,
};
use crate::cmd::{command_of_split, split_line, Cmd, CmdError, CmdView};
use crate::config::{Config, ConfigView};
use crate::lookup::{
    fetch_outcome, lookup_request, CertificateManager, FetchError, FetchErrorView, LookupRequest,
    LookupRequestView,
};
use crate::text::optional_view;
use crate::time::{clamped, current_instant, Pause, Timestamp, NANOS_PER_SEC};

verus! {

/// The seconds to wait after a failed stage before fetching again.
pub const BACKOFF_SECS: u64 = 3 * 60 * 60;

/// Where the cycle stands.
#[derive(Clone, Copy, Debug, PartialEq, Eq, Structural)]
pub enum Stage {
    Fetching,
    Persisting,
    Executing,
    Sleeping,
}

/// How the work of a stage ended.
#[derive(Clone, Copy, Debug, PartialEq, Eq, Structural)]
pub enum Outcome {
    Succeeded,
    Failed,
}

/// The stage that follows `stage`. After a success the cycle moves on, and
/// it skips the command where none is configured. After a failure it starts
/// over. Fetching follows sleeping in any case.
pub open spec fn next_stage(stage: Stage, outcome: Outcome, has_command: bool) -> Stage {
    match (stage, outcome) {
        (Stage::Fetching, Outcome::Succeeded) => Stage::Persisting,
        (Stage::Persisting, Outcome::Succeeded) => if has_command {
            Stage::Executing
        } else {
            Stage::Sleeping
        },
        (Stage::Executing, Outcome::Succeeded) => Stage::Sleeping,
        _ => Stage::Fetching,
    }
}

/// Whether the backoff pause comes before the next stage: after every
/// failure, whatever the stage.
pub open spec fn backs_off(outcome: Outcome) -> bool {
    outcome == Outcome::Failed
}

/// How persisting ended, given which of the two files were written: it
/// failed unless both were.
pub open spec fn persisted(certificate_written: bool, key_written: bool) -> Outcome {
    if certificate_written && key_written {
        Outcome::Succeeded
    } else {
        Outcome::Failed
    }
}

/// How persisting ended, given which of the two files were written.
pub fn persist_outcome(certificate_written: bool, key_written: bool) -> (outcome: Outcome)
    ensures
        outcome == persisted(certificate_written, key_written),
{
    if certificate_written && key_written {
        Outcome::Succeeded
    } else {
        Outcome::Failed
    }
}

/// The pause after a failed stage.
pub fn backoff_pause() -> (pause: Pause)
    ensures
        pause@ == BACKOFF_SECS * NANOS_PER_SEC,
        pause@ > 0,
{
    Pause::from_secs(BACKOFF_SECS)
}

/// The time to sleep once `cert` is written: until `refresh_days` before
/// it expires, and not at all where that instant has passed at `now`.
pub fn sleep_pause(cert: &CycleCert, refresh_days: i64, now: Timestamp) -> (pause: Pause)
    ensures
        pause@ == clamped(refetch_delay(cert@.generated@, refresh_days as int, now@)),
{
    cert.duration_until_refetch_at(refresh_days, now).to_pause()
}

/// Where the cycle stands, with what it holds there: the certificate once
/// one is fetched, and the command while it runs. No certificate outlives
/// the cycle that fetched it.
#[derive(PartialEq, Eq)]
pub enum Cycle {
    Fetching,
    Persisting(CycleCert),
    Executing(CycleCert, Cmd),
    Sleeping(CycleCert),
}

/// What a `Cycle` holds.
pub enum CycleView {
    Fetching,
    Persisting(CertView),
    Executing(CertView, CmdView),
    Sleeping(CertView),
}

impl View for Cycle {
    type V = CycleView;

    open spec fn view(&self) -> CycleView {
        match self {
            Cycle::Fetching => CycleView::Fetching,
            Cycle::Persisting(cert) => CycleView::Persisting(cert@),
            Cycle::Executing(cert, command) => CycleView::Executing(cert@, command@),
            Cycle::Sleeping(cert) => CycleView::Sleeping(cert@),
        }
    }
}

/// The work that is due.
#[derive(PartialEq, Eq)]
pub enum Action {
    /// Send the request and report the answer.
    Fetch(LookupRequest),
    /// Make the directory, write the bundle and then the key, stop at the
    /// first write that fails, and report which files were written.
    Persist(DiskWrites),
    /// Run the command to its end and report whether it succeeded.
    Execute(Cmd),
    /// Sleep for the pause and report that it is over.
    Sleep(Pause),
}

/// What an `Action` holds; a pause counts in nanoseconds.
pub enum ActionView {
    Fetch(LookupRequestView),
    Persist(DiskWritesView),
    Execute(CmdView),
    Sleep(nat),
}

impl View for Action {
    type V = ActionView;

    open spec fn view(&self) -> ActionView {
        match self {
            Action::Fetch(request) => ActionView::Fetch(request@),
            Action::Persist(writes) => ActionView::Persist(writes@),
            Action::Execute(command) => ActionView::Execute(command@),
            Action::Sleep(pause) => ActionView::Sleep(pause@),
        }
    }
}

/// How the work that was due went. An answer may hold a private key, and
/// so a report cannot be printed.
#[derive(PartialEq, Eq)]
pub enum Report {
    /// The body of the answer to the request, or what the transport said
    /// where there was no answer.
    Answer(Result<Vec<u8>, String>),
    /// Which of the two files were written.
    Written { certificate: bool, key: bool },
    /// Whether the command ran and ended with success.
    Ran(bool),
    /// The sleep is over.
    Slept,
}

/// What a `Report` holds.
pub enum ReportView {
    Answer(Result<Seq<u8>, Seq<char>>),
    Written { certificate: bool, key: bool },
    Ran(bool),
    Slept,
}

impl View for Report {
    type V = ReportView;

    open spec fn view(&self) -> ReportView {
        match self {
            Report::Answer(Ok(body)) => ReportView::Answer(Ok(body@)),
            Report::Answer(Err(reason)) => ReportView::Answer(Err(reason@)),
            Report::Written { certificate, key } => ReportView::Written {
                certificate: *certificate,
                key: *key,
            },
            Report::Ran(succeeded) => ReportView::Ran(*succeeded),
            Report::Slept => ReportView::Slept,
        }
    }
}

/// What a report leads to besides the next stage.
#[derive(Debug, PartialEq, Eq)]
pub struct Step {
    /// The pause to wait before the next work, after a failure.
    pub backoff: Option<Pause>,
    /// Why the fetch failed, where it did.
    pub failure: Option<FetchError>,
}

/// Why a cycle cannot start.
#[derive(Clone, Copy, Debug, PartialEq, Eq, Structural)]
pub enum ScheduleError {
    /// The days of lead are more than a signed number holds.
    LeadOutOfRange,
    /// The configured command is no command.
    Command(CmdError),
}

/// The cycle of one run, with the settings that it works by.
pub struct Scheduler<'a> {
    config: &'a Config,
    refresh_days: i64,
    command: Option<Cmd>,
    cycle: Cycle,
}

/// What a `Scheduler` holds.
pub struct SchedulerView {
    pub config: ConfigView,
    pub refresh_days: i64,
    pub command: Option<CmdView>,
    pub cycle: CycleView,
}

/// What a command that may be absent holds.
pub open spec fn command_view(command: Option<Cmd>) -> Option<CmdView> {
    match command {
        Some(c) => Some(c@),
        None => None,
    }
}

impl<'a> View for Scheduler<'a> {
    type V = SchedulerView;

    closed spec fn view(&self) -> SchedulerView {
        SchedulerView {
            config: self.config@,
            refresh_days: self.refresh_days,
            command: command_view(self.command),
            cycle: self.cycle@,
        }
    }
}

/// The stage of a cycle.
pub open spec fn stage_of(cycle: CycleView) -> Stage {
    match cycle {
        CycleView::Fetching => Stage::Fetching,
        CycleView::Persisting(_) => Stage::Persisting,
        CycleView::Executing(_, _) => Stage::Executing,
        CycleView::Sleeping(_) => Stage::Sleeping,
    }
}

/// How the stage of `cycle` ended according to `report`. A report of other
/// work than the stage's counts as a failure.
pub open spec fn report_outcome(cycle: CycleView, report: ReportView) -> Outcome {
    match (cycle, report) {
        (CycleView::Fetching, ReportView::Answer(response)) => if fetch_outcome(response) is Ok {
            Outcome::Succeeded
        } else {
            Outcome::Failed
        },
        (CycleView::Persisting(_), ReportView::Written { certificate, key }) => persisted(
            certificate,
            key,
        ),
        (CycleView::Executing(_, _), ReportView::Ran(succeeded)) => if succeeded {
            Outcome::Succeeded
        } else {
            Outcome::Failed
        },
        (CycleView::Sleeping(_), ReportView::Slept) => Outcome::Succeeded,
        _ => Outcome::Failed,
    }
}

/// The cycle after `report`. A fetch that succeeds hands its certificate
/// on from stage to stage; every failure drops what the cycle holds and
/// starts over with a fetch.
pub open spec fn next_cycle(cycle: CycleView, report: ReportView, command: Option<CmdView>) -> CycleView {
    if report_outcome(cycle, report) == Outcome::Failed {
        CycleView::Fetching
    } else {
        match (cycle, report) {
            (CycleView::Fetching, ReportView::Answer(response)) => CycleView::Persisting(
                fetch_outcome(response)->Ok_0,
            ),
            (CycleView::Persisting(cert), _) => match command {
                Some(c) => CycleView::Executing(cert, c),
                None => CycleView::Sleeping(cert),
            },
            (CycleView::Executing(cert, _), _) => CycleView::Sleeping(cert),
            _ => CycleView::Fetching,
        }
    }
}

/// The cycle reached from `cycle` after the reports `reports`, in order.
pub open spec fn cycle_after(cycle: CycleView, reports: Seq<ReportView>, command: Option<CmdView>) -> CycleView
    decreases reports.len(),
{
    if reports.len() == 0 {
        cycle
    } else {
        next_cycle(cycle_after(cycle, reports.drop_last(), command), reports.last(), command)
    }
}

/// The number of backoff pauses taken from `cycle` over the reports
/// `reports`, in order.
pub open spec fn backoffs_during(cycle: CycleView, reports: Seq<ReportView>, command: Option<CmdView>) -> nat
    decreases reports.len(),
{
    if reports.len() == 0 {
        0
    } else {
        let before = backoffs_during(cycle, reports.drop_last(), command);
        if backs_off(report_outcome(cycle_after(cycle, reports.drop_last(), command), reports.last())) {
            before + 1
        } else {
            before
        }
    }
}

/// Why the fetch failed, where `report` is the answer to a fetch that
/// failed.
pub open spec fn fetch_failure(cycle: CycleView, report: ReportView) -> Option<FetchErrorView> {
    match (cycle, report) {
        (CycleView::Fetching, ReportView::Answer(response)) => match fetch_outcome(response) {
            Ok(_) => None,
            Err(error) => Some(error),
        },
        _ => None,
    }
}

/// The work that is due at `now`.
pub open spec fn planned_action(schedule: SchedulerView, now: int) -> ActionView {
    match schedule.cycle {
        CycleView::Fetching => ActionView::Fetch(lookup_request(schedule.config)),
        CycleView::Persisting(cert) => ActionView::Persist(
            planned_writes(cert, schedule.config.certificate_path, schedule.config.filename),
        ),
        CycleView::Executing(_, command) => ActionView::Execute(command),
        CycleView::Sleeping(cert) => ActionView::Sleep(
            clamped(refetch_delay(cert.generated@, schedule.refresh_days as int, now)),
        ),
    }
}

/// The command of a run: none where no line is configured, and the
/// command that the line splits into where one is.
pub open spec fn configured_command(line: Option<Seq<char>>) -> Result<Option<CmdView>, CmdError> {
    match line {
        None => Ok(None),
        Some(l) => match command_of_split(split_line(l)) {
            Ok(command) => Ok(Some(command)),
            Err(e) => Err(e),
        },
    }
}

/// The cycle at its start: about to fetch. There is none where the days of
/// lead are out of range, or where the configured command is no command.
pub open spec fn initial_schedule(config: ConfigView) -> Result<SchedulerView, ScheduleError> {
    if config.refresh_days > i64::MAX {
        Err(ScheduleError::LeadOutOfRange)
    } else {
        match configured_command(config.command) {
            Ok(command) => Ok(
                SchedulerView {
                    config,
                    refresh_days: config.refresh_days as i64,
                    command,
                    cycle: CycleView::Fetching,
                },
            ),
            Err(e) => Err(ScheduleError::Command(e)),
        }
    }
}

impl ScheduleError {
    /// The message for the operator.
    pub open spec fn text(self) -> Seq<char> {
        match self {
            ScheduleError::LeadOutOfRange => "Failed to convert refresh days into i64"@,
            ScheduleError::Command(e) => e.text(),
        }
    }

    /// The message for the operator.
    pub fn message(&self) -> (m: String)
        ensures
            m@ == self.text(),
    {
        match self {
            ScheduleError::LeadOutOfRange => "Failed to convert refresh days into i64".to_owned(),
            ScheduleError::Command(e) => e.message(),
        }
    }
}

impl<'a> Scheduler<'a> {
    /// A cycle at its start, for the settings `config`.
    pub fn new(config: &'a Config) -> (scheduler: Result<Scheduler<'a>, ScheduleError>)
        ensures
            match scheduler {
                Ok(s) => initial_schedule(config@) == Ok::<SchedulerView, ScheduleError>(s@),
                Err(e) => initial_schedule(config@) == Err::<SchedulerView, ScheduleError>(e),
            },
    {
        let refresh_days = match config.refresh_lead_days() {
            Some(days) => days,
            None => { return Err(ScheduleError::LeadOutOfRange); },
        };
        let command = match &config.command {
            Some(line) => match Cmd::new(line.clone()) {
                Ok(command) => Some(command),
                Err(e) => { return Err(ScheduleError::Command(e)); },
            },
            None => None,
        };
        Ok(Scheduler::with_command(config, refresh_days, command))
    }

    /// A cycle at its start, with the days of lead and the command given
    /// as they are.
    pub fn with_command(config: &'a Config, refresh_days: i64, command: Option<Cmd>) -> (scheduler:
        Scheduler<'a>)
        ensures
            scheduler@ == (SchedulerView {
                config: config@,
                refresh_days,
                command: command_view(command),
                cycle: CycleView::Fetching,
            }),
    {
        Scheduler { config, refresh_days, command, cycle: Cycle::Fetching }
    }

    /// The stage whose work is due.
    pub fn stage(&self) -> (stage: Stage)
        ensures
            stage == stage_of(self@.cycle),
    {
        match &self.cycle {
            Cycle::Fetching => Stage::Fetching,
            Cycle::Persisting(_) => Stage::Persisting,
            Cycle::Executing(_, _) => Stage::Executing,
            Cycle::Sleeping(_) => Stage::Sleeping,
        }
    }

    /// The work that is due, where `now` is the time.
    pub fn next_action_at(&self, now: Timestamp) -> (action: Action)
        ensures
            action@ == planned_action(self@, now@),
    {
        match &self.cycle {
            Cycle::Fetching => Action::Fetch(CertificateManager::new(self.config).lookup_request()),
            Cycle::Persisting(cert) => {
                let filename: Option<&str> = match &self.config.filename {
                    Some(name) => Some(name.as_str()),
                    None => None,
                };
                assert(borrowed_view(filename) == optional_view(self.config.filename));
                Action::Persist(cert.disk_writes(self.config.certificate_path.as_str(), filename))
            },
            Cycle::Executing(_, command) => Action::Execute(command.duplicate()),
            Cycle::Sleeping(cert) => Action::Sleep(sleep_pause(cert, self.refresh_days, now)),
        }
    }

    /// The work that is due, by the system clock.
    pub fn next_action(&self) -> (action: Action)
        ensures
            exists|now: Timestamp| action@ == #[trigger] planned_action(self@, now@),
    {
        let now = current_instant();
        self.next_action_at(now)
    }

    /// Takes the report of the work that was due and moves the cycle on.
    pub fn handle(self, report: Report) -> (next: (Scheduler<'a>, Step))
        ensures
            next.0@ == (SchedulerView {
                cycle: next_cycle(self@.cycle, report@, self@.command),
                ..self@
            }),
            next.1.backoff is Some <==> backs_off(report_outcome(self@.cycle, report@)),
            next.1.backoff matches Some(pause) ==> pause@ == BACKOFF_SECS * NANOS_PER_SEC,
            match next.1.failure {
                Some(error) => fetch_failure(self@.cycle, report@) == Some(error@),
                None => fetch_failure(self@.cycle, report@) is None,
            },
    {
        let Scheduler { config, refresh_days, command, cycle } = self;
        let mut failure: Option<FetchError> = None;
        let moved: Option<Cycle> = match (cycle, report) {
            (Cycle::Fetching, Report::Answer(response)) => {
                match CertificateManager::new(config).fetch_certificate(response) {
                    Ok(cert) => Some(Cycle::Persisting(cert)),
                    Err(error) => {
                        failure = Some(error);
                        None
                    },
                }
            },
            (Cycle::Persisting(cert), Report::Written { certificate, key }) => {
                match persist_outcome(certificate, key) {
                    Outcome::Succeeded => match &command {
                        Some(c) => Some(Cycle::Executing(cert, c.duplicate())),
                        None => Some(Cycle::Sleeping(cert)),
                    },
                    Outcome::Failed => None,
                }
            },
            (Cycle::Executing(cert, _), Report::Ran(succeeded)) => {
                if succeeded {
                    Some(Cycle::Sleeping(cert))
                } else {
                    None
                }
            },
            (Cycle::Sleeping(_), Report::Slept) => Some(Cycle::Fetching),
            _ => None,
        };
        match moved {
            Some(cycle) => (
                Scheduler { config, refresh_days, command, cycle },
                Step { backoff: None, failure },
            ),
            None => (
                Scheduler { config, refresh_days, command, cycle: Cycle::Fetching },
                Step { backoff: Some(backoff_pause()), failure },
            ),
        }
    }
}

/// The cycle moves through the stages as the outcomes of its reports say.
pub proof fn lemma_cycle_follows_stages(
    cycle: CycleView,
    report: ReportView,
    command: Option<CmdView>,
)
    ensures
        stage_of(next_cycle(cycle, report, command)) == next_stage(
            stage_of(cycle),
            report_outcome(cycle, report),
            command is Some,
        ),
{
}

/// Whatever stage fails, the cycle waits the backoff pause and starts over
/// with a fetch, and it holds no certificate then: it never resumes where it
/// failed.
pub proof fn lemma_failure_starts_over(
    cycle: CycleView,
    report: ReportView,
    command: Option<CmdView>,
)
    requires
        report_outcome(cycle, report) == Outcome::Failed,
    ensures
        next_cycle(cycle, report, command) == CycleView::Fetching,
        next_stage(stage_of(cycle), Outcome::Failed, command is Some) == Stage::Fetching,
        backs_off(report_outcome(cycle, report)),
        BACKOFF_SECS * NANOS_PER_SEC > 0,
{
}

/// Persisting fails when the key is not written, also after the bundle
/// was: the cycle then starts over with a fetch, after the backoff pause.
pub proof fn lemma_partial_write_starts_over(
    cert: CertView,
    certificate_written: bool,
    command: Option<CmdView>,
)
    ensures
        persisted(certificate_written, false) == Outcome::Failed,
        backs_off(persisted(certificate_written, false)),
        next_cycle(
            CycleView::Persisting(cert),
            ReportView::Written { certificate: certificate_written, key: false },
            command,
        ) == CycleView::Fetching,
{
}

/// A run of failed fetches leaves the cycle at fetching, holding
/// nothing, and takes one backoff pause for each of them.
pub proof fn lemma_failed_fetches(reports: Seq<ReportView>, command: Option<CmdView>)
    requires
        forall|i: int|
            0 <= i < reports.len() ==> fetch_failure(CycleView::Fetching, #[trigger] reports[i])
                is Some,
    ensures
        cycle_after(CycleView::Fetching, reports, command) == CycleView::Fetching,
        backoffs_during(CycleView::Fetching, reports, command) == reports.len(),
    decreases reports.len(),
{
    if reports.len() > 0 {
        lemma_failed_fetches(reports.drop_last(), command);
        assert(fetch_failure(CycleView::Fetching, reports.last()) is Some);
    }
}

/// The first fetch that succeeds after a run of failed ones brings the
/// cycle to persisting with the certificate of that answer, and as many
/// backoff pauses lie behind it as fetches failed. Until then the work that
/// is due is a fetch: nothing is written.
pub proof fn lemma_fetch_succeeds_after_failures(
    failures: Seq<ReportView>,
    response: Result<Seq<u8>, Seq<char>>,
    command: Option<CmdView>,
)
    requires
        forall|i: int|
            0 <= i < failures.len() ==> fetch_failure(CycleView::Fetching, #[trigger] failures[i])
                is Some,
        fetch_outcome(response) is Ok,
    ensures
        forall|n: int|
            0 <= n <= failures.len() ==> cycle_after(
                CycleView::Fetching,
                #[trigger] failures.take(n),
                command,
            ) == CycleView::Fetching,
        cycle_after(CycleView::Fetching, failures.push(ReportView::Answer(response)), command)
            == CycleView::Persisting(fetch_outcome(response)->Ok_0),
        backoffs_during(CycleView::Fetching, failures.push(ReportView::Answer(response)), command)
            == failures.len(),
{
    assert forall|n: int| 0 <= n <= failures.len() implies cycle_after(
        CycleView::Fetching,
        #[trigger] failures.take(n),
        command,
    ) == CycleView::Fetching by {
        lemma_failed_fetches(failures.take(n), command);
    }
    lemma_failed_fetches(failures, command);
    assert(failures.push(ReportView::Answer(response)).drop_last() == failures);
}

/// A cycle in which every stage succeeds passes through the stages in
/// order, with the command only where one is configured, and is back at
/// fetching without a backoff pause.
pub proof fn lemma_full_cycle(response: Result<Seq<u8>, Seq<char>>, command: Option<CmdView>)
    requires
        fetch_outcome(response) is Ok,
    ensures
        ({
            let cert = fetch_outcome(response)->Ok_0;
            let fetched = next_cycle(CycleView::Fetching, ReportView::Answer(response), command);
            let written = next_cycle(
                fetched,
                ReportView::Written { certificate: true, key: true },
                command,
            );
            let ran = next_cycle(written, ReportView::Ran(true), command);
            &&& fetched == CycleView::Persisting(cert)
            &&& command matches Some(c) ==> written == CycleView::Executing(cert, c) && ran
                == CycleView::Sleeping(cert)
            &&& command is None ==> written == CycleView::Sleeping(cert)
            &&& next_cycle(CycleView::Sleeping(cert), ReportView::Slept, command)
                == CycleView::Fetching
            &&& !backs_off(report_outcome(CycleView::Sleeping(cert), ReportView::Slept))
        }),
{
}

} // verus!
