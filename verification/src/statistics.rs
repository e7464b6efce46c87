//! The account of how the tasks of a pass ended.

use crate::api::models::{texts, views};
use crate::text::{decimal, decimal_text};
use vstd::prelude::*;
use vstd::string::*;

verus! {

/// An error as a task reports it: its message, and the messages of the
/// causes behind it, the nearest first.
#[derive(Debug, Clone, PartialEq, Eq)]
pub struct TaskError {
    pub message: String,
    pub causes: Vec<String>,
}

pub ghost struct TaskErrorView {
    pub message: Seq<char>,
    pub causes: Seq<Seq<char>>,
}

impl View for TaskError {
    type V = TaskErrorView;

    open spec fn view(&self) -> TaskErrorView {
        TaskErrorView { message: self.message@, causes: texts(self.causes@) }
    }
}

/// An anomaly that a task met and went on from.
#[derive(Debug, Clone, PartialEq, Eq)]
pub struct ProblemReport {
    pub task_name: String,
    pub error: TaskError,
}

/// A task that ended with an error.
#[derive(Debug, Clone, PartialEq, Eq)]
pub struct ErrorReport {
    pub task_name: String,
    pub error: TaskError,
}

pub ghost struct ReportView {
    pub task_name: Seq<char>,
    pub error: TaskErrorView,
}

impl View for ProblemReport {
    type V = ReportView;

    open spec fn view(&self) -> ReportView {
        ReportView { task_name: self.task_name@, error: self.error@ }
    }
}

impl View for ErrorReport {
    type V = ReportView;

    open spec fn view(&self) -> ReportView {
        ReportView { task_name: self.task_name@, error: self.error@ }
    }
}

/// How a task fared.
#[derive(Debug, Clone, PartialEq, Eq)]
pub enum TaskDataPoint {
    Succeeded,
    Failed(TaskError),
    EncounteredProblem(TaskError),
}

pub ghost enum TaskDataPointView {
    Succeeded,
    Failed(TaskErrorView),
    EncounteredProblem(TaskErrorView),
}

impl View for TaskDataPoint {
    type V = TaskDataPointView;

    open spec fn view(&self) -> TaskDataPointView {
        match self {
            TaskDataPoint::Succeeded => TaskDataPointView::Succeeded,
            TaskDataPoint::Failed(error) => TaskDataPointView::Failed(error@),
            TaskDataPoint::EncounteredProblem(error) => TaskDataPointView::EncounteredProblem(
                error@,
            ),
        }
    }
}

/// The message that a task sends to the account.
#[derive(Debug, Clone, PartialEq, Eq)]
pub struct TaskReport {
    pub name: String,
    pub data: TaskDataPoint,
}

pub ghost struct TaskReportView {
    pub name: Seq<char>,
    pub data: TaskDataPointView,
}

impl View for TaskReport {
    type V = TaskReportView;

    open spec fn view(&self) -> TaskReportView {
        TaskReportView { name: self.name@, data: self.data@ }
    }
}

impl TaskReport {
    /// The report of a task that ended well.
    pub fn succeeded(name: String) -> (report: TaskReport)
        ensures
            report@ == (TaskReportView { name: name@, data: TaskDataPointView::Succeeded }),
    {
        TaskReport { name, data: TaskDataPoint::Succeeded }
    }

    /// The report of a task that ended with an error.
    pub fn failed(name: String, error: TaskError) -> (report: TaskReport)
        ensures
            report@ == (TaskReportView { name: name@, data: TaskDataPointView::Failed(error@) }),
    {
        TaskReport { name, data: TaskDataPoint::Failed(error) }
    }

    /// The report of an anomaly that a task met and went on from.
    pub fn problem(name: String, error: TaskError) -> (report: TaskReport)
        ensures
            report@ == (TaskReportView {
                name: name@,
                data: TaskDataPointView::EncounteredProblem(error@),
            }),
    {
        TaskReport { name, data: TaskDataPoint::EncounteredProblem(error) }
    }

    /// The report that a task's end calls for: a success where it returned
    /// normally, a failure with its error where it did not.
    pub fn of_outcome(name: String, outcome: Result<(), TaskError>) -> (report: TaskReport)
        ensures
            report@ == (TaskReportView {
                name: name@,
                data: match outcome {
                    Ok(_) => TaskDataPointView::Succeeded,
                    Err(error) => TaskDataPointView::Failed(error@),
                },
            }),
    {
        match outcome {
            Ok(_) => TaskReport::succeeded(name),
            Err(error) => TaskReport::failed(name, error),
        }
    }
}

/// How grave a line of the log is.
#[derive(Debug, Clone, Copy, PartialEq, Eq, Structural)]
pub enum Severity {
    Info,
    Warn,
    Error,
}

/// One line for the log.
#[derive(Debug, Clone, PartialEq, Eq)]
pub struct LogLine {
    pub severity: Severity,
    pub text: String,
}

pub ghost struct LogLineView {
    pub severity: Severity,
    pub text: Seq<char>,
}

impl View for LogLine {
    type V = LogLineView;

    open spec fn view(&self) -> LogLineView {
        LogLineView { severity: self.severity, text: self.text@ }
    }
}

/// One line for each cause of an error, the nearest first.
pub open spec fn cause_lines(causes: Seq<Seq<char>>) -> Seq<LogLineView> {
    Seq::new(
        causes.len(),
        |i: int| LogLineView { severity: Severity::Error, text: "-> Caused by: "@ + causes[i] },
    )
}

/// The lines that a report is logged with: none for a success; for a
/// failure an error, and for a problem a warning, that names the task and
/// the error, followed by the causes of the error.
pub open spec fn lines_of(report: TaskReportView) -> Seq<LogLineView> {
    match report.data {
        TaskDataPointView::Succeeded => Seq::empty(),
        TaskDataPointView::Failed(error) => seq![
            LogLineView {
                severity: Severity::Error,
                text: "Task failed: "@ + report.name + ": "@ + error.message,
            },
        ] + cause_lines(error.causes),
        TaskDataPointView::EncounteredProblem(error) => seq![
            LogLineView {
                severity: Severity::Warn,
                text: "Task encountered a problem: "@ + report.name + ": "@ + error.message,
            },
        ] + cause_lines(error.causes),
    }
}

fn headed_lines(severity: Severity, heading: &str, name: &str, error: &TaskError) -> (lines: Vec<
    LogLine,
>)
    ensures
        views(lines@) == seq![
            LogLineView { severity, text: heading@ + name@ + ": "@ + error@.message },
        ] + cause_lines(error@.causes),
{
    let text = String::from_str(heading).concat(name).concat(": ").concat(error.message.as_str());
    let mut lines: Vec<LogLine> = Vec::new();
    lines.push(LogLine { severity, text });
    let ghost first = views(lines@);
    let ghost all = cause_lines(error@.causes);
    assert(first =~= seq![
        LogLineView { severity, text: heading@ + name@ + ": "@ + error@.message },
    ]);
    let mut i: usize = 0;
    assert(views(lines@) =~= first + all.take(0));
    while i < error.causes.len()
        invariant
            i <= error.causes.len(),
            all == cause_lines(error@.causes),
            views(lines@) == first + all.take(i as int),
        decreases error.causes.len() - i,
    {
        let ghost before = lines@;
        let text = String::from_str("-> Caused by: ").concat(error.causes[i].as_str());
        lines.push(LogLine { severity: Severity::Error, text });
        proof {
            assert(lines@.last()@ == all[i as int]);
            assert(views(lines@) =~= views(before).push(all[i as int]));
            assert(all.take(i + 1) =~= all.take(i as int).push(all[i as int]));
            assert(views(lines@) =~= first + all.take(i + 1));
        }
        i += 1;
    }
    assert(all.take(error.causes.len() as int) =~= all);
    lines
}

/// Writes the lines that a report is logged with.
pub fn report_lines(report: &TaskReport) -> (lines: Vec<LogLine>)
    ensures
        views(lines@) == lines_of(report@),
{
    match &report.data {
        TaskDataPoint::Succeeded => {
            let lines: Vec<LogLine> = Vec::new();
            assert(views(lines@) =~= Seq::empty());
            lines
        },
        TaskDataPoint::Failed(error) => headed_lines(
            Severity::Error,
            "Task failed: ",
            report.name.as_str(),
            error,
        ),
        TaskDataPoint::EncounteredProblem(error) => headed_lines(
            Severity::Warn,
            "Task encountered a problem: ",
            report.name.as_str(),
            error,
        ),
    }
}

/// The account at the end of a pass.
#[derive(Debug, Clone, PartialEq, Eq)]
pub struct Statistics {
    pub successful_tasks: usize,
    pub problems: Vec<ProblemReport>,
    pub failures: Vec<ErrorReport>,
}

pub ghost struct StatisticsView {
    pub successful_tasks: nat,
    pub problems: Seq<ReportView>,
    pub failures: Seq<ReportView>,
}

impl View for Statistics {
    type V = StatisticsView;

    open spec fn view(&self) -> StatisticsView {
        StatisticsView {
            successful_tasks: self.successful_tasks as nat,
            problems: views(self.problems@),
            failures: views(self.failures@),
        }
    }
}

impl StatisticsView {
    /// The account before any report.
    pub open spec fn empty() -> StatisticsView {
        StatisticsView { successful_tasks: 0, problems: Seq::empty(), failures: Seq::empty() }
    }

    /// The account after one more report: a success is counted, a failure
    /// and a problem are appended to their lists.
    pub open spec fn with(self, report: TaskReportView) -> StatisticsView {
        match report.data {
            TaskDataPointView::Succeeded => StatisticsView {
                successful_tasks: self.successful_tasks + 1,
                ..self
            },
            TaskDataPointView::Failed(error) => StatisticsView {
                failures: self.failures.push(ReportView { task_name: report.name, error }),
                ..self
            },
            TaskDataPointView::EncounteredProblem(error) => StatisticsView {
                problems: self.problems.push(ReportView { task_name: report.name, error }),
                ..self
            },
        }
    }

    /// The number of reports that the account has taken in.
    pub open spec fn total(self) -> nat {
        self.successful_tasks + self.problems.len() + self.failures.len()
    }

    /// The account after a run of reports, taken in order.
    pub open spec fn with_all(self, reports: Seq<TaskReportView>) -> StatisticsView
        decreases reports.len(),
    {
        if reports.len() == 0 {
            self
        } else {
            self.with_all(reports.drop_last()).with(reports.last())
        }
    }
}

/// One line for each report of a list: the task's name and the message of
/// its error.
pub open spec fn entry_lines(severity: Severity, reports: Seq<ReportView>) -> Seq<LogLineView> {
    Seq::new(
        reports.len(),
        |i: int|
            LogLineView {
                severity,
                text: "- "@ + reports[i].task_name + ": "@ + reports[i].error.message,
            },
    )
}

/// A heading and one line for each report of a list, or nothing where the
/// list is empty.
pub open spec fn listing(severity: Severity, heading: Seq<char>, reports: Seq<ReportView>) -> Seq<
    LogLineView,
> {
    if reports.len() == 0 {
        Seq::empty()
    } else {
        seq![LogLineView { severity, text: heading }] + entry_lines(severity, reports)
    }
}

/// The three closing lines of a summary: how many problems, failures and
/// successes there were.
pub open spec fn count_lines(account: StatisticsView) -> Seq<LogLineView> {
    seq![
        LogLineView {
            severity: Severity::Info,
            text: "Encountered problems: "@ + decimal(account.problems.len()),
        },
        LogLineView {
            severity: Severity::Info,
            text: "Failed tasks: "@ + decimal(account.failures.len()),
        },
        LogLineView {
            severity: Severity::Info,
            text: "Succeeded tasks: "@ + decimal(account.successful_tasks),
        },
    ]
}

/// What is shown at the end of a pass: the problems as warnings, the failed
/// tasks as errors, then the three counts.
pub open spec fn summary_of(account: StatisticsView) -> Seq<LogLineView> {
    listing(Severity::Warn, "Problems encountered:"@, account.problems) + listing(
        Severity::Error,
        "Failed tasks:"@,
        account.failures,
    ) + count_lines(account)
}

fn push_entry(lines: &mut Vec<LogLine>, severity: Severity, task_name: &str, message: &str)
    ensures
        views(final(lines)@) == views(old(lines)@).push(
            LogLineView { severity, text: "- "@ + task_name@ + ": "@ + message@ },
        ),
{
    let text = String::from_str("- ").concat(task_name).concat(": ").concat(message);
    let line = LogLine { severity, text };
    lines.push(line);
    assert(views(lines@) =~= views(old(lines)@).push(line@));
}

fn push_count(lines: &mut Vec<LogLine>, heading: &str, count: usize)
    ensures
        views(final(lines)@) == views(old(lines)@).push(
            LogLineView { severity: Severity::Info, text: heading@ + decimal(count as nat) },
        ),
{
    let number = decimal_text(count as u64);
    let line = LogLine {
        severity: Severity::Info,
        text: String::from_str(heading).concat(number.as_str()),
    };
    lines.push(line);
    assert(views(lines@) =~= views(old(lines)@).push(line@));
}

fn push_heading(lines: &mut Vec<LogLine>, severity: Severity, heading: &str)
    ensures
        views(final(lines)@) == views(old(lines)@).push(LogLineView { severity, text: heading@ }),
{
    let line = LogLine { severity, text: String::from_str(heading) };
    lines.push(line);
    assert(views(lines@) =~= views(old(lines)@).push(line@));
}

/// Writes what is shown at the end of a pass.
pub fn summary_lines(statistics: &Statistics) -> (lines: Vec<LogLine>)
    ensures
        views(lines@) == summary_of(statistics@),
{
    let mut lines: Vec<LogLine> = Vec::new();
    let ghost problems = views(statistics.problems@);
    let ghost failures = views(statistics.failures@);
    assert(views(lines@) =~= Seq::empty());
    if statistics.problems.len() > 0 {
        push_heading(&mut lines, Severity::Warn, "Problems encountered:");
        let ghost head = views(lines@);
        let ghost all = entry_lines(Severity::Warn, problems);
        let mut i: usize = 0;
        assert(views(lines@) =~= head + all.take(0));
        while i < statistics.problems.len()
            invariant
                i <= statistics.problems.len(),
                problems == views(statistics.problems@),
                all == entry_lines(Severity::Warn, problems),
                views(lines@) == head + all.take(i as int),
            decreases statistics.problems.len() - i,
        {
            let entry = &statistics.problems[i];
            push_entry(
                &mut lines,
                Severity::Warn,
                entry.task_name.as_str(),
                entry.error.message.as_str(),
            );
            proof {
                assert(problems[i as int] == entry@);
                assert(all.take(i + 1) =~= all.take(i as int).push(all[i as int]));
                assert(views(lines@) =~= head + all.take(i + 1));
            }
            i += 1;
        }
        assert(all.take(statistics.problems.len() as int) =~= all);
        assert(head =~= seq![
            LogLineView { severity: Severity::Warn, text: "Problems encountered:"@ },
        ]);
    }
    assert(views(lines@) == listing(Severity::Warn, "Problems encountered:"@, problems));
    let ghost first = views(lines@);
    if statistics.failures.len() > 0 {
        push_heading(&mut lines, Severity::Error, "Failed tasks:");
        let ghost head = views(lines@);
        let ghost all = entry_lines(Severity::Error, failures);
        let mut i: usize = 0;
        assert(views(lines@) =~= head + all.take(0));
        while i < statistics.failures.len()
            invariant
                i <= statistics.failures.len(),
                failures == views(statistics.failures@),
                all == entry_lines(Severity::Error, failures),
                views(lines@) == head + all.take(i as int),
            decreases statistics.failures.len() - i,
        {
            let entry = &statistics.failures[i];
            push_entry(
                &mut lines,
                Severity::Error,
                entry.task_name.as_str(),
                entry.error.message.as_str(),
            );
            proof {
                assert(failures[i as int] == entry@);
                assert(all.take(i + 1) =~= all.take(i as int).push(all[i as int]));
                assert(views(lines@) =~= head + all.take(i + 1));
            }
            i += 1;
        }
        assert(all.take(statistics.failures.len() as int) =~= all);
        assert(views(lines@) =~= first + listing(Severity::Error, "Failed tasks:"@, failures));
    } else {
        assert(views(lines@) =~= first + listing(Severity::Error, "Failed tasks:"@, failures));
    }
    let ghost second = views(lines@);
    push_count(&mut lines, "Encountered problems: ", statistics.problems.len());
    push_count(&mut lines, "Failed tasks: ", statistics.failures.len());
    push_count(&mut lines, "Succeeded tasks: ", statistics.successful_tasks);
    assert(views(lines@) =~= second + count_lines(statistics@));
    lines
}

/// Every report is accounted for once: as a success, as a failure or as a
/// problem.
pub proof fn lemma_every_report_counts(account: StatisticsView, reports: Seq<TaskReportView>)
    ensures
        account.with_all(reports).total() == account.total() + reports.len(),
    decreases reports.len(),
{
    if reports.len() > 0 {
        lemma_every_report_counts(account, reports.drop_last());
    }
}

/// The most reports that the account takes from its queue at a time.
pub const BATCH_LIMIT: usize = 16;

/// The running account of a pass.
#[derive(Debug, PartialEq, Eq)]
pub struct StatisticsCollector {
    successful_tasks: usize,
    problems: Vec<ProblemReport>,
    failures: Vec<ErrorReport>,
}

impl View for StatisticsCollector {
    type V = StatisticsView;

    closed spec fn view(&self) -> StatisticsView {
        StatisticsView {
            successful_tasks: self.successful_tasks as nat,
            problems: views(self.problems@),
            failures: views(self.failures@),
        }
    }
}

impl StatisticsCollector {
    /// An account that has taken in nothing.
    pub fn new() -> (collector: StatisticsCollector)
        ensures
            collector@ == StatisticsView::empty(),
    {
        let collector = StatisticsCollector {
            successful_tasks: 0,
            problems: Vec::new(),
            failures: Vec::new(),
        };
        assert(views(collector.problems@) =~= Seq::empty());
        assert(views(collector.failures@) =~= Seq::empty());
        collector
    }

    /// The number of successes counted so far.
    pub fn successful_tasks(&self) -> (count: usize)
        ensures
            count == self@.successful_tasks,
    {
        self.successful_tasks
    }

    /// Takes in one report.
    pub fn record(&mut self, report: TaskReport)
        requires
            old(self)@.with(report@).successful_tasks <= usize::MAX,
        ensures
            final(self)@ == old(self)@.with(report@),
    {
        let TaskReport { name, data } = report;
        match data {
            TaskDataPoint::Succeeded => {
                self.successful_tasks = self.successful_tasks + 1;
            },
            TaskDataPoint::Failed(error) => {
                let ghost before = self.failures@;
                let entry = ErrorReport { task_name: name, error };
                self.failures.push(entry);
                assert(views(self.failures@) =~= views(before).push(entry@));
            },
            TaskDataPoint::EncounteredProblem(error) => {
                let ghost before = self.problems@;
                let entry = ProblemReport { task_name: name, error };
                self.problems.push(entry);
                assert(views(self.problems@) =~= views(before).push(entry@));
            },
        }
    }

    /// Takes in a run of reports, in order.
    pub fn record_batch(&mut self, reports: Vec<TaskReport>)
        requires
            old(self)@.successful_tasks + reports@.len() <= usize::MAX,
        ensures
            final(self)@ == old(self)@.with_all(views(reports@)),
    {
        let ghost raw = reports@;
        let ghost all = views(reports@);
        let ghost start = self@;
        assert(all.take(0) =~= Seq::empty());
        for report in it: reports.into_iter()
            invariant
                it.seq() == raw,
                all == views(raw),
                self@ == start.with_all(all.take(it.index() as int)),
                self@.successful_tasks <= start.successful_tasks + it.index(),
                start.successful_tasks + raw.len() <= usize::MAX,
        {
            proof {
                let taken = it.index() as int;
                assert(report@ == all[taken]);
                assert(all.take(taken + 1).drop_last() =~= all.take(taken));
                assert(all.take(taken + 1).last() == all[taken]);
            }
            self.record(report);
        }
        assert(all.take(raw.len() as int) =~= all);
    }

    /// Closes the account: hands out what has been taken in, and starts
    /// again from nothing.
    pub fn reset(&mut self) -> (statistics: Statistics)
        ensures
            statistics@ == old(self)@,
            final(self)@ == StatisticsView::empty(),
    {
        let mut problems: Vec<ProblemReport> = Vec::new();
        let mut failures: Vec<ErrorReport> = Vec::new();
        std::mem::swap(&mut problems, &mut self.problems);
        std::mem::swap(&mut failures, &mut self.failures);
        let statistics = Statistics { successful_tasks: self.successful_tasks, problems, failures };
        self.successful_tasks = 0;
        assert(views(self.problems@) =~= Seq::empty());
        assert(views(self.failures@) =~= Seq::empty());
        statistics
    }
}

} // verus!
