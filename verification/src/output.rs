//! What the operator gets to read: the lines of the task and report tables and the
//! messages for what went wrong. Nothing here prints; every function hands back text.

use crate::json::{json_text, views, Json, JsonView};
use crate::text::{pad_right, padded};
use crate::utils::{can_truncate, show_date, shown_date, truncate_string_elliptic, truncated};
use vstd::prelude::*;

verus! {

/// Said when the release index or an asset cannot be reached.
pub const CONNECTION_FAILURE: &'static str =
    "\n        Connection failed, please check your network status and run the same command with LOG_LEVEL=debug\n        ";

/// Said when the service cannot be reached.
pub const STEWARDX_CONNECTION_FAILURE: &'static str =
    "\n        Couldn't connect to StewardX. Here's what you can do:\n        - Try the same command with setting LOG_LEVEL environment variable to debug, like LOG_LEVEL=debug stewardx ...\n        - Check if StewardX instance is running\n        - Check environment variables, STEWARDX_URL or STEWARDX_HOST and STEWARDX_PORT\n        - Use cURL to connect StewardX instance, if it doesn't fail, please open an issue at https://github.com/gokayokyay/stewardx-cli\n    ";

/// Said when a response is no JSON document.
pub const JSON_FAILURE: &'static str =
    "Error while trying to parse response from StewardX, this shouldn't happen, please open an issue at https://github.com/gokayokyay/stewardx-cli";

/// Said after every complaint about a value that the service should not have sent.
pub const ISSUE_HINT: &'static str =
    "Please open an issue at https://github.com/gokayokyay/stewardx-cli and describe how to reproduce it, thanks!";

/// The rule under the header of the task table.
pub const TASKS_RULE: &'static str =
    "---------------------------------------------------------------------------------";

/// The rule under the header of the report table.
pub const REPORTS_RULE: &'static str =
    "---------------------------------------------------------------------------------------------------------------------";

/// The width of the name column, ellipsis included.
pub const NAME_WIDTH: usize = 16;

/// The views of a list of strings.
pub open spec fn texts(lines: Seq<String>) -> Seq<Seq<char>> {
    Seq::new(lines.len(), |i: int| lines[i]@)
}

/// A line of the task table: four columns, each padded to its width.
pub open spec fn task_line(
    id: Seq<char>,
    name: Seq<char>,
    task_type: Seq<char>,
    frequency: Seq<char>,
) -> Seq<char> {
    padded(id, 36) + " | "@ + padded(name, 16) + " | "@ + padded(task_type, 8) + " | "@ + padded(
        frequency,
        16,
    )
}

/// A line of the report table: four columns, each padded to its width.
pub open spec fn report_line(
    id: Seq<char>,
    task_id: Seq<char>,
    executed_at: Seq<char>,
    successful: Seq<char>,
) -> Seq<char> {
    padded(id, 36) + " | "@ + padded(task_id, 36) + " | "@ + padded(executed_at, 24) + " | "@
        + padded(successful, 10)
}

/// The header of the task table.
pub open spec fn task_header() -> Seq<char> {
    task_line("Task ID"@, "Name"@, "Type"@, "Frequency"@)
}

/// The header of the report table.
pub open spec fn report_header() -> Seq<char> {
    report_line("Report ID"@, "Task ID"@, "Executed At"@, "Did success"@)
}

/// The complaint about a value of a task.
pub open spec fn invalid_task_line(id: Seq<char>, key: Seq<char>, value: Seq<char>) -> Seq<char> {
    "Task with id: "@ + id + " has an invalid property named: \""@ + key + "\" with value: \""@
        + value + "\""@
}

/// The complaint about a value of a report.
pub open spec fn invalid_report_line(id: Seq<char>, key: Seq<char>, value: Seq<char>) -> Seq<
    char,
> {
    "Report with id: "@ + id + " has an invalid property named: \""@ + key
        + "\" with value: \""@ + value + "\""@
}

/// What can be amiss with a task, in the order in which a task is examined.
#[derive(Clone, Copy, Debug, PartialEq, Eq, Structural)]
pub enum TaskProblem {
    /// `id` is no string: there is nothing to name the task by.
    Id,
    /// `task_name` is no string.
    Name,
    /// `task_type` is no string.
    Type,
    /// `frequency` is no string.
    Frequency,
    /// The name would have to be cut inside a character.
    NameCut,
}

/// What can be amiss with a report, in the order in which a report is examined.
#[derive(Clone, Copy, Debug, PartialEq, Eq, Structural)]
pub enum ReportProblem {
    /// `id` is no string: there is nothing to name the report by.
    Id,
    /// `task_id` is no string.
    TaskId,
    /// `created_at` is no string, or none that holds a date and time.
    CreatedAt,
    /// `successful` is no boolean.
    Successful,
}

impl TaskProblem {
    /// The member that the problem is about, where it is about one that gets a complaint.
    pub open spec fn key(self) -> Option<Seq<char>> {
        match self {
            TaskProblem::Name => Some("task_name"@),
            TaskProblem::Type => Some("task_type"@),
            TaskProblem::Frequency => Some("frequency"@),
            _ => None,
        }
    }
}

impl ReportProblem {
    /// The member that the problem is about, where it is about one that gets a complaint.
    pub open spec fn key(self) -> Option<Seq<char>> {
        match self {
            ReportProblem::TaskId => Some("task_id"@),
            ReportProblem::CreatedAt => Some("created_at"@),
            ReportProblem::Successful => Some("successful"@),
            _ => None,
        }
    }
}

/// The first thing amiss with a task; `None` for a task that has a line in the table.
pub open spec fn task_problem(task: JsonView) -> Option<TaskProblem> {
    if task.at("id"@).text() is None {
        Some(TaskProblem::Id)
    } else if task.at("task_name"@).text() is None {
        Some(TaskProblem::Name)
    } else if task.at("task_type"@).text() is None {
        Some(TaskProblem::Type)
    } else if task.at("frequency"@).text() is None {
        Some(TaskProblem::Frequency)
    } else if !can_truncate(task.at("task_name"@).text()->0, 16) {
        Some(TaskProblem::NameCut)
    } else {
        None
    }
}

/// The line of a task that has none of the problems.
pub open spec fn task_row(task: JsonView) -> Seq<char> {
    task_line(
        task.at("id"@).text()->0,
        truncated(task.at("task_name"@).text()->0, 16),
        task.at("task_type"@).text()->0,
        task.at("frequency"@).text()->0,
    )
}

/// The first thing amiss with a report; `None` for a report that has a line in the table.
pub open spec fn report_problem(report: JsonView) -> Option<ReportProblem> {
    if report.at("id"@).text() is None {
        Some(ReportProblem::Id)
    } else if report.at("task_id"@).text() is None {
        Some(ReportProblem::TaskId)
    } else if report.at("created_at"@).text() is None {
        Some(ReportProblem::CreatedAt)
    } else if shown_date(report.at("created_at"@).text()->0) is None {
        Some(ReportProblem::CreatedAt)
    } else if report.at("successful"@).flag() is None {
        Some(ReportProblem::Successful)
    } else {
        None
    }
}

/// The line of a report that has none of the problems.
pub open spec fn report_row(report: JsonView) -> Seq<char> {
    report_line(
        report.at("id"@).text()->0,
        report.at("task_id"@).text()->0,
        shown_date(report.at("created_at"@).text()->0)->0,
        if report.at("successful"@).flag()->0 {
            "true"@
        } else {
            "false"@
        },
    )
}

/// What is logged about a task with a problem: the complaint and the hint, or nothing where
/// the problem is none that gets a complaint.
pub open spec fn task_complaint(task: JsonView, problem: TaskProblem) -> Seq<Seq<char>> {
    match problem.key() {
        Some(key) => seq![
            invalid_task_line(task.at("id"@).text()->0, key, json_text(task.at(key))),
            ISSUE_HINT@,
        ],
        None => Seq::empty(),
    }
}

/// What is logged about a report with a problem: the complaint and the hint, or nothing where
/// the problem is none that gets a complaint.
pub open spec fn report_complaint(report: JsonView, problem: ReportProblem) -> Seq<Seq<char>> {
    match problem.key() {
        Some(key) => seq![
            invalid_report_line(report.at("id"@).text()->0, key, json_text(report.at(key))),
            ISSUE_HINT@,
        ],
        None => Seq::empty(),
    }
}

/// A task or report that has no line in the table, and what is logged about it.
#[derive(Debug)]
pub struct Rejected<P> {
    pub problem: P,
    pub complaint: Vec<String>,
}

/// A table as far as it got: the lines to print, and the entry that it stopped at, if any.
#[derive(Debug)]
pub struct Listing<P> {
    pub lines: Vec<String>,
    pub rejected: Option<Rejected<P>>,
}

/// The message for a release index or asset that cannot be reached.
pub fn print_connection_failure() -> (r: String)
    ensures
        r@ == CONNECTION_FAILURE@,
{
    CONNECTION_FAILURE.to_owned()
}

/// The message for a service that cannot be reached.
pub fn print_stewardx_connection_failure() -> (r: String)
    ensures
        r@ == STEWARDX_CONNECTION_FAILURE@,
{
    STEWARDX_CONNECTION_FAILURE.to_owned()
}

/// The message for a response that is no JSON document.
pub fn print_json_failure() -> (r: String)
    ensures
        r@ == JSON_FAILURE@,
{
    JSON_FAILURE.to_owned()
}

/// What indexing a value by `key` yields, where it is a string.
pub fn text_at<'a>(value: &'a Json, key: &str) -> (r: Option<&'a str>)
    ensures
        match r {
            Some(s) => value@.at(key@).text() == Some(s@),
            None => value@.at(key@).text() is None,
        },
{
    match value.get(key) {
        Some(member) => member.as_str(),
        None => None,
    }
}

/// What indexing a value by `key` yields, as compact JSON text.
pub fn rendered_at(value: &Json, key: &str) -> (r: String)
    ensures
        r@ == json_text(value@.at(key@)),
{
    match value.get(key) {
        Some(member) => member.render(),
        None => Json::Null.render(),
    }
}

/// A line of the report table.
pub fn format_and_print_report(id: &str, task_id: &str, executed_at: &str, successful: &str) -> (r:
    String)
    ensures
        r@ == report_line(id@, task_id@, executed_at@, successful@),
{
    let mut r = pad_right(id, 36);
    r.append(" | ");
    r.append(pad_right(task_id, 36).as_str());
    r.append(" | ");
    r.append(pad_right(executed_at, 24).as_str());
    r.append(" | ");
    r.append(pad_right(successful, 10).as_str());
    r
}

/// A line of the task table.
pub fn format_and_print_task(id: &str, name: &str, task_type: &str, frequency: &str) -> (r: String)
    ensures
        r@ == task_line(id@, name@, task_type@, frequency@),
{
    let mut r = pad_right(id, 36);
    r.append(" | ");
    r.append(pad_right(name, 16).as_str());
    r.append(" | ");
    r.append(pad_right(task_type, 8).as_str());
    r.append(" | ");
    r.append(pad_right(frequency, 16).as_str());
    r
}

/// The two lines logged about a value of a task that is not what it should be.
pub fn print_invalid_task_value(id: &str, key: &str, value: &Json) -> (r: Vec<String>)
    ensures
        texts(r@) == seq![invalid_task_line(id@, key@, json_text(value@)), ISSUE_HINT@],
{
    let mut line = "Task with id: ".to_owned();
    line.append(id);
    line.append(" has an invalid property named: \"");
    line.append(key);
    line.append("\" with value: \"");
    line.append(value.render().as_str());
    line.append("\"");
    let mut r: Vec<String> = Vec::new();
    r.push(line);
    r.push(ISSUE_HINT.to_owned());
    assert(texts(r@) =~= seq![invalid_task_line(id@, key@, json_text(value@)), ISSUE_HINT@]);
    r
}

/// The two lines logged about a value of a report that is not what it should be.
pub fn print_invalid_report_value(id: &str, key: &str, value: &Json) -> (r: Vec<String>)
    ensures
        texts(r@) == seq![invalid_report_line(id@, key@, json_text(value@)), ISSUE_HINT@],
{
    let mut line = "Report with id: ".to_owned();
    line.append(id);
    line.append(" has an invalid property named: \"");
    line.append(key);
    line.append("\" with value: \"");
    line.append(value.render().as_str());
    line.append("\"");
    let mut r: Vec<String> = Vec::new();
    r.push(line);
    r.push(ISSUE_HINT.to_owned());
    assert(texts(r@) =~= seq![invalid_report_line(id@, key@, json_text(value@)), ISSUE_HINT@]);
    r
}

/// What is logged about the member `key` of a task with the given id.
fn complain_about_task(task: &Json, id: &str, key: &str) -> (r: Vec<String>)
    ensures
        texts(r@) == seq![invalid_task_line(id@, key@, json_text(task@.at(key@))), ISSUE_HINT@],
{
    match task.get(key) {
        Some(value) => print_invalid_task_value(id, key, value),
        None => print_invalid_task_value(id, key, &Json::Null),
    }
}

/// What is logged about the member `key` of a report with the given id.
fn complain_about_report(report: &Json, id: &str, key: &str) -> (r: Vec<String>)
    ensures
        texts(r@) == seq![invalid_report_line(id@, key@, json_text(report@.at(key@))), ISSUE_HINT@],
{
    match report.get(key) {
        Some(value) => print_invalid_report_value(id, key, value),
        None => print_invalid_report_value(id, key, &Json::Null),
    }
}

/// The line of the table for one task, or what is amiss with it.
///
/// A task needs `id`, `task_name`, `task_type` and `frequency`, all strings. The name is cut
/// to its column.
pub fn parse_and_print_task(task: &Json) -> (r: Result<String, Rejected<TaskProblem>>)
    ensures
        match r {
            Ok(row) => task_problem(task@) is None && row@ == task_row(task@),
            Err(e) => {
                &&& task_problem(task@) == Some(e.problem)
                &&& texts(e.complaint@) == task_complaint(task@, e.problem)
            },
        },
{
    let id = match text_at(task, "id") {
        Some(id) => id,
        None => {
            let complaint: Vec<String> = Vec::new();
            assert(texts(complaint@) =~= Seq::empty());
            return Err(Rejected { problem: TaskProblem::Id, complaint });
        },
    };
    let name = match text_at(task, "task_name") {
        Some(name) => name,
        None => {
            let complaint = complain_about_task(task, id, "task_name");
            return Err(Rejected { problem: TaskProblem::Name, complaint });
        },
    };
    let task_type = match text_at(task, "task_type") {
        Some(task_type) => task_type,
        None => {
            let complaint = complain_about_task(task, id, "task_type");
            return Err(Rejected { problem: TaskProblem::Type, complaint });
        },
    };
    let frequency = match text_at(task, "frequency") {
        Some(frequency) => frequency,
        None => {
            let complaint = complain_about_task(task, id, "frequency");
            return Err(Rejected { problem: TaskProblem::Frequency, complaint });
        },
    };
    if name.as_bytes().len() >= NAME_WIDTH - 1 && !name.is_char_boundary(NAME_WIDTH - 1) {
        let complaint: Vec<String> = Vec::new();
        assert(texts(complaint@) =~= Seq::empty());
        return Err(Rejected { problem: TaskProblem::NameCut, complaint });
    }
    let short = truncate_string_elliptic(name.to_owned(), NAME_WIDTH);
    Ok(format_and_print_task(id, short.as_str(), task_type, frequency))
}

/// The line of the table for one report, or what is amiss with it.
///
/// A report needs `id` and `task_id`, both strings, `created_at`, a string that holds a date
/// and time, and `successful`, a boolean.
pub fn parse_and_print_report(report: &Json) -> (r: Result<String, Rejected<ReportProblem>>)
    ensures
        match r {
            Ok(row) => report_problem(report@) is None && row@ == report_row(report@),
            Err(e) => {
                &&& report_problem(report@) == Some(e.problem)
                &&& texts(e.complaint@) == report_complaint(report@, e.problem)
            },
        },
{
    let id = match text_at(report, "id") {
        Some(id) => id,
        None => {
            let complaint: Vec<String> = Vec::new();
            assert(texts(complaint@) =~= Seq::empty());
            return Err(Rejected { problem: ReportProblem::Id, complaint });
        },
    };
    let task_id = match text_at(report, "task_id") {
        Some(task_id) => task_id,
        None => {
            let complaint = complain_about_report(report, id, "task_id");
            return Err(Rejected { problem: ReportProblem::TaskId, complaint });
        },
    };
    let created_at = match text_at(report, "created_at") {
        Some(text) => match show_date(text) {
            Some(shown) => shown,
            None => {
                let complaint = complain_about_report(report, id, "created_at");
                return Err(Rejected { problem: ReportProblem::CreatedAt, complaint });
            },
        },
        None => {
            let complaint = complain_about_report(report, id, "created_at");
            return Err(Rejected { problem: ReportProblem::CreatedAt, complaint });
        },
    };
    let successful = match report.get("successful") {
        Some(value) => value.as_bool(),
        None => None,
    };
    match successful {
        Some(flag) => Ok(
            format_and_print_report(
                id,
                task_id,
                created_at.as_str(),
                if flag {
                    "true"
                } else {
                    "false"
                },
            ),
        ),
        None => {
            let complaint = complain_about_report(report, id, "successful");
            Err(Rejected { problem: ReportProblem::Successful, complaint })
        },
    }
}

/// The table is that of these tasks: the header, the rule, and a line for each task up to
/// the first that has a problem, which is the one that the table was given up at.
pub open spec fn is_task_listing(listing: Listing<TaskProblem>, tasks: Seq<JsonView>) -> bool {
    let shown = listing.lines@.len() - 2;
    &&& 0 <= shown <= tasks.len()
    &&& listing.lines@[0]@ == task_header()
    &&& listing.lines@[1]@ == TASKS_RULE@
    &&& forall|i: int|
        0 <= i < shown ==> task_problem(#[trigger] tasks[i]) is None && listing.lines@[i + 2]@
            == task_row(tasks[i])
    &&& match listing.rejected {
        None => shown == tasks.len(),
        Some(e) => {
            &&& shown < tasks.len()
            &&& task_problem(tasks[shown]) == Some(e.problem)
            &&& texts(e.complaint@) == task_complaint(tasks[shown], e.problem)
        },
    }
}

/// The table is that of these reports: the header, the rule, and a line for each report up
/// to the first that has a problem, which is the one that the table was given up at.
pub open spec fn is_report_listing(listing: Listing<ReportProblem>, reports: Seq<JsonView>) -> bool {
    let shown = listing.lines@.len() - 2;
    &&& 0 <= shown <= reports.len()
    &&& listing.lines@[0]@ == report_header()
    &&& listing.lines@[1]@ == REPORTS_RULE@
    &&& forall|i: int|
        0 <= i < shown ==> report_problem(#[trigger] reports[i]) is None && listing.lines@[i
            + 2]@ == report_row(reports[i])
    &&& match listing.rejected {
        None => shown == reports.len(),
        Some(e) => {
            &&& shown < reports.len()
            &&& report_problem(reports[shown]) == Some(e.problem)
            &&& texts(e.complaint@) == report_complaint(reports[shown], e.problem)
        },
    }
}

/// The task table: header, rule, and a line for each task up to the first that has a problem.
pub fn pretty_print_tasks(tasks: &Vec<Json>) -> (r: Listing<TaskProblem>)
    ensures
        is_task_listing(r, views(tasks@)),
{
    let ghost all = views(tasks@);
    let mut lines: Vec<String> = Vec::new();
    lines.push(format_and_print_task("Task ID", "Name", "Type", "Frequency"));
    lines.push(TASKS_RULE.to_owned());
    let mut i: usize = 0;
    while i < tasks.len()
        invariant
            i <= tasks.len(),
            all == views(tasks@),
            lines@.len() == i + 2,
            lines@[0]@ == task_header(),
            lines@[1]@ == TASKS_RULE@,
            forall|j: int|
                0 <= j < i ==> task_problem(#[trigger] all[j]) is None && lines@[j + 2]@
                    == task_row(all[j]),
        decreases tasks.len() - i,
    {
        assert(all[i as int] == tasks@[i as int]@);
        match parse_and_print_task(&tasks[i]) {
            Ok(row) => {
                lines.push(row);
            },
            Err(e) => {
                return Listing { lines, rejected: Some(e) };
            },
        }
        i += 1;
    }
    Listing { lines, rejected: None }
}

/// The report table: header, rule, and a line for each report up to the first that has a
/// problem.
pub fn pretty_print_reports(reports: &Vec<Json>) -> (r: Listing<ReportProblem>)
    ensures
        is_report_listing(r, views(reports@)),
{
    let ghost all = views(reports@);
    let mut lines: Vec<String> = Vec::new();
    lines.push(format_and_print_report("Report ID", "Task ID", "Executed At", "Did success"));
    lines.push(REPORTS_RULE.to_owned());
    let mut i: usize = 0;
    while i < reports.len()
        invariant
            i <= reports.len(),
            all == views(reports@),
            lines@.len() == i + 2,
            lines@[0]@ == report_header(),
            lines@[1]@ == REPORTS_RULE@,
            forall|j: int|
                0 <= j < i ==> report_problem(#[trigger] all[j]) is None && lines@[j + 2]@
                    == report_row(all[j]),
        decreases reports.len() - i,
    {
        assert(all[i as int] == reports@[i as int]@);
        match parse_and_print_report(&reports[i]) {
            Ok(row) => {
                lines.push(row);
            },
            Err(e) => {
                return Listing { lines, rejected: Some(e) };
            },
        }
        i += 1;
    }
    Listing { lines, rejected: None }
}

} // verus!
