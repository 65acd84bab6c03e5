use stewardx_cli::json::Json;
use stewardx_cli::output::{
    format_and_print_report, format_and_print_task, parse_and_print_report, parse_and_print_task,
    pretty_print_reports, pretty_print_tasks, print_connection_failure, print_invalid_report_value,
    print_invalid_task_value, print_json_failure, print_stewardx_connection_failure,
    ReportProblem, TaskProblem, ISSUE_HINT, REPORTS_RULE, TASKS_RULE,
};

fn json(text: &str) -> Json {
    Json::parse(text.as_bytes()).unwrap()
}

fn items(text: &str) -> Vec<Json> {
    match json(text) {
        Json::Array(items) => items,
        _ => panic!("no array"),
    }
}

#[test]
fn task_line_pads_each_column() {
    assert_eq!(
        format_and_print_task("Task ID", "Name", "Type", "Frequency"),
        format!("{0: <36} | {1: <16} | {2: <8} | {3: <16}", "Task ID", "Name", "Type", "Frequency")
    );
    assert_eq!(
        format_and_print_task("a", "b", "a-type-that-is-long", ""),
        "a                                    | b                | a-type-that-is-long |                 "
    );
}

#[test]
fn report_line_pads_each_column() {
    assert_eq!(
        format_and_print_report("Report ID", "Task ID", "Executed At", "Did success"),
        format!(
            "{0: <36} | {1: <36} | {2: <24} | {3: <10}",
            "Report ID", "Task ID", "Executed At", "Did success"
        )
    );
}

#[test]
fn padding_counts_characters() {
    assert_eq!(
        format_and_print_task("\u{e9}", "n", "t", "f"),
        format!("{0: <36} | {1: <16} | {2: <8} | {3: <16}", "\u{e9}", "n", "t", "f")
    );
}

#[test]
fn rules_have_the_width_of_their_tables() {
    assert_eq!(TASKS_RULE, "-".repeat(81));
    assert_eq!(REPORTS_RULE, "-".repeat(117));
}

#[test]
fn task_row_cuts_the_name() {
    let task = json(
        r#"{"id": "7", "task_name": "a-very-long-task-name", "task_type": "CmdTask", "frequency": "Hook"}"#,
    );
    assert_eq!(
        parse_and_print_task(&task).unwrap(),
        format!(
            "{0: <36} | {1: <16} | {2: <8} | {3: <16}",
            "7", "a-very-long-tas\u{2026}", "CmdTask", "Hook"
        )
    );
}

#[test]
fn task_row_names_the_first_problem() {
    let problem = |text: &str| parse_and_print_task(&json(text)).unwrap_err();
    let e = problem(r#"{"task_name": "n", "task_type": "t", "frequency": "f"}"#);
    assert_eq!(e.problem, TaskProblem::Id);
    assert!(e.complaint.is_empty());
    let e = problem(r#"{"id": "7", "task_name": 5, "task_type": 6, "frequency": "f"}"#);
    assert_eq!(e.problem, TaskProblem::Name);
    assert_eq!(
        e.complaint,
        vec![
            "Task with id: 7 has an invalid property named: \"task_name\" with value: \"5\""
                .to_string(),
            ISSUE_HINT.to_string(),
        ]
    );
    let e = problem(r#"{"id": "7", "task_name": "n", "frequency": "f"}"#);
    assert_eq!(e.problem, TaskProblem::Type);
    assert_eq!(
        e.complaint[0],
        "Task with id: 7 has an invalid property named: \"task_type\" with value: \"null\""
    );
    let e = problem(r#"{"id": "7", "task_name": "n", "task_type": "t", "frequency": {"a": [1]}}"#);
    assert_eq!(e.problem, TaskProblem::Frequency);
    assert_eq!(
        e.complaint[0],
        "Task with id: 7 has an invalid property named: \"frequency\" with value: \"{\"a\":[1]}\""
    );
}

#[test]
fn task_row_refuses_a_cut_inside_a_character() {
    let task = json(
        r#"{"id": "7", "task_name": "fourteen_charséx", "task_type": "t", "frequency": "f"}"#,
    );
    let e = parse_and_print_task(&task).unwrap_err();
    assert_eq!(e.problem, TaskProblem::NameCut);
    assert!(e.complaint.is_empty());
    let task = json(
        r#"{"id": "7", "task_name": "thirteen_charéx", "task_type": "t", "frequency": "f"}"#,
    );
    assert_eq!(
        parse_and_print_task(&task).unwrap(),
        format!(
            "{0: <36} | {1: <16} | {2: <8} | {3: <16}",
            "7", "thirteen_char\u{e9}\u{2026}", "t", "f"
        )
    );
}

#[test]
fn report_row_shows_date_and_outcome() {
    let report = json(
        r#"{"id": "r", "task_id": "t", "created_at": "2021-03-04T05:06:07.123", "successful": true}"#,
    );
    assert_eq!(
        parse_and_print_report(&report).unwrap(),
        format!(
            "{0: <36} | {1: <36} | {2: <24} | {3: <10}",
            "r", "t", "2021-03-04 05:06:07 UTC", "true"
        )
    );
    let report = json(
        r#"{"id": "r", "task_id": "t", "created_at": "1999-12-31T23:59:59", "successful": false}"#,
    );
    assert_eq!(
        parse_and_print_report(&report).unwrap(),
        format!(
            "{0: <36} | {1: <36} | {2: <24} | {3: <10}",
            "r", "t", "1999-12-31 23:59:59 UTC", "false"
        )
    );
}

#[test]
fn report_row_names_the_first_problem() {
    let problem = |text: &str| parse_and_print_report(&json(text)).unwrap_err();
    assert_eq!(problem(r#"{"task_id": "t"}"#).problem, ReportProblem::Id);
    let e = problem(r#"{"id": "r", "task_id": null}"#);
    assert_eq!(e.problem, ReportProblem::TaskId);
    assert_eq!(
        e.complaint,
        vec![
            "Report with id: r has an invalid property named: \"task_id\" with value: \"null\""
                .to_string(),
            ISSUE_HINT.to_string(),
        ]
    );
    let e = problem(r#"{"id": "r", "task_id": "t", "created_at": 12, "successful": true}"#);
    assert_eq!(e.problem, ReportProblem::CreatedAt);
    let e = problem(r#"{"id": "r", "task_id": "t", "created_at": "yesterday", "successful": true}"#);
    assert_eq!(e.problem, ReportProblem::CreatedAt);
    assert_eq!(
        e.complaint[0],
        "Report with id: r has an invalid property named: \"created_at\" with value: \"\"yesterday\"\""
    );
    let e = problem(
        r#"{"id": "r", "task_id": "t", "created_at": "2021-03-04T05:06:07", "successful": "yes"}"#,
    );
    assert_eq!(e.problem, ReportProblem::Successful);
}

#[test]
fn task_table_stops_at_the_first_problem() {
    let tasks = items(
        r#"[
        {"id": "1", "task_name": "one", "task_type": "CmdTask", "frequency": "Hook"},
        {"id": "2", "task_name": "two", "task_type": 3, "frequency": "Hook"},
        {"id": "3", "task_name": "three", "task_type": "CmdTask", "frequency": "Hook"}
    ]"#,
    );
    let listing = pretty_print_tasks(&tasks);
    assert_eq!(listing.lines.len(), 3);
    assert_eq!(listing.lines[0], format_and_print_task("Task ID", "Name", "Type", "Frequency"));
    assert_eq!(listing.lines[1], TASKS_RULE);
    assert_eq!(listing.lines[2], format_and_print_task("1", "one", "CmdTask", "Hook"));
    let rejected = listing.rejected.unwrap();
    assert_eq!(rejected.problem, TaskProblem::Type);
    assert_eq!(rejected.complaint.len(), 2);
}

#[test]
fn task_table_lists_every_task() {
    let tasks = items(
        r#"[
        {"id": "1", "task_name": "one", "task_type": "CmdTask", "frequency": "Hook"},
        {"id": "2", "task_name": "two", "task_type": "DockerTask", "frequency": "Every(* * * * * *)"}
    ]"#,
    );
    let listing = pretty_print_tasks(&tasks);
    assert!(listing.rejected.is_none());
    assert_eq!(listing.lines.len(), 4);
    assert_eq!(
        listing.lines[3],
        format_and_print_task("2", "two", "DockerTask", "Every(* * * * * *)")
    );
    let empty = pretty_print_tasks(&Vec::new());
    assert_eq!(empty.lines.len(), 2);
    assert!(empty.rejected.is_none());
}

#[test]
fn report_table_lists_reports_up_to_a_problem() {
    let reports = items(
        r#"[
        {"id": "a", "task_id": "1", "created_at": "2021-03-04T05:06:07", "successful": true},
        {"id": "b", "task_id": "1", "created_at": "2021-03-04T05:06:08", "successful": 1}
    ]"#,
    );
    let listing = pretty_print_reports(&reports);
    assert_eq!(listing.lines.len(), 3);
    assert_eq!(
        listing.lines[0],
        format_and_print_report("Report ID", "Task ID", "Executed At", "Did success")
    );
    assert_eq!(listing.lines[1], REPORTS_RULE);
    assert_eq!(
        listing.lines[2],
        format_and_print_report("a", "1", "2021-03-04 05:06:07 UTC", "true")
    );
    assert_eq!(listing.rejected.unwrap().problem, ReportProblem::Successful);
}

#[test]
fn complaints_quote_the_value_as_json() {
    assert_eq!(
        print_invalid_task_value("7", "task_name", &json("[1, \"x\"]")),
        vec![
            "Task with id: 7 has an invalid property named: \"task_name\" with value: \"[1,\"x\"]\""
                .to_string(),
            ISSUE_HINT.to_string(),
        ]
    );
    assert_eq!(
        print_invalid_report_value("r", "successful", &Json::Null)[0],
        "Report with id: r has an invalid property named: \"successful\" with value: \"null\""
    );
}

#[test]
fn failure_messages_keep_their_wording() {
    assert!(print_connection_failure().contains("Connection failed, please check your network"));
    assert!(print_stewardx_connection_failure().contains("Couldn't connect to StewardX."));
    assert!(print_json_failure().starts_with("Error while trying to parse response"));
}
