use stewardx_cli::api::{
    abort_task, abort_task_request, cmd_task_props, create_task, create_task_request, delete_task,
    delete_task_request, docker_source, docker_task_props, document, execute_task,
    execute_task_request, get_active_tasks, get_active_tasks_request, get_latest_reports,
    get_latest_reports_request, get_report, get_report_request, get_reports_for_task,
    get_reports_for_task_request, get_stewardx_url, get_task, get_task_request, get_tasks,
    get_tasks_request, list_reports, list_tasks, report_status, task_frequency, ApiFailure,
    DockerSource, Method, Reply, Request,
};
use stewardx_cli::json::Json;
use stewardx_cli::output::{format_and_print_report, format_and_print_task, TaskProblem};
use stewardx_cli::utils::FrequencyError;

fn body(text: &str) -> Reply {
    Reply::Body(text.as_bytes().to_vec())
}

fn get(url: &str) -> Request {
    Request { method: Method::Get, url: url.to_string(), body: None }
}

#[test]
fn service_url_prefers_the_full_setting() {
    assert_eq!(get_stewardx_url(Some("https://s:1"), Some("h"), Some("2")), "https://s:1");
    assert_eq!(get_stewardx_url(None, None, None), "http://localhost:3000");
    assert_eq!(get_stewardx_url(None, Some("box"), None), "http://box:3000");
    assert_eq!(get_stewardx_url(None, None, Some("8080")), "http://localhost:8080");
    assert_eq!(get_stewardx_url(None, Some("box"), Some("8080")), "http://box:8080");
}

#[test]
fn read_requests_have_no_body() {
    let base = "http://localhost:3000";
    assert_eq!(get_active_tasks_request(base), get("http://localhost:3000/activetasks"));
    assert_eq!(get_tasks_request(base), get("http://localhost:3000/tasks"));
    assert_eq!(get_task_request(base, "42"), get("http://localhost:3000/tasks/42"));
    assert_eq!(
        get_reports_for_task_request(base, "42"),
        get("http://localhost:3000/task/42/reports")
    );
    assert_eq!(get_latest_reports_request(base), get("http://localhost:3000/reports"));
    assert_eq!(get_report_request(base, "9"), get("http://localhost:3000/reports/9"));
    assert_eq!(
        execute_task_request(base, "42"),
        Request {
            method: Method::Post,
            url: "http://localhost:3000/execute/42".to_string(),
            body: None
        }
    );
}

#[test]
fn requests_that_name_a_task_carry_its_id() {
    assert_eq!(
        delete_task_request("http://h", "a\"b"),
        Request {
            method: Method::Delete,
            url: "http://h/tasks".to_string(),
            body: Some("{\"task_id\":\"a\\\"b\"}".to_string()),
        }
    );
    assert_eq!(
        abort_task_request("http://h", "42"),
        Request {
            method: Method::Post,
            url: "http://h/abort".to_string(),
            body: Some("{\"task_id\":\"42\"}".to_string()),
        }
    );
}

#[test]
fn creation_sends_type_name_frequency_and_properties() {
    let request =
        create_task_request("http://h", "CmdTask", "backup", "Hook", cmd_task_props("ls -l"));
    assert_eq!(request.method, Method::Post);
    assert_eq!(request.url, "http://h/tasks");
    assert_eq!(
        Json::parse(request.body.unwrap().as_bytes()).unwrap(),
        Json::parse(
            br#"{"task_type": "CmdTask", "task_name": "backup", "frequency": "Hook",
                 "task_props": {"command": "ls -l"}}"#
        )
        .unwrap()
    );
}

#[test]
fn docker_properties_capitalize_the_type() {
    let props = docker_task_props(
        "image",
        "alpine:latest",
        &vec!["A=1".to_string(), "B=2".to_string()],
    );
    assert_eq!(
        props.render(),
        r#"{"env":["A=1","B=2"],"image":{"c":"alpine:latest","t":"Image"}}"#
    );
    assert_eq!(
        docker_task_props("file", "FROM scratch", &Vec::new()).render(),
        r#"{"env":[],"image":{"c":"FROM scratch","t":"File"}}"#
    );
}

#[test]
fn docker_types_are_file_and_image() {
    assert_eq!(docker_source("file"), Some(DockerSource::File));
    assert_eq!(docker_source("image"), Some(DockerSource::Image));
    assert_eq!(docker_source("Image"), None);
    assert_eq!(docker_source(""), None);
}

#[test]
fn hook_frequency_is_kept_and_others_are_checked() {
    assert_eq!(task_frequency("Hook"), Ok("Hook".to_string()));
    assert_eq!(task_frequency("0 0 4 * * *"), Ok("Every(0 0 4 * * *)".to_string()));
    assert_eq!(task_frequency("hook"), Err(FrequencyError::FieldCount));
    assert_eq!(task_frequency("0 0 25 * * *"), Err(FrequencyError::Schedule));
}

#[test]
fn unreachable_service_is_a_connection_failure() {
    assert!(matches!(get_tasks(&Reply::Unreachable), Err(ApiFailure::Connection)));
    assert!(matches!(get_active_tasks(&Reply::Unreachable), Err(ApiFailure::Connection)));
    assert!(matches!(get_task(&Reply::Unreachable), Err(ApiFailure::Connection)));
    assert!(matches!(delete_task(&Reply::Unreachable), Err(ApiFailure::Connection)));
    assert!(matches!(execute_task(&Reply::Unreachable), Err(ApiFailure::Connection)));
    assert!(matches!(abort_task(&Reply::Unreachable), Err(ApiFailure::Connection)));
    assert!(matches!(create_task(&Reply::Unreachable), Err(ApiFailure::Connection)));
    assert!(matches!(get_reports_for_task(&Reply::Unreachable), Err(ApiFailure::Connection)));
    assert!(matches!(get_latest_reports(&Reply::Unreachable), Err(ApiFailure::Connection)));
    assert!(matches!(get_report(&Reply::Unreachable), Err(ApiFailure::Connection)));
    assert!(matches!(document(&Reply::Unreachable), Err(ApiFailure::Connection)));
}

#[test]
fn malformed_response_is_a_parse_failure() {
    assert!(matches!(get_tasks(&body("<html>")), Err(ApiFailure::Json(_))));
    assert!(matches!(get_task(&body("")), Err(ApiFailure::Json(_))));
    assert!(matches!(delete_task(&body("{")), Err(ApiFailure::Json(_))));
    assert!(matches!(get_latest_reports(&body("[1,")), Err(ApiFailure::Json(_))));
}

#[test]
fn tasks_are_shown_as_a_table() {
    let reply = body(
        r#"[{"id": "1", "task_name": "one", "task_type": "CmdTask", "frequency": "Hook"}]"#,
    );
    let listing = get_tasks(&reply).unwrap();
    assert_eq!(listing.lines.len(), 3);
    assert_eq!(listing.lines[2], format_and_print_task("1", "one", "CmdTask", "Hook"));
    assert!(listing.rejected.is_none());
    assert_eq!(get_active_tasks(&reply).unwrap().lines, listing.lines);
}

#[test]
fn a_document_that_is_no_array_lists_nothing() {
    let listing = get_tasks(&body(r#"{"error": "none"}"#)).unwrap();
    assert_eq!(listing.lines.len(), 2);
    assert!(listing.rejected.is_none());
    assert_eq!(list_tasks(&Json::Null).lines.len(), 2);
    assert_eq!(list_reports(&Json::Bool(true)).lines.len(), 2);
    assert_eq!(get_latest_reports(&body("3")).unwrap().lines.len(), 2);
}

#[test]
fn created_task_is_shown_as_a_table_of_one() {
    let listing = create_task(&body(
        r#"{"id": "1", "task_name": "one", "task_type": "CmdTask", "frequency": "Hook"}"#,
    ))
    .unwrap();
    assert_eq!(listing.lines.len(), 3);
    assert_eq!(listing.lines[2], format_and_print_task("1", "one", "CmdTask", "Hook"));
    let refused = create_task(&body(r#"{"id": "1", "error": "exists"}"#)).unwrap();
    assert_eq!(refused.lines.len(), 2);
    assert_eq!(refused.rejected.unwrap().problem, TaskProblem::Name);
}

#[test]
fn reports_are_shown_as_a_table() {
    let reply = body(
        r#"[{"id": "a", "task_id": "1", "created_at": "2021-03-04T05:06:07", "successful": true}]"#,
    );
    let listing = get_reports_for_task(&reply).unwrap();
    assert_eq!(
        listing.lines[2],
        format_and_print_report("a", "1", "2021-03-04 05:06:07 UTC", "true")
    );
    assert_eq!(get_latest_reports(&reply).unwrap().lines, listing.lines);
}

#[test]
fn single_documents_are_shown_indented() {
    assert_eq!(
        get_task(&body(r#"{"id":"1","tags":["a"]}"#)).unwrap(),
        "{\n  \"id\": \"1\",\n  \"tags\": [\n    \"a\"\n  ]\n}"
    );
    assert_eq!(get_report(&body("null")).unwrap(), "null");
}

#[test]
fn status_is_reported_for_each_command() {
    let ok = body(r#"{"status": "success"}"#);
    assert_eq!(delete_task(&ok).unwrap(), "Task deletion status: success");
    assert_eq!(execute_task(&ok).unwrap(), "Task execution status: success");
    assert_eq!(abort_task(&ok).unwrap(), "Task abortion status: success");
    let none = body(r#"{"status": 3}"#);
    assert_eq!(
        delete_task(&none).unwrap(),
        "Task deletion is failed, please check StewardX logs."
    );
    assert_eq!(
        execute_task(&body("[]")).unwrap(),
        "Task execution is failed, please check StewardX logs."
    );
    assert_eq!(
        report_status(&Json::Null, "abortion"),
        "Task abortion is failed, please check StewardX logs."
    );
}
