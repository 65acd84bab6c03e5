//! The commands that talk to a running service: what each one requests, and what it makes
//! of the reply.
//!
//! For every command there is a function that builds the request and a function, under the
//! command's own name, that reads the reply. Sending is left to the caller.

use crate::json::{
    json_document, json_pretty_text, json_text, member_views, views, Json, JsonView, Member,
    MemberView, ParseFailure,
};
use crate::output::{
    is_report_listing, is_task_listing, pretty_print_reports, pretty_print_tasks, text_at,
    Listing, ReportProblem, TaskProblem,
};
use crate::text::same_text;
use crate::utils::{capitalize, capitalized, parse_cron_frequency, FrequencyError};
use crate::utils::{cron_accepts, cron_expression, every, field_count};
use vstd::prelude::*;

verus! {

/// The method of a request.
#[derive(Clone, Copy, Debug, PartialEq, Eq, Structural)]
pub enum Method {
    Get,
    Post,
    Delete,
}

/// A request to the service. A request without a body sends none.
#[derive(Debug, PartialEq, Eq)]
pub struct Request {
    pub method: Method,
    pub url: String,
    pub body: Option<String>,
}

/// The mathematical value of a [`Request`].
pub struct RequestView {
    pub method: Method,
    pub url: Seq<char>,
    pub body: Option<Seq<char>>,
}

impl View for Request {
    type V = RequestView;

    open spec fn view(&self) -> RequestView {
        RequestView {
            method: self.method,
            url: self.url@,
            body: match self.body {
                Some(b) => Some(b@),
                None => None,
            },
        }
    }
}

/// What came back for a request.
#[derive(Debug, PartialEq, Eq)]
pub enum Reply {
    /// The service could not be reached.
    Unreachable,
    /// The body of the response.
    Body(Vec<u8>),
}

/// Why a command has nothing to show.
#[derive(Debug)]
pub enum ApiFailure {
    /// The service could not be reached.
    Connection,
    /// The response is no JSON document, or cannot be written as one.
    Json(ParseFailure),
}

/// How a docker task gets its image.
#[derive(Clone, Copy, Debug, PartialEq, Eq, Structural)]
pub enum DockerSource {
    /// The contents name a Dockerfile, which is read and sent.
    File,
    /// The contents name an image.
    Image,
}

/// Where the service listens: the URL where one is set, else `http://{host}:{port}` with
/// `localhost` and `3000` for what is not set.
pub open spec fn stewardx_url(
    url: Option<Seq<char>>,
    host: Option<Seq<char>>,
    port: Option<Seq<char>>,
) -> Seq<char> {
    match url {
        Some(url) => url,
        None => "http://"@ + (match host {
            Some(host) => host,
            None => "localhost"@,
        }) + ":"@ + (match port {
            Some(port) => port,
            None => "3000"@,
        }),
    }
}

/// The view of an optional string.
pub open spec fn optional(s: Option<&str>) -> Option<Seq<char>> {
    match s {
        Some(s) => Some(s@),
        None => None,
    }
}

/// The body that names a task: `{"task_id": id}`.
pub open spec fn task_id_body(id: Seq<char>) -> JsonView {
    JsonView::Object(seq![MemberView { key: "task_id"@, value: JsonView::Text(id) }])
}

/// The body that describes a new task.
pub open spec fn new_task_body(
    task_type: Seq<char>,
    name: Seq<char>,
    frequency: Seq<char>,
    props: JsonView,
) -> JsonView {
    JsonView::Object(
        seq![
            MemberView { key: "task_type"@, value: JsonView::Text(task_type) },
            MemberView { key: "task_name"@, value: JsonView::Text(name) },
            MemberView { key: "frequency"@, value: JsonView::Text(frequency) },
            MemberView { key: "task_props"@, value: props },
        ],
    )
}

/// The properties of a command task: `{"command": command}`.
pub open spec fn cmd_props(command: Seq<char>) -> JsonView {
    JsonView::Object(seq![MemberView { key: "command"@, value: JsonView::Text(command) }])
}

/// A list of strings as JSON strings.
pub open spec fn json_texts(list: Seq<String>) -> Seq<JsonView> {
    Seq::new(list.len(), |i: int| JsonView::Text(list[i]@))
}

/// The properties of a docker task: the image by its capitalized kind and its contents,
/// and the environment.
pub open spec fn docker_props(
    docker_type: Seq<char>,
    contents: Seq<char>,
    environment: Seq<String>,
) -> JsonView {
    JsonView::Object(
        seq![
            MemberView {
                key: "image"@,
                value: JsonView::Object(
                    seq![
                        MemberView { key: "t"@, value: JsonView::Text(capitalized(docker_type)) },
                        MemberView { key: "c"@, value: JsonView::Text(contents) },
                    ],
                ),
            },
            MemberView { key: "env"@, value: JsonView::Array(json_texts(environment)) },
        ],
    )
}

/// The elements of a document that is an array; none for any other document.
pub open spec fn listed(doc: JsonView) -> Seq<JsonView> {
    match doc.items() {
        Some(items) => items,
        None => Seq::empty(),
    }
}

/// What the operator is told about a deletion, execution or abortion: the status that the
/// service gives, or that it gave none.
pub open spec fn status_line(doc: JsonView, what: Seq<char>) -> Seq<char> {
    match doc.at("status"@).text() {
        Some(status) => "Task "@ + what + " status: "@ + status,
        None => "Task "@ + what + " is failed, please check StewardX logs."@,
    }
}

/// Resolves where the service listens from the three settings.
pub fn get_stewardx_url(url: Option<&str>, host: Option<&str>, port: Option<&str>) -> (r: String)
    ensures
        r@ == stewardx_url(optional(url), optional(host), optional(port)),
{
    match url {
        Some(url) => url.to_owned(),
        None => {
            let mut r = "http://".to_owned();
            r.append(
                match host {
                    Some(host) => host,
                    None => "localhost",
                },
            );
            r.append(":");
            r.append(
                match port {
                    Some(port) => port,
                    None => "3000",
                },
            );
            r
        },
    }
}

/// A request without a body for `base` followed by `path`.
fn plain(method: Method, base: &str, path: &str) -> (r: Request)
    ensures
        r@ == (RequestView { method, url: base@ + path@, body: None }),
{
    let mut url = base.to_owned();
    url.append(path);
    Request { method, url, body: None }
}

/// A request without a body for `base` followed by `path`, `id` and `tail`.
fn plain_for(method: Method, base: &str, path: &str, id: &str, tail: &str) -> (r: Request)
    ensures
        r@ == (RequestView { method, url: base@ + path@ + id@ + tail@, body: None }),
{
    let mut url = base.to_owned();
    url.append(path);
    url.append(id);
    url.append(tail);
    Request { method, url, body: None }
}

/// A request for `base` followed by `path` whose body names a task.
fn naming(method: Method, base: &str, path: &str, id: &str) -> (r: Request)
    ensures
        r@ == (RequestView {
            method,
            url: base@ + path@,
            body: Some(json_text(task_id_body(id@))),
        }),
{
    let mut url = base.to_owned();
    url.append(path);
    let mut members: Vec<Member> = Vec::new();
    members.push(Member::new("task_id", Json::text(id)));
    let body = Json::object(members);
    assert(body@ == task_id_body(id@)) by {
        assert(member_views(members@) =~= seq![
            MemberView { key: "task_id"@, value: JsonView::Text(id@) },
        ]);
    }
    Request { method, url, body: Some(body.render()) }
}

/// Asks for the tasks that are active.
pub fn get_active_tasks_request(base: &str) -> (r: Request)
    ensures
        r@ == (RequestView { method: Method::Get, url: base@ + "/activetasks"@, body: None }),
{
    plain(Method::Get, base, "/activetasks")
}

/// Asks for all tasks.
pub fn get_tasks_request(base: &str) -> (r: Request)
    ensures
        r@ == (RequestView { method: Method::Get, url: base@ + "/tasks"@, body: None }),
{
    plain(Method::Get, base, "/tasks")
}

/// Asks for one task.
pub fn get_task_request(base: &str, id: &str) -> (r: Request)
    ensures
        r@ == (RequestView { method: Method::Get, url: base@ + "/tasks/"@ + id@, body: None }),
{
    let r = plain_for(Method::Get, base, "/tasks/", id, "");
    proof {
        reveal_strlit("");
        assert(base@ + "/tasks/"@ + id@ + ""@ =~= base@ + "/tasks/"@ + id@);
    }
    r
}

/// Asks for a task to be deleted.
pub fn delete_task_request(base: &str, id: &str) -> (r: Request)
    ensures
        r@ == (RequestView {
            method: Method::Delete,
            url: base@ + "/tasks"@,
            body: Some(json_text(task_id_body(id@))),
        }),
{
    naming(Method::Delete, base, "/tasks", id)
}

/// Asks for a task to be executed now.
pub fn execute_task_request(base: &str, id: &str) -> (r: Request)
    ensures
        r@ == (RequestView { method: Method::Post, url: base@ + "/execute/"@ + id@, body: None }),
{
    let r = plain_for(Method::Post, base, "/execute/", id, "");
    proof {
        reveal_strlit("");
        assert(base@ + "/execute/"@ + id@ + ""@ =~= base@ + "/execute/"@ + id@);
    }
    r
}

/// Asks for a running task to be aborted.
pub fn abort_task_request(base: &str, id: &str) -> (r: Request)
    ensures
        r@ == (RequestView {
            method: Method::Post,
            url: base@ + "/abort"@,
            body: Some(json_text(task_id_body(id@))),
        }),
{
    naming(Method::Post, base, "/abort", id)
}

/// Asks for a task to be created.
pub fn create_task_request(
    base: &str,
    task_type: &str,
    name: &str,
    frequency: &str,
    props: Json,
) -> (r: Request)
    ensures
        r@ == (RequestView {
            method: Method::Post,
            url: base@ + "/tasks"@,
            body: Some(json_text(new_task_body(task_type@, name@, frequency@, props@))),
        }),
{
    let mut url = base.to_owned();
    url.append("/tasks");
    let ghost props_view = props@;
    let mut members: Vec<Member> = Vec::new();
    members.push(Member::new("task_type", Json::text(task_type)));
    members.push(Member::new("task_name", Json::text(name)));
    members.push(Member::new("frequency", Json::text(frequency)));
    members.push(Member::new("task_props", props));
    let body = Json::object(members);
    assert(body@ == new_task_body(task_type@, name@, frequency@, props_view)) by {
        assert(member_views(members@) =~= seq![
            MemberView { key: "task_type"@, value: JsonView::Text(task_type@) },
            MemberView { key: "task_name"@, value: JsonView::Text(name@) },
            MemberView { key: "frequency"@, value: JsonView::Text(frequency@) },
            MemberView { key: "task_props"@, value: props_view },
        ]);
    }
    Request { method: Method::Post, url, body: Some(body.render()) }
}

/// Asks for the reports of one task.
pub fn get_reports_for_task_request(base: &str, id: &str) -> (r: Request)
    ensures
        r@ == (RequestView {
            method: Method::Get,
            url: base@ + "/task/"@ + id@ + "/reports"@,
            body: None,
        }),
{
    plain_for(Method::Get, base, "/task/", id, "/reports")
}

/// Asks for the latest reports.
pub fn get_latest_reports_request(base: &str) -> (r: Request)
    ensures
        r@ == (RequestView { method: Method::Get, url: base@ + "/reports"@, body: None }),
{
    plain(Method::Get, base, "/reports")
}

/// Asks for one report.
pub fn get_report_request(base: &str, id: &str) -> (r: Request)
    ensures
        r@ == (RequestView { method: Method::Get, url: base@ + "/reports/"@ + id@, body: None }),
{
    let r = plain_for(Method::Get, base, "/reports/", id, "");
    proof {
        reveal_strlit("");
        assert(base@ + "/reports/"@ + id@ + ""@ =~= base@ + "/reports/"@ + id@);
    }
    r
}

/// The document in a reply.
pub fn document(reply: &Reply) -> (r: Result<Json, ApiFailure>)
    ensures
        match reply {
            Reply::Unreachable => r matches Err(ApiFailure::Connection),
            Reply::Body(body) => match r {
                Ok(doc) => json_document(body@) == Some(doc@),
                Err(e) => e is Json && json_document(body@) is None,
            },
        },
{
    match reply {
        Reply::Unreachable => Err(ApiFailure::Connection),
        Reply::Body(body) => match Json::parse(body.as_slice()) {
            Ok(doc) => Ok(doc),
            Err(e) => Err(ApiFailure::Json(e)),
        },
    }
}

/// The table of the tasks in a document: of its elements if it is an array, of none if not.
pub fn list_tasks(doc: &Json) -> (r: Listing<TaskProblem>)
    ensures
        is_task_listing(r, listed(doc@)),
{
    match doc.as_array() {
        Some(tasks) => pretty_print_tasks(tasks),
        None => {
            let tasks: Vec<Json> = Vec::new();
            assert(views(tasks@) =~= Seq::empty());
            pretty_print_tasks(&tasks)
        },
    }
}

/// The table of the reports in a document: of its elements if it is an array, of none if not.
pub fn list_reports(doc: &Json) -> (r: Listing<ReportProblem>)
    ensures
        is_report_listing(r, listed(doc@)),
{
    match doc.as_array() {
        Some(reports) => pretty_print_reports(reports),
        None => {
            let reports: Vec<Json> = Vec::new();
            assert(views(reports@) =~= Seq::empty());
            pretty_print_reports(&reports)
        },
    }
}

/// What the operator is told about the status in a document.
pub fn report_status(doc: &Json, what: &str) -> (r: String)
    ensures
        r@ == status_line(doc@, what@),
{
    let mut r = "Task ".to_owned();
    r.append(what);
    match text_at(doc, "status") {
        Some(status) => {
            r.append(" status: ");
            r.append(status);
        },
        None => {
            r.append(" is failed, please check StewardX logs.");
        },
    }
    r
}

/// What a reply must be for a command that shows a table of tasks.
pub open spec fn is_task_table(
    reply: Reply,
    r: Result<Listing<TaskProblem>, ApiFailure>,
    tasks: spec_fn(JsonView) -> Seq<JsonView>,
) -> bool {
    match reply {
        Reply::Unreachable => r matches Err(ApiFailure::Connection),
        Reply::Body(body) => match json_document(body@) {
            None => r matches Err(ApiFailure::Json(_)),
            Some(doc) => r matches Ok(listing) && is_task_listing(listing, tasks(doc)),
        },
    }
}

/// What a reply must be for a command that shows a table of reports.
pub open spec fn is_report_table(reply: Reply, r: Result<Listing<ReportProblem>, ApiFailure>) -> bool {
    match reply {
        Reply::Unreachable => r matches Err(ApiFailure::Connection),
        Reply::Body(body) => match json_document(body@) {
            None => r matches Err(ApiFailure::Json(_)),
            Some(doc) => r matches Ok(listing) && is_report_listing(listing, listed(doc)),
        },
    }
}

/// What a reply must be for a command that shows a document as it is.
pub open spec fn is_shown(reply: Reply, r: Result<String, ApiFailure>) -> bool {
    match reply {
        Reply::Unreachable => r matches Err(ApiFailure::Connection),
        Reply::Body(body) => match json_document(body@) {
            None => r matches Err(ApiFailure::Json(_)),
            Some(doc) => match json_pretty_text(doc) {
                None => r matches Err(ApiFailure::Json(_)),
                Some(text) => r matches Ok(s) && s@ == text,
            },
        },
    }
}

/// What a reply must be for a command that shows a status.
pub open spec fn is_status(reply: Reply, r: Result<String, ApiFailure>, what: Seq<char>) -> bool {
    match reply {
        Reply::Unreachable => r matches Err(ApiFailure::Connection),
        Reply::Body(body) => match json_document(body@) {
            None => r matches Err(ApiFailure::Json(_)),
            Some(doc) => r matches Ok(s) && s@ == status_line(doc, what),
        },
    }
}

/// Shows the document of a reply as indented JSON.
fn show(reply: &Reply) -> (r: Result<String, ApiFailure>)
    ensures
        is_shown(*reply, r),
{
    let doc = document(reply)?;
    match doc.render_pretty() {
        Ok(text) => Ok(text),
        Err(e) => Err(ApiFailure::Json(e)),
    }
}

/// Shows the status in the document of a reply.
fn status(reply: &Reply, what: &str) -> (r: Result<String, ApiFailure>)
    ensures
        is_status(*reply, r, what@),
{
    let doc = document(reply)?;
    Ok(report_status(&doc, what))
}

/// Shows the tasks that are active as a table.
pub fn get_active_tasks(reply: &Reply) -> (r: Result<Listing<TaskProblem>, ApiFailure>)
    ensures
        is_task_table(*reply, r, |doc: JsonView| listed(doc)),
{
    let doc = document(reply)?;
    Ok(list_tasks(&doc))
}

/// Shows all tasks as a table.
pub fn get_tasks(reply: &Reply) -> (r: Result<Listing<TaskProblem>, ApiFailure>)
    ensures
        is_task_table(*reply, r, |doc: JsonView| listed(doc)),
{
    let doc = document(reply)?;
    Ok(list_tasks(&doc))
}

/// Shows one task as indented JSON.
pub fn get_task(reply: &Reply) -> (r: Result<String, ApiFailure>)
    ensures
        is_shown(*reply, r),
{
    show(reply)
}

/// Shows how the deletion of a task went.
pub fn delete_task(reply: &Reply) -> (r: Result<String, ApiFailure>)
    ensures
        is_status(*reply, r, "deletion"@),
{
    status(reply, "deletion")
}

/// Shows how the execution of a task went.
pub fn execute_task(reply: &Reply) -> (r: Result<String, ApiFailure>)
    ensures
        is_status(*reply, r, "execution"@),
{
    status(reply, "execution")
}

/// Shows how the abortion of a task went.
pub fn abort_task(reply: &Reply) -> (r: Result<String, ApiFailure>)
    ensures
        is_status(*reply, r, "abortion"@),
{
    status(reply, "abortion")
}

/// Shows the task that was created as a table of one line.
pub fn create_task(reply: &Reply) -> (r: Result<Listing<TaskProblem>, ApiFailure>)
    ensures
        is_task_table(*reply, r, |doc: JsonView| seq![doc]),
{
    let doc = document(reply)?;
    let ghost created = doc@;
    let mut tasks: Vec<Json> = Vec::new();
    tasks.push(doc);
    assert(views(tasks@) =~= seq![created]);
    Ok(pretty_print_tasks(&tasks))
}

/// Shows the reports of one task as a table.
pub fn get_reports_for_task(reply: &Reply) -> (r: Result<Listing<ReportProblem>, ApiFailure>)
    ensures
        is_report_table(*reply, r),
{
    let doc = document(reply)?;
    Ok(list_reports(&doc))
}

/// Shows the latest reports as a table.
pub fn get_latest_reports(reply: &Reply) -> (r: Result<Listing<ReportProblem>, ApiFailure>)
    ensures
        is_report_table(*reply, r),
{
    let doc = document(reply)?;
    Ok(list_reports(&doc))
}

/// Shows one report as indented JSON.
pub fn get_report(reply: &Reply) -> (r: Result<String, ApiFailure>)
    ensures
        is_shown(*reply, r),
{
    show(reply)
}

/// The frequency of a new task as the service wants it: `Hook` as it is, anything else as a
/// checked cron frequency.
pub fn task_frequency(frequency: &str) -> (r: Result<String, FrequencyError>)
    ensures
        frequency@ == "Hook"@ ==> (r matches Ok(s) && s@ == "Hook"@),
        frequency@ != "Hook"@ ==> match r {
            Ok(s) => {
                &&& field_count(cron_expression(frequency@)) == 6
                &&& cron_accepts(cron_expression(frequency@))
                &&& s@ == every(cron_expression(frequency@))
            },
            Err(FrequencyError::FieldCount) => field_count(cron_expression(frequency@)) != 6,
            Err(FrequencyError::Schedule) => {
                &&& field_count(cron_expression(frequency@)) == 6
                &&& !cron_accepts(cron_expression(frequency@))
            },
        },
{
    if same_text(frequency, "Hook") {
        Ok(frequency.to_owned())
    } else {
        parse_cron_frequency(frequency)
    }
}

/// How a docker task of this type gets its image; `None` for a type that is neither `file`
/// nor `image`.
pub fn docker_source(docker_type: &str) -> (r: Option<DockerSource>)
    ensures
        r == if docker_type@ == "file"@ {
            Some(DockerSource::File)
        } else if docker_type@ == "image"@ {
            Some(DockerSource::Image)
        } else {
            None
        },
{
    if same_text(docker_type, "file") {
        Some(DockerSource::File)
    } else if same_text(docker_type, "image") {
        Some(DockerSource::Image)
    } else {
        None
    }
}

/// The properties of a command task.
pub fn cmd_task_props(command: &str) -> (r: Json)
    ensures
        r@ == cmd_props(command@),
{
    let mut members: Vec<Member> = Vec::new();
    members.push(Member::new("command", Json::text(command)));
    let r = Json::object(members);
    assert(member_views(members@) =~= seq![
        MemberView { key: "command"@, value: JsonView::Text(command@) },
    ]);
    r
}

/// The properties of a docker task.
pub fn docker_task_props(docker_type: &str, contents: &str, environment: &Vec<String>) -> (r: Json)
    ensures
        r@ == docker_props(docker_type@, contents@, environment@),
{
    let mut variables: Vec<Json> = Vec::new();
    let mut i: usize = 0;
    while i < environment.len()
        invariant
            i <= environment.len(),
            variables@.len() == i,
            forall|j: int| 0 <= j < i ==> (#[trigger] variables@[j])@ == JsonView::Text(environment@[j]@),
        decreases environment.len() - i,
    {
        variables.push(Json::text(environment[i].as_str()));
        i += 1;
    }
    assert(views(variables@) =~= json_texts(environment@));
    let kind = capitalize(docker_type);
    let mut image: Vec<Member> = Vec::new();
    image.push(Member::new("t", Json::text(kind.as_str())));
    image.push(Member::new("c", Json::text(contents)));
    assert(member_views(image@) =~= seq![
        MemberView { key: "t"@, value: JsonView::Text(capitalized(docker_type@)) },
        MemberView { key: "c"@, value: JsonView::Text(contents@) },
    ]);
    let image_view = Ghost(member_views(image@));
    let mut members: Vec<Member> = Vec::new();
    members.push(Member::new("image", Json::object(image)));
    members.push(Member::new("env", Json::array(variables)));
    let r = Json::object(members);
    assert(member_views(members@) =~= seq![
        MemberView { key: "image"@, value: JsonView::Object(image_view@) },
        MemberView { key: "env"@, value: JsonView::Array(json_texts(environment@)) },
    ]);
    r
}

} // verus!
