//! The five endpoints: the statement that each one runs, and the reply that
//! answers each outcome of running it.
//!
//! An endpoint that reads or writes users works in two steps. The caller asks
//! for the statement, runs it, and hands back what happened: the result, or the
//! failure. The endpoint turns that into the response to send and, where it
//! keeps a record of failures, the line to write to the log.

use crate::http::{ContentType, Response, ResponseView, Status};
use crate::json::{
    joined, user_document, user_documents, user_text, users_document, users_text,
};
use crate::model::{CreateUser, UpdateUser, User};
use crate::store::{
    lemma_names_row_by_row, rows_view, stored_name, stored_names, users_from_rows, ColumnView,
    DecodeError, Failure, FailureView, Link, Param, ParamView, Row, Statement, StatementView,
};
use vstd::prelude::*;
use vstd::string::StringExecFns;

verus! {

/// What an endpoint does in answer to a request.
#[derive(Debug, Clone, PartialEq, Eq)]
pub struct Reply {
    /// The response to send.
    pub response: Response,
    /// The line to write to the log, if there is one.
    pub log: Option<String>,
}

/// A reply as the contracts see it.
pub struct ReplyView {
    pub response: ResponseView,
    pub log: Option<Seq<char>>,
}

impl View for Reply {
    type V = ReplyView;

    open spec fn view(&self) -> ReplyView {
        ReplyView {
            response: self.response@,
            log: match self.log {
                Some(line) => Some(line@),
                None => None,
            },
        }
    }
}

/// Why a request never reached an endpoint.
#[derive(Debug, Clone, Copy, PartialEq, Eq, Structural)]
pub enum Rejection {
    /// The id in the path is no unsigned 32-bit number.
    Path,
    /// The body is not the JSON document that the endpoint takes.
    Payload,
    /// The body is larger than the service accepts.
    PayloadSize,
}

impl Rejection {
    /// The status that answers the rejection: 404 for a path, 400 for a body,
    /// 413 for a body that is too large.
    pub open spec fn answer(self) -> Status {
        match self {
            Rejection::Path => Status::NotFound,
            Rejection::Payload => Status::BadRequest,
            Rejection::PayloadSize => Status::PayloadTooLarge,
        }
    }

    /// The status that answers the rejection.
    pub fn status(&self) -> (status: Status)
        ensures
            status == self.answer(),
    {
        match self {
            Rejection::Path => Status::NotFound,
            Rejection::Payload => Status::BadRequest,
            Rejection::PayloadSize => Status::PayloadTooLarge,
        }
    }
}

/// The response to a request that was rejected: the status of the rejection,
/// with the reason as plain text.
pub open spec fn rejection(reason: Rejection, detail: Seq<char>) -> ResponseView {
    ResponseView { status: reason.answer(), content_type: ContentType::PlainText, body: detail }
}

/// The response to a failure: status 500 and the failure's message behind
/// `Error: `.
pub open spec fn reported(message: Seq<char>) -> ResponseView {
    ResponseView {
        status: Status::InternalServerError,
        content_type: ContentType::Unset,
        body: "Error: "@ + message,
    }
}

/// The greeting at the root.
pub open spec fn greeting() -> ResponseView {
    ResponseView {
        status: Status::Success,
        content_type: ContentType::Unset,
        body: "Hello, world!"@,
    }
}

/// The response to a creation.
pub open spec fn created() -> ResponseView {
    ResponseView { status: Status::Created, content_type: ContentType::Unset, body: Seq::empty() }
}

/// The response to an update that ran.
pub open spec fn updated() -> ResponseView {
    ResponseView {
        status: Status::Success,
        content_type: ContentType::Unset,
        body: "User updated successfully"@,
    }
}

/// The response that shows one user.
pub open spec fn shown(name: Seq<char>) -> ResponseView {
    ResponseView {
        status: Status::Success,
        content_type: ContentType::Json,
        body: user_document(name),
    }
}

/// The response that lists users by their names.
pub open spec fn listed(names: Seq<Seq<char>>) -> ResponseView {
    ResponseView {
        status: Status::Success,
        content_type: ContentType::Json,
        body: users_document(names),
    }
}

/// The response where nothing is found: no route for the request, or no user
/// with the id that was asked for.
pub open spec fn missing() -> ResponseView {
    ResponseView { status: Status::NotFound, content_type: ContentType::Unset, body: Seq::empty() }
}

/// A reply that leaves no line in the log.
pub open spec fn silent(response: ResponseView) -> ReplyView {
    ReplyView { response, log: None }
}

/// The reply to a failure that is logged: the failure's message goes to the
/// client, and its debug form goes to the log behind `context`.
pub open spec fn logged(context: Seq<char>, failure: FailureView) -> ReplyView {
    ReplyView { response: reported(failure.message), log: Some(context + failure.debug) }
}

/// What the update endpoint does in answer to an outcome of its statement.
pub open spec fn update_user_reply(outcome: Result<(), FailureView>) -> ReplyView {
    match outcome {
        Ok(_) => silent(updated()),
        Err(failure) => logged("Error updating user: "@, failure),
    }
}

/// What the list endpoint does in answer to an outcome of its statement.
pub open spec fn index_user_reply(outcome: Result<Seq<Seq<ColumnView>>, FailureView>) -> ReplyView {
    match outcome {
        Ok(rows) => match stored_names(rows) {
            Ok(names) => silent(listed(names)),
            Err(error) => logged("Error fetching users: "@, error.as_failure()),
        },
        Err(failure) => logged("Error fetching users: "@, failure),
    }
}

/// What the single-user endpoint does in answer to an outcome of its
/// statement.
pub open spec fn get_user_reply(outcome: Result<Option<Seq<char>>, FailureView>) -> ReplyView {
    match outcome {
        Ok(Some(name)) => silent(shown(name)),
        Ok(None) => silent(missing()),
        Err(failure) => silent(reported(failure.message)),
    }
}

/// An outcome without a result, as the contracts see it.
pub open spec fn done_view(outcome: Result<(), Failure>) -> Result<(), FailureView> {
    match outcome {
        Ok(_) => Ok(()),
        Err(failure) => Err(failure@),
    }
}

/// An outcome with rows, as the contracts see it.
pub open spec fn rows_outcome_view(outcome: Result<Vec<Row>, Failure>) -> Result<
    Seq<Seq<ColumnView>>,
    FailureView,
> {
    match outcome {
        Ok(rows) => Ok(rows_view(rows@)),
        Err(failure) => Err(failure@),
    }
}

/// An outcome with at most one user, as the contracts see it.
pub open spec fn user_outcome_view(outcome: Result<Option<User>, Failure>) -> Result<
    Option<Seq<char>>,
    FailureView,
> {
    match outcome {
        Ok(Some(user)) => Ok(Some(user@)),
        Ok(None) => Ok(None),
        Err(failure) => Err(failure@),
    }
}

/// Answers a request that was rejected before it reached an endpoint.
pub fn rejected(reason: Rejection, detail: &str) -> (response: Response)
    ensures
        response@ == rejection(reason, detail@),
{
    Response::plain_text(reason.status(), String::from_str(detail))
}

/// Answers a request that matches no route: 404 with no body.
pub fn unrouted() -> (response: Response)
    ensures
        response@ == missing(),
{
    Response::empty(Status::NotFound)
}

/// The response to a failure with this message.
pub fn failed(message: &str) -> (response: Response)
    ensures
        response@ == reported(message@),
{
    let mut body = String::from_str("Error: ");
    body.append(message);
    Response::raw(Status::InternalServerError, body)
}

/// Replies to a failure and logs it behind `context`.
pub fn failed_and_logged(context: &str, failure: &Failure) -> (reply: Reply)
    ensures
        reply@ == logged(context@, failure@),
{
    let mut line = String::from_str(context);
    line.append(failure.debug.as_str());
    Reply { response: failed(failure.message.as_str()), log: Some(line) }
}

/// Replies without a line in the log.
pub fn quietly(response: Response) -> (reply: Reply)
    ensures
        reply@ == silent(response@),
{
    Reply { response, log: None }
}

/// `GET /`: greets.
pub fn home() -> (reply: Reply)
    ensures
        reply@ == silent(greeting()),
{
    quietly(Response::raw(Status::Success, String::from_str("Hello, world!")))
}

/// The statement of `PUT /users/{id}`: gives the row with this id the
/// payload's name, on the shared connection.
pub fn update_user_statement(id: u32, payload: &UpdateUser) -> (statement: Statement)
    ensures
        statement@ == (StatementView {
            sql: "UPDATE users SET name = ?1 WHERE id = ?2"@,
            params: seq![ParamView::Text(payload@), ParamView::Integer(id as int)],
            link: Link::Shared,
        }),
{
    let mut params: Vec<Param> = Vec::new();
    params.push(Param::Text(payload.name.clone()));
    params.push(Param::Integer(id as i64));
    let statement = Statement {
        sql: String::from_str("UPDATE users SET name = ?1 WHERE id = ?2"),
        params,
        link: Link::Shared,
    };
    assert(statement@.params == seq![ParamView::Text(payload@), ParamView::Integer(id as int)]);
    statement
}

/// `PUT /users/{id}`: confirms an update whose statement ran, whether or not a
/// row had the id; reports one whose statement failed, and logs the failure.
pub fn update_user(outcome: Result<(), Failure>) -> (reply: Reply)
    ensures
        reply@ == update_user_reply(done_view(outcome)),
{
    match outcome {
        Ok(_) => quietly(
            Response::raw(Status::Success, String::from_str("User updated successfully")),
        ),
        Err(failure) => failed_and_logged("Error updating user: ", &failure),
    }
}

/// The statement of `GET /users`: every row of the table, on the shared
/// connection.
pub fn index_user_statement() -> (statement: Statement)
    ensures
        statement@ == (StatementView {
            sql: "SELECT * FROM users"@,
            params: Seq::empty(),
            link: Link::Shared,
        }),
{
    let statement = Statement {
        sql: String::from_str("SELECT * FROM users"),
        params: Vec::new(),
        link: Link::Shared,
    };
    assert(statement@.params == Seq::<ParamView>::empty());
    statement
}

/// `GET /users`: lists the users that the rows store, in the order of the
/// rows. A failure is reported and logged; a row that stores no name is a
/// failure like any other.
pub fn index_user(outcome: Result<Vec<Row>, Failure>) -> (reply: Reply)
    ensures
        reply@ == index_user_reply(rows_outcome_view(outcome)),
{
    match outcome {
        Ok(rows) => match users_from_rows(&rows) {
            Ok(users) => quietly(Response::json(Status::Success, users_text(&users))),
            Err(error) => failed_and_logged("Error fetching users: ", &error.failure()),
        },
        Err(failure) => failed_and_logged("Error fetching users: ", &failure),
    }
}

/// The statement of `GET /users/{id}`: the rows with this id, on the shared
/// connection.
pub fn get_user_statement(id: u32) -> (statement: Statement)
    ensures
        statement@ == (StatementView {
            sql: "SELECT * FROM users WHERE id = ?1"@,
            params: seq![ParamView::Integer(id as int)],
            link: Link::Shared,
        }),
{
    let mut params: Vec<Param> = Vec::new();
    params.push(Param::Integer(id as i64));
    let statement = Statement {
        sql: String::from_str("SELECT * FROM users WHERE id = ?1"),
        params,
        link: Link::Shared,
    };
    assert(statement@.params == seq![ParamView::Integer(id as int)]);
    statement
}

/// `GET /users/{id}`: shows the user that was found, answers 404 where no row
/// has the id, and reports a statement or a row that failed. Nothing is logged.
pub fn get_user(outcome: Result<Option<User>, Failure>) -> (reply: Reply)
    ensures
        reply@ == get_user_reply(user_outcome_view(outcome)),
{
    match outcome {
        Ok(Some(user)) => quietly(Response::json(Status::Success, user_text(&user))),
        Ok(None) => quietly(Response::empty(Status::NotFound)),
        Err(failure) => quietly(failed(failure.message.as_str())),
    }
}

/// The statement of `POST /users`: a new row with the payload's name. Unlike
/// the other statements it runs on a connection of its own, opened for the
/// request.
pub fn create_user_statement(payload: &CreateUser) -> (statement: Statement)
    ensures
        statement@ == (StatementView {
            sql: "INSERT into users (name) values (?)"@,
            params: seq![ParamView::Text(payload@)],
            link: Link::Fresh,
        }),
{
    let mut params: Vec<Param> = Vec::new();
    params.push(Param::Text(payload.name.clone()));
    let statement = Statement {
        sql: String::from_str("INSERT into users (name) values (?)"),
        params,
        link: Link::Fresh,
    };
    assert(statement@.params == seq![ParamView::Text(payload@)]);
    statement
}

/// `POST /users`: answers 201 with no body, whatever became of the statement,
/// and logs nothing.
pub fn create_user(outcome: Result<(), Failure>) -> (reply: Reply)
    ensures
        reply@ == silent(created()),
{
    quietly(Response::empty(Status::Created))
}

/// A rejected request is answered with a status from 400 to 499: a path whose
/// id is no number and a body that is no valid payload are the client's errors.
pub proof fn lemma_rejection_is_client_error(reason: Rejection, detail: Seq<char>)
    ensures
        rejection(reason, detail).status.client_error(),
        reason == Rejection::Path ==> rejection(reason, detail).status == Status::NotFound,
        reason == Rejection::Payload ==> rejection(reason, detail).status == Status::BadRequest,
{
}

/// A user that was created is listed under its exact name: where the table
/// holds a row whose name is the text that the creating statement bound, and
/// every row of the table stores a name, the list endpoint answers 200 with one
/// user object for each row, in the order of the rows, and the object at that
/// row's position is the one of this name.
pub proof fn lemma_created_user_is_listed(name: Seq<char>, rows: Seq<Seq<ColumnView>>, at: int)
    requires
        0 <= at < rows.len(),
        stored_name(rows[at]) == Ok::<Seq<char>, DecodeError>(name),
        forall|i: int| 0 <= i < rows.len() ==> (#[trigger] stored_name(rows[i])) is Ok,
    ensures
        stored_names(rows) is Ok,
        index_user_reply(Ok(rows)) == silent(listed(stored_names(rows)->Ok_0)),
        index_user_reply(Ok(rows)).response.status == Status::Success,
        stored_names(rows)->Ok_0.len() == rows.len(),
        stored_names(rows)->Ok_0[at] == name,
        user_documents(stored_names(rows)->Ok_0)[at] == user_document(name),
{
    lemma_names_row_by_row(rows);
}

/// An empty table is listed as the empty array.
pub proof fn lemma_no_rows_list_nothing()
    ensures
        index_user_reply(Ok(Seq::empty())) == silent(listed(Seq::empty())),
        listed(Seq::empty()).body == "[]"@,
{
    reveal_strlit("[");
    reveal_strlit("]");
    reveal_strlit("[]");
    assert(user_documents(Seq::empty()) == Seq::<Seq<char>>::empty());
    assert("["@ + joined(Seq::<Seq<char>>::empty()) + "]"@ == "[]"@);
}

/// The single-user endpoint answers a statement that ran with 200 or 404, never
/// with an error of the server: an id that no row has is no failure.
pub proof fn lemma_absent_user_is_not_found(found: Option<Seq<char>>)
    ensures
        get_user_reply(Ok(found)).response.status == if found is Some {
            Status::Success
        } else {
            Status::NotFound
        },
        get_user_reply(Ok(None)) == silent(missing()),
{
}

} // verus!
