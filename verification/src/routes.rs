//! The route table: which method and path pattern lead to which endpoint.

use vstd::prelude::*;

verus! {

/// The request methods that the service routes.
#[derive(Debug, Clone, Copy, PartialEq, Eq, Structural)]
pub enum Method {
    Get,
    Post,
    Put,
}

/// The endpoints of the service.
#[derive(Debug, Clone, Copy, PartialEq, Eq, Structural)]
pub enum Endpoint {
    /// `GET /`
    Home,
    /// `PUT /users/{id}`
    UpdateUser,
    /// `GET /users`
    IndexUser,
    /// `GET /users/{id}`
    GetUser,
    /// `POST /users`
    CreateUser,
}

impl Endpoint {
    /// The method that the endpoint answers.
    pub open spec fn verb(self) -> Method {
        match self {
            Endpoint::Home => Method::Get,
            Endpoint::UpdateUser => Method::Put,
            Endpoint::IndexUser => Method::Get,
            Endpoint::GetUser => Method::Get,
            Endpoint::CreateUser => Method::Post,
        }
    }

    /// The path pattern of the endpoint; `{id}` stands for one segment.
    pub open spec fn path(self) -> Seq<char> {
        match self {
            Endpoint::Home => "/"@,
            Endpoint::IndexUser | Endpoint::CreateUser => "/users"@,
            Endpoint::UpdateUser | Endpoint::GetUser => "/users/{id}"@,
        }
    }

    /// The method that the endpoint is registered under.
    pub fn method(&self) -> (method: Method)
        ensures
            method == self.verb(),
    {
        match self {
            Endpoint::Home => Method::Get,
            Endpoint::UpdateUser => Method::Put,
            Endpoint::IndexUser => Method::Get,
            Endpoint::GetUser => Method::Get,
            Endpoint::CreateUser => Method::Post,
        }
    }

    /// The path pattern that the endpoint is registered under.
    pub fn pattern(&self) -> (pattern: &'static str)
        ensures
            pattern@ == self.path(),
    {
        match self {
            Endpoint::Home => "/",
            Endpoint::IndexUser | Endpoint::CreateUser => "/users",
            Endpoint::UpdateUser | Endpoint::GetUser => "/users/{id}",
        }
    }
}

/// The endpoints in the order in which the service registers them.
pub open spec fn table() -> Seq<Endpoint> {
    seq![
        Endpoint::Home,
        Endpoint::UpdateUser,
        Endpoint::IndexUser,
        Endpoint::GetUser,
        Endpoint::CreateUser,
    ]
}

/// All endpoints, in the order of their registration.
pub fn endpoints() -> (all: Vec<Endpoint>)
    ensures
        all@ == table(),
{
    let mut all: Vec<Endpoint> = Vec::new();
    all.push(Endpoint::Home);
    all.push(Endpoint::UpdateUser);
    all.push(Endpoint::IndexUser);
    all.push(Endpoint::GetUser);
    all.push(Endpoint::CreateUser);
    all
}

/// No two endpoints answer the same method on the same path pattern, so a
/// request that matches exactly is routed to one endpoint at most.
pub proof fn lemma_routes_are_distinct(a: Endpoint, b: Endpoint)
    requires
        a.verb() == b.verb(),
        a.path() == b.path(),
    ensures
        a == b,
{
    reveal_strlit("/");
    reveal_strlit("/users");
    reveal_strlit("/users/{id}");
    assert("/"@.len() == 1);
    assert("/users"@.len() == 6);
    assert("/users/{id}"@.len() == 11);
}

/// Every endpoint is in the table.
pub proof fn lemma_table_is_complete(endpoint: Endpoint)
    ensures
        table().contains(endpoint),
{
    let i: int = match endpoint {
        Endpoint::Home => 0,
        Endpoint::UpdateUser => 1,
        Endpoint::IndexUser => 2,
        Endpoint::GetUser => 3,
        Endpoint::CreateUser => 4,
    };
    assert(table()[i] == endpoint);
}

} // verus!
