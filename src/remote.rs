use vstd::prelude::*;
use crate::changes::{PurgeRequest, PurgeRequestView};

verus! {

/// How a remote operation is sent: a read carries no body, a write carries one.
#[derive(Clone, Copy, Debug, PartialEq, Eq, Structural)]
pub enum Method {
    Read,
    Write,
}

/// One call of the remote administrative API.
pub enum Request {
    ListDatabases,
    ListChanges { database: String },
    Purge { database: String, request: PurgeRequest },
    Compact { database: String },
    CleanViews { database: String },
}

pub ghost enum RequestView {
    ListDatabases,
    ListChanges { database: Seq<char> },
    Purge { database: Seq<char>, request: PurgeRequestView },
    Compact { database: Seq<char> },
    CleanViews { database: Seq<char> },
}

impl View for Request {
    type V = RequestView;

    open spec fn view(&self) -> RequestView {
        match self {
            Request::ListDatabases => RequestView::ListDatabases,
            Request::ListChanges { database } => RequestView::ListChanges { database: database@ },
            Request::Purge { database, request } => RequestView::Purge {
                database: database@,
                request: request@,
            },
            Request::Compact { database } => RequestView::Compact { database: database@ },
            Request::CleanViews { database } => RequestView::CleanViews { database: database@ },
        }
    }
}

/// Purge is the one call that writes; every other call reads.
pub open spec fn method_of(r: RequestView) -> Method {
    if r is Purge {
        Method::Write
    } else {
        Method::Read
    }
}

/// The path of a call below the server's base address.
pub open spec fn path_of(r: RequestView) -> Seq<char> {
    match r {
        RequestView::ListDatabases => "/_all_dbs"@,
        RequestView::ListChanges { database } => "/"@ + database + "/_changes"@,
        RequestView::Purge { database, .. } => "/"@ + database + "/_purge"@,
        RequestView::Compact { database } => "/"@ + database + "/_compact"@,
        RequestView::CleanViews { database } => "/"@ + database + "/_view_cleanup"@,
    }
}

fn database_path(database: &String, suffix: &str) -> (r: String)
    ensures
        r@ == "/"@ + database@ + suffix@,
{
    let mut s = String::from_str("/");
    s.append(database.as_str());
    s.append(suffix);
    s
}

impl Request {
    pub fn method(&self) -> (r: Method)
        ensures
            r == method_of(self@),
    {
        match self {
            Request::Purge { .. } => Method::Write,
            _ => Method::Read,
        }
    }

    pub fn path(&self) -> (r: String)
        ensures
            r@ == path_of(self@),
    {
        match self {
            Request::ListDatabases => String::from_str("/_all_dbs"),
            Request::ListChanges { database } => database_path(database, "/_changes"),
            Request::Purge { database, .. } => database_path(database, "/_purge"),
            Request::Compact { database } => database_path(database, "/_compact"),
            Request::CleanViews { database } => database_path(database, "/_view_cleanup"),
        }
    }

    /// The full address of the call on the server at `base`.
    pub fn url(&self, base: &str) -> (r: String)
        ensures
            r@ == base@ + path_of(self@),
    {
        let mut s = String::from_str(base);
        let p = self.path();
        s.append(p.as_str());
        s
    }
}

} // verus!
