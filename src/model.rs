//! The release record as the API returns it.
use vstd::prelude::*;

verus! {

/// An instant in UTC: whole seconds since the Unix epoch and the
/// nanoseconds past that second.
#[derive(Debug, Clone, Copy, PartialEq, Eq, Structural)]
pub struct UtcTime {
    pub seconds: i64,
    pub nanos: u32,
}

/// The application that a release belongs to.
#[derive(Debug, Clone, PartialEq, Eq)]
pub struct App {
    pub id: String,
    pub name: String,
}

/// The slug (compiled build) that a release runs.
#[derive(Debug, Clone, PartialEq, Eq)]
pub struct Slug {
    pub id: String,
}

/// The user who made a release.
#[derive(Debug, Clone, PartialEq, Eq)]
pub struct User {
    pub id: String,
    pub email: String,
}

/// One deployment event of an application.
#[derive(Debug, Clone, PartialEq, Eq)]
pub struct Release {
    pub id: String,
    pub addon_plan_names: Vec<String>,
    pub app: App,
    pub created_at: UtcTime,
    pub description: String,
    pub status: String,
    pub slug: Option<Slug>,
    pub updated_at: UtcTime,
    pub user: User,
    pub version: i32,
    pub current: bool,
    pub output_stream_url: Option<String>,
}

/// The plain text of each string of a list.
pub open spec fn texts(v: Seq<String>) -> Seq<Seq<char>> {
    v.map_values(|s: String| s@)
}

/// The versions of a sequence of releases, in order.
pub open spec fn versions(rs: Seq<Release>) -> Seq<i32> {
    rs.map_values(|r: Release| r.version)
}

} // verus!
