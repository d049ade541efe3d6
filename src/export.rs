//! The flat projection of a release for tabular export, and the choice of
//! the resource to export.
use vstd::prelude::*;
use vstd::string::StringExecFns;
use crate::error::HerokuruError;
use crate::model::{texts, Release, UtcTime};
use crate::page::digit_char;

verus! {

#[verifier::external_type_specification]
#[verifier::external_body]
pub struct ExJsonError(serde_json::Error);

/// A lowercase hexadecimal digit.
pub open spec fn hex_char(n: nat) -> char {
    if n < 10 {
        digit_char(n)
    } else if n == 10 {
        'a'
    } else if n == 11 {
        'b'
    } else if n == 12 {
        'c'
    } else if n == 13 {
        'd'
    } else if n == 14 {
        'e'
    } else {
        'f'
    }
}

/// How one character stands inside a JSON string: quote and backslash are
/// escaped, five control characters by their short escapes, the other
/// control characters as `\u00xx`; every other character as it is.
pub open spec fn json_escape(c: char) -> Seq<char> {
    if c == '"' {
        seq!['\\', '"']
    } else if c == '\\' {
        seq!['\\', '\\']
    } else if c == '\x08' {
        seq!['\\', 'b']
    } else if c == '\t' {
        seq!['\\', 't']
    } else if c == '\n' {
        seq!['\\', 'n']
    } else if c == '\x0c' {
        seq!['\\', 'f']
    } else if c == '\r' {
        seq!['\\', 'r']
    } else if (c as u32) < 32 {
        seq!['\\', 'u', '0', '0', hex_char((c as u32 / 16) as nat), hex_char((c as u32 % 16) as nat)]
    } else {
        seq![c]
    }
}

/// The characters of `s`, each escaped for a JSON string.
pub open spec fn json_escaped(s: Seq<char>) -> Seq<char>
    decreases s.len(),
{
    if s.len() == 0 {
        Seq::<char>::empty()
    } else {
        json_escaped(s.drop_last()) + json_escape(s.last())
    }
}

/// A JSON string literal.
pub open spec fn json_string(s: Seq<char>) -> Seq<char> {
    seq!['"'] + json_escaped(s) + seq!['"']
}

/// JSON string literals separated by commas.
pub open spec fn json_elements(items: Seq<Seq<char>>) -> Seq<char>
    decreases items.len(),
{
    if items.len() == 0 {
        Seq::<char>::empty()
    } else if items.len() == 1 {
        json_string(items[0])
    } else {
        json_elements(items.drop_last()) + seq![','] + json_string(items.last())
    }
}

/// The compact JSON text of an array of strings.
pub open spec fn json_string_list(items: Seq<Seq<char>>) -> Seq<char> {
    seq!['['] + json_elements(items) + seq![']']
}

/// Relies on `serde_json::to_string` on a list of strings: it cannot fail
/// there (only a failing `Serialize` impl or a map with non-string keys
/// fails), and it writes the compact array of the strings in order, each
/// escaped as its string serializer does.
#[verifier::external_body]
fn encode_names(names: &Vec<String>) -> (r: Result<String, serde_json::Error>)
    ensures
        r is Ok,
        r->Ok_0@ == json_string_list(texts(names@)),
{
    serde_json::to_string(names)
}

/// A release with its nested records collapsed to their salient fields, and
/// its add-on plan names as one JSON text.
#[derive(Debug, Clone, PartialEq, Eq)]
pub struct ReleaseCsv {
    pub id: String,
    pub version: i32,
    pub addon_plan_names: String,
    pub app: String,
    pub status: String,
    pub slug: Option<String>,
    pub user_email: String,
    pub current: bool,
    pub description: String,
    pub output_stream_url: Option<String>,
    pub created_at: UtcTime,
    pub updated_at: UtcTime,
}

/// Whether `c` is the projection of `r` with `plans` as its plan-name text.
pub open spec fn projects(r: Release, plans: Seq<char>, c: ReleaseCsv) -> bool {
    &&& c.id == r.id
    &&& c.version == r.version
    &&& c.addon_plan_names@ == plans
    &&& c.app == r.app.name
    &&& c.status == r.status
    &&& match r.slug {
        None => c.slug is None,
        Some(s) => c.slug == Some(s.id),
    }
    &&& c.user_email == r.user.email
    &&& c.current == r.current
    &&& c.description == r.description
    &&& c.output_stream_url == r.output_stream_url
    &&& c.created_at == r.created_at
    &&& c.updated_at == r.updated_at
}

fn copy_optional(s: &Option<String>) -> (r: Option<String>)
    ensures
        r == *s,
{
    match s {
        None => None,
        Some(x) => Some(x.clone()),
    }
}

impl ReleaseCsv {
    /// The projection of `release`, given the JSON text of its plan names.
    pub fn with_plan_names(release: &Release, plans: String) -> (r: ReleaseCsv)
        ensures
            projects(*release, plans@, r),
    {
        ReleaseCsv {
            id: release.id.clone(),
            version: release.version,
            addon_plan_names: plans,
            app: release.app.name.clone(),
            status: release.status.clone(),
            slug: match &release.slug {
                None => None,
                Some(s) => Some(s.id.clone()),
            },
            user_email: release.user.email.clone(),
            current: release.current,
            description: release.description.clone(),
            output_stream_url: copy_optional(&release.output_stream_url),
            created_at: release.created_at,
            updated_at: release.updated_at,
        }
    }

    /// The projection of `release`, its plan names encoded as a JSON array
    /// in their order.
    pub fn from_release(release: &Release) -> (r: ReleaseCsv)
        ensures
            projects(*release, json_string_list(texts(release.addon_plan_names@)), r),
    {
        let encoded = encode_names(&release.addon_plan_names);
        let plans = match encoded {
            Ok(plans) => plans,
            Err(_) => {
                proof {
                    assert(false);
                }
                String::new()
            },
        };
        ReleaseCsv::with_plan_names(release, plans)
    }
}

/// Equal releases project to equal rows: the plan-name text is the same on
/// every call, in the order of the list.
pub proof fn lemma_projection_deterministic(
    r1: Release,
    r2: Release,
    c1: ReleaseCsv,
    c2: ReleaseCsv,
)
    requires
        r1 == r2,
        projects(r1, json_string_list(texts(r1.addon_plan_names@)), c1),
        projects(r2, json_string_list(texts(r2.addon_plan_names@)), c2),
    ensures
        c1.addon_plan_names@ == c2.addon_plan_names@,
        c1.id == c2.id,
        c1.version == c2.version,
        c1.app == c2.app,
        c1.status == c2.status,
        c1.slug == c2.slug,
        c1.user_email == c2.user_email,
        c1.current == c2.current,
        c1.description == c2.description,
        c1.output_stream_url == c2.output_stream_url,
        c1.created_at == c2.created_at,
        c1.updated_at == c2.updated_at,
{
}

/// A resource that can be exported.
#[derive(Debug, Clone, Copy, PartialEq, Eq, Structural)]
pub enum Resource {
    Releases,
}

/// The resource named `name`: only `releases` is supported, any other name
/// gives `UnsupportedResource` with that name.
pub fn select_resource(name: &str) -> (r: Result<Resource, HerokuruError>)
    ensures
        name@ == "releases"@ ==> r == Ok::<Resource, HerokuruError>(Resource::Releases),
        name@ != "releases"@ ==> {
            &&& r is Err
            &&& r->Err_0 is UnsupportedResource
            &&& r->Err_0->UnsupportedResource_0@ == name@
        },
{
    proof {
        reveal_strlit("releases");
    }
    let given = String::from_str(name);
    let supported = String::from_str("releases");
    if given.eq(&supported) {
        Ok(Resource::Releases)
    } else {
        Err(HerokuruError::UnsupportedResource(given))
    }
}

} // verus!
