use herokuru::client::{Herokuru, HerokuruBuilder, ACCEPT_MEDIA_TYPE, DEFAULT_BASE_URL, USER_AGENT};
use herokuru::error::{ErrorKind, HerokuruError};
use herokuru::export::{select_resource, ReleaseCsv, Resource};
use herokuru::fetch::{FetchOutcome, HttpGet, ReleaseWalk, ReleasesRequest, ReleasesResponse};
use herokuru::model::{App, Release, Slug, User, UtcTime};
use herokuru::page::{decimal_string, Page};

fn release(version: i32, plans: &[&str]) -> Release {
    Release {
        id: format!("01234567-89ab-cdef-0123-4567890abc{:02}", version),
        addon_plan_names: plans.iter().map(|p| p.to_string()).collect(),
        app: App { id: "app-id".to_string(), name: "acme-app".to_string() },
        created_at: UtcTime { seconds: 1_600_000_000, nanos: 0 },
        description: format!("Deploy v{}", version),
        status: "succeeded".to_string(),
        slug: Some(Slug { id: "slug-id".to_string() }),
        updated_at: UtcTime { seconds: 1_600_000_100, nanos: 500 },
        user: User { id: "user-id".to_string(), email: "dev@example.com".to_string() },
        version,
        current: version == 42,
        output_stream_url: None,
    }
}

fn client() -> Herokuru {
    Herokuru::builder().token("SECRET-REDACTED".to_string()).build().unwrap()
}

fn ok_page(next: Option<&str>, body: Vec<Release>) -> FetchOutcome {
    FetchOutcome::Received {
        status: 200,
        next_range: next.map(|s| s.as_bytes().to_vec()),
        body: Some(body),
    }
}

#[test]
fn range_format_is_exact() {
    assert_eq!(Page::gen_range_format("version", "desc", 1000), "version ; order=desc,max=1000");
    assert_eq!(Page::gen_range_format("created_at", "asc", 0), "created_at ; order=asc,max=0");
    assert_eq!(Page::new("id", "asc", 25).range_format(), "id ; order=asc,max=25");
    assert_eq!(Page::first_releases().range_format(), "version ; order=desc,max=1000");
}

#[test]
fn decimal_rendering() {
    assert_eq!(decimal_string(0), "0");
    assert_eq!(decimal_string(7), "7");
    assert_eq!(decimal_string(10), "10");
    assert_eq!(decimal_string(4_294_967_295), "4294967295");
}

#[test]
fn issued_cursor_renders_verbatim() {
    let p = Page::from_next_range("]id ; max=20".to_string());
    assert_eq!(p.range_format(), "]id ; max=20");
    assert_eq!(p.duplicate(), p);
}

#[test]
fn list_without_cursor_fetches_nothing() {
    let h = client();
    let req = h.releases("acme-app".to_string());
    assert_eq!(req.list(None), Ok(None));
}

#[test]
fn list_with_cursor_plans_one_get() {
    let h = client();
    let req = h.releases("acme-app".to_string());
    assert_eq!(req.path(), "apps/acme-app/releases");
    let plan = req.first_list().unwrap().unwrap();
    assert_eq!(
        plan,
        HttpGet {
            path: "apps/acme-app/releases".to_string(),
            range: "version ; order=desc,max=1000".to_string(),
        }
    );
}

#[test]
fn unencodable_range_is_rejected() {
    let h = client();
    let req = h.releases("acme-app".to_string());
    let err = req.list(Some(Page::new("ver\nsion", "desc", 10))).unwrap_err();
    assert_eq!(err, HerokuruError::InvalidRange);
    assert_eq!(err.kind(), ErrorKind::Configuration);
}

#[test]
fn next_range_is_forwarded_verbatim() {
    let header = "version ; order=desc,max=1000";
    let res = ReleasesRequest::complete(ok_page(Some(header), vec![release(42, &[])])).unwrap();
    let next = res.next.clone().unwrap();
    assert_eq!(next, Page::Issued { range: header.to_string() });
    assert_eq!(next.range_format().as_bytes(), header.as_bytes());
    let h = client();
    let req = h.releases("acme-app".to_string());
    let plan = req.list(res.next).unwrap().unwrap();
    assert_eq!(plan.range, header);
}

#[test]
fn missing_next_range_ends_the_walk_after_one_fetch() {
    let h = client();
    let req = h.releases("acme-app".to_string());
    let mut walk = ReleaseWalk::start();
    let mut rounds = 0;
    while let Some(_get) = walk.next_request(&req).unwrap() {
        rounds += 1;
        let res = ReleasesRequest::complete(ok_page(None, vec![release(1, &[])])).unwrap();
        assert!(res.next.is_none());
        walk.advance(res);
    }
    assert_eq!(rounds, 1);
    assert_eq!(walk.fetches, 1);
    assert!(walk.is_done());
}

#[test]
fn two_pages_yield_all_releases_newest_first() {
    let h = client();
    let req = h.releases("acme-app".to_string());
    let mut pages = vec![
        ok_page(None, vec![release(40, &[])]),
        ok_page(Some("version ..; order=desc,max=2"), vec![release(42, &[]), release(41, &[])]),
    ];
    let mut walk = ReleaseWalk::start();
    let mut seen = Vec::new();
    let mut ranges = Vec::new();
    while let Some(get) = walk.next_request(&req).unwrap() {
        assert_eq!(get.path, "apps/acme-app/releases");
        ranges.push(get.range);
        let res = ReleasesRequest::complete(pages.pop().unwrap()).unwrap();
        for r in walk.advance(res) {
            seen.push(r.version);
        }
    }
    assert_eq!(seen, vec![42, 41, 40]);
    assert_eq!(walk.fetches, 2);
    assert_eq!(
        ranges,
        vec!["version ; order=desc,max=1000".to_string(), "version ..; order=desc,max=2".to_string()]
    );
}

#[test]
fn malformed_body_is_a_protocol_error() {
    let outcome = FetchOutcome::Received { status: 200, next_range: None, body: None };
    let err = ReleasesRequest::complete(outcome).unwrap_err();
    assert_eq!(err, HerokuruError::MalformedBody);
    assert_eq!(err.kind(), ErrorKind::Protocol);
}

#[test]
fn transport_failure_is_reported() {
    let err = ReleasesRequest::complete(FetchOutcome::TransportFailed).unwrap_err();
    assert_eq!(err, HerokuruError::Transport);
    assert_eq!(err.kind(), ErrorKind::Transport);
}

#[test]
fn non_success_status_is_a_protocol_error() {
    let outcome = FetchOutcome::Received { status: 404, next_range: None, body: Some(vec![]) };
    let err = ReleasesRequest::complete(outcome).unwrap_err();
    assert_eq!(err, HerokuruError::HttpStatus(404));
    assert_eq!(err.kind(), ErrorKind::Protocol);
    let outcome = FetchOutcome::Received { status: 206, next_range: None, body: Some(vec![]) };
    assert!(ReleasesRequest::complete(outcome).is_ok());
}

#[test]
fn unreadable_next_range_is_a_protocol_error() {
    for bytes in [vec![b'a', 0x01], vec![0xc3, 0xa9], vec![b'x', 127]] {
        let outcome =
            FetchOutcome::Received { status: 200, next_range: Some(bytes), body: Some(vec![]) };
        let err = ReleasesRequest::complete(outcome).unwrap_err();
        assert_eq!(err, HerokuruError::BadNextRange);
        assert_eq!(err.kind(), ErrorKind::Protocol);
    }
}

#[test]
fn empty_page_is_not_an_error() {
    let res = ReleasesRequest::complete(ok_page(None, vec![])).unwrap();
    assert_eq!(res, ReleasesResponse { releases: vec![], next: None });
}

#[test]
fn projection_encodes_plan_names_as_json() {
    let r = release(42, &["std-1x", "heroku-postgresql:hobby-dev"]);
    let row = ReleaseCsv::from_release(&r);
    assert_eq!(row.addon_plan_names, r#"["std-1x","heroku-postgresql:hobby-dev"]"#);
    assert_eq!(row.app, "acme-app");
    assert_eq!(row.user_email, "dev@example.com");
    assert_eq!(row.slug, Some("slug-id".to_string()));
    assert_eq!(row.version, 42);
    assert_eq!(row.id, r.id);
    assert_eq!(row.created_at, r.created_at);
    assert_eq!(row.updated_at, r.updated_at);
    assert!(row.current);
}

#[test]
fn projection_escapes_and_keeps_empty_lists() {
    let r = release(3, &[]);
    assert_eq!(ReleaseCsv::from_release(&r).addon_plan_names, "[]");
    let mut r = release(3, &["a\"b"]);
    r.slug = None;
    r.output_stream_url = Some("https://example.com/stream".to_string());
    let row = ReleaseCsv::from_release(&r);
    assert_eq!(row.addon_plan_names, r#"["a\"b"]"#);
    let controls = release(4, &["t\tn\n\u{1}\\", "é\u{7f}", ""]);
    assert_eq!(
        ReleaseCsv::from_release(&controls).addon_plan_names,
        "[\"t\\tn\\n\\u0001\\\\\",\"é\u{7f}\",\"\"]"
    );
    assert_eq!(row.slug, None);
    assert_eq!(row.output_stream_url, Some("https://example.com/stream".to_string()));
}

#[test]
fn projection_with_given_plan_text() {
    let r = release(5, &["x"]);
    let row = ReleaseCsv::with_plan_names(&r, "PLANS".to_string());
    assert_eq!(row.addon_plan_names, "PLANS");
    assert_eq!(row.description, "Deploy v5");
    assert_eq!(row.status, "succeeded");
}

#[test]
fn only_releases_can_be_exported() {
    assert_eq!(select_resource("releases"), Ok(Resource::Releases));
    let err = select_resource("deployments").unwrap_err();
    assert_eq!(err, HerokuruError::UnsupportedResource("deployments".to_string()));
    assert_eq!(err.kind(), ErrorKind::UnsupportedResource);
    assert!(select_resource("Releases").is_err());
    assert!(select_resource("").is_err());
}

#[test]
fn builder_sets_fixed_headers() {
    let h = client();
    assert_eq!(h.authorization, "Bearer SECRET-REDACTED");
    assert_eq!(h.accept, ACCEPT_MEDIA_TYPE);
    assert_eq!(h.accept, "application/vnd.heroku+json; version=3");
    assert_eq!(h.user_agent, USER_AGENT);
    assert_eq!(h.base_url, DEFAULT_BASE_URL);
    assert_eq!(h.base_url, "https://api.heroku.com/");
}

#[test]
fn builder_keeps_base_url_override() {
    let h = HerokuruBuilder::new()
        .base_url(Some("http://localhost:8080/".to_string()))
        .token("t".to_string())
        .build()
        .unwrap();
    assert_eq!(h.base_url, "http://localhost:8080/");
}

#[test]
fn builder_reports_configuration_errors() {
    let err = HerokuruBuilder::new().build().unwrap_err();
    assert_eq!(err, HerokuruError::MissingToken);
    assert_eq!(err.kind(), ErrorKind::Configuration);
    let err = Herokuru::builder().token(String::new()).build().unwrap_err();
    assert_eq!(err, HerokuruError::MissingToken);
    assert_eq!(err.kind(), ErrorKind::Configuration);
    let err = Herokuru::builder().token("bad\ntoken".to_string()).build().unwrap_err();
    assert_eq!(err, HerokuruError::InvalidToken);
    assert_eq!(err.kind(), ErrorKind::Configuration);
    let err = Herokuru::builder()
        .token("t".to_string())
        .base_url(Some("not a url".to_string()))
        .build()
        .unwrap_err();
    assert_eq!(err, HerokuruError::MalformedBaseUrl);
    assert_eq!(err.kind(), ErrorKind::Configuration);
}
