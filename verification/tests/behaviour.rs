use youtrack_mcp::config::{Config, EnvVars, StrMap};
use youtrack_mcp::dates::{format_iso_date, parse_iso_date, weekend, DateSet};
use youtrack_mcp::error::{AppError, ErrorCode};
use youtrack_mcp::json::{strip_noise, Json};
use youtrack_mcp::model::{
    ActivityArg, ActivityScope, AttachOp, AttachmentArg, CommentWrite, Entity, IssueOp,
    IssueSearch, IssueWrite, LinkOp, LinkRole, LinkWrite, SearchFields, WorkOp, WorkitemWrite,
    WriteOp,
};
use youtrack_mcp::report::{build_report, checked_report, report_items_request, report_range, report_sums_fit};
use youtrack_mcp::model::UsersOp;
use youtrack_mcp::server::{activity_author, activity_issue, upload_name, user_get_id};
use youtrack_mcp::server::{
    comment_args, download_target, link_inward, ok, req, search_args, upload_source,
    UploadSource,
};
use youtrack_mcp::text::{i64_to_decimal, parse_i64_str, take_chars, trim_str};
use youtrack_mcp::youtrack::{
    absorb_ids, cached_id_known, cached_id_resolved, check, command, current_login_of,
    find_link_type, has_page, is_id, link_keyword, link_types_of, pick_user,
    plain_query, refused, retry_without_dollar, IdKind, Method, YouTrack,
};

fn s(x: &str) -> String {
    x.to_string()
}

fn js(x: &str) -> Json {
    Json::Str(s(x))
}

fn obj(entries: Vec<(&str, Json)>) -> Json {
    Json::Object(entries.into_iter().map(|(k, v)| (s(k), v)).collect())
}

fn vars(url: Option<&str>, token: Option<&str>) -> EnvVars {
    EnvVars {
        url: url.map(s),
        token: token.map(s),
        timezone: None,
        default_project: None,
        holidays: None,
        pre_holidays: None,
        user_aliases: None,
        download_dir: None,
    }
}

fn config() -> Config {
    let mut v = vars(Some("https://yt.example.com/"), Some("tok"));
    v.default_project = Some(s("PROJ"));
    v.user_aliases = Some(s("me:real.login"));
    v.holidays = Some(s("2026-01-07"));
    v.pre_holidays = Some(s("2026-01-06"));
    v.download_dir = Some(s("/tmp/dl/"));
    Config::from_vars(v).unwrap()
}

fn client() -> YouTrack {
    YouTrack::new(config()).unwrap()
}

fn issue_write(op: IssueOp) -> IssueWrite {
    IssueWrite {
        op,
        id: None,
        project: None,
        summary: None,
        description: None,
        markdown: None,
        parent_id: None,
        assignee: None,
        tags: None,
        state: None,
        board: None,
        sprint: None,
    }
}

fn workitem(op: WorkOp) -> WorkitemWrite {
    WorkitemWrite {
        op,
        issue_id: s("42"),
        work_item_id: None,
        date: None,
        minutes: None,
        text: None,
        description: None,
        work_type: None,
        markdown: None,
        idempotent: None,
    }
}

fn attachment(op: AttachOp) -> AttachmentArg {
    AttachmentArg {
        op,
        issue_id: s("42"),
        attachment_id: None,
        name: None,
        content_base64: None,
        path: None,
    }
}

fn query_of(q: &[(String, String)]) -> Vec<(&str, &str)> {
    q.iter().map(|(k, v)| (k.as_str(), v.as_str())).collect()
}

fn item(ms: i64, minutes: i64) -> Json {
    obj(vec![
        ("date", Json::Int(ms)),
        ("duration", obj(vec![("minutes", Json::Int(minutes))])),
    ])
}

// ---- text ----

#[test]
fn text_helpers_behave_like_std() {
    assert_eq!(trim_str("  a b \t"), "a b");
    assert_eq!(take_chars("héllo", 2), "hé");
    assert_eq!(take_chars("ab", 5), "ab");
    assert_eq!(i64_to_decimal(-1200), "-1200");
    assert_eq!(i64_to_decimal(i64::MIN), i64::MIN.to_string());
    assert_eq!(parse_i64_str("1700000000000"), Some(1700000000000));
    assert_eq!(parse_i64_str("-5"), Some(-5));
    assert_eq!(parse_i64_str("+7"), Some(7));
    assert_eq!(parse_i64_str("2026-01-05"), None);
    assert_eq!(parse_i64_str("9223372036854775808"), None);
    assert_eq!(parse_i64_str(""), None);
}

// ---- JSON noise ----

#[test]
fn strip_noise_drops_type_keys_everywhere() {
    let mut v = obj(vec![
        ("$type", js("Issue")),
        ("id", js("1-2")),
        (
            "customFields",
            Json::Array(vec![obj(vec![("$type", js("Field")), ("name", js("State"))])]),
        ),
    ]);
    strip_noise(&mut v);
    let expected = obj(vec![
        ("id", js("1-2")),
        ("customFields", Json::Array(vec![obj(vec![("name", js("State"))])])),
    ]);
    assert_eq!(format!("{:?}", v), format!("{:?}", expected));
    let again = ok(v);
    assert_eq!(format!("{:?}", again), format!("{:?}", expected));
}

// ---- responses ----

#[test]
fn check_success_bodies() {
    assert!(matches!(check(200, "  ", Err(s("eof"))), Ok(Json::Null)));
    assert!(matches!(check(204, "", Err(s("eof"))), Ok(Json::Null)));
    let v = check(200, "{\"id\":\"1\"}", Ok(obj(vec![("id", js("1"))]))).unwrap();
    assert_eq!(v.get_str("id"), Some(s("1")));
    match check(200, "<html>", Err(s("expected value at line 1"))) {
        Err(AppError::Network(m)) => assert_eq!(m, "bad JSON: expected value at line 1"),
        other => panic!("{:?}", other),
    }
}

#[test]
fn check_error_messages() {
    let body = obj(vec![("error", js("e")), ("message", js("m"))]);
    match check(400, "{}", Ok(body)) {
        Err(AppError::Api { status, message }) => {
            assert_eq!(status, 400);
            assert_eq!(message, "m");
        }
        other => panic!("{:?}", other),
    }
    let body = obj(vec![("code", js("c")), ("error_description", js("d"))]);
    match check(403, "{}", Ok(body)) {
        Err(AppError::Api { message, .. }) => assert_eq!(message, "d"),
        other => panic!("{:?}", other),
    }
    let long = "x".repeat(250);
    match check(500, &long, Err(s("bad"))) {
        Err(AppError::Api { status, message }) => {
            assert_eq!(status, 500);
            assert_eq!(message, "x".repeat(200));
        }
        other => panic!("{:?}", other),
    }
    match check(404, "{\"value\":1}", Ok(obj(vec![("value", Json::Int(1))]))) {
        Err(AppError::Api { status, message }) => {
            assert_eq!(status, 404);
            assert_eq!(message, "{\"value\":1}");
        }
        other => panic!("{:?}", other),
    }
}

#[test]
fn paging_retry_drops_dollar_prefixes() {
    let q = vec![(s("fields"), s("id")), (s("$top"), s("5")), (s("$skip"), s("0"))];
    assert!(has_page(&q));
    assert!(retry_without_dollar(&q, 400));
    assert!(!retry_without_dollar(&q, 500));
    let plain = plain_query(&q);
    assert_eq!(query_of(&plain), vec![("fields", "id"), ("top", "5"), ("skip", "0")]);
    let unpaged = vec![(s("fields"), s("id"))];
    assert!(!retry_without_dollar(&unpaged, 400));
}

#[test]
fn command_request_shape() {
    let r = command("subtask of P-1", "P-2");
    assert_eq!(r.method, Method::Post);
    assert_eq!(r.path, "/api/commands");
    assert!(r.query.is_empty());
    let expected = obj(vec![
        ("query", js("subtask of P-1")),
        ("issues", Json::Array(vec![obj(vec![("idReadable", js("P-2"))])])),
        ("silent", Json::Bool(true)),
    ]);
    assert_eq!(format!("{:?}", r.body), format!("{:?}", Some(expected)));
}

// ---- configuration ----

#[test]
fn config_requires_url_and_token() {
    match Config::from_vars(vars(None, Some("t"))) {
        Err(AppError::Config(m)) => assert_eq!(m, "YOUTRACK_URL is required"),
        _ => panic!("expected a config error"),
    }
    match Config::from_vars(vars(Some("https://x"), None)) {
        Err(AppError::Config(m)) => assert_eq!(m, "YOUTRACK_TOKEN is required"),
        _ => panic!("expected a config error"),
    }
}

#[test]
fn config_defaults_and_normalisation() {
    let mut v = vars(Some("https://x.org//"), Some("t"));
    v.timezone = Some(s("Not/AZone"));
    v.default_project = Some(String::new());
    v.download_dir = Some(String::new());
    let c = Config::from_vars(v).unwrap();
    assert_eq!(c.base_url, "https://x.org");
    assert_eq!(c.timezone, "Europe/Moscow");
    assert_eq!(c.default_project, None);
    assert_eq!(c.download_dir, None);
    assert_eq!(c.holidays.len(), 0);

    let mut v = vars(Some("https://x.org"), Some("t"));
    v.timezone = Some(s("Asia/Tokyo"));
    let c = Config::from_vars(v).unwrap();
    assert_eq!(c.timezone, "Asia/Tokyo");
}

#[test]
fn aliases_last_one_wins_and_bad_pieces_are_skipped() {
    let mut v = vars(Some("https://x"), Some("t"));
    v.user_aliases = Some(s(" a : one ,junk, b:two,a:three"));
    let c = Config::from_vars(v).unwrap();
    assert_eq!(c.resolve_alias("a"), "three");
    assert_eq!(c.resolve_alias("b"), "two");
    assert_eq!(c.resolve_alias("junk"), "junk");
}

#[test]
fn expand_trims_and_keeps_dashed_ids() {
    let c = config();
    assert_eq!(c.expand_issue_id(" 7 "), "PROJ-7");
    assert_eq!(c.expand_issue_id("ABC-7"), "ABC-7");
}

#[test]
fn str_map_read_after_write() {
    let mut m = StrMap::new();
    assert!(m.get("k").is_none());
    m.insert(s("k"), s("v1"));
    m.insert(s("other"), s("x"));
    m.insert(s("k"), s("v2"));
    assert_eq!(m.get("k"), Some(&s("v2")));
    assert_eq!(m.get("other"), Some(&s("x")));
}

#[test]
fn date_set_has_no_duplicates() {
    let mut d = DateSet::new();
    d.insert(739621);
    d.insert(739621);
    d.insert(739622);
    assert_eq!(d.len(), 2);
    assert!(d.contains(739622));
    assert!(!d.contains(1));
}

#[test]
fn iso_dates_round_trip() {
    assert_eq!(parse_iso_date("2026-01-05"), Some(739621));
    assert_eq!(format_iso_date(739621), "2026-01-05");
    assert_eq!(parse_iso_date("2026-02-30"), None);
    assert_eq!(parse_iso_date("bad"), None);
    assert!(!weekend(739621));
    assert!(weekend(739626));
    assert!(weekend(739627));
}

// ---- errors ----

#[test]
fn error_messages_and_tool_errors() {
    assert_eq!(AppError::Config(s("x")).message(), "config error: x");
    assert_eq!(AppError::Network(s("y")).message(), "network error: y");
    let api = AppError::Api { status: 500, message: s("boom") };
    assert_eq!(api.message(), "YouTrack 500: boom");
    assert_eq!(AppError::Bad(s("no")).message(), "no");

    let t = AppError::Bad(s("missing id")).to_tool_error();
    assert_eq!(t.code, ErrorCode::InvalidParams);
    assert_eq!(t.message, "missing id");
    let t = AppError::Api { status: 404, message: s("Not Found") }.to_tool_error();
    assert_eq!(t.code, ErrorCode::ResourceNotFound);
    assert_eq!(t.message, "YouTrack 404: Not Found");
    let t = api.to_tool_error();
    assert_eq!(t.code, ErrorCode::InternalError);
    assert_eq!(t.message, "YouTrack 500: boom");
    let t = AppError::Network(s("timeout")).to_tool_error();
    assert_eq!(t.code, ErrorCode::InternalError);
    assert_eq!(t.message, "network error: timeout");
}

// ---- report ----

#[test]
fn report_range_errors() {
    match report_range("2026-13-01", "2026-01-01") {
        Err(AppError::Bad(m)) => assert_eq!(m, "bad startDate '2026-13-01'"),
        _ => panic!(),
    }
    match report_range("2026-01-01", "x") {
        Err(AppError::Bad(m)) => assert_eq!(m, "bad endDate 'x'"),
        _ => panic!(),
    }
    match report_range("2026-01-02", "2026-01-01") {
        Err(AppError::Bad(m)) => assert_eq!(m, "endDate before startDate"),
        _ => panic!(),
    }
    assert_eq!(report_range("2026-01-05", "2026-01-05").unwrap(), (739621, 739621));
}

#[test]
fn report_counts_work_days_and_flags_off_days() {
    let c = config();
    let items = Json::Array(vec![
        item(1767603600000, 300),
        item(1767603600000, 180),
        item(1767690000000, 420),
        item(1767862800000, 400),
        item(1768035600000, 60),
    ]);
    let range = report_range("2026-01-05", "2026-01-11").unwrap();
    assert!(report_sums_fit(&c, range, &items));
    let r = build_report(&c, "2026-01-05", "2026-01-11", range, &items);
    assert_eq!(r.total_minutes, 1360);
    assert_eq!(r.work_days, 4);
    assert_eq!(r.expected_minutes, 480 + 420 + 480 + 480);
    let days: Vec<(&str, i64, i64, i64)> = r
        .days
        .iter()
        .map(|d| (d.date.as_str(), d.expected, d.actual, d.diff))
        .collect();
    assert_eq!(
        days,
        vec![
            ("2026-01-05", 480, 480, 0),
            ("2026-01-06", 420, 420, 0),
            ("2026-01-08", 480, 400, -80),
            ("2026-01-09", 480, 0, -480),
        ]
    );
    let invalid: Vec<&str> = r.invalid_days.iter().map(|d| d.date.as_str()).collect();
    assert_eq!(invalid, vec!["2026-01-08", "2026-01-09"]);
    assert_eq!(r.start, "2026-01-05");
    assert_eq!(r.end, "2026-01-11");
}

#[test]
fn report_of_weekend_only_is_empty() {
    let c = config();
    let items = Json::Array(vec![]);
    let range = report_range("2026-01-10", "2026-01-11").unwrap();
    let r = build_report(&c, "2026-01-10", "2026-01-11", range, &items);
    assert_eq!(r.work_days, 0);
    assert_eq!(r.expected_minutes, 0);
    assert!(r.days.is_empty());
    assert!(r.invalid_days.is_empty());
}

#[test]
fn report_refuses_minutes_that_overflow() {
    let c = config();
    let range = report_range("2026-01-05", "2026-01-05").unwrap();
    let items = Json::Array(vec![item(0, i64::MAX), item(0, 1)]);
    assert!(!report_sums_fit(&c, range, &items));
    assert!(checked_report(&c, "2026-01-05", "2026-01-05", range, &items).is_none());
    // Large minutes that cancel out keep every running sum in range.
    let cancel = Json::Array(vec![item(0, i64::MAX), item(0, -5), item(0, i64::MIN + 10)]);
    assert!(report_sums_fit(&c, range, &cancel));
    let r = checked_report(&c, "2026-01-05", "2026-01-05", range, &cancel).unwrap();
    assert_eq!(r.total_minutes, 4);
    // A per-date sum out of range, though the grand total stays in range.
    let split = Json::Array(vec![
        item(0, i64::MAX),
        item(1767603600000, -100),
        item(0, 50),
    ]);
    assert!(!report_sums_fit(&c, range, &split));
    // A work day whose difference underflows.
    let low = Json::Array(vec![item(1767603600000, i64::MIN)]);
    assert!(!report_sums_fit(&c, range, &low));
    let off = report_range("2026-01-10", "2026-01-10").unwrap();
    assert!(report_sums_fit(&c, off, &low));
    let fine = obj(vec![("not", js("an array"))]);
    assert!(report_sums_fit(&c, range, &fine));
    let r = checked_report(&c, "2026-01-05", "2026-01-05", range, &fine).unwrap();
    assert_eq!(r.work_days, 1);
    assert_eq!(r.invalid_days.len(), 1);
    assert_eq!(r.invalid_days[0].diff, -480);
}

// ---- ids, users, link types ----

#[test]
fn id_cache_resolution() {
    let mut cache = StrMap::new();
    assert_eq!(cached_id_known(&cache, "0-12"), Some(s("0-12")));
    assert_eq!(cached_id_known(&cache, "backend"), None);
    let list = Json::Array(vec![
        obj(vec![("id", js("6-1")), ("name", js("backend"))]),
        obj(vec![("name", js("no id"))]),
    ]);
    absorb_ids(&mut cache, IdKind::Tag, &list);
    assert_eq!(cached_id_known(&cache, "backend"), Some(s("6-1")));
    assert_eq!(cached_id_resolved(&cache, IdKind::Tag, "backend").unwrap(), "6-1");
    match cached_id_resolved(&cache, IdKind::Tag, "ghost") {
        Err(AppError::Bad(m)) => assert_eq!(m, "unknown tag (must already exist) 'ghost'"),
        _ => panic!(),
    }
    match cached_id_resolved(&cache, IdKind::Project, "NOPE") {
        Err(AppError::Bad(m)) => assert_eq!(m, "unknown project 'NOPE'"),
        _ => panic!(),
    }
    let projects = Json::Array(vec![obj(vec![("id", js("0-1")), ("shortName", js("ABC"))])]);
    absorb_ids(&mut cache, IdKind::Project, &projects);
    assert_eq!(cached_id_resolved(&cache, IdKind::Project, "ABC").unwrap(), "0-1");
}

#[test]
fn user_picking() {
    let res = Json::Array(vec![
        obj(vec![("id", js("1-1")), ("login", js("anna"))]),
        obj(vec![("id", js("1-2")), ("login", js("bob"))]),
    ]);
    let u = pick_user("bob", &res).unwrap();
    assert_eq!(u.get_str("id"), Some(s("1-2")));
    assert_eq!(u.get_str("login"), Some(s("bob")));
    let u = pick_user("bo", &res).unwrap();
    assert_eq!(u.get_str("id"), Some(s("1-1")));
    assert_eq!(u.get_str("login"), Some(s("anna")));
    match pick_user("zed", &Json::Array(vec![])) {
        Err(AppError::Bad(m)) => assert_eq!(m, "unknown user 'zed'"),
        _ => panic!(),
    }
    assert_eq!(current_login_of(&obj(vec![("login", js("me"))])).unwrap(), "me");
    assert!(current_login_of(&Json::Null).is_err());
}

#[test]
fn link_types_and_keywords() {
    let list = Json::Array(vec![
        obj(vec![
            ("id", js("73-1")),
            ("name", js("Depend")),
            ("directed", Json::Bool(true)),
            ("sourceToTarget", js("depends on")),
            ("targetToSource", js("is required for")),
        ]),
        obj(vec![
            ("id", js("73-2")),
            ("name", js("Relates")),
            ("directed", Json::Bool(false)),
            ("sourceToTarget", js("relates to")),
            ("targetToSource", js("relates to")),
        ]),
    ]);
    let types = link_types_of(&list);
    assert_eq!(types.len(), 2);
    let dep = find_link_type(&types, "Depend").unwrap();
    assert_eq!(link_keyword(&dep, true).unwrap(), "is required for");
    assert_eq!(link_keyword(&dep, false).unwrap(), "depends on");
    let rel = find_link_type(&types, "73-2").unwrap();
    assert_eq!(link_keyword(&rel, true).unwrap(), "relates to");
    assert!(find_link_type(&types, "Duplicate").is_none());
    match link_keyword(&obj(vec![("name", js("X"))]), false) {
        Err(AppError::Bad(m)) => assert_eq!(m, "link type has no usable keyword"),
        _ => panic!(),
    }
    assert!(refused(&AppError::Api { status: 405, message: s("") }));
    assert!(refused(&AppError::Api { status: 404, message: s("") }));
    assert!(!refused(&AppError::Api { status: 400, message: s("") }));
    assert!(!refused(&AppError::Bad(s(""))));

    let yt = client();
    let (cmd, out) = yt.link_add_command("1", "ABC-2", "depends on");
    assert_eq!(cmd.path, "/api/commands");
    assert_eq!(
        format!("{:?}", cmd.body),
        format!(
            "{:?}",
            Some(obj(vec![
                ("query", js("depends on: ABC-2")),
                ("issues", Json::Array(vec![obj(vec![("idReadable", js("PROJ-1"))])])),
                ("silent", Json::Bool(true)),
            ]))
        )
    );
    assert_eq!(out.get_str("via"), Some(s("command")));
}

// ---- issue writes ----

#[test]
fn issue_create_needs_a_project() {
    match YouTrack::issue_create_project(&issue_write(IssueOp::Create)) {
        Err(AppError::Bad(m)) => assert_eq!(
            m,
            "issue_write op=create requires 'project' (project shortName like ABC or its id)"
        ),
        _ => panic!(),
    }
    let yt = client();
    match yt.issue_update_id(&issue_write(IssueOp::Update)) {
        Err(AppError::Bad(m)) => {
            assert_eq!(m, "issue_write op=update requires 'id' (issue id like ABC-123)")
        }
        _ => panic!(),
    }
    let mut a = issue_write(IssueOp::Update);
    a.id = Some(s("9"));
    assert_eq!(yt.issue_update_id(&a).unwrap(), "PROJ-9");
    assert!(yt.issue_update_request("PROJ-9", &a).is_none());
    a.summary = Some(s("New"));
    let r = yt.issue_update_request("PROJ-9", &a).unwrap();
    assert_eq!(r.path, "/api/issues/PROJ-9");
}

#[test]
fn fields_update_plan() {
    let yt = client();
    let mut a = issue_write(IssueOp::Update);
    a.state = Some(s("Open"));
    let user = obj(vec![("id", js("1-1")), ("login", js("anna"))]);
    let tags = vec![s("6-1")];
    let fields = yt.fields_update("2-5", &a, Some(user), &tags).unwrap();
    assert_eq!(fields.path, "/api/issues/2-5");
    assert!(fields.query.is_empty());
    let expected = obj(vec![
        (
            "customFields",
            Json::Array(vec![
                obj(vec![
                    ("name", js("Assignee")),
                    ("$type", js("SingleUserIssueCustomField")),
                    (
                        "value",
                        obj(vec![("id", js("1-1")), ("login", js("anna")), ("$type", js("User"))]),
                    ),
                ]),
                obj(vec![
                    ("name", js("State")),
                    ("$type", js("StateIssueCustomField")),
                    ("value", obj(vec![("name", js("Open"))])),
                ]),
            ]),
        ),
        ("tags", Json::Array(vec![obj(vec![("id", js("6-1"))])])),
    ]);
    assert_eq!(format!("{:?}", fields.body), format!("{:?}", Some(expected)));
    assert!(yt.fields_update("2-5", &issue_write(IssueOp::Update), None, &vec![]).is_none());
}

#[test]
fn current_parent_reads_first_issue() {
    let cur = obj(vec![(
        "parent",
        obj(vec![("issues", Json::Array(vec![obj(vec![("idReadable", js("P-1"))])]))]),
    )]);
    assert_eq!(YouTrack::current_parent(&cur), Some(s("P-1")));
    let none = obj(vec![("parent", obj(vec![("issues", Json::Array(vec![]))]))]);
    assert_eq!(YouTrack::current_parent(&none), None);
}

// ---- work items ----

#[test]
fn workitem_draft_requires_date_and_minutes() {
    let yt = client();
    let mut a = workitem(WorkOp::Create);
    match yt.workitem_draft(&a) {
        Err(AppError::Bad(m)) => {
            assert_eq!(m, "workitem_write op=create requires 'date' (ISO YYYY-MM-DD)")
        }
        _ => panic!(),
    }
    a.date = Some(s("2026-01-05"));
    match yt.workitem_draft(&a) {
        Err(AppError::Bad(m)) => {
            assert_eq!(m, "workitem_write op=create requires 'minutes' (integer duration)")
        }
        _ => panic!(),
    }
    a.minutes = Some(90);
    a.text = Some(s("coding"));
    let w = yt.workitem_draft(&a).unwrap();
    assert_eq!(w.issue, "PROJ-42");
    assert_eq!(w.desc, "coding");
    assert_eq!(w.minutes, 90);

    let post = yt.workitem_post(&w.issue, Json::Null);
    assert_eq!(post.path, "/api/issues/PROJ-42/timeTracking/workItems");
}

#[test]
fn idempotent_create_sees_existing_entry() {
    let existing = Json::Array(vec![
        obj(vec![("description", js("other"))]),
        obj(vec![("text", js("coding"))]),
    ]);
    assert!(YouTrack::already_logged(&existing, "coding"));
    assert!(!YouTrack::already_logged(&existing, "review"));
    assert!(!YouTrack::already_logged(&Json::Null, "coding"));
    let skipped = YouTrack::skipped_result();
    assert_eq!(skipped.get_str("reason"), Some(s("already logged")));
}

#[test]
fn dates_to_noon_in_the_zone() {
    let yt = client();
    assert_eq!(yt.date_to_epoch_ms("2026-01-05").unwrap(), 1767603600000);
    match yt.date_to_epoch_ms("05.01.2026") {
        Err(AppError::Bad(m)) => assert_eq!(m, "bad date '05.01.2026', expected YYYY-MM-DD"),
        _ => panic!(),
    }
    assert_eq!(yt.epoch_ms_to_iso(1767603600000), "2026-01-05");
    assert_eq!(yt.activity_ts("1700000000000").unwrap(), 1700000000000);
    assert_eq!(yt.activity_ts("2026-01-05").unwrap(), 1767603600000);
}

#[test]
fn workitem_update_pieces() {
    let yt = client();
    let mut a = workitem(WorkOp::Update);
    match yt.workitem_update_target(&a) {
        Err(AppError::Bad(m)) => assert_eq!(
            m,
            "workitem_write op=update requires 'workItemId' (get it from workitems_list)"
        ),
        _ => panic!(),
    }
    a.work_item_id = Some(s("8-1"));
    let (issue, wid) = yt.workitem_update_target(&a).unwrap();
    assert_eq!((issue.as_str(), wid.as_str()), ("PROJ-42", "8-1"));
    a.minutes = Some(30);
    let body = yt.workitem_update_body(&a).unwrap();
    assert_eq!(format!("{:?}", body), format!("{:?}", obj(vec![("duration", obj(vec![("minutes", Json::Int(30))]))])));

    let existing = obj(vec![
        ("date", Json::Int(1767603600000)),
        ("duration", obj(vec![("minutes", Json::Int(45))])),
        ("description", js("old")),
    ]);
    let mut b = workitem(WorkOp::Update);
    b.work_item_id = Some(s("8-1"));
    let merged = yt.merged_workitem(&b, "PROJ-42", &existing);
    assert!(matches!(merged.op, WorkOp::Create));
    assert_eq!(merged.date, Some(s("2026-01-05")));
    assert_eq!(merged.minutes, Some(45));
    assert_eq!(merged.description, Some(s("old")));
    assert_eq!(merged.work_item_id, None);
    let (del, out) = yt.workitem_delete("42", "8-1");
    assert_eq!(del.method, Method::Delete);
    assert_eq!(del.path, "/api/issues/PROJ-42/timeTracking/workItems/8-1");
    assert_eq!(out.get_str("issueId"), Some(s("PROJ-42")));
}

// ---- activities ----

#[test]
fn activity_requests() {
    let yt = client();
    let r = yt
        .users_activity("me", None, Some("1000000000000"), None, Some(true), 100, 0, 0)
        .unwrap();
    assert_eq!(r.path, "/api/activities");
    assert_eq!(
        query_of(&r.query),
        vec![
            ("fields", youtrack_mcp::youtrack::F_ACTIVITY),
            ("author", "real.login"),
            ("categories", "CustomFieldCategory,CommentsCategory"),
            ("start", "997408000000"),
            ("end", "1000000000000"),
            ("$top", "100"),
            ("$skip", "0"),
            ("reverse", "true"),
        ]
    );
    match yt.users_activity("me", Some("2026-01-06"), Some("2026-01-05"), None, None, 1, 0, 0) {
        Err(AppError::Bad(m)) => assert_eq!(m, "startDate after endDate"),
        _ => panic!(),
    }
    let cats = vec![s("LinksCategory"), s("TagsCategory")];
    let r = yt
        .issue_activities("7", Some("me"), Some("5"), None, Some(&cats), 10, 2)
        .unwrap();
    assert_eq!(r.path, "/api/issues/PROJ-7/activities");
    assert_eq!(
        query_of(&r.query),
        vec![
            ("fields", youtrack_mcp::youtrack::F_ACTIVITY),
            ("categories", "LinksCategory,TagsCategory"),
            ("$top", "10"),
            ("$skip", "2"),
            ("author", "real.login"),
            ("start", "5"),
        ]
    );
    assert!(yt.issue_activities("7", None, None, Some("never"), None, 1, 0).is_err());
}

// ---- attachments ----

#[test]
fn attachment_sources_and_targets() {
    let yt = client();
    let meta = obj(vec![("name", js("a.txt")), ("url", js("/files/1"))]);
    let (name, url) = yt.attachment_download_source(&meta).unwrap();
    assert_eq!(name, "a.txt");
    assert_eq!(url, "https://yt.example.com/files/1");
    let meta = obj(vec![("url", js("https://cdn/x"))]);
    let (name, url) = yt.attachment_download_source(&meta).unwrap();
    assert_eq!((name.as_str(), url.as_str()), ("attachment", "https://cdn/x"));
    match yt.attachment_download_source(&obj(vec![])) {
        Err(AppError::Bad(m)) => assert_eq!(m, "attachment has no url"),
        _ => panic!(),
    }
    assert!(YouTrack::attachment_fetched(200).is_ok());
    match YouTrack::attachment_fetched(403) {
        Err(AppError::Api { status, message }) => {
            assert_eq!(status, 403);
            assert_eq!(message, "attachment download failed");
        }
        _ => panic!(),
    }

    let c = config();
    let mut a = attachment(AttachOp::Download);
    assert_eq!(download_target(&a, &c, "a.txt"), Some(s("/tmp/dl/a.txt")));
    a.path = Some(s("/x/y"));
    assert_eq!(download_target(&a, &c, "a.txt"), Some(s("/x/y")));
    let mut plain = config();
    plain.download_dir = None;
    let b = attachment(AttachOp::Download);
    assert_eq!(download_target(&b, &plain, "a.txt"), None);

    let mut u = attachment(AttachOp::Upload);
    match upload_source(&u) {
        Err(e) => {
            assert_eq!(e.code, ErrorCode::InvalidParams);
            assert_eq!(e.message, "contentBase64 or path required");
        }
        _ => panic!(),
    }
    u.path = Some(s("/f"));
    u.content_base64 = Some(s("aGk="));
    assert!(matches!(upload_source(&u), Ok(UploadSource::Base64(b)) if b == "aGk="));
}

#[test]
fn base64_encoding_and_errors() {
    assert_eq!(YouTrack::b64_encode(b"hello attach"), "aGVsbG8gYXR0YWNo");
    assert_eq!(YouTrack::b64_encode(b""), "");
    assert_eq!(YouTrack::b64_decode("aGk=").unwrap(), b"hi".to_vec());
    match YouTrack::b64_decode("@@@@") {
        Err(AppError::Bad(m)) => assert!(m.starts_with("bad base64: ")),
        _ => panic!(),
    }
}

// ---- tool arguments ----

#[test]
fn tool_argument_defaults() {
    let a = IssueSearch { query: s("#Unresolved"), fields: None, top: None, skip: None };
    assert_eq!(search_args(&a), (false, 50, 0));
    let a = IssueSearch { query: s("q"), fields: Some(SearchFields::Full), top: Some(5), skip: Some(10) };
    assert_eq!(search_args(&a), (true, 5, 10));

    let l = LinkWrite {
        op: LinkOp::Add,
        source_id: s("1"),
        target_id: s("2"),
        link_type: s("Relates"),
        role: None,
    };
    assert!(!link_inward(&l));
    let l = LinkWrite { role: Some(LinkRole::Inward), ..l };
    assert!(link_inward(&l));

    let c = CommentWrite {
        entity: Entity::Issue,
        op: WriteOp::Update,
        parent_id: s("1"),
        comment_id: None,
        text: s("t"),
        markdown: None,
        mute: Some(true),
    };
    match comment_args(&c) {
        Err(e) => assert_eq!(e.message, "comment_write op=update requires 'commentId'"),
        _ => panic!(),
    }
    let c = CommentWrite { comment_id: Some(s("4-4")), ..c };
    assert_eq!(comment_args(&c).unwrap(), (Some("4-4"), true));

    let missing: Option<String> = None;
    match req(&missing, "users op=get requires 'id'") {
        Err(e) => {
            assert_eq!(e.code, ErrorCode::InvalidParams);
            assert_eq!(e.message, "users op=get requires 'id'");
        }
        _ => panic!(),
    }
    let act = ActivityArg {
        scope: ActivityScope::User,
        issue_id: None,
        author: None,
        start_date: None,
        end_date: None,
        categories: None,
        reverse: None,
        top: None,
        skip: None,
    };
    assert_eq!(youtrack_mcp::server::activity_paging(&act), (100, 0));
}

#[test]
fn comment_write_request() {
    let yt = client();
    let r = yt.comment_write(Entity::Issue, "5", Some("4-4"), "hi", Some(true), true);
    assert_eq!(r.path, "/api/issues/PROJ-5/comments/4-4");
    assert_eq!(
        query_of(&r.query),
        vec![
            ("fields", youtrack_mcp::youtrack::F_COMMENT),
            ("muteUpdateNotifications", "true"),
        ]
    );
    let r = yt.comment_write(Entity::Article, "KB-A-1", None, "hi", None, true);
    assert_eq!(r.path, "/api/articles/KB-A-1/comments");
    assert_eq!(r.query.len(), 1);
}

#[test]
fn issue_delete_reports_expanded_id() {
    let yt = client();
    let (r, out) = yt.issue_delete("12");
    assert_eq!(r.method, Method::Delete);
    assert_eq!(r.path, "/api/issues/PROJ-12");
    assert_eq!(out.get_str("id"), Some(s("PROJ-12")));
    assert!(is_id("1-1"));
}

// ---- authentication ----

#[test]
fn bearer_header_checks_the_token() {
    assert_eq!(youtrack_mcp::youtrack::auth_header("perm-abc").unwrap(), "Bearer perm-abc");
    assert_eq!(youtrack_mcp::youtrack::auth_header("тест\tx").unwrap(), "Bearer тест\tx");
    match youtrack_mcp::youtrack::auth_header("perm-se\ncret") {
        Err(e) => {
            assert!(matches!(&e, AppError::Config(m) if m == "invalid token"));
            assert_eq!(e.message(), "config error: invalid token");
            assert!(!e.message().contains("se\ncret"));
        }
        Ok(_) => panic!("a newline makes no header value"),
    }
    assert!(youtrack_mcp::youtrack::auth_header("a\u{7f}").is_err());
    let mut v = vars(Some("https://x"), Some("bad\rtoken"));
    v.timezone = None;
    let c = Config::from_vars(v).unwrap();
    assert!(matches!(YouTrack::new(c), Err(AppError::Config(m)) if m == "invalid token"));
    let yt = client();
    assert_eq!(yt.auth, "Bearer tok");
}

#[test]
fn required_tool_arguments() {
    let u = attachment(AttachOp::Upload);
    match upload_name(&u) {
        Err(e) => {
            assert_eq!(e.code, ErrorCode::InvalidParams);
            assert_eq!(e.message, "attachment op=upload requires 'name'");
        }
        Ok(_) => panic!(),
    }
    let act = ActivityArg {
        scope: ActivityScope::Issue,
        issue_id: None,
        author: Some(s("anna")),
        start_date: None,
        end_date: None,
        categories: None,
        reverse: None,
        top: None,
        skip: None,
    };
    assert_eq!(activity_issue(&act).unwrap_err().message, "activity scope=issue requires 'issueId'");
    assert_eq!(activity_author(&act).unwrap(), "anna");
    let users = youtrack_mcp::model::UsersArg { op: UsersOp::Get, id: None, query: None };
    assert_eq!(user_get_id(&users).unwrap_err().message, "users op=get requires 'id'");
    let del = issue_write(IssueOp::Delete);
    assert_eq!(
        youtrack_mcp::server::issue_delete_id(&del).unwrap_err().message,
        "issue_write op=delete requires 'id'"
    );
}

#[test]
fn date_round_trips_through_milliseconds() {
    let yt = client();
    for d in ["2026-01-05", "2024-02-29", "1999-12-31", "0001-01-01"] {
        let ms = yt.date_to_epoch_ms(d).unwrap();
        assert_eq!(yt.epoch_ms_to_iso(ms), d);
    }
    // Not written canonically: the date comes back in canonical form.
    let ms = yt.date_to_epoch_ms("2026-1-5").unwrap();
    assert_eq!(yt.epoch_ms_to_iso(ms), "2026-01-05");
}

#[test]
fn report_asks_for_one_page_of_the_period() {
    let yt = client();
    let q = report_items_request(&yt, "jdoe", "2026-01-01", "2026-01-31");
    let direct = yt.workitems_list("jdoe", Some("2026-01-01"), Some("2026-01-31"), None, 1000, 0);
    assert_eq!(q.path, "/api/workItems");
    assert_eq!(q.query, direct.query);
    assert!(q.query.iter().any(|(k, v)| k == "$top" && v == "1000"));
    assert!(q.query.iter().any(|(k, v)| k == "$skip" && v == "0"));
    assert!(q.query.iter().any(|(k, v)| k == "author" && v == "jdoe"));
}
