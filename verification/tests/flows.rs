use youtrack_mcp::config::{Config, EnvVars};
use youtrack_mcp::error::AppError;
use youtrack_mcp::flow::{Action, IssueStage, LinkStage, Lookup};
use youtrack_mcp::json::Json;
use youtrack_mcp::model::{IssueOp, IssueWrite, LinkOp, LinkRole, LinkWrite, WorkOp, WorkitemWrite};
use youtrack_mcp::work::WorkStage;
use youtrack_mcp::youtrack::{IdKind, Method, Request, YouTrack};

fn s(x: &str) -> String {
    x.to_string()
}

fn js(x: &str) -> Json {
    Json::Str(s(x))
}

fn obj(entries: Vec<(&str, Json)>) -> Json {
    Json::Object(entries.into_iter().map(|(k, v)| (s(k), v)).collect())
}

fn dbg<T: std::fmt::Debug>(t: &T) -> String {
    format!("{:?}", t)
}

fn client() -> YouTrack {
    let v = EnvVars {
        url: Some(s("https://yt.example.com")),
        token: Some(s("tok")),
        timezone: None,
        default_project: Some(s("PROJ")),
        holidays: None,
        pre_holidays: None,
        user_aliases: None,
        download_dir: None,
    };
    YouTrack::new(Config::from_vars(v).unwrap()).unwrap()
}

fn issue_write(op: IssueOp) -> IssueWrite {
    IssueWrite {
        op,
        id: None,
        project: None,
        summary: None,
        description: None,
        markdown: None,
        parent_id: None,
        assignee: None,
        tags: None,
        state: None,
        board: None,
        sprint: None,
    }
}

fn workitem(op: WorkOp) -> WorkitemWrite {
    WorkitemWrite {
        op,
        issue_id: s("42"),
        work_item_id: None,
        date: None,
        minutes: None,
        text: None,
        description: None,
        work_type: None,
        markdown: None,
        idempotent: None,
    }
}

fn sent(a: Action) -> Request {
    match a {
        Action::Send(q) => q,
        other => panic!("expected a request, got {:?}", other),
    }
}

fn boards() -> Json {
    Json::Array(vec![
        obj(vec![
            ("id", js("108-1")),
            ("name", js("Main")),
            ("currentSprint", obj(vec![("id", js("109-2")), ("name", js("S2"))])),
            (
                "sprints",
                Json::Array(vec![
                    obj(vec![("id", js("109-1")), ("name", js("S1"))]),
                    obj(vec![("id", js("109-2")), ("name", js("S2"))]),
                ]),
            ),
        ]),
        obj(vec![("id", js("108-2")), ("name", js("Support")), ("sprints", Json::Array(vec![]))]),
    ])
}

#[test]
fn issue_create_runs_every_side_effect() {
    let yt = client();
    let mut a = issue_write(IssueOp::Create);
    a.project = Some(s("PROJ"));
    a.summary = Some(s("Title"));
    a.assignee = Some(s("anna"));
    a.tags = Some(vec![s("backend")]);
    a.state = Some(s("Open"));
    a.parent_id = Some(String::new());
    a.board = Some(s(" main "));
    a.sprint = Some(s("s1"));

    let (f, act) = yt.issue_create(&a);
    assert_eq!(dbg(&act), dbg(&Action::Resolve(Lookup::Id(IdKind::Project, s("PROJ")))));

    let (f, act) = yt.issue_write_resume(&a, f, Ok(js("0-1")));
    let q = sent(act);
    assert_eq!(q.method, Method::Post);
    assert_eq!(q.path, "/api/issues");
    assert_eq!(
        dbg(&q.body),
        dbg(&Some(obj(vec![("summary", js("Title")), ("project", obj(vec![("id", js("0-1"))]))])))
    );

    let created = obj(vec![("id", js("2-5")), ("idReadable", js("PROJ-5"))]);
    let (f, act) = yt.issue_write_resume(&a, f, Ok(created));
    assert_eq!(dbg(&act), dbg(&Action::Resolve(Lookup::User(s("anna")))));

    let user = obj(vec![("id", js("1-1")), ("login", js("anna"))]);
    let (f, act) = yt.issue_write_resume(&a, f, Ok(user));
    assert_eq!(dbg(&act), dbg(&Action::Resolve(Lookup::Id(IdKind::Tag, s("backend")))));

    let (f, act) = yt.issue_write_resume(&a, f, Ok(js("6-1")));
    let q = sent(act);
    assert_eq!(q.path, "/api/issues/2-5");
    let body = q.body.unwrap();
    assert_eq!(
        dbg(body.get("tags").unwrap()),
        dbg(&Json::Array(vec![obj(vec![("id", js("6-1"))])]))
    );
    assert_eq!(f.stage, IssueStage::Fields);

    let (f, act) = yt.issue_write_resume(&a, f, Ok(Json::Null));
    let q = sent(act);
    assert_eq!(q.method, Method::Get);
    assert_eq!(q.path, "/api/issues/PROJ-5");

    let cur = obj(vec![(
        "parent",
        obj(vec![("issues", Json::Array(vec![obj(vec![("idReadable", js("PROJ-1"))])]))]),
    )]);
    let (f, act) = yt.issue_write_resume(&a, f, Ok(cur));
    let q = sent(act);
    assert_eq!(q.path, "/api/commands");
    assert_eq!(q.body.unwrap().get_str("query"), Some(s("remove subtask of PROJ-1")));

    let (f, act) = yt.issue_write_resume(&a, f, Ok(Json::Null));
    let q = sent(act);
    assert_eq!(q.path, "/api/agiles");

    let (f, act) = yt.issue_write_resume(&a, f, Ok(boards()));
    let q = sent(act);
    assert_eq!(q.path, "/api/agiles/108-1/sprints/109-1/issues");
    assert_eq!(dbg(&q.body), dbg(&Some(obj(vec![("idReadable", js("PROJ-5"))]))));

    let (f, act) = yt.issue_write_resume(&a, f, Ok(Json::Null));
    let q = sent(act);
    assert_eq!(q.method, Method::Get);
    assert_eq!(q.path, "/api/issues/2-5");

    let fresh = obj(vec![("id", js("2-5")), ("summary", js("Title"))]);
    let (f, act) = yt.issue_write_resume(&a, f, Ok(fresh));
    assert_eq!(
        dbg(&act),
        dbg(&Action::Done(obj(vec![("id", js("2-5")), ("summary", js("Title"))])))
    );
    assert_eq!(f.stage, IssueStage::Over);
}

#[test]
fn issue_create_without_side_effects_reports_the_created_issue() {
    let yt = client();
    let mut a = issue_write(IssueOp::Create);
    a.project = Some(s("0-1"));
    let (f, _) = yt.issue_create(&a);
    let (f, _) = yt.issue_write_resume(&a, f, Ok(js("0-1")));
    let created = obj(vec![("id", js("2-6")), ("idReadable", js("PROJ-6"))]);
    let (_, act) = yt.issue_write_resume(&a, f, Ok(created));
    assert_eq!(
        dbg(&act),
        dbg(&Action::Done(obj(vec![("id", js("2-6")), ("idReadable", js("PROJ-6"))])))
    );
}

#[test]
fn issue_create_requires_project_and_stops_on_errors() {
    let yt = client();
    let a = issue_write(IssueOp::Create);
    let (f, act) = yt.issue_create(&a);
    assert_eq!(f.stage, IssueStage::Over);
    match act {
        Action::Fail(AppError::Bad(m)) => assert_eq!(
            m,
            "issue_write op=create requires 'project' (project shortName like ABC or its id)"
        ),
        other => panic!("{:?}", other),
    }
    let mut b = issue_write(IssueOp::Create);
    b.project = Some(s("NOPE"));
    let (f, _) = yt.issue_create(&b);
    let (f, act) = yt.issue_write_resume(&b, f, Err(AppError::Bad(s("unknown project 'NOPE'"))));
    assert_eq!(f.stage, IssueStage::Over);
    assert!(matches!(act, Action::Fail(AppError::Bad(m)) if m == "unknown project 'NOPE'"));
}

#[test]
fn issue_update_paths() {
    let yt = client();
    let mut a = issue_write(IssueOp::Update);
    a.id = Some(s("5"));
    let (f, act) = yt.issue_update(&a);
    let q = sent(act);
    assert_eq!((q.method, q.path.as_str()), (Method::Get, "/api/issues/PROJ-5"));
    let (_, act) = yt.issue_write_resume(&a, f, Ok(js("issue")));
    assert_eq!(dbg(&act), dbg(&Action::Done(js("issue"))));

    let mut b = issue_write(IssueOp::Update);
    b.id = Some(s("5"));
    b.summary = Some(s("New"));
    let (f, act) = yt.issue_update(&b);
    let q = sent(act);
    assert_eq!((q.method, q.path.as_str()), (Method::Post, "/api/issues/PROJ-5"));
    let (_, act) = yt.issue_write_resume(&b, f, Ok(js("updated")));
    assert_eq!(dbg(&act), dbg(&Action::Done(js("updated"))));

    let mut c = issue_write(IssueOp::Update);
    c.id = Some(s("5"));
    c.parent_id = Some(s("7"));
    let (f, act) = yt.issue_update(&c);
    let q = sent(act);
    assert_eq!(q.body.unwrap().get_str("query"), Some(s("subtask of PROJ-7")));
    let (f, act) = yt.issue_write_resume(&c, f, Ok(Json::Null));
    assert_eq!(sent(act).path, "/api/issues/PROJ-5");
    assert_eq!(f.stage, IssueStage::Reread);
}

#[test]
fn board_resolution_errors_list_the_choices() {
    let yt = client();
    let mut a = issue_write(IssueOp::Update);
    a.id = Some(s("PROJ-5"));
    a.board = Some(s("MAIN"));
    a.sprint = Some(s("S9"));
    let (f, act) = yt.issue_update(&a);
    assert_eq!(sent(act).path, "/api/agiles");
    let (_, act) = yt.issue_write_resume(&a, f, Ok(boards()));
    match act {
        Action::Fail(AppError::Bad(m)) => {
            assert_eq!(m, "unknown sprint 'S9' on board 'MAIN'; valid sprints: S1, S2")
        }
        other => panic!("{:?}", other),
    }

    a.board = Some(s("Kanban"));
    let (f, _) = yt.issue_update(&a);
    let (_, act) = yt.issue_write_resume(&a, f, Ok(boards()));
    match act {
        Action::Fail(AppError::Bad(m)) => {
            assert_eq!(m, "unknown board 'Kanban'; available boards: Main, Support")
        }
        other => panic!("{:?}", other),
    }

    a.board = Some(s("108-2"));
    a.sprint = None;
    let (f, _) = yt.issue_update(&a);
    let (_, act) = yt.issue_write_resume(&a, f, Ok(boards()));
    match act {
        Action::Fail(AppError::Bad(m)) => {
            assert_eq!(m, "board '108-2' has no current sprint; valid sprints: ")
        }
        other => panic!("{:?}", other),
    }

    a.board = Some(s("main"));
    let (f, _) = yt.issue_update(&a);
    let (_, act) = yt.issue_write_resume(&a, f, Ok(boards()));
    assert_eq!(sent(act).path, "/api/agiles/108-1/sprints/109-2/issues");

    let twins = Json::Array(vec![
        obj(vec![("id", js("1")), ("name", js("Main"))]),
        obj(vec![("id", js("2")), ("name", js("MAIN"))]),
    ]);
    let (f, _) = yt.issue_update(&a);
    let (_, act) = yt.issue_write_resume(&a, f, Ok(twins));
    match act {
        Action::Fail(AppError::Bad(m)) => {
            assert_eq!(m, "ambiguous board 'main'; available boards: Main, MAIN")
        }
        other => panic!("{:?}", other),
    }
}

#[test]
fn idempotent_create_skips_a_logged_entry() {
    let yt = client();
    let mut a = workitem(WorkOp::Create);
    a.date = Some(s("2026-01-05"));
    a.minutes = Some(60);
    a.description = Some(s("coding"));
    a.idempotent = Some(true);
    a.work_type = Some(s("Dev"));
    let (f, act) = yt.workitem_create(&a);
    assert_eq!(dbg(&act), dbg(&Action::Resolve(Lookup::CurrentLogin)));
    let (f, act) = yt.workitem_write_resume(&a, f, Ok(js("anna")));
    let q = sent(act);
    assert_eq!(q.path, "/api/workItems");
    let query: Vec<(&str, &str)> = q.query.iter().map(|(k, v)| (k.as_str(), v.as_str())).collect();
    assert_eq!(
        query,
        vec![
            ("fields", youtrack_mcp::youtrack::F_WORKITEM),
            ("$top", "200"),
            ("$skip", "0"),
            ("author", "anna"),
            ("startDate", "2026-01-05"),
            ("endDate", "2026-01-05"),
            ("issueId", "PROJ-42"),
        ]
    );
    let logged = Json::Array(vec![obj(vec![("description", js("coding"))])]);
    let (f, act) = yt.workitem_write_resume(&a, f, Ok(logged));
    assert_eq!(
        dbg(&act),
        dbg(&Action::Done(obj(vec![("skipped", Json::Bool(true)), ("reason", js("already logged"))])))
    );
    assert_eq!(f.stage, WorkStage::Over);
}

#[test]
fn create_with_type_posts_the_typed_body() {
    let yt = client();
    let mut a = workitem(WorkOp::Create);
    a.date = Some(s("2026-01-05"));
    a.minutes = Some(60);
    a.text = Some(s("coding"));
    a.markdown = Some(false);
    a.idempotent = Some(true);
    a.work_type = Some(s("Dev"));
    let (f, _) = yt.workitem_create(&a);
    let (f, _) = yt.workitem_write_resume(&a, f, Ok(js("anna")));
    let (f, act) = yt.workitem_write_resume(&a, f, Ok(Json::Array(vec![])));
    assert_eq!(dbg(&act), dbg(&Action::Resolve(Lookup::Id(IdKind::WorkType, s("Dev")))));
    let (f, act) = yt.workitem_write_resume(&a, f, Ok(js("7-1")));
    let q = sent(act);
    assert_eq!(q.path, "/api/issues/PROJ-42/timeTracking/workItems");
    let expected = obj(vec![
        ("date", Json::Int(1767603600000)),
        ("duration", obj(vec![("minutes", Json::Int(60))])),
        ("text", js("coding")),
        ("description", js("coding")),
        ("usesMarkdown", Json::Bool(false)),
        ("type", obj(vec![("id", js("7-1"))])),
    ]);
    assert_eq!(dbg(&q.body), dbg(&Some(expected)));
    let (_, act) = yt.workitem_write_resume(&a, f, Ok(js("item")));
    assert_eq!(dbg(&act), dbg(&Action::Done(js("item"))));
}

#[test]
fn create_errors() {
    let yt = client();
    let mut a = workitem(WorkOp::Create);
    a.minutes = Some(1);
    let (_, act) = yt.workitem_create(&a);
    assert!(matches!(act, Action::Fail(AppError::Bad(m))
        if m == "workitem_write op=create requires 'date' (ISO YYYY-MM-DD)"));
    a.date = Some(s("yesterday"));
    let (_, act) = yt.workitem_create(&a);
    assert!(matches!(act, Action::Fail(AppError::Bad(m))
        if m == "bad date 'yesterday', expected YYYY-MM-DD"));
}

#[test]
fn refused_update_replaces_the_item() {
    let yt = client();
    let mut a = workitem(WorkOp::Update);
    a.work_item_id = Some(s("8-1"));
    a.minutes = Some(30);
    let (f, act) = yt.workitem_update(&a);
    let q = sent(act);
    assert_eq!(q.path, "/api/issues/PROJ-42/timeTracking/workItems/8-1");
    assert_eq!(
        dbg(&q.body),
        dbg(&Some(obj(vec![("duration", obj(vec![("minutes", Json::Int(30))]))])))
    );
    let (f, act) =
        yt.workitem_write_resume(&a, f, Err(AppError::Api { status: 405, message: s("no") }));
    let q = sent(act);
    assert_eq!((q.method, q.path.as_str()), (Method::Get, "/api/workItems/8-1"));
    let existing = obj(vec![
        ("date", Json::Int(1767603600000)),
        ("duration", obj(vec![("minutes", Json::Int(45))])),
        ("description", js("old")),
    ]);
    let (f, act) = yt.workitem_write_resume(&a, f, Ok(existing));
    let q = sent(act);
    assert_eq!(q.path, "/api/issues/PROJ-42/timeTracking/workItems");
    let expected = obj(vec![
        ("date", Json::Int(1767603600000)),
        ("duration", obj(vec![("minutes", Json::Int(30))])),
        ("text", js("old")),
        ("description", js("old")),
    ]);
    assert_eq!(dbg(&q.body), dbg(&Some(expected)));
    let (f, act) = yt.workitem_write_resume(&a, f, Ok(js("new item")));
    let q = sent(act);
    assert_eq!(
        (q.method, q.path.as_str()),
        (Method::Delete, "/api/issues/PROJ-42/timeTracking/workItems/8-1")
    );
    let (f, act) = yt.workitem_write_resume(&a, f, Ok(Json::Null));
    assert_eq!(dbg(&act), dbg(&Action::Done(js("new item"))));
    assert_eq!(f.stage, WorkStage::Over);
}

#[test]
fn other_update_failures_end_the_write() {
    let yt = client();
    let mut a = workitem(WorkOp::Update);
    a.work_item_id = Some(s("8-1"));
    let (f, _) = yt.workitem_update(&a);
    let (_, act) =
        yt.workitem_write_resume(&a, f, Err(AppError::Api { status: 500, message: s("boom") }));
    assert!(matches!(act, Action::Fail(AppError::Api { status: 500, .. })));
    let b = workitem(WorkOp::Update);
    let (_, act) = yt.workitem_update(&b);
    assert!(matches!(act, Action::Fail(AppError::Bad(m))
        if m == "workitem_write op=update requires 'workItemId' (get it from workitems_list)"));
}

fn depend() -> Json {
    obj(vec![
        ("id", js("73-1")),
        ("name", js("Depend")),
        ("directed", Json::Bool(true)),
        ("sourceToTarget", js("depends on")),
        ("targetToSource", js("is required for")),
    ])
}

#[test]
fn refused_link_falls_back_to_a_command() {
    let yt = client();
    let a = LinkWrite {
        op: LinkOp::Add,
        source_id: s("1"),
        target_id: s("2"),
        link_type: s("Depend"),
        role: Some(LinkRole::Inward),
    };
    let (f, act) = yt.link_write_start(&a);
    assert_eq!(dbg(&act), dbg(&Action::Resolve(Lookup::LinkType(s("Depend")))));
    let (f, act) = yt.link_write_resume(&a, f, Ok(depend()));
    let q = sent(act);
    assert_eq!(q.path, "/api/issues/PROJ-1/links");
    let (f, act) =
        yt.link_write_resume(&a, f, Err(AppError::Api { status: 404, message: s("") }));
    let q = sent(act);
    assert_eq!(q.body.unwrap().get_str("query"), Some(s("is required for: PROJ-2")));
    let (f, act) = yt.link_write_resume(&a, f, Ok(Json::Null));
    assert_eq!(f.stage, LinkStage::Over);
    match act {
        Action::Done(v) => assert_eq!(v.get_str("via"), Some(s("command"))),
        other => panic!("{:?}", other),
    }
}

#[test]
fn link_removal_uses_the_command() {
    let yt = client();
    let a = LinkWrite {
        op: LinkOp::Remove,
        source_id: s("ABC-1"),
        target_id: s("2"),
        link_type: s("73-1"),
        role: None,
    };
    let (f, _) = yt.link_write_start(&a);
    let (f, act) = yt.link_write_resume(&a, f, Ok(depend()));
    let q = sent(act);
    assert_eq!(q.body.unwrap().get_str("query"), Some(s("remove depends on: PROJ-2")));
    let (_, act) = yt.link_write_resume(&a, f, Ok(Json::Null));
    match act {
        Action::Done(v) => {
            assert_eq!(v.get_str("source"), Some(s("ABC-1")));
            assert_eq!(v.get_str("target"), Some(s("PROJ-2")));
        }
        other => panic!("{:?}", other),
    }
    let (f, _) = yt.link_write_start(&a);
    let (_, act) = yt.link_write_resume(&a, f, Ok(obj(vec![("name", js("Odd"))])));
    assert!(matches!(act, Action::Fail(AppError::Bad(m)) if m == "link type has no usable keyword"));
}

#[test]
fn board_named_in_any_case_is_attached() {
    let yt = client();
    let mut a = issue_write(IssueOp::Update);
    a.id = Some(s("PROJ-5"));
    a.board = Some(s("  црппо "));
    let list = Json::Array(vec![
        obj(vec![
            ("id", js("108-7")),
            ("name", js("ЦРППО")),
            ("currentSprint", obj(vec![("id", js("109-7"))])),
            ("sprints", Json::Array(vec![obj(vec![("id", js("109-7")), ("name", js("Спринт 1"))])])),
        ]),
        obj(vec![
            ("id", js("108-8")),
            ("name", js("Other")),
            ("currentSprint", obj(vec![("id", js("109-9"))])),
        ]),
    ]);
    let (f, _) = yt.issue_update(&a);
    let (f, act) = yt.issue_write_resume(&a, f, Ok(list));
    let q = sent(act);
    assert_eq!(q.path, "/api/agiles/108-7/sprints/109-7/issues");
    let body = q.body.unwrap();
    assert_eq!(body.get_str("idReadable"), Some(s("PROJ-5")));
    let (f, act) = yt.issue_write_resume(&a, f, Ok(Json::Null));
    assert_eq!(sent(act).path, "/api/issues/PROJ-5");
    let (_, act) = yt.issue_write_resume(&a, f, Ok(js("issue")));
    assert_eq!(dbg(&act), dbg(&Action::Done(js("issue"))));
}

#[test]
fn board_without_current_sprint_lists_its_sprints() {
    let yt = client();
    let mut a = issue_write(IssueOp::Update);
    a.id = Some(s("PROJ-5"));
    a.board = Some(s("Done"));
    let list = Json::Array(vec![obj(vec![
        ("id", js("108-9")),
        ("name", js("Done")),
        (
            "sprints",
            Json::Array(vec![
                obj(vec![("id", js("109-11")), ("name", js("Q1"))]),
                obj(vec![("id", js("109-12")), ("name", js("Q2"))]),
            ]),
        ),
    ])]);
    let (f, _) = yt.issue_update(&a);
    let (_, act) = yt.issue_write_resume(&a, f, Ok(list));
    match act {
        Action::Fail(AppError::Bad(m)) => {
            assert_eq!(m, "board 'Done' has no current sprint; valid sprints: Q1, Q2")
        }
        other => panic!("{:?}", other),
    }
}
