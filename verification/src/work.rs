use vstd::prelude::*;

use crate::config::opt_view;
use crate::error::{AppError, AppErrorV, rv};
use crate::flow::{Action, ActionV, Lookup, LookupV, answer_string, answer_text, reports_when_over};
use crate::json::{Json, JsonV, deep_clone, empty_obj, jstring, obj1, push_entry};
use crate::model::WorkitemWrite;
use crate::youtrack::{
    F_WORKITEM, IdKind, YouTrack, array_items, bool_entry, date_ms_spec, delete_v, desc_of,
    entries_of, fields_v, get_v, logged_as, merged_date, merged_description, merged_minutes,
    or_null, opt_json_v, own, post_v, refused, update_body_spec, update_needs_wid, workitem_path,
    workitems_list_v, workitems_path,
};

verus! {

// ---------------------------------------------------------------------
// Work item writes: create (optionally skipping a duplicate), update
// (replacing the item when YouTrack refuses the update in place)
// ---------------------------------------------------------------------

/// Where a work item write stands: what it waits for.
#[derive(Clone, Copy, PartialEq, Eq, Structural, Debug)]
pub enum WorkStage {
    /// The current user's login, for the duplicate check.
    Login,
    /// The issue's work items of that day, for the duplicate check.
    Listing,
    /// The id of a new item's type.
    CreateType,
    /// The created item.
    Create,
    /// The id of an updated item's type.
    UpdateType,
    /// The updated item.
    Update,
    /// The item whose update was refused.
    Fetch,
    /// The removal of the replaced item.
    Remove,
    /// Nothing: the write is over.
    Over,
}

/// A work item write in progress.
pub struct WorkFlow {
    pub stage: WorkStage,
    /// The issue a new item goes to (its id expanded).
    pub target: String,
    /// The new item's date (ISO), minutes and description.
    pub date: String,
    pub minutes: i64,
    pub desc: String,
    /// The body being written.
    pub body: Option<Json>,
    /// The issue (its id expanded) and the work item of an update.
    pub issue: String,
    pub wid: String,
    /// The new item replaces work item `wid`, removed once the new one exists.
    pub replacing: bool,
    /// The created replacement, reported once the old item is removed.
    pub created: Option<Json>,
}

/// The mathematical value of a [`WorkFlow`].
pub struct WorkFlowV {
    pub stage: WorkStage,
    pub target: Seq<char>,
    pub date: Seq<char>,
    pub minutes: i64,
    pub desc: Seq<char>,
    pub body: Option<JsonV>,
    pub issue: Seq<char>,
    pub wid: Seq<char>,
    pub replacing: bool,
    pub created: Option<JsonV>,
}

impl View for WorkFlow {
    type V = WorkFlowV;

    open spec fn view(&self) -> WorkFlowV {
        WorkFlowV {
            stage: self.stage,
            target: self.target@,
            date: self.date@,
            minutes: self.minutes,
            desc: self.desc@,
            body: opt_json_v(self.body),
            issue: self.issue@,
            wid: self.wid@,
            replacing: self.replacing,
            created: opt_json_v(self.created),
        }
    }
}

/// `f` at stage `s`.
pub open spec fn work_at(f: WorkFlowV, s: WorkStage) -> WorkFlowV {
    WorkFlowV { stage: s, ..f }
}

/// A write that has not begun.
pub open spec fn blank() -> WorkFlowV {
    WorkFlowV {
        stage: WorkStage::Over,
        target: Seq::empty(),
        date: Seq::empty(),
        minutes: 0,
        desc: Seq::empty(),
        body: None,
        issue: Seq::empty(),
        wid: Seq::empty(),
        replacing: false,
        created: None,
    }
}

/// The body of a new work item: instant `ms`, its minutes, its text (the
/// description when none), its description, and markdown when given.
pub open spec fn item_body_v(
    ms: i64,
    minutes: i64,
    text: Option<Seq<char>>,
    desc: Seq<char>,
    markdown: Option<bool>,
) -> JsonV {
    JsonV::Object(
        seq![
            ("date"@, JsonV::Int(ms)),
            ("duration"@, JsonV::Object(seq![("minutes"@, JsonV::Int(minutes))])),
            ("text"@, JsonV::Str(
                match text {
                    Some(t) => t,
                    None => desc,
                },
            )),
            ("description"@, JsonV::Str(desc)),
        ] + bool_entry("usesMarkdown"@, markdown),
    )
}

/// A body with the work item type `type_id` added.
pub open spec fn with_type_v(body: Option<JsonV>, type_id: Seq<char>) -> JsonV {
    JsonV::Object(
        entries_of(or_null(body)).push(("type"@, JsonV::Object(seq![("id"@, JsonV::Str(type_id))]))),
    )
}

/// The value reported for a skipped duplicate.
pub open spec fn skipped_v() -> JsonV {
    JsonV::Object(seq![("skipped"@, JsonV::Bool(true)), ("reason"@, JsonV::Str("already logged"@))])
}

/// A new item's body, then its type's id when a type is named, else the
/// POST; a bad date is an error.
pub open spec fn work_body(
    yt: YouTrack,
    text: Option<Seq<char>>,
    work_type: Option<Seq<char>>,
    markdown: Option<bool>,
    f: WorkFlowV,
) -> (WorkFlowV, ActionV) {
    match date_ms_spec(yt.cfg.timezone@, f.date) {
        Err(e) => (work_at(f, WorkStage::Over), ActionV::Fail(e)),
        Ok(ms) => {
            let b = item_body_v(ms, f.minutes, text, f.desc, markdown);
            match work_type {
                Some(t) => (
                    WorkFlowV { stage: WorkStage::CreateType, body: Some(b), ..f },
                    ActionV::Resolve(LookupV::Id(IdKind::WorkType, t)),
                ),
                None => (
                    WorkFlowV { stage: WorkStage::Create, body: Some(b), ..f },
                    ActionV::Send(post_v(workitems_path(f.target), fields_v(F_WORKITEM@), b)),
                ),
            }
        },
    }
}

/// How creating an item begins: the date and the minutes are required;
/// with the duplicate check the current login is looked up first, else
/// the body follows.
pub open spec fn work_create_begin(
    yt: YouTrack,
    issue_raw: Seq<char>,
    date: Option<Seq<char>>,
    minutes: Option<i64>,
    text: Option<Seq<char>>,
    desc: Seq<char>,
    work_type: Option<Seq<char>>,
    markdown: Option<bool>,
    idempotent: bool,
    g: WorkFlowV,
) -> (WorkFlowV, ActionV) {
    match date {
        None => (
            work_at(g, WorkStage::Over),
            ActionV::Fail(AppErrorV::Bad("workitem_write op=create requires 'date' (ISO YYYY-MM-DD)"@)),
        ),
        Some(d) => match minutes {
            None => (
                work_at(g, WorkStage::Over),
                ActionV::Fail(
                    AppErrorV::Bad("workitem_write op=create requires 'minutes' (integer duration)"@),
                ),
            ),
            Some(m) => {
                let f = WorkFlowV { target: yt.exp(issue_raw), date: d, minutes: m, desc, ..g };
                if idempotent {
                    (work_at(f, WorkStage::Login), ActionV::Resolve(LookupV::CurrentLogin))
                } else {
                    work_body(yt, text, work_type, markdown, f)
                }
            },
        },
    }
}

/// How the create of `a` begins.
pub open spec fn work_create_start_spec(yt: YouTrack, a: WorkitemWrite) -> (WorkFlowV, ActionV) {
    work_create_begin(
        yt,
        a.issue_id@,
        opt_view(a.date),
        a.minutes,
        opt_view(a.text),
        desc_of(a),
        opt_view(a.work_type),
        a.markdown,
        a.idempotent == Some(true),
        blank(),
    )
}

/// How the update of `a` begins: the work item id is required; the body
/// (a bad date is an error); then the type's id when a type is named,
/// else the POST.
pub open spec fn work_update_start_spec(yt: YouTrack, a: WorkitemWrite) -> (WorkFlowV, ActionV) {
    match a.work_item_id {
        None => (blank(), ActionV::Fail(AppErrorV::Bad(update_needs_wid()))),
        Some(w) => {
            let g = WorkFlowV { issue: yt.exp(a.issue_id@), wid: w@, ..blank() };
            match update_body_spec(yt, a) {
                Err(e) => (g, ActionV::Fail(e)),
                Ok(b) => match a.work_type {
                    Some(t) => (
                        WorkFlowV { stage: WorkStage::UpdateType, body: Some(b), ..g },
                        ActionV::Resolve(LookupV::Id(IdKind::WorkType, t@)),
                    ),
                    None => (
                        WorkFlowV { stage: WorkStage::Update, body: Some(b), ..g },
                        ActionV::Send(post_v(workitem_path(g.issue, g.wid), fields_v(F_WORKITEM@), b)),
                    ),
                },
            }
        },
    }
}

/// The description of a replacement item: the merged description, else
/// the given text, else empty.
pub open spec fn merged_desc(a: WorkitemWrite, existing: JsonV) -> Seq<char> {
    match merged_description(a, existing) {
        Some(d) => d,
        None => match a.text {
            Some(t) => t@,
            None => Seq::empty(),
        },
    }
}

/// One step of a work item write. A refused update (404 or 405) reads the
/// item and creates its replacement from the given and the existing
/// fields, then removes the old item and reports the new one; any other
/// failure ends the write with that error.
pub open spec fn work_step(
    yt: YouTrack,
    a: WorkitemWrite,
    f: WorkFlowV,
    ev: Result<JsonV, AppErrorV>,
) -> (WorkFlowV, ActionV) {
    match ev {
        Err(e) => if f.stage == WorkStage::Update && (e matches AppErrorV::Api(st, _) && (st == 404
            || st == 405)) {
            (
                work_at(f, WorkStage::Fetch),
                ActionV::Send(get_v("/api/workItems/"@ + f.wid, fields_v(F_WORKITEM@))),
            )
        } else {
            (work_at(f, WorkStage::Over), ActionV::Fail(e))
        },
        Ok(j) => match f.stage {
            WorkStage::Login => (
                work_at(f, WorkStage::Listing),
                ActionV::Send(
                    workitems_list_v(
                        yt,
                        answer_text(j),
                        Some(f.date),
                        Some(f.date),
                        Some(f.target),
                        200,
                        0,
                    ),
                ),
            ),
            WorkStage::Listing => if exists|i: int|
                0 <= i < array_items(j).len() && logged_as(#[trigger] array_items(j)[i], f.desc) {
                (work_at(f, WorkStage::Over), ActionV::Done(skipped_v()))
            } else {
                work_body(yt, opt_view(a.text), opt_view(a.work_type), a.markdown, f)
            },
            WorkStage::CreateType => {
                let b = with_type_v(f.body, answer_text(j));
                (
                    WorkFlowV { stage: WorkStage::Create, body: Some(b), ..f },
                    ActionV::Send(post_v(workitems_path(f.target), fields_v(F_WORKITEM@), b)),
                )
            },
            WorkStage::Create => if f.replacing {
                (
                    WorkFlowV { stage: WorkStage::Remove, created: Some(j), ..f },
                    ActionV::Send(delete_v(workitem_path(f.issue, f.wid))),
                )
            } else {
                (work_at(f, WorkStage::Over), ActionV::Done(j))
            },
            WorkStage::UpdateType => {
                let b = with_type_v(f.body, answer_text(j));
                (
                    WorkFlowV { stage: WorkStage::Update, body: Some(b), ..f },
                    ActionV::Send(post_v(workitem_path(f.issue, f.wid), fields_v(F_WORKITEM@), b)),
                )
            },
            WorkStage::Update => (work_at(f, WorkStage::Over), ActionV::Done(j)),
            WorkStage::Fetch => work_create_begin(
                yt,
                f.issue,
                merged_date(yt, a, j),
                merged_minutes(a, j),
                opt_view(a.text),
                merged_desc(a, j),
                opt_view(a.work_type),
                a.markdown,
                false,
                WorkFlowV { replacing: true, ..f },
            ),
            WorkStage::Remove => (work_at(f, WorkStage::Over), ActionV::Done(or_null(f.created))),
            WorkStage::Over => (f, ActionV::Done(JsonV::Null)),
        },
    }
}

fn work_to(f: WorkFlow, s: WorkStage) -> (r: WorkFlow)
    ensures
        r@ == work_at(f@, s),
{
    WorkFlow {
        stage: s,
        target: f.target,
        date: f.date,
        minutes: f.minutes,
        desc: f.desc,
        body: f.body,
        issue: f.issue,
        wid: f.wid,
        replacing: f.replacing,
        created: f.created,
    }
}

fn blank_flow() -> (r: WorkFlow)
    ensures
        r@ == blank(),
{
    WorkFlow {
        stage: WorkStage::Over,
        target: String::new(),
        date: String::new(),
        minutes: 0,
        desc: String::new(),
        body: None,
        issue: String::new(),
        wid: String::new(),
        replacing: false,
        created: None,
    }
}

fn typed_body(body: &Option<Json>, type_id: &str) -> (r: Json)
    ensures
        r@ == with_type_v(opt_json_v(*body), type_id@),
{
    let mut b = match body {
        Some(Json::Object(es)) => {
            let copy = deep_entries(es);
            let ghost cv = crate::json::jentries(copy@);
            let nb = Json::Object(copy);
            assert(nb@->Object_0 =~= cv);
            assert(body->0@->Object_0 =~= crate::json::jentries(es@));
            nb
        },
        _ => empty_obj(),
    };
    assert(b@->Object_0 == entries_of(or_null(opt_json_v(*body))));
    push_entry(&mut b, "type", obj1("id", jstring(type_id)));
    b
}

fn deep_entries(es: &Vec<(String, Json)>) -> (r: Vec<(String, Json)>)
    ensures
        crate::json::jentries(r@) == crate::json::jentries(es@),
{
    let mut out: Vec<(String, Json)> = Vec::new();
    let mut i: usize = 0;
    while i < es.len()
        invariant
            i <= es@.len(),
            out@.len() == i,
            forall|k: int|
                0 <= k < i ==> (#[trigger] out@[k]).0@ == es@[k].0@ && out@[k].1@ == es@[k].1@,
        decreases es@.len() - i,
    {
        out.push((own(es[i].0.as_str()), deep_clone(&es[i].1)));
        i = i + 1;
    }
    assert(crate::json::jentries(out@) =~= crate::json::jentries(es@));
    out
}

fn or_null_of(o: &Option<Json>) -> (r: Json)
    ensures
        r@ == or_null(opt_json_v(*o)),
{
    match o {
        Some(j) => deep_clone(j),
        None => Json::Null,
    }
}

impl YouTrack {
    fn item_body(
        &self,
        date: &str,
        minutes: i64,
        text: &Option<String>,
        desc: &str,
        markdown: Option<bool>,
    ) -> (r: Result<Json, AppError>)
        requires
            self.wf(),
        ensures
            match date_ms_spec(self.cfg.timezone@, date@) {
                Ok(ms) => r matches Ok(b) && b@ == item_body_v(ms, minutes, opt_view(*text), desc@, markdown),
                Err(e) => r matches Err(x) && x@ == e,
            },
    {
        let ms = match self.date_to_epoch_ms(date) {
            Ok(ms) => ms,
            Err(e) => {
                return Err(e);
            },
        };
        let t = match text {
            Some(t) => own(t.as_str()),
            None => own(desc),
        };
        let mut body = empty_obj();
        push_entry(&mut body, "date", Json::Int(ms));
        push_entry(&mut body, "duration", obj1("minutes", Json::Int(minutes)));
        push_entry(&mut body, "text", jstring(t.as_str()));
        push_entry(&mut body, "description", jstring(desc));
        let ghost base = body@->Object_0;
        assert(base =~= seq![
            ("date"@, JsonV::Int(ms)),
            ("duration"@, JsonV::Object(seq![("minutes"@, JsonV::Int(minutes))])),
            ("text"@, JsonV::Str(
                match opt_view(*text) {
                    Some(x) => x,
                    None => desc@,
                },
            )),
            ("description"@, JsonV::Str(desc@)),
        ]);
        match markdown {
            Some(m) => {
                push_entry(&mut body, "usesMarkdown", Json::Bool(m));
            },
            None => {},
        }
        assert(body@->Object_0 =~= base + bool_entry("usesMarkdown"@, markdown));
        assert(body@ is Object);
        assert(item_body_v(ms, minutes, opt_view(*text), desc@, markdown)->Object_0 =~= base
            + bool_entry("usesMarkdown"@, markdown));
        Ok(body)
    }

    fn work_body_x(
        &self,
        text: &Option<String>,
        work_type: &Option<String>,
        markdown: Option<bool>,
        f: WorkFlow,
    ) -> (r: (WorkFlow, Action))
        requires
            self.wf(),
        ensures
            (r.0@, r.1@) == work_body(*self, opt_view(*text), opt_view(*work_type), markdown, f@),
    {
        let b = match self.item_body(f.date.as_str(), f.minutes, text, f.desc.as_str(), markdown) {
            Err(e) => {
                return (work_to(f, WorkStage::Over), Action::Fail(e));
            },
            Ok(b) => b,
        };
        match work_type {
            Some(t) => {
                let mut g = work_to(f, WorkStage::CreateType);
                g.body = Some(b);
                (g, Action::Resolve(Lookup::Id(IdKind::WorkType, own(t.as_str()))))
            },
            None => {
                let q = self.workitem_post(f.target.as_str(), deep_clone(&b));
                let mut g = work_to(f, WorkStage::Create);
                g.body = Some(b);
                (g, Action::Send(q))
            },
        }
    }

    fn work_create_x(&self, w: &WorkitemWrite, idem: bool, g: WorkFlow) -> (r: (WorkFlow, Action))
        requires
            self.wf(),
        ensures
            (r.0@, r.1@) == work_create_begin(
                *self,
                w.issue_id@,
                opt_view(w.date),
                w.minutes,
                opt_view(w.text),
                desc_of(*w),
                opt_view(w.work_type),
                w.markdown,
                idem,
                g@,
            ),
    {
        let d = match self.workitem_draft(w) {
            Err(e) => {
                return (work_to(g, WorkStage::Over), Action::Fail(e));
            },
            Ok(d) => d,
        };
        let f = WorkFlow {
            stage: g.stage,
            target: d.issue,
            date: d.date,
            minutes: d.minutes,
            desc: d.desc,
            body: g.body,
            issue: g.issue,
            wid: g.wid,
            replacing: g.replacing,
            created: g.created,
        };
        if idem {
            (work_to(f, WorkStage::Login), Action::Resolve(Lookup::CurrentLogin))
        } else {
            self.work_body_x(&w.text, &w.work_type, w.markdown, f)
        }
    }

    /// Begins creating the work item `a` describes.
    pub fn workitem_create(&self, a: &WorkitemWrite) -> (r: (WorkFlow, Action))
        requires
            self.wf(),
        ensures
            (r.0@, r.1@) == work_create_start_spec(*self, *a),
    {
        let idem = match a.idempotent {
            Some(b) => b,
            None => false,
        };
        self.work_create_x(a, idem, blank_flow())
    }

    /// Begins updating the work item `a` describes.
    pub fn workitem_update(&self, a: &WorkitemWrite) -> (r: (WorkFlow, Action))
        requires
            self.wf(),
        ensures
            (r.0@, r.1@) == work_update_start_spec(*self, *a),
    {
        let (issue, wid) = match self.workitem_update_target(a) {
            Err(e) => {
                return (blank_flow(), Action::Fail(e));
            },
            Ok(p) => p,
        };
        let mut g = blank_flow();
        g.issue = issue;
        g.wid = wid;
        let b = match self.workitem_update_body(a) {
            Err(e) => {
                return (g, Action::Fail(e));
            },
            Ok(b) => b,
        };
        match &a.work_type {
            Some(t) => {
                let mut h = work_to(g, WorkStage::UpdateType);
                h.body = Some(b);
                (h, Action::Resolve(Lookup::Id(IdKind::WorkType, own(t.as_str()))))
            },
            None => {
                let q = self.workitem_update_post(g.issue.as_str(), g.wid.as_str(), deep_clone(&b));
                let mut h = work_to(g, WorkStage::Update);
                h.body = Some(b);
                (h, Action::Send(q))
            },
        }
    }

    /// Continues a work item write with the outcome of what it last asked
    /// for. A finished write stays finished and reports `null`.
    pub fn workitem_write_resume(&self, a: &WorkitemWrite, f: WorkFlow, ev: Result<Json, AppError>) -> (r: (
        WorkFlow,
        Action,
    ))
        requires
            self.wf(),
        ensures
            (r.0@, r.1@) == work_step(*self, *a, f@, rv(ev)),
    {
        let j = match ev {
            Err(e) => {
                if f.stage == WorkStage::Update && refused(&e) {
                    let q = self.workitem_fetch(f.wid.as_str());
                    return (work_to(f, WorkStage::Fetch), Action::Send(q));
                }
                return (work_to(f, WorkStage::Over), Action::Fail(e));
            },
            Ok(j) => j,
        };
        match f.stage {
            WorkStage::Login => {
                let login = answer_string(&j);
                let q = self.workitems_list(
                    login.as_str(),
                    Some(f.date.as_str()),
                    Some(f.date.as_str()),
                    Some(f.target.as_str()),
                    200,
                    0,
                );
                (work_to(f, WorkStage::Listing), Action::Send(q))
            },
            WorkStage::Listing => {
                if YouTrack::already_logged(&j, f.desc.as_str()) {
                    (work_to(f, WorkStage::Over), Action::Done(YouTrack::skipped_result()))
                } else {
                    self.work_body_x(&a.text, &a.work_type, a.markdown, f)
                }
            },
            WorkStage::CreateType => {
                let b = typed_body(&f.body, answer_string(&j).as_str());
                let q = self.workitem_post(f.target.as_str(), deep_clone(&b));
                let mut g = work_to(f, WorkStage::Create);
                g.body = Some(b);
                (g, Action::Send(q))
            },
            WorkStage::Create => {
                if f.replacing {
                    let q = self.workitem_remove(f.issue.as_str(), f.wid.as_str());
                    let mut g = work_to(f, WorkStage::Remove);
                    g.created = Some(j);
                    (g, Action::Send(q))
                } else {
                    (work_to(f, WorkStage::Over), Action::Done(j))
                }
            },
            WorkStage::UpdateType => {
                let b = typed_body(&f.body, answer_string(&j).as_str());
                let q = self.workitem_update_post(f.issue.as_str(), f.wid.as_str(), deep_clone(&b));
                let mut g = work_to(f, WorkStage::Update);
                g.body = Some(b);
                (g, Action::Send(q))
            },
            WorkStage::Update => (work_to(f, WorkStage::Over), Action::Done(j)),
            WorkStage::Fetch => {
                let m = self.merged_workitem(a, f.issue.as_str(), &j);
                let mut g = f;
                g.replacing = true;
                self.work_create_x(&m, false, g)
            },
            WorkStage::Remove => {
                let v = or_null_of(&f.created);
                (work_to(f, WorkStage::Over), Action::Done(v))
            },
            WorkStage::Over => (f, Action::Done(Json::Null)),
        }
    }
}

// ---------------------------------------------------------------------
// Every write ends
// ---------------------------------------------------------------------

/// How far a work item write is from its end.
pub open spec fn work_measure(f: WorkFlowV) -> nat {
    match f.stage {
        WorkStage::Over => 0,
        WorkStage::Remove => 1,
        WorkStage::Create => 2,
        WorkStage::CreateType => 3,
        WorkStage::Listing => 4,
        WorkStage::Login => 5,
        WorkStage::Fetch => 6,
        WorkStage::Update => 7,
        WorkStage::UpdateType => 8,
    }
}

/// A work item write begins either finished, reporting an error, or
/// waiting for what it asks.
pub proof fn lemma_work_write_begins(yt: YouTrack, a: WorkitemWrite)
    ensures
        reports_when_over(
            work_create_start_spec(yt, a).0.stage == WorkStage::Over,
            work_create_start_spec(yt, a).1,
        ),
        reports_when_over(
            work_update_start_spec(yt, a).0.stage == WorkStage::Over,
            work_update_start_spec(yt, a).1,
        ),
{
}

/// Every work item write ends: each step of an unfinished write brings it
/// strictly closer to its end (a replacement is created at most once), and
/// leaves it over exactly when the step reports the write's result or
/// error.
pub proof fn lemma_work_write_ends(
    yt: YouTrack,
    a: WorkitemWrite,
    f: WorkFlowV,
    ev: Result<JsonV, AppErrorV>,
)
    requires
        f.stage != WorkStage::Over,
    ensures
        work_measure(work_step(yt, a, f, ev).0) < work_measure(f),
        reports_when_over(
            work_step(yt, a, f, ev).0.stage == WorkStage::Over,
            work_step(yt, a, f, ev).1,
        ),
{
}

/// An update write sends its writes to the work item being updated: the
/// write begins by recording that issue (its id expanded) and item, and
/// each POST it makes of the changes, at once or once the type's id is
/// known, goes to `/api/issues/<issue>/timeTracking/workItems/<item>`,
/// never to the issue's collection of work items; a named type goes in as
/// the body's last entry, `type: {"id": <the type's id>}`.
pub proof fn lemma_update_posts_to_the_item(
    yt: YouTrack,
    a: WorkitemWrite,
    f: WorkFlowV,
    j: JsonV,
)
    ensures
        a.work_item_id matches Some(w) ==> work_update_start_spec(yt, a).0.issue == yt.exp(
            a.issue_id@,
        ) && work_update_start_spec(yt, a).0.wid == w@,
        work_update_start_spec(yt, a).1 matches ActionV::Send(q) ==> q.method
            == crate::youtrack::Method::Post && q.path == "/api/issues/"@ + yt.exp(a.issue_id@)
            + "/timeTracking/workItems/"@ + a.work_item_id->0@,
        f.stage == WorkStage::UpdateType ==> work_step(yt, a, f, Ok(j)).0.issue == f.issue
            && work_step(yt, a, f, Ok(j)).0.wid == f.wid && work_step(yt, a, f, Ok(j)).1 is Send,
        f.stage == WorkStage::UpdateType ==> (work_step(yt, a, f, Ok(j)).1 matches ActionV::Send(q)
            ==> {
            &&& q.method == crate::youtrack::Method::Post
            &&& q.path == "/api/issues/"@ + f.issue + "/timeTracking/workItems/"@ + f.wid
            &&& q.body is Some && q.body->0 is Object
            &&& q.body->0->Object_0.len() > 0
            &&& q.body->0->Object_0.last() == (
                "type"@,
                JsonV::Object(seq![("id"@, JsonV::Str(answer_text(j)))]),
            )
        }),
{
}

} // verus!
