use vstd::prelude::*;

use crate::boards::{board_placement, boards_request, boards_v, placement_spec, text_or_empty};
use crate::config::opt_view;
use crate::error::{AppError, AppErrorV, rv};
use crate::json::{Json, JsonV, deep_clone, jget_str};
use crate::model::{IssueWrite, LinkOp, LinkRole, LinkWrite};
use crate::server::link_inward;
use crate::youtrack::{
    F_ISSUE, IdKind, Request, RequestV, YouTrack, command_v, refused, link_keyword,
    link_keyword_spec, link_post_v, linked_v, or_null, unlinked_v, create_needs_project, fields_body_v,
    fields_v, get_v, issue_create_v, issue_path, opt_json_v, or_empty, parent_of_spec,
    own, plain_entries, post_v, strings_v, update_needs_id,
};

verus! {

// ---------------------------------------------------------------------
// What a flow asks of its caller
// ---------------------------------------------------------------------

/// A lookup a flow asks its caller to make, through the caller's caches.
#[derive(Debug)]
pub enum Lookup {
    /// The id of the project, tag or work item type called `name` (an id
    /// passes through).
    Id(IdKind, String),
    /// The user reference an assignment uses for `login`.
    User(String),
    /// The login of the current user.
    CurrentLogin,
    /// The link type called `name` (by name or id).
    LinkType(String),
}

/// The mathematical value of a [`Lookup`].
pub enum LookupV {
    Id(IdKind, Seq<char>),
    User(Seq<char>),
    CurrentLogin,
    LinkType(Seq<char>),
}

impl View for Lookup {
    type V = LookupV;

    open spec fn view(&self) -> LookupV {
        match self {
            Lookup::Id(k, n) => LookupV::Id(*k, n@),
            Lookup::User(l) => LookupV::User(l@),
            Lookup::CurrentLogin => LookupV::CurrentLogin,
            Lookup::LinkType(n) => LookupV::LinkType(n@),
        }
    }
}

/// What a flow asks its caller to do next.
#[derive(Debug)]
pub enum Action {
    /// Perform this request and hand back its outcome.
    Send(Request),
    /// Make this lookup and hand back its outcome; an id or a login comes
    /// back as a JSON string.
    Resolve(Lookup),
    /// The flow is over with this result.
    Done(Json),
    /// The flow is over with this error.
    Fail(AppError),
}

/// The mathematical value of an [`Action`].
pub enum ActionV {
    Send(RequestV),
    Resolve(LookupV),
    Done(JsonV),
    Fail(AppErrorV),
}

impl View for Action {
    type V = ActionV;

    open spec fn view(&self) -> ActionV {
        match self {
            Action::Send(q) => ActionV::Send(q@),
            Action::Resolve(l) => ActionV::Resolve(l@),
            Action::Done(j) => ActionV::Done(j@),
            Action::Fail(e) => ActionV::Fail(e@),
        }
    }
}

/// The text of a lookup's answer: the string, or empty when it is none.
pub open spec fn answer_text(j: JsonV) -> Seq<char> {
    match j {
        JsonV::Str(s) => s,
        _ => Seq::empty(),
    }
}

/// The text of a lookup's answer.
pub fn answer_string(j: &Json) -> (r: String)
    ensures
        r@ == answer_text(j@),
{
    match j {
        Json::Str(s) => s.clone(),
        _ => String::new(),
    }
}

// ---------------------------------------------------------------------
// Issue writes: create or update, then assignee, state, tags, parent and
// board, then the issue as it now stands
// ---------------------------------------------------------------------

/// Where an issue write stands: what it waits for.
#[derive(Clone, Copy, PartialEq, Eq, Structural, Debug)]
pub enum IssueStage {
    /// The id of the new issue's project.
    Project,
    /// The created issue.
    Create,
    /// The issue after its plain-field update.
    Update,
    /// The assignee's user reference.
    Assignee,
    /// The id of the next tag.
    Tag,
    /// The custom-field and tag write.
    Fields,
    /// The issue's current parent.
    ParentLookup,
    /// A parent command.
    Parent,
    /// The board list.
    Boards,
    /// The sprint placement.
    Board,
    /// The issue read again.
    Reread,
    /// Nothing: the write is over.
    Over,
}

/// An issue write in progress.
pub struct IssueFlow {
    pub stage: IssueStage,
    /// The issue the field write and the final read go to (its internal id
    /// after a create).
    pub id: String,
    /// The readable id that commands and the sprint placement use.
    pub readable: String,
    /// The issue as the create or the plain update returned it.
    pub prior: Option<Json>,
    /// The assignee's user reference, once looked up.
    pub user: Option<Json>,
    /// The ids of the tags looked up so far, in order.
    pub tag_ids: Vec<String>,
    /// Whether a side effect is written (the issue is then read again).
    pub changed: bool,
}

/// The mathematical value of an [`IssueFlow`].
pub struct IssueFlowV {
    pub stage: IssueStage,
    pub id: Seq<char>,
    pub readable: Seq<char>,
    pub prior: Option<JsonV>,
    pub user: Option<JsonV>,
    pub tag_ids: Seq<Seq<char>>,
    pub changed: bool,
}

impl View for IssueFlow {
    type V = IssueFlowV;

    open spec fn view(&self) -> IssueFlowV {
        IssueFlowV {
            stage: self.stage,
            id: self.id@,
            readable: self.readable@,
            prior: opt_json_v(self.prior),
            user: opt_json_v(self.user),
            tag_ids: strings_v(self.tag_ids@),
            changed: self.changed,
        }
    }
}

/// `f` at stage `s`.
pub open spec fn at(f: IssueFlowV, s: IssueStage) -> IssueFlowV {
    IssueFlowV { stage: s, ..f }
}

/// A fresh write of issue `id` (readable as `readable`).
pub open spec fn fresh(s: IssueStage, id: Seq<char>, readable: Seq<char>) -> IssueFlowV {
    IssueFlowV {
        stage: s,
        id,
        readable,
        prior: None,
        user: None,
        tag_ids: Seq::empty(),
        changed: false,
    }
}

/// The tags an issue write names (none when the list is absent).
pub open spec fn given_tags(a: IssueWrite) -> Seq<String> {
    match a.tags {
        Some(t) => t@,
        None => Seq::empty(),
    }
}

/// The end of a write: the issue read again when anything was written
/// after it or nothing was returned yet, else the returned issue.
pub open spec fn issue_finish(f: IssueFlowV) -> (IssueFlowV, ActionV) {
    if f.changed || f.prior is None {
        (at(f, IssueStage::Reread), ActionV::Send(get_v(issue_path(f.id), fields_v(F_ISSUE@))))
    } else {
        (at(f, IssueStage::Over), ActionV::Done(f.prior->0))
    }
}

/// After the parent: the board list when a board is named, else the end.
pub open spec fn issue_after_parent(a: IssueWrite, f: IssueFlowV) -> (IssueFlowV, ActionV) {
    match a.board {
        Some(_) => (at(f, IssueStage::Boards), ActionV::Send(boards_v())),
        None => issue_finish(f),
    }
}

/// After the field write: detaching (an empty parent id: read the current
/// parent first) or making a subtask, else what follows the parent.
pub open spec fn issue_after_fields(yt: YouTrack, a: IssueWrite, f: IssueFlowV) -> (
    IssueFlowV,
    ActionV,
) {
    match a.parent_id {
        Some(p) => if p@.len() == 0 {
            (
                at(f, IssueStage::ParentLookup),
                ActionV::Send(get_v(issue_path(f.readable), fields_v("parent(issues(idReadable))"@))),
            )
        } else {
            (
                at(f, IssueStage::Parent),
                ActionV::Send(command_v("subtask of "@ + yt.exp(p@), f.readable)),
            )
        },
        None => issue_after_parent(a, f),
    }
}

/// Once the tags are known: the custom-field and tag write when there is
/// one, else what follows it. The write is marked changed when it has a
/// field write, a parent or a board.
pub open spec fn issue_after_tags(yt: YouTrack, a: IssueWrite, f: IssueFlowV) -> (
    IssueFlowV,
    ActionV,
) {
    let es = fields_body_v(f.user, a.state, f.tag_ids);
    let g = IssueFlowV { changed: es.len() > 0 || a.parent_id is Some || a.board is Some, ..f };
    if es.len() > 0 {
        (
            at(g, IssueStage::Fields),
            ActionV::Send(post_v(issue_path(f.id), Seq::empty(), JsonV::Object(es))),
        )
    } else {
        issue_after_fields(yt, a, g)
    }
}

/// Once the assignee is known: the next tag's id, else what follows the
/// tags.
pub open spec fn issue_after_user(yt: YouTrack, a: IssueWrite, f: IssueFlowV) -> (
    IssueFlowV,
    ActionV,
) {
    let tags = given_tags(a);
    if f.tag_ids.len() < tags.len() {
        (
            at(f, IssueStage::Tag),
            ActionV::Resolve(LookupV::Id(IdKind::Tag, tags[f.tag_ids.len() as int]@)),
        )
    } else {
        issue_after_tags(yt, a, f)
    }
}

/// The side effects of a write begin: the assignee's reference when one is
/// named, else the tags.
pub open spec fn issue_side(yt: YouTrack, a: IssueWrite, f: IssueFlowV) -> (IssueFlowV, ActionV) {
    match a.assignee {
        Some(l) => (at(f, IssueStage::Assignee), ActionV::Resolve(LookupV::User(l@))),
        None => issue_after_user(yt, a, f),
    }
}

/// How a create begins: the project is required, and its id is looked up.
pub open spec fn issue_create_begin(a: IssueWrite) -> (IssueFlowV, ActionV) {
    match a.project {
        Some(p) => (
            fresh(IssueStage::Project, Seq::empty(), Seq::empty()),
            ActionV::Resolve(LookupV::Id(IdKind::Project, p@)),
        ),
        None => (
            fresh(IssueStage::Over, Seq::empty(), Seq::empty()),
            ActionV::Fail(AppErrorV::Bad(create_needs_project())),
        ),
    }
}

/// How an update begins: the id is required (and expanded); the plain
/// fields are written when any is given, else the side effects begin.
pub open spec fn issue_update_begin(yt: YouTrack, a: IssueWrite) -> (IssueFlowV, ActionV) {
    match a.id {
        None => (
            fresh(IssueStage::Over, Seq::empty(), Seq::empty()),
            ActionV::Fail(AppErrorV::Bad(update_needs_id())),
        ),
        Some(raw) => {
            let id = yt.exp(raw@);
            let es = plain_entries(a);
            if es.len() > 0 {
                (
                    fresh(IssueStage::Update, id, id),
                    ActionV::Send(post_v(issue_path(id), fields_v(F_ISSUE@), JsonV::Object(es))),
                )
            } else {
                issue_side(yt, a, fresh(IssueStage::Update, id, id))
            }
        },
    }
}

/// One step of an issue write: any failure ends it with that error;
/// otherwise the outcome is used as the stage awaiting it says.
pub open spec fn issue_step(
    yt: YouTrack,
    a: IssueWrite,
    f: IssueFlowV,
    ev: Result<JsonV, AppErrorV>,
) -> (IssueFlowV, ActionV) {
    match ev {
        Err(e) => (at(f, IssueStage::Over), ActionV::Fail(e)),
        Ok(j) => match f.stage {
            IssueStage::Project => (
                at(f, IssueStage::Create),
                ActionV::Send(issue_create_v(a, answer_text(j))),
            ),
            IssueStage::Create => issue_side(
                yt,
                a,
                IssueFlowV {
                    id: text_or_empty(jget_str(j, "id"@)),
                    readable: text_or_empty(jget_str(j, "idReadable"@)),
                    prior: Some(j),
                    ..f
                },
            ),
            IssueStage::Update => issue_side(yt, a, IssueFlowV { prior: Some(j), ..f }),
            IssueStage::Assignee => issue_after_user(yt, a, IssueFlowV { user: Some(j), ..f }),
            IssueStage::Tag => issue_after_user(
                yt,
                a,
                IssueFlowV { tag_ids: f.tag_ids.push(answer_text(j)), ..f },
            ),
            IssueStage::Fields => issue_after_fields(yt, a, f),
            IssueStage::ParentLookup => match parent_of_spec(j) {
                Some(p) => (
                    at(f, IssueStage::Parent),
                    ActionV::Send(command_v("remove subtask of "@ + p, f.readable)),
                ),
                None => issue_after_parent(a, f),
            },
            IssueStage::Parent => issue_after_parent(a, f),
            IssueStage::Boards => match placement_spec(
                j,
                or_empty(a.board),
                opt_view(a.sprint),
                f.readable,
            ) {
                Ok(q) => (at(f, IssueStage::Board), ActionV::Send(q)),
                Err(e) => (at(f, IssueStage::Over), ActionV::Fail(e)),
            },
            IssueStage::Board => issue_finish(f),
            IssueStage::Reread => (at(f, IssueStage::Over), ActionV::Done(j)),
            IssueStage::Over => (f, ActionV::Done(JsonV::Null)),
        },
    }
}

fn move_to(f: IssueFlow, s: IssueStage) -> (r: IssueFlow)
    ensures
        r@ == at(f@, s),
{
    IssueFlow {
        stage: s,
        id: f.id,
        readable: f.readable,
        prior: f.prior,
        user: f.user,
        tag_ids: f.tag_ids,
        changed: f.changed,
    }
}

fn new_flow(s: IssueStage, id: String, readable: String) -> (r: IssueFlow)
    ensures
        r@ == fresh(s, id@, readable@),
{
    let r = IssueFlow {
        stage: s,
        id,
        readable,
        prior: None,
        user: None,
        tag_ids: Vec::new(),
        changed: false,
    };
    assert(strings_v(r.tag_ids@) =~= Seq::<Seq<char>>::empty());
    r
}

fn clone_opt(o: &Option<Json>) -> (r: Option<Json>)
    ensures
        opt_json_v(r) == opt_json_v(*o),
{
    match o {
        Some(j) => Some(deep_clone(j)),
        None => None,
    }
}

impl YouTrack {
    fn issue_finish_x(&self, f: IssueFlow) -> (r: (IssueFlow, Action))
        ensures
            (r.0@, r.1@) == issue_finish(f@),
    {
        if f.changed || f.prior.is_none() {
            let q = self.issue_fetch(f.id.as_str());
            (move_to(f, IssueStage::Reread), Action::Send(q))
        } else {
            let j = match &f.prior {
                Some(j) => deep_clone(j),
                None => Json::Null,
            };
            (move_to(f, IssueStage::Over), Action::Done(j))
        }
    }

    fn issue_after_parent_x(&self, a: &IssueWrite, f: IssueFlow) -> (r: (IssueFlow, Action))
        ensures
            (r.0@, r.1@) == issue_after_parent(*a, f@),
    {
        match &a.board {
            Some(_) => (move_to(f, IssueStage::Boards), Action::Send(boards_request())),
            None => self.issue_finish_x(f),
        }
    }

    fn issue_after_fields_x(&self, a: &IssueWrite, f: IssueFlow) -> (r: (IssueFlow, Action))
        ensures
            (r.0@, r.1@) == issue_after_fields(*self, *a, f@),
    {
        match &a.parent_id {
            Some(p) => {
                if p.as_str().is_empty() {
                    let q = self.parent_lookup(f.readable.as_str());
                    (move_to(f, IssueStage::ParentLookup), Action::Send(q))
                } else {
                    let q = self.set_parent_command(f.readable.as_str(), p.as_str());
                    (move_to(f, IssueStage::Parent), Action::Send(q))
                }
            },
            None => self.issue_after_parent_x(a, f),
        }
    }

    fn issue_after_tags_x(&self, a: &IssueWrite, f: IssueFlow) -> (r: (IssueFlow, Action))
        ensures
            (r.0@, r.1@) == issue_after_tags(*self, *a, f@),
    {
        let req = self.fields_update(f.id.as_str(), a, clone_opt(&f.user), &f.tag_ids);
        let changed = req.is_some() || a.parent_id.is_some() || a.board.is_some();
        let mut g = f;
        g.changed = changed;
        match req {
            Some(q) => (move_to(g, IssueStage::Fields), Action::Send(q)),
            None => self.issue_after_fields_x(a, g),
        }
    }

    fn issue_after_user_x(&self, a: &IssueWrite, f: IssueFlow) -> (r: (IssueFlow, Action))
        ensures
            (r.0@, r.1@) == issue_after_user(*self, *a, f@),
    {
        let n = f.tag_ids.len();
        match &a.tags {
            Some(t) => {
                if n < t.len() {
                    let name = own(t[n].as_str());
                    return (move_to(f, IssueStage::Tag), Action::Resolve(Lookup::Id(IdKind::Tag, name)));
                }
            },
            None => {},
        }
        self.issue_after_tags_x(a, f)
    }

    fn issue_side_x(&self, a: &IssueWrite, f: IssueFlow) -> (r: (IssueFlow, Action))
        ensures
            (r.0@, r.1@) == issue_side(*self, *a, f@),
    {
        match &a.assignee {
            Some(l) => (move_to(f, IssueStage::Assignee), Action::Resolve(Lookup::User(own(l.as_str())))),
            None => self.issue_after_user_x(a, f),
        }
    }

    /// Begins creating the issue `a` describes.
    pub fn issue_create(&self, a: &IssueWrite) -> (r: (IssueFlow, Action))
        ensures
            (r.0@, r.1@) == issue_create_begin(*a),
    {
        match YouTrack::issue_create_project(a) {
            Ok(p) => (
                new_flow(IssueStage::Project, String::new(), String::new()),
                Action::Resolve(Lookup::Id(IdKind::Project, p)),
            ),
            Err(e) => (new_flow(IssueStage::Over, String::new(), String::new()), Action::Fail(e)),
        }
    }

    /// Begins updating the issue `a` describes.
    pub fn issue_update(&self, a: &IssueWrite) -> (r: (IssueFlow, Action))
        ensures
            (r.0@, r.1@) == issue_update_begin(*self, *a),
    {
        match self.issue_update_id(a) {
            Err(e) => (new_flow(IssueStage::Over, String::new(), String::new()), Action::Fail(e)),
            Ok(id) => {
                let f = new_flow(IssueStage::Update, own(id.as_str()), id);
                match self.issue_update_request(f.id.as_str(), a) {
                    Some(q) => (f, Action::Send(q)),
                    None => self.issue_side_x(a, f),
                }
            },
        }
    }

    /// Continues an issue write with the outcome of what it last asked for.
    /// A finished write stays finished and reports `null`.
    pub fn issue_write_resume(&self, a: &IssueWrite, f: IssueFlow, ev: Result<Json, AppError>) -> (r:
        (IssueFlow, Action))
        ensures
            (r.0@, r.1@) == issue_step(*self, *a, f@, rv(ev)),
    {
        let j = match ev {
            Err(e) => {
                return (move_to(f, IssueStage::Over), Action::Fail(e));
            },
            Ok(j) => j,
        };
        match f.stage {
            IssueStage::Project => {
                let pid = answer_string(&j);
                let q = self.issue_create_request(a, pid.as_str());
                (move_to(f, IssueStage::Create), Action::Send(q))
            },
            IssueStage::Create => {
                let (id, readable) = YouTrack::created_ids(&j);
                let g = IssueFlow {
                    stage: f.stage,
                    id,
                    readable,
                    prior: Some(j),
                    user: f.user,
                    tag_ids: f.tag_ids,
                    changed: f.changed,
                };
                self.issue_side_x(a, g)
            },
            IssueStage::Update => {
                let mut g = f;
                g.prior = Some(j);
                self.issue_side_x(a, g)
            },
            IssueStage::Assignee => {
                let mut g = f;
                g.user = Some(j);
                self.issue_after_user_x(a, g)
            },
            IssueStage::Tag => {
                let mut g = f;
                let ghost before = strings_v(g.tag_ids@);
                g.tag_ids.push(answer_string(&j));
                assert(strings_v(g.tag_ids@) =~= before.push(answer_text(j@)));
                self.issue_after_user_x(a, g)
            },
            IssueStage::Fields => self.issue_after_fields_x(a, f),
            IssueStage::ParentLookup => match YouTrack::current_parent(&j) {
                Some(p) => {
                    let q = self.remove_parent_command(f.readable.as_str(), p.as_str());
                    (move_to(f, IssueStage::Parent), Action::Send(q))
                },
                None => self.issue_after_parent_x(a, f),
            },
            IssueStage::Parent => self.issue_after_parent_x(a, f),
            IssueStage::Boards => {
                let sprint = match &a.sprint {
                    Some(s) => Some(s.as_str()),
                    None => None,
                };
                let placed = match &a.board {
                    Some(b) => board_placement(&j, b.as_str(), sprint, f.readable.as_str()),
                    None => board_placement(&j, String::new().as_str(), sprint, f.readable.as_str()),
                };
                match placed {
                    Ok(q) => (move_to(f, IssueStage::Board), Action::Send(q)),
                    Err(e) => (move_to(f, IssueStage::Over), Action::Fail(e)),
                }
            },
            IssueStage::Board => self.issue_finish_x(f),
            IssueStage::Reread => (move_to(f, IssueStage::Over), Action::Done(j)),
            IssueStage::Over => (f, Action::Done(Json::Null)),
        }
    }
}

// ---------------------------------------------------------------------
// Link writes: the link type, then the link (falling back to the command
// API when the REST call is refused) or the unlinking command
// ---------------------------------------------------------------------

/// Where a link write stands: what it waits for.
#[derive(Clone, Copy, PartialEq, Eq, Structural, Debug)]
pub enum LinkStage {
    /// The link type.
    Type,
    /// The REST link.
    Post,
    /// The link or unlink command.
    Command,
    /// Nothing: the write is over.
    Over,
}

/// A link write in progress.
pub struct LinkFlow {
    pub stage: LinkStage,
    /// The link type, once looked up.
    pub link_type: Option<Json>,
    /// The value reported once the command succeeds.
    pub result: Option<Json>,
}

/// The mathematical value of a [`LinkFlow`].
pub struct LinkFlowV {
    pub stage: LinkStage,
    pub link_type: Option<JsonV>,
    pub result: Option<JsonV>,
}

impl View for LinkFlow {
    type V = LinkFlowV;

    open spec fn view(&self) -> LinkFlowV {
        LinkFlowV {
            stage: self.stage,
            link_type: opt_json_v(self.link_type),
            result: opt_json_v(self.result),
        }
    }
}

/// A link write is inward only when asked for.
pub open spec fn is_inward(a: LinkWrite) -> bool {
    a.role == Some(LinkRole::Inward)
}

/// How a link write begins: its link type is looked up.
pub open spec fn link_begin(a: LinkWrite) -> (LinkFlowV, ActionV) {
    (
        LinkFlowV { stage: LinkStage::Type, link_type: None, result: None },
        ActionV::Resolve(LookupV::LinkType(a.link_type@)),
    )
}

/// The command of a link write with link type `lt`: `<keyword>: <target>`
/// to link, `remove <keyword>: <target>` to unlink, applied to the source;
/// an error when the type has no usable keyword.
pub open spec fn link_command_step(yt: YouTrack, a: LinkWrite, f: LinkFlowV, lt: JsonV) -> (
    LinkFlowV,
    ActionV,
) {
    match link_keyword_spec(lt, is_inward(a)) {
        Err(e) => (LinkFlowV { stage: LinkStage::Over, ..f }, ActionV::Fail(e)),
        Ok(k) => match a.op {
            LinkOp::Add => (
                LinkFlowV {
                    stage: LinkStage::Command,
                    result: Some(linked_v(yt, a.source_id@, a.target_id@)),
                    ..f
                },
                ActionV::Send(
                    command_v(k + ": "@ + yt.exp(a.target_id@), yt.exp(a.source_id@)),
                ),
            ),
            LinkOp::Remove => (
                LinkFlowV {
                    stage: LinkStage::Command,
                    result: Some(unlinked_v(yt, a.source_id@, a.target_id@)),
                    ..f
                },
                ActionV::Send(
                    command_v("remove "@ + k + ": "@ + yt.exp(a.target_id@), yt.exp(a.source_id@)),
                ),
            ),
        },
    }
}

/// One step of a link write. A refused REST link (404 or 405) falls back
/// to the command; any other failure ends the write with that error.
pub open spec fn link_step(
    yt: YouTrack,
    a: LinkWrite,
    f: LinkFlowV,
    ev: Result<JsonV, AppErrorV>,
) -> (LinkFlowV, ActionV) {
    match f.stage {
        LinkStage::Type => match ev {
            Err(e) => (LinkFlowV { stage: LinkStage::Over, ..f }, ActionV::Fail(e)),
            Ok(lt) => match a.op {
                LinkOp::Add => (
                    LinkFlowV { stage: LinkStage::Post, link_type: Some(lt), ..f },
                    ActionV::Send(link_post_v(yt, a.source_id@, a.target_id@, lt)),
                ),
                LinkOp::Remove => link_command_step(
                    yt,
                    a,
                    LinkFlowV { link_type: Some(lt), ..f },
                    lt,
                ),
            },
        },
        LinkStage::Post => match ev {
            Ok(v) => (LinkFlowV { stage: LinkStage::Over, ..f }, ActionV::Done(v)),
            Err(e) => if (e matches AppErrorV::Api(st, _) && (st == 404 || st == 405)) {
                link_command_step(yt, a, f, or_null(f.link_type))
            } else {
                (LinkFlowV { stage: LinkStage::Over, ..f }, ActionV::Fail(e))
            },
        },
        LinkStage::Command => match ev {
            Err(e) => (LinkFlowV { stage: LinkStage::Over, ..f }, ActionV::Fail(e)),
            Ok(_) => (LinkFlowV { stage: LinkStage::Over, ..f }, ActionV::Done(or_null(f.result))),
        },
        LinkStage::Over => (f, ActionV::Done(JsonV::Null)),
    }
}

fn link_at(f: LinkFlow, s: LinkStage) -> (r: LinkFlow)
    ensures
        r@ == (LinkFlowV { stage: s, ..f@ }),
{
    LinkFlow { stage: s, link_type: f.link_type, result: f.result }
}

fn or_null_of(o: &Option<Json>) -> (r: Json)
    ensures
        r@ == or_null(opt_json_v(*o)),
{
    match o {
        Some(j) => deep_clone(j),
        None => Json::Null,
    }
}

impl YouTrack {
    fn link_command_x(&self, a: &LinkWrite, f: LinkFlow, lt: &Json) -> (r: (LinkFlow, Action))
        ensures
            (r.0@, r.1@) == link_command_step(*self, *a, f@, lt@),
    {
        let k = match link_keyword(lt, link_inward(a)) {
            Err(e) => {
                return (link_at(f, LinkStage::Over), Action::Fail(e));
            },
            Ok(k) => k,
        };
        let (q, out) = match a.op {
            LinkOp::Add => self.link_add_command(a.source_id.as_str(), a.target_id.as_str(), k.as_str()),
            LinkOp::Remove => self.link_remove(a.source_id.as_str(), a.target_id.as_str(), k.as_str()),
        };
        (LinkFlow { stage: LinkStage::Command, link_type: f.link_type, result: Some(out) }, Action::Send(q))
    }

    /// Begins the link write `a` describes.
    pub fn link_write_start(&self, a: &LinkWrite) -> (r: (LinkFlow, Action))
        ensures
            (r.0@, r.1@) == link_begin(*a),
    {
        (
            LinkFlow { stage: LinkStage::Type, link_type: None, result: None },
            Action::Resolve(Lookup::LinkType(own(a.link_type.as_str()))),
        )
    }

    /// Continues a link write with the outcome of what it last asked for.
    /// A finished write stays finished and reports `null`.
    pub fn link_write_resume(&self, a: &LinkWrite, f: LinkFlow, ev: Result<Json, AppError>) -> (r: (
        LinkFlow,
        Action,
    ))
        ensures
            (r.0@, r.1@) == link_step(*self, *a, f@, rv(ev)),
    {
        match f.stage {
            LinkStage::Type => match ev {
                Err(e) => (link_at(f, LinkStage::Over), Action::Fail(e)),
                Ok(lt) => match a.op {
                    LinkOp::Add => {
                        let q = self.link_add(a.source_id.as_str(), a.target_id.as_str(), &lt);
                        (
                            LinkFlow { stage: LinkStage::Post, link_type: Some(lt), result: f.result },
                            Action::Send(q),
                        )
                    },
                    LinkOp::Remove => {
                        let lt2 = deep_clone(&lt);
                        let g = LinkFlow { stage: f.stage, link_type: Some(lt), result: f.result };
                        self.link_command_x(a, g, &lt2)
                    },
                },
            },
            LinkStage::Post => match ev {
                Ok(v) => (link_at(f, LinkStage::Over), Action::Done(v)),
                Err(e) => {
                    if refused(&e) {
                        let lt = or_null_of(&f.link_type);
                        self.link_command_x(a, f, &lt)
                    } else {
                        (link_at(f, LinkStage::Over), Action::Fail(e))
                    }
                },
            },
            LinkStage::Command => match ev {
                Err(e) => (link_at(f, LinkStage::Over), Action::Fail(e)),
                Ok(_) => {
                    let v = or_null_of(&f.result);
                    (link_at(f, LinkStage::Over), Action::Done(v))
                },
            },
            LinkStage::Over => (f, Action::Done(Json::Null)),
        }
    }
}

// ---------------------------------------------------------------------
// Every write ends
// ---------------------------------------------------------------------

/// The write is over exactly when it reports its result or its error.
pub open spec fn reports_when_over(over: bool, act: ActionV) -> bool {
    over <==> (act is Done || act is Fail)
}

/// How far an issue write is from its end: the rank of its stage, plus the
/// tags still to look up.
pub open spec fn issue_measure(a: IssueWrite, f: IssueFlowV) -> nat {
    let rank: nat = match f.stage {
        IssueStage::Over => 0,
        IssueStage::Reread => 1,
        IssueStage::Board => 2,
        IssueStage::Boards => 3,
        IssueStage::Parent => 4,
        IssueStage::ParentLookup => 5,
        IssueStage::Fields => 6,
        IssueStage::Tag => 7,
        IssueStage::Assignee => 8,
        IssueStage::Update => 9,
        IssueStage::Create => 9,
        IssueStage::Project => 10,
    };
    let n = given_tags(a).len();
    let k = f.tag_ids.len();
    rank + if k < n {
        (n - k) as nat
    } else {
        0
    }
}

/// An issue write begins either finished, reporting an error, or waiting
/// for what it asks.
pub proof fn lemma_issue_write_begins(yt: YouTrack, a: IssueWrite)
    ensures
        reports_when_over(issue_create_begin(a).0.stage == IssueStage::Over, issue_create_begin(a).1),
        reports_when_over(
            issue_update_begin(yt, a).0.stage == IssueStage::Over,
            issue_update_begin(yt, a).1,
        ),
{
}

/// Every issue write ends: each step of an unfinished write brings it
/// strictly closer to its end, and leaves it over exactly when the step
/// reports the write's result or error.
pub proof fn lemma_issue_write_ends(
    yt: YouTrack,
    a: IssueWrite,
    f: IssueFlowV,
    ev: Result<JsonV, AppErrorV>,
)
    requires
        f.stage != IssueStage::Over,
    ensures
        issue_measure(a, issue_step(yt, a, f, ev).0) < issue_measure(a, f),
        reports_when_over(
            issue_step(yt, a, f, ev).0.stage == IssueStage::Over,
            issue_step(yt, a, f, ev).1,
        ),
{
}

/// How far a link write is from its end.
pub open spec fn link_measure(f: LinkFlowV) -> nat {
    match f.stage {
        LinkStage::Over => 0,
        LinkStage::Command => 1,
        LinkStage::Post => 2,
        LinkStage::Type => 3,
    }
}

/// Every link write ends: each step of an unfinished write brings it
/// strictly closer to its end, and leaves it over exactly when the step
/// reports the write's result or error.
pub proof fn lemma_link_write_ends(
    yt: YouTrack,
    a: LinkWrite,
    f: LinkFlowV,
    ev: Result<JsonV, AppErrorV>,
)
    requires
        f.stage != LinkStage::Over,
    ensures
        link_measure(link_step(yt, a, f, ev).0) < link_measure(f),
        reports_when_over(
            link_step(yt, a, f, ev).0.stage == LinkStage::Over,
            link_step(yt, a, f, ev).1,
        ),
{
}

// ---------------------------------------------------------------------
// Issue writes stay within the issues, commands and boards APIs
// ---------------------------------------------------------------------

/// A path of the issues, commands or boards API.
pub open spec fn issue_write_path(p: Seq<char>) -> bool {
    ||| "/api/issues"@.is_prefix_of(p)
    ||| "/api/commands"@.is_prefix_of(p)
    ||| "/api/agiles"@.is_prefix_of(p)
}

/// The action sends nothing, or sends to the issues, commands or boards API.
pub open spec fn sends_within(act: ActionV) -> bool {
    act matches ActionV::Send(q) ==> issue_write_path(q.path)
}

proof fn lemma_issue_paths()
    ensures
        forall|x: Seq<char>| #[trigger] issue_write_path(issue_path(x)),
        issue_write_path("/api/issues"@),
        issue_write_path("/api/commands"@),
        issue_write_path("/api/agiles"@),
{
    reveal_strlit("/api/issues");
    reveal_strlit("/api/issues/");
    reveal_strlit("/api/commands");
    reveal_strlit("/api/agiles");
    assert forall|x: Seq<char>| #[trigger] issue_write_path(issue_path(x)) by {
        assert(issue_path(x).subrange(0, 11) =~= "/api/issues"@);
    }
    assert("/api/issues"@.subrange(0, 11) =~= "/api/issues"@);
    assert("/api/commands"@.subrange(0, 13) =~= "/api/commands"@);
    assert("/api/agiles"@.subrange(0, 11) =~= "/api/agiles"@);
}

proof fn lemma_placement_path(
    boards: JsonV,
    board: Seq<char>,
    sprint: Option<Seq<char>>,
    readable: Seq<char>,
)
    ensures
        placement_spec(boards, board, sprint, readable) matches Ok(q) ==> issue_write_path(q.path),
{
    lemma_issue_paths();
    reveal_strlit("/api/agiles");
    reveal_strlit("/api/agiles/");
    assert forall|b: Seq<char>, t: Seq<char>|
        #![trigger crate::boards::sprint_add_v(b, t, readable)]
        issue_write_path(crate::boards::sprint_add_v(b, t, readable).path) by {
        let p = crate::boards::sprint_add_v(b, t, readable).path;
        assert(p.subrange(0, 11) =~= "/api/agiles"@);
    }
}

/// `/api/tags` begins no path of the issues, commands or boards API.
pub proof fn lemma_outside_tags_api(p: Seq<char>)
    requires
        issue_write_path(p),
    ensures
        !"/api/tags"@.is_prefix_of(p),
{
    reveal_strlit("/api/tags");
    reveal_strlit("/api/issues");
    reveal_strlit("/api/commands");
    reveal_strlit("/api/agiles");
    if "/api/tags"@.is_prefix_of(p) {
        assert(p[5] == 't') by {
            assert(p.subrange(0, 9)[5] == p[5]);
        }
        if "/api/issues"@.is_prefix_of(p) {
            assert(p.subrange(0, 11)[5] == p[5]);
        } else if "/api/commands"@.is_prefix_of(p) {
            assert(p.subrange(0, 13)[5] == p[5]);
        } else {
            assert(p.subrange(0, 11)[5] == p[5]);
        }
    }
}

/// An issue write never creates a tag: every request it sends goes to the
/// issues, commands or boards API, never to the tags API (`/api/tags…`);
/// tags are applied by the ids its lookups return.
pub proof fn lemma_issue_write_spares_tags(
    yt: YouTrack,
    a: IssueWrite,
    f: IssueFlowV,
    ev: Result<JsonV, AppErrorV>,
)
    ensures
        sends_within(issue_create_begin(a).1),
        sends_within(issue_update_begin(yt, a).1),
        sends_within(issue_step(yt, a, f, ev).1),
        issue_step(yt, a, f, ev).1 matches ActionV::Send(q) ==> !"/api/tags"@.is_prefix_of(q.path),
{
    lemma_issue_paths();
    match ev {
        Ok(j) => {
            lemma_placement_path(j, or_empty(a.board), opt_view(a.sprint), f.readable);
        },
        Err(_) => {},
    }
    match issue_step(yt, a, f, ev).1 {
        ActionV::Send(q) => lemma_outside_tags_api(q.path),
        _ => {},
    }
}

} // verus!
