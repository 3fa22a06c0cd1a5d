use vstd::prelude::*;

use crate::config::{Config, expanded_id, resolved_login, StrMap, pairs_view};
use crate::error::{AppError, AppErrorV, rv, bad};
use crate::json::{
    Json, JsonV, jget, jget_str, jstr, jarray, jvs, jstring, obj1, empty_obj, push_entry,
    jarray_of, deep_clone, key_index_from,
};
use crate::text::{
    chars_of, concat2, concat3, split_chars, split_char, pieces_view, all_digits, is_digit,
    string_of, str_eq, trim, trim_str, take_chars, strip_leading, strip_leading_str, starts_with,
    i64_to_decimal, decimal,
};

verus! {

// ---------------------------------------------------------------------
// Field sets requested from YouTrack
// ---------------------------------------------------------------------

pub const F_ISSUE: &'static str = "id,idReadable,summary,description,usesMarkdown,created,updated,resolved,project(id,shortName,name),parent(issues(idReadable,summary)),assignee(id,login,name),reporter(id,login,name),tags(id,name),customFields(id,name,value(id,login,name,presentation),$type)";

pub const F_ISSUE_SHORT: &'static str = "id,idReadable,summary,project(shortName),customFields(name,value(name,login,presentation),$type)";

pub const F_ISSUE_FULL: &'static str = "id,idReadable,summary,description,usesMarkdown,project(id,shortName,name),parent(issues(idReadable,summary)),assignee(login,name),tags(name),customFields(name,value(name,login,presentation),$type)";

pub const F_LINKS: &'static str = "id,direction,linkType(id,name,directed,sourceToTarget,targetToSource),issues(idReadable,summary,project(shortName),assignee(login,name))";

pub const F_LINK_TYPES: &'static str = "id,name,directed,sourceToTarget,targetToSource,aggregation";

pub const F_COMMENT: &'static str = "id,text,usesMarkdown,author(id,login,name),created,updated";

pub const F_ARTICLE: &'static str = "id,idReadable,summary,content,usesMarkdown,parentArticle(id,idReadable),project(id,shortName,name)";

pub const F_ARTICLE_LIST: &'static str = "id,idReadable,summary,parentArticle(id,idReadable),project(shortName)";

pub const F_WORKITEM: &'static str = "id,date,updated,duration(minutes,presentation),text,description,usesMarkdown,type(id,name),issue(id,idReadable),author(id,login,name)";

pub const F_USERS: &'static str = "id,login,name,fullName,email";

pub const F_PROJECTS: &'static str = "id,shortName,name";

pub const F_ATTACH: &'static str = "id,name,author(login),created,size,mimeType,url,extension";

pub const F_ACTIVITY: &'static str = "id,timestamp,author(login,name),category(id),target(text,issue(idReadable,summary)),added(name,login),removed(name,login)";

pub const ACTIVITY_DEFAULT_CATEGORIES: &'static str = "CustomFieldCategory,CommentsCategory";

// ---------------------------------------------------------------------
// Requests
// ---------------------------------------------------------------------

/// HTTP method of a request.
#[derive(Debug, Clone, Copy, PartialEq, Eq, Structural)]
pub enum Method {
    Get,
    Post,
    Delete,
}

/// A request to the YouTrack REST API, relative to the base URL.
#[derive(Debug)]
pub struct Request {
    pub method: Method,
    /// Path below the base URL, starting with `/`.
    pub path: String,
    /// Query parameters, in order.
    pub query: Vec<(String, String)>,
    /// JSON body, if any.
    pub body: Option<Json>,
}

/// The mathematical value of a [`Request`].
pub struct RequestV {
    pub method: Method,
    pub path: Seq<char>,
    pub query: Seq<(Seq<char>, Seq<char>)>,
    pub body: Option<JsonV>,
}

impl View for Request {
    type V = RequestV;

    open spec fn view(&self) -> RequestV {
        RequestV {
            method: self.method,
            path: self.path@,
            query: pairs_view(self.query@),
            body: match self.body {
                Some(b) => Some(b@),
                None => None,
            },
        }
    }
}

/// A GET of `path` with query `q`.
pub open spec fn get_v(path: Seq<char>, q: Seq<(Seq<char>, Seq<char>)>) -> RequestV {
    RequestV { method: Method::Get, path, query: q, body: None }
}

/// A POST of `body` to `path` with query `q`.
pub open spec fn post_v(path: Seq<char>, q: Seq<(Seq<char>, Seq<char>)>, body: JsonV) -> RequestV {
    RequestV { method: Method::Post, path, query: q, body: Some(body) }
}

/// A DELETE of `path`.
pub open spec fn delete_v(path: Seq<char>) -> RequestV {
    RequestV { method: Method::Delete, path, query: Seq::empty(), body: None }
}

/// The query asking for field set `f`.
pub open spec fn fields_v(f: Seq<char>) -> Seq<(Seq<char>, Seq<char>)> {
    seq![("fields"@, f)]
}

/// A fresh copy of a string.
pub fn own(s: &str) -> (r: String)
    ensures
        r@ == s@,
{
    string_of(&chars_of(s))
}

/// A query parameter.
pub fn param(k: &str, v: &str) -> (r: (String, String))
    ensures
        r.0@ == k@,
        r.1@ == v@,
{
    (own(k), own(v))
}

/// The query asking for field set `fields`.
pub fn fq(fields: &str) -> (r: Vec<(String, String)>)
    ensures
        pairs_view(r@) == fields_v(fields@),
{
    let mut q: Vec<(String, String)> = Vec::new();
    q.push(param("fields", fields));
    assert(pairs_view(q@) =~= fields_v(fields@));
    q
}

/// Appends a parameter to a query.
pub fn push_param(q: &mut Vec<(String, String)>, k: &str, v: &str)
    ensures
        pairs_view(final(q)@) == pairs_view(old(q)@).push((k@, v@)),
{
    q.push(param(k, v));
    assert(pairs_view(final(q)@) =~= pairs_view(old(q)@).push((k@, v@)));
}

/// A GET request.
pub fn get_request(path: String, query: Vec<(String, String)>) -> (r: Request)
    ensures
        r@ == get_v(path@, pairs_view(query@)),
{
    Request { method: Method::Get, path, query, body: None }
}

/// A POST request.
pub fn post_request(path: String, query: Vec<(String, String)>, body: Json) -> (r: Request)
    ensures
        r@ == post_v(path@, pairs_view(query@), body@),
{
    Request { method: Method::Post, path, query, body: Some(body) }
}

/// A DELETE request.
pub fn delete_request(path: String) -> (r: Request)
    ensures
        r@ == delete_v(path@),
{
    let r = Request { method: Method::Delete, path, query: Vec::new(), body: None };
    assert(pairs_view(r.query@) =~= Seq::<(Seq<char>, Seq<char>)>::empty());
    r
}

// ---------------------------------------------------------------------
// Ids
// ---------------------------------------------------------------------

/// `s` is an internal YouTrack id: two non-empty runs of ASCII digits
/// joined by one `-` (such as `2-42310`).
pub open spec fn is_id_spec(s: Seq<char>) -> bool {
    let p = split_char(s, '-');
    &&& p.len() == 2
    &&& p[0].len() > 0
    &&& p[1].len() > 0
    &&& all_digits(p[0])
    &&& all_digits(p[1])
}

fn digits_only(v: &Vec<char>) -> (r: bool)
    ensures
        r == all_digits(v@),
{
    let mut i: usize = 0;
    while i < v.len()
        invariant
            i <= v@.len(),
            forall|k: int| 0 <= k < i ==> is_digit(#[trigger] v@[k]),
        decreases v@.len() - i,
    {
        let u = v[i] as u32;
        if u < 48 || u > 57 {
            assert(!is_digit(v@[i as int]));
            return false;
        }
        i = i + 1;
    }
    true
}

/// Whether `s` is an internal YouTrack id (such as `2-42310`) rather than a
/// name.
pub fn is_id(s: &str) -> (r: bool)
    ensures
        r == is_id_spec(s@),
{
    let v = chars_of(s);
    let p = split_chars(&v, '-');
    let ghost ps = split_char(s@, '-');
    if p.len() != 2 {
        return false;
    }
    assert(p@[0]@ == ps[0] && p@[1]@ == ps[1]);
    p[0].len() > 0 && p[1].len() > 0 && digits_only(&p[0]) && digits_only(&p[1])
}

/// The value of a required argument, or a request error with `msg`.
pub fn require<'a>(opt: Option<&'a String>, msg: &str) -> (r: Result<&'a str, AppError>)
    ensures
        match opt {
            Some(s) => r matches Ok(x) && x@ == s@,
            None => r matches Err(e) && e@ == AppErrorV::Bad(msg@),
        },
{
    match opt {
        Some(s) => Ok(s.as_str()),
        None => Err(bad(msg)),
    }
}

// ---------------------------------------------------------------------
// Responses
// ---------------------------------------------------------------------

/// A 2xx status.
pub open spec fn is_success(status: u16) -> bool {
    200 <= status <= 299
}

/// The message YouTrack gives in an error body: the first string among
/// `error_description`, `message`, `error` and `code`.
pub open spec fn json_error_message(v: JsonV) -> Option<Seq<char>> {
    if jget_str(v, "error_description"@) is Some {
        jget_str(v, "error_description"@)
    } else if jget_str(v, "message"@) is Some {
        jget_str(v, "message"@)
    } else if jget_str(v, "error"@) is Some {
        jget_str(v, "error"@)
    } else {
        jget_str(v, "code"@)
    }
}

/// The first `n` characters of `s`.
pub open spec fn prefix(s: Seq<char>, n: int) -> Seq<char> {
    if n <= s.len() {
        s.take(n)
    } else {
        s
    }
}

/// The outcome of an HTTP exchange: `body` is the response text and
/// `parsed` what parsing it as JSON gave (the value, or the parser's message).
///
/// A success with a blank body is `null`; a success with a body is its JSON,
/// or a network error when it is not JSON. Any other status is an API error
/// carrying YouTrack's message, or the first 200 characters of the body.
pub open spec fn check_spec(status: u16, body: Seq<char>, parsed: Result<JsonV, Seq<char>>) -> Result<
    JsonV,
    AppErrorV,
> {
    if is_success(status) {
        if trim(body).len() == 0 {
            Ok(JsonV::Null)
        } else {
            match parsed {
                Ok(v) => Ok(v),
                Err(e) => Err(AppErrorV::Network("bad JSON: "@ + e)),
            }
        }
    } else {
        let from_json = match parsed {
            Ok(v) => json_error_message(v),
            Err(_) => None,
        };
        let msg = match from_json {
            Some(m) => m,
            None => prefix(body, 200),
        };
        Err(AppErrorV::Api(status, msg))
    }
}

/// The view of a parse outcome.
pub open spec fn parsed_v(p: Result<Json, String>) -> Result<JsonV, Seq<char>> {
    match p {
        Ok(v) => Ok(v@),
        Err(e) => Err(e@),
    }
}

fn error_message_of(v: &Json) -> (r: Option<String>)
    ensures
        match r {
            Some(s) => json_error_message(v@) == Some(s@),
            None => json_error_message(v@) is None,
        },
{
    match v.get_str("error_description") {
        Some(s) => {
            return Some(s);
        },
        None => {},
    }
    match v.get_str("message") {
        Some(s) => {
            return Some(s);
        },
        None => {},
    }
    match v.get_str("error") {
        Some(s) => {
            return Some(s);
        },
        None => {},
    }
    v.get_str("code")
}

/// Turns an HTTP exchange into the response value or an error.
pub fn check(status: u16, body: &str, parsed: Result<Json, String>) -> (r: Result<Json, AppError>)
    ensures
        rv(r) == check_spec(status, body@, parsed_v(parsed)),
{
    if 200 <= status && status <= 299 {
        let t = trim_str(body);
        if t.as_str().is_empty() {
            return Ok(Json::Null);
        }
        match parsed {
            Ok(v) => Ok(v),
            Err(e) => Err(AppError::Network(concat2("bad JSON: ", e.as_str()))),
        }
    } else {
        let from_json = match &parsed {
            Ok(v) => error_message_of(v),
            Err(_) => None,
        };
        let msg = match from_json {
            Some(m) => m,
            None => take_chars(body, 200),
        };
        assert(body@.take(body@.len() as int) =~= body@);
        Err(AppError::Api { status, message: msg })
    }
}

/// The query names a paging parameter (`$top` or `$skip`).
pub open spec fn has_page_spec(q: Seq<(Seq<char>, Seq<char>)>) -> bool {
    exists|i: int| 0 <= i < q.len() && (q[i].0 == "$top"@ || q[i].0 == "$skip"@)
}

/// Whether the query names a paging parameter.
pub fn has_page(q: &Vec<(String, String)>) -> (r: bool)
    ensures
        r == has_page_spec(pairs_view(q@)),
{
    let mut i: usize = 0;
    while i < q.len()
        invariant
            i <= q@.len(),
            forall|k: int|
                0 <= k < i ==> !(pairs_view(q@)[k].0 == "$top"@ || pairs_view(q@)[k].0
                    == "$skip"@),
        decreases q@.len() - i,
    {
        if str_eq(q[i].0.as_str(), "$top") || str_eq(q[i].0.as_str(), "$skip") {
            assert(pairs_view(q@)[i as int].0 == q@[i as int].0@);
            return true;
        }
        i = i + 1;
    }
    false
}

/// A GET that pages with `$top`/`$skip` and got 400 is retried once with
/// the parameters' `$` prefixes removed.
pub fn retry_without_dollar(q: &Vec<(String, String)>, status: u16) -> (r: bool)
    ensures
        r == (has_page_spec(pairs_view(q@)) && status == 400),
{
    has_page(q) && status == 400
}

/// The query with every leading `$` removed from each parameter name.
pub open spec fn plain_query_spec(q: Seq<(Seq<char>, Seq<char>)>) -> Seq<(Seq<char>, Seq<char>)> {
    Seq::new(q.len(), |i: int| (strip_leading(q[i].0, '$'), q[i].1))
}

/// The query with every leading `$` removed from each parameter name.
pub fn plain_query(q: &Vec<(String, String)>) -> (r: Vec<(String, String)>)
    ensures
        pairs_view(r@) == plain_query_spec(pairs_view(q@)),
{
    let mut out: Vec<(String, String)> = Vec::new();
    let mut i: usize = 0;
    while i < q.len()
        invariant
            i <= q@.len(),
            out@.len() == i,
            forall|k: int|
                0 <= k < i ==> (#[trigger] out@[k]).0@ == strip_leading(q@[k].0@, '$')
                    && out@[k].1@ == q@[k].1@,
        decreases q@.len() - i,
    {
        let k = strip_leading_str(q[i].0.as_str(), '$');
        let v = q[i].1.clone();
        out.push((k, v));
        i = i + 1;
    }
    assert(pairs_view(out@) =~= plain_query_spec(pairs_view(q@)));
    out
}

/// The body of a command applied to one issue, silently.
pub open spec fn command_body_v(query: Seq<char>, id_readable: Seq<char>) -> JsonV {
    JsonV::Object(
        seq![
            ("query"@, JsonV::Str(query)),
            ("issues"@, JsonV::Array(seq![JsonV::Object(seq![("idReadable"@, JsonV::Str(id_readable))])])),
            ("silent"@, JsonV::Bool(true)),
        ],
    )
}

/// A command request: `POST /api/commands` applying `query` to one issue.
pub open spec fn command_v(query: Seq<char>, id_readable: Seq<char>) -> RequestV {
    post_v("/api/commands"@, Seq::empty(), command_body_v(query, id_readable))
}

/// The request applying command `query` to issue `id_readable`.
pub fn command(query: &str, id_readable: &str) -> (r: Request)
    ensures
        r@ == command_v(query@, id_readable@),
{
    let mut body = empty_obj();
    push_entry(&mut body, "query", jstring(query));
    let mut issues: Vec<Json> = Vec::new();
    issues.push(obj1("idReadable", jstring(id_readable)));
    push_entry(&mut body, "issues", jarray_of(issues));
    push_entry(&mut body, "silent", Json::Bool(true));
    let r = post_request(own("/api/commands"), Vec::new(), body);
    assert(r@.body->0->Object_0 =~= command_body_v(query@, id_readable@)->Object_0) by {
        assert(r@.body->0->Object_0[1].1->Array_0 =~= seq![
            JsonV::Object(seq![("idReadable"@, JsonV::Str(id_readable@))]),
        ]);
    }
    assert(r@.query =~= Seq::<(Seq<char>, Seq<char>)>::empty());
    r
}

} // verus!

verus! {

// ---------------------------------------------------------------------
// The client's configuration and its plain requests
// ---------------------------------------------------------------------

/// The YouTrack client's logic: it plans requests and reads responses;
/// performing the HTTP exchanges is left to the caller.
pub struct YouTrack {
    pub cfg: Config,
    /// The `Authorization` header value every request carries.
    pub auth: String,
}

/// `s` is a valid HTTP header value: every character is a tab, or is at
/// least a space and not DEL (the bytes of a non-ASCII character all are).
pub open spec fn header_value_valid(s: Seq<char>) -> bool {
    forall|i: int|
        0 <= i < s.len() ==> (#[trigger] s[i] == '\t' || (s[i] as u32 >= 32 && s[i] as u32 != 127))
}

/// `reqwest::header::HeaderValue::from_str` (the `http` crate's): it accepts
/// exactly the strings whose bytes are all a tab, or at least 32 and not 127.
/// Claimed: the answer is `header_value_valid` of `s`.
#[verifier::external_body]
fn header_value_ok(s: &str) -> (r: bool)
    ensures
        r == header_value_valid(s@),
{
    reqwest::header::HeaderValue::from_str(s).is_ok()
}

/// The bearer `Authorization` value for `token`, or the configuration error
/// `invalid token` (which does not repeat the token) when it is no valid
/// header value.
pub fn auth_header(token: &str) -> (r: Result<String, AppError>)
    ensures
        (r is Ok) == header_value_valid("Bearer "@ + token@),
        r matches Ok(h) ==> h@ == "Bearer "@ + token@,
        r matches Err(e) ==> e@ == AppErrorV::Config("invalid token"@),
{
    let h = concat2("Bearer ", token);
    if header_value_ok(h.as_str()) {
        Ok(h)
    } else {
        Err(AppError::Config(own("invalid token")))
    }
}

/// The path `/api/issues/<id>`.
pub open spec fn issue_path(id: Seq<char>) -> Seq<char> {
    "/api/issues/"@ + id
}

impl YouTrack {
    /// The configuration is well formed.
    pub open spec fn wf(&self) -> bool {
        self.cfg.wf()
    }

    /// The issue id `raw` stands for under this configuration.
    pub open spec fn exp(&self, raw: Seq<char>) -> Seq<char> {
        expanded_id(self.cfg.default_project, raw)
    }

    /// A client with configuration `cfg`, authenticating with its token;
    /// a token that makes no valid header value is a configuration error.
    pub fn new(cfg: Config) -> (r: Result<YouTrack, AppError>)
        ensures
            (r is Ok) == header_value_valid("Bearer "@ + cfg.token@),
            r matches Ok(y) ==> y.cfg == cfg && y.auth@ == "Bearer "@ + cfg.token@,
            r matches Err(e) ==> e@ == AppErrorV::Config("invalid token"@),
    {
        match auth_header(cfg.token.as_str()) {
            Ok(auth) => Ok(YouTrack { cfg, auth }),
            Err(e) => Err(e),
        }
    }

    /// The absolute URL of `path`.
    pub fn url(&self, path: &str) -> (r: String)
        ensures
            r@ == self.cfg.base_url@ + path@,
    {
        concat2(self.cfg.base_url.as_str(), path)
    }

    /// `GET /api/issues/<id>` with the full issue fields.
    pub fn issue_get(&self, id: &str) -> (r: Request)
        ensures
            r@ == get_v(issue_path(self.exp(id@)), fields_v(F_ISSUE@)),
    {
        let id = self.cfg.expand_issue_id(id);
        get_request(concat2("/api/issues/", id.as_str()), fq(F_ISSUE))
    }

    /// `GET /api/issues` searching `query`, short or full fields, paged.
    pub fn issue_search(&self, query: &str, full: bool, top: i64, skip: i64) -> (r: Request)
        ensures
            r@ == get_v(
                "/api/issues"@,
                seq![
                    ("fields"@, if full { F_ISSUE_FULL@ } else { F_ISSUE_SHORT@ }),
                    ("query"@, query@),
                    ("$top"@, decimal(top as int)),
                    ("$skip"@, decimal(skip as int)),
                ],
            ),
    {
        let fields = if full {
            F_ISSUE_FULL
        } else {
            F_ISSUE_SHORT
        };
        let mut q = fq(fields);
        push_param(&mut q, "query", query);
        push_param(&mut q, "$top", i64_to_decimal(top).as_str());
        push_param(&mut q, "$skip", i64_to_decimal(skip).as_str());
        let r = get_request(own("/api/issues"), q);
        assert(r@.query =~= seq![
            ("fields"@, if full { F_ISSUE_FULL@ } else { F_ISSUE_SHORT@ }),
            ("query"@, query@),
            ("$top"@, decimal(top as int)),
            ("$skip"@, decimal(skip as int)),
        ]);
        r
    }

    /// `GET /api/issues/<id>/links`.
    pub fn issue_links(&self, id: &str) -> (r: Request)
        ensures
            r@ == get_v(issue_path(self.exp(id@)) + "/links"@, fields_v(F_LINKS@)),
    {
        let id = self.cfg.expand_issue_id(id);
        get_request(concat3("/api/issues/", id.as_str(), "/links"), fq(F_LINKS))
    }

    /// `DELETE /api/issues/<id>`, and the value reported once it succeeded:
    /// `{"deleted": true, "id": <id>}`.
    pub fn issue_delete(&self, id: &str) -> (r: (Request, Json))
        ensures
            r.0@ == delete_v(issue_path(self.exp(id@))),
            r.1@ == JsonV::Object(
                seq![("deleted"@, JsonV::Bool(true)), ("id"@, JsonV::Str(self.exp(id@)))],
            ),
    {
        let eid = self.cfg.expand_issue_id(id);
        let req = delete_request(concat2("/api/issues/", eid.as_str()));
        let mut out = empty_obj();
        push_entry(&mut out, "deleted", Json::Bool(true));
        push_entry(&mut out, "id", jstring(eid.as_str()));
        assert(out@->Object_0 =~= seq![
            ("deleted"@, JsonV::Bool(true)),
            ("id"@, JsonV::Str(self.exp(id@))),
        ]);
        (req, out)
    }

    /// The command making `child_readable` a subtask of `parent`.
    pub fn set_parent_command(&self, child_readable: &str, parent: &str) -> (r: Request)
        ensures
            r@ == command_v("subtask of "@ + self.exp(parent@), child_readable@),
    {
        let p = self.cfg.expand_issue_id(parent);
        let q = concat2("subtask of ", p.as_str());
        command(q.as_str(), child_readable)
    }

    /// The request reading the current parent of `child_readable`.
    pub fn parent_lookup(&self, child_readable: &str) -> (r: Request)
        ensures
            r@ == get_v(issue_path(child_readable@), fields_v("parent(issues(idReadable))"@)),
    {
        get_request(concat2("/api/issues/", child_readable), fq("parent(issues(idReadable))"))
    }

    /// The command detaching `child_readable` from its parent `parent`.
    pub fn remove_parent_command(&self, child_readable: &str, parent: &str) -> (r: Request)
        ensures
            r@ == command_v("remove subtask of "@ + parent@, child_readable@),
    {
        let q = concat2("remove subtask of ", parent);
        command(q.as_str(), child_readable)
    }

    // ---- comments ----

    /// The comment collection of an issue (`/api/issues/<id>/comments`, the
    /// id expanded) or of an article (`/api/articles/<id>/comments`).
    pub fn comment_root(&self, entity: crate::model::Entity, parent: &str) -> (r: String)
        ensures
            r@ == comment_root_v(self.cfg.default_project, entity, parent@),
    {
        match entity {
            crate::model::Entity::Issue => {
                let id = self.cfg.expand_issue_id(parent);
                concat3("/api/issues/", id.as_str(), "/comments")
            },
            crate::model::Entity::Article => concat3("/api/articles/", parent, "/comments"),
        }
    }

    /// `GET` the comments of an issue or article.
    pub fn comments_list(&self, entity: crate::model::Entity, parent: &str) -> (r: Request)
        ensures
            r@ == get_v(
                comment_root_v(self.cfg.default_project, entity, parent@),
                fields_v(F_COMMENT@),
            ),
    {
        get_request(self.comment_root(entity, parent), fq(F_COMMENT))
    }

    /// Creates (`comment_id` `None`) or updates a comment on an issue or
    /// article. Notifications are muted only for updates asked to be mute.
    pub fn comment_write(
        &self,
        entity: crate::model::Entity,
        parent: &str,
        comment_id: Option<&str>,
        text: &str,
        markdown: Option<bool>,
        mute: bool,
    ) -> (r: Request)
        ensures
            ({
                let root = comment_root_v(self.cfg.default_project, entity, parent@);
                let fq = fields_v(F_COMMENT@);
                r@ == post_v(
                    match comment_id {
                        Some(c) => root + "/"@ + c@,
                        None => root,
                    },
                    if mute && comment_id is Some {
                        fq.push(("muteUpdateNotifications"@, "true"@))
                    } else {
                        fq
                    },
                    JsonV::Object(
                        match markdown {
                            Some(m) => seq![
                                ("text"@, JsonV::Str(text@)),
                                ("usesMarkdown"@, JsonV::Bool(m)),
                            ],
                            None => seq![("text"@, JsonV::Str(text@))],
                        },
                    ),
                )
            }),
    {
        let mut body = empty_obj();
        push_entry(&mut body, "text", jstring(text));
        match markdown {
            Some(m) => push_entry(&mut body, "usesMarkdown", Json::Bool(m)),
            None => {},
        }
        let root = self.comment_root(entity, parent);
        let path = match comment_id {
            Some(c) => concat3(root.as_str(), "/", c),
            None => root,
        };
        let mut q = fq(F_COMMENT);
        if mute && comment_id.is_some() {
            push_param(&mut q, "muteUpdateNotifications", "true");
        }
        let r = post_request(path, q, body);
        assert(r@.body->0->Object_0 =~= match markdown {
            Some(m) => seq![("text"@, JsonV::Str(text@)), ("usesMarkdown"@, JsonV::Bool(m))],
            None => seq![("text"@, JsonV::Str(text@))],
        });
        r
    }

    // ---- articles ----

    /// `GET /api/articles/<id>`.
    pub fn article_get(&self, id: &str) -> (r: Request)
        ensures
            r@ == get_v("/api/articles/"@ + id@, fields_v(F_ARTICLE@)),
    {
        get_request(concat2("/api/articles/", id), fq(F_ARTICLE))
    }

    /// `GET /api/articles`, at most 100, optionally filtered by `query`.
    pub fn article_list(&self, query: Option<&str>) -> (r: Request)
        ensures
            r@ == get_v(
                "/api/articles"@,
                match query {
                    Some(s) => seq![
                        ("fields"@, F_ARTICLE_LIST@),
                        ("$top"@, "100"@),
                        ("query"@, s@),
                    ],
                    None => seq![("fields"@, F_ARTICLE_LIST@), ("$top"@, "100"@)],
                },
            ),
    {
        let mut q = fq(F_ARTICLE_LIST);
        push_param(&mut q, "$top", "100");
        match query {
            Some(s) => push_param(&mut q, "query", s),
            None => {},
        }
        let r = get_request(own("/api/articles"), q);
        assert(r@.query =~= match query {
            Some(s) => seq![("fields"@, F_ARTICLE_LIST@), ("$top"@, "100"@), ("query"@, s@)],
            None => seq![("fields"@, F_ARTICLE_LIST@), ("$top"@, "100"@)],
        });
        r
    }

    // ---- users / meta ----

    /// `GET /api/users`, at most 100, optionally filtered by `query`.
    pub fn users_list(&self, query: Option<&str>) -> (r: Request)
        ensures
            r@ == get_v(
                "/api/users"@,
                match query {
                    Some(s) => seq![("fields"@, F_USERS@), ("$top"@, "100"@), ("query"@, s@)],
                    None => seq![("fields"@, F_USERS@), ("$top"@, "100"@)],
                },
            ),
    {
        let mut q = fq(F_USERS);
        push_param(&mut q, "$top", "100");
        match query {
            Some(s) => push_param(&mut q, "query", s),
            None => {},
        }
        let r = get_request(own("/api/users"), q);
        assert(r@.query =~= match query {
            Some(s) => seq![("fields"@, F_USERS@), ("$top"@, "100"@), ("query"@, s@)],
            None => seq![("fields"@, F_USERS@), ("$top"@, "100"@)],
        });
        r
    }

    /// `GET /api/users/me`.
    pub fn user_current(&self) -> (r: Request)
        ensures
            r@ == get_v("/api/users/me"@, fields_v(F_USERS@)),
    {
        get_request(own("/api/users/me"), fq(F_USERS))
    }

    /// `GET /api/users/<id>`.
    pub fn user_get(&self, id: &str) -> (r: Request)
        ensures
            r@ == get_v("/api/users/"@ + id@, fields_v(F_USERS@)),
    {
        get_request(concat2("/api/users/", id), fq(F_USERS))
    }

    /// `GET /api/admin/projects`, at most 500.
    pub fn meta_projects(&self) -> (r: Request)
        ensures
            r@ == get_v(
                "/api/admin/projects"@,
                seq![("fields"@, F_PROJECTS@), ("$top"@, "500"@)],
            ),
    {
        let mut q = fq(F_PROJECTS);
        push_param(&mut q, "$top", "500");
        let r = get_request(own("/api/admin/projects"), q);
        assert(r@.query =~= seq![("fields"@, F_PROJECTS@), ("$top"@, "500"@)]);
        r
    }

    /// `GET /api/issueLinkTypes`.
    pub fn meta_link_types(&self) -> (r: Request)
        ensures
            r@ == get_v("/api/issueLinkTypes"@, fields_v(F_LINK_TYPES@)),
    {
        get_request(own("/api/issueLinkTypes"), fq(F_LINK_TYPES))
    }

    /// The work item types of project `project_id`, or of the whole instance.
    pub fn meta_work_types(&self, project_id: Option<&str>) -> (r: Request)
        ensures
            r@ == get_v(
                match project_id {
                    Some(p) => "/api/admin/projects/"@ + p@ + "/timeTrackingSettings/workItemTypes"@,
                    None => "/api/admin/timeTrackingSettings/workItemTypes"@,
                },
                fields_v("id,name"@),
            ),
    {
        let path = match project_id {
            Some(p) => concat3(
                "/api/admin/projects/",
                p,
                "/timeTrackingSettings/workItemTypes",
            ),
            None => own("/api/admin/timeTrackingSettings/workItemTypes"),
        };
        get_request(path, fq("id,name"))
    }

    // ---- attachments ----

    /// `GET /api/issues/<issue>/attachments`.
    pub fn attachments_list(&self, issue: &str) -> (r: Request)
        ensures
            r@ == get_v(issue_path(self.exp(issue@)) + "/attachments"@, fields_v(F_ATTACH@)),
    {
        let issue = self.cfg.expand_issue_id(issue);
        get_request(concat3("/api/issues/", issue.as_str(), "/attachments"), fq(F_ATTACH))
    }

    /// `GET /api/issues/<issue>/attachments/<aid>`.
    pub fn attachment_get(&self, issue: &str, aid: &str) -> (r: Request)
        ensures
            r@ == get_v(
                issue_path(self.exp(issue@)) + "/attachments/"@ + aid@,
                fields_v(F_ATTACH@),
            ),
    {
        let issue = self.cfg.expand_issue_id(issue);
        let p = concat3("/api/issues/", issue.as_str(), "/attachments/");
        get_request(concat2(p.as_str(), aid), fq(F_ATTACH))
    }

    /// Where an upload goes: the path and query of the multipart POST that
    /// sends file `name` to issue `issue`.
    pub fn attachment_upload(&self, issue: &str) -> (r: (String, Vec<(String, String)>))
        ensures
            r.0@ == issue_path(self.exp(issue@)) + "/attachments"@,
            pairs_view(r.1@) == fields_v(F_ATTACH@),
    {
        let issue = self.cfg.expand_issue_id(issue);
        (concat3("/api/issues/", issue.as_str(), "/attachments"), fq(F_ATTACH))
    }

    /// `DELETE` an attachment, and the value reported once it succeeded.
    pub fn attachment_delete(&self, issue: &str, aid: &str) -> (r: (Request, Json))
        ensures
            r.0@ == delete_v(issue_path(self.exp(issue@)) + "/attachments/"@ + aid@),
            r.1@ == JsonV::Object(
                seq![
                    ("deleted"@, JsonV::Bool(true)),
                    ("issueId"@, JsonV::Str(self.exp(issue@))),
                    ("attachmentId"@, JsonV::Str(aid@)),
                ],
            ),
    {
        let eid = self.cfg.expand_issue_id(issue);
        let p = concat3("/api/issues/", eid.as_str(), "/attachments/");
        let req = delete_request(concat2(p.as_str(), aid));
        let mut out = empty_obj();
        push_entry(&mut out, "deleted", Json::Bool(true));
        push_entry(&mut out, "issueId", jstring(eid.as_str()));
        push_entry(&mut out, "attachmentId", jstring(aid));
        assert(out@->Object_0 =~= seq![
            ("deleted"@, JsonV::Bool(true)),
            ("issueId"@, JsonV::Str(self.exp(issue@))),
            ("attachmentId"@, JsonV::Str(aid@)),
        ]);
        (req, out)
    }
}

/// The comment collection of an issue or an article.
pub open spec fn comment_root_v(
    default_project: Option<String>,
    entity: crate::model::Entity,
    parent: Seq<char>,
) -> Seq<char> {
    match entity {
        crate::model::Entity::Issue => issue_path(expanded_id(default_project, parent))
            + "/comments"@,
        crate::model::Entity::Article => "/api/articles/"@ + parent + "/comments"@,
    }
}

} // verus!

verus! {

// ---------------------------------------------------------------------
// Name -> id resolution (projects, tags, work item types)
// ---------------------------------------------------------------------

/// What a name is resolved to an id of.
#[derive(Debug, Clone, Copy, PartialEq, Eq, Structural)]
pub enum IdKind {
    Project,
    Tag,
    WorkType,
}

/// The endpoint listing the entities of a kind.
pub open spec fn id_endpoint(k: IdKind) -> Seq<char> {
    match k {
        IdKind::Project => "/api/admin/projects"@,
        IdKind::Tag => "/api/tags"@,
        IdKind::WorkType => "/api/admin/timeTrackingSettings/workItemTypes"@,
    }
}

/// The fields requested when listing a kind.
pub open spec fn id_fields(k: IdKind) -> Seq<char> {
    match k {
        IdKind::Project => F_PROJECTS@,
        _ => "id,name"@,
    }
}

/// The field a name is matched against.
pub open spec fn id_key_field(k: IdKind) -> Seq<char> {
    match k {
        IdKind::Project => "shortName"@,
        _ => "name"@,
    }
}

/// How an unknown name of a kind is called in errors.
pub open spec fn id_noun(k: IdKind) -> Seq<char> {
    match k {
        IdKind::Project => "project"@,
        IdKind::Tag => "tag (must already exist)"@,
        IdKind::WorkType => "work item type"@,
    }
}

fn kind_key_field(k: IdKind) -> (r: &'static str)
    ensures
        r@ == id_key_field(k),
{
    match k {
        IdKind::Project => "shortName",
        _ => "name",
    }
}

/// The (name, id) pairs of a list response, in order; entries lacking a
/// string name or a string id are skipped.
pub open spec fn id_pairs(es: Seq<JsonV>, key: Seq<char>) -> Seq<(Seq<char>, Seq<char>)>
    decreases es.len(),
{
    if es.len() == 0 {
        Seq::empty()
    } else {
        let rest = id_pairs(es.drop_last(), key);
        let e = es.last();
        match (jget_str(e, key), jget_str(e, "id"@)) {
            (Some(k), Some(id)) => rest.push((k, id)),
            _ => rest,
        }
    }
}

/// `m` with the pairs inserted in order.
pub open spec fn insert_all(m: Map<Seq<char>, Seq<char>>, ps: Seq<(Seq<char>, Seq<char>)>) -> Map<
    Seq<char>,
    Seq<char>,
>
    decreases ps.len(),
{
    if ps.len() == 0 {
        m
    } else {
        insert_all(m, ps.drop_last()).insert(ps.last().0, ps.last().1)
    }
}

/// The id a name resolves to without asking YouTrack: an id passes
/// through, a cached name gives its id.
pub open spec fn known_id(cache: Map<Seq<char>, Seq<char>>, name: Seq<char>) -> Option<Seq<char>> {
    if is_id_spec(name) {
        Some(name)
    } else if cache.contains_key(name) {
        Some(cache[name])
    } else {
        None
    }
}

/// The elements of an array value; none for any other value.
pub open spec fn array_items(j: JsonV) -> Seq<JsonV> {
    match jarray(j) {
        Some(s) => s,
        None => Seq::empty(),
    }
}

/// The id `name` resolves to without asking YouTrack, if any.
pub fn cached_id_known(cache: &StrMap, name: &str) -> (r: Option<String>)
    ensures
        match r {
            Some(s) => known_id(cache@, name@) == Some(s@),
            None => known_id(cache@, name@) is None,
        },
{
    if is_id(name) {
        return Some(own(name));
    }
    match cache.get(name) {
        Some(s) => Some(s.clone()),
        None => None,
    }
}

/// The request listing the entities of `kind` (at most 1000).
pub fn id_list_request(kind: IdKind) -> (r: Request)
    ensures
        r@ == get_v(id_endpoint(kind), seq![("fields"@, id_fields(kind)), ("$top"@, "1000"@)]),
{
    let (path, fields) = match kind {
        IdKind::Project => ("/api/admin/projects", F_PROJECTS),
        IdKind::Tag => ("/api/tags", "id,name"),
        IdKind::WorkType => ("/api/admin/timeTrackingSettings/workItemTypes", "id,name"),
    };
    let mut q = fq(fields);
    push_param(&mut q, "$top", "1000");
    let r = get_request(own(path), q);
    assert(r@.query =~= seq![("fields"@, id_fields(kind)), ("$top"@, "1000"@)]);
    r
}

/// Records the (name, id) pairs of a list response in the cache.
pub fn absorb_ids(cache: &mut StrMap, kind: IdKind, list: &Json)
    ensures
        final(cache)@ == insert_all(old(cache)@, id_pairs(array_items(list@), id_key_field(kind))),
{
    let key = kind_key_field(kind);
    match list.as_array() {
        Some(arr) => {
            let ghost es = jvs(arr@);
            let mut i: usize = 0;
            while i < arr.len()
                invariant
                    i <= arr@.len(),
                    es == jvs(arr@),
                    key@ == id_key_field(kind),
                    cache@ == insert_all(old(cache)@, id_pairs(es.take(i as int), key@)),
                decreases arr@.len() - i,
            {
                let ghost nxt = es.take(i + 1);
                assert(nxt.drop_last() =~= es.take(i as int));
                assert(nxt.last() == arr@[i as int]@);
                let e = &arr[i];
                match (e.get_str(key), e.get_str("id")) {
                    (Some(k), Some(id)) => {
                        let ghost prev = id_pairs(es.take(i as int), key@);
                        assert(prev.push((k@, id@)).drop_last() =~= prev);
                        cache.insert(k, id);
                    },
                    _ => {},
                }
                i = i + 1;
            }
            assert(es.take(arr@.len() as int) =~= es);
        },
        None => {
            assert(id_pairs(array_items(list@), id_key_field(kind)) =~= Seq::<
                (Seq<char>, Seq<char>),
            >::empty());
        },
    }
}

/// The id `name` resolves to once the list has been absorbed, or the error
/// naming the unknown entity.
pub fn cached_id_resolved(cache: &StrMap, kind: IdKind, name: &str) -> (r: Result<String, AppError>)
    ensures
        rv(r) == if cache@.contains_key(name@) {
            Ok::<Seq<char>, AppErrorV>(cache@[name@])
        } else {
            Err(AppErrorV::Bad("unknown "@ + id_noun(kind) + " '"@ + name@ + "'"@))
        },
{
    match cache.get(name) {
        Some(s) => Ok(s.clone()),
        None => {
            let noun = match kind {
                IdKind::Project => "project",
                IdKind::Tag => "tag (must already exist)",
                IdKind::WorkType => "work item type",
            };
            let a = concat3("unknown ", noun, " '");
            Err(AppError::Bad(concat3(a.as_str(), name, "'")))
        },
    }
}

// ---------------------------------------------------------------------
// Users
// ---------------------------------------------------------------------

/// `Some` value or JSON `null`.
pub open spec fn or_null(o: Option<JsonV>) -> JsonV {
    match o {
        Some(v) => v,
        None => JsonV::Null,
    }
}

/// Index of the first user at or after `i` whose login is `login`.
pub open spec fn login_index_from(us: Seq<JsonV>, login: Seq<char>, i: int) -> Option<int>
    decreases us.len() - i,
{
    if i < 0 || i >= us.len() {
        None
    } else if jget_str(us[i], "login"@) == Some(login) {
        Some(i)
    } else {
        login_index_from(us, login, i + 1)
    }
}

/// The user reference an assignment uses: the user whose login is `login`,
/// else the first user found, as `{"id", "login"}`.
pub open spec fn pick_user_spec(login: Seq<char>, res: JsonV) -> Result<JsonV, AppErrorV> {
    let unknown = Err(AppErrorV::Bad("unknown user '"@ + login + "'"@));
    match jarray(res) {
        Some(us) => match login_index_from(us, login, 0) {
            Some(i) => Ok(
                JsonV::Object(
                    seq![("id"@, or_null(jget(us[i], "id"@))), ("login"@, JsonV::Str(login))],
                ),
            ),
            None => if us.len() > 0 {
                Ok(
                    JsonV::Object(
                        seq![
                            ("id"@, or_null(jget(us[0], "id"@))),
                            ("login"@, or_null(jget(us[0], "login"@))),
                        ],
                    ),
                )
            } else {
                unknown
            },
        },
        None => unknown,
    }
}

fn clone_or_null(o: Option<&Json>) -> (r: Json)
    ensures
        r@ == or_null(
            match o {
                Some(x) => Some(x@),
                None => None,
            },
        ),
{
    match o {
        Some(x) => deep_clone(x),
        None => Json::Null,
    }
}

/// The user search for `login` (an alias resolved first): the login
/// searched for and the request.
pub fn user_query(cfg: &Config, login: &str) -> (r: (String, Request))
    ensures
        r.0@ == resolved_login(cfg.user_aliases@, login@),
        r.1@ == get_v("/api/users"@, seq![("fields"@, "id,login,name"@), ("query"@, r.0@)]),
{
    let l = own(cfg.resolve_alias(login));
    let mut q = fq("id,login,name");
    push_param(&mut q, "query", l.as_str());
    let req = get_request(own("/api/users"), q);
    assert(req@.query =~= seq![("fields"@, "id,login,name"@), ("query"@, l@)]);
    (l, req)
}

/// Picks the user to reference from the search results for `login`.
#[verifier::loop_isolation(false)]
pub fn pick_user(login: &str, res: &Json) -> (r: Result<Json, AppError>)
    ensures
        rv(r) == pick_user_spec(login@, res@),
{
    match res.as_array() {
        Some(us) => {
            let ghost usv = jvs(us@);
            let mut i: usize = 0;
            while i < us.len()
                invariant
                    i <= us@.len(),
                    usv == jvs(us@),
                    login_index_from(usv, login@, 0) == login_index_from(usv, login@, i as int),
                decreases us@.len() - i,
            {
                let l = us[i].get("login");
                let hit = match l {
                    Some(x) => match x.as_str() {
                        Some(s) => str_eq(s, login),
                        None => false,
                    },
                    None => false,
                };
                if hit {
                    let mut out = empty_obj();
                    push_entry(&mut out, "id", clone_or_null(us[i].get("id")));
                    push_entry(&mut out, "login", jstring(login));
                    assert(out@->Object_0 =~= seq![
                        ("id"@, or_null(jget(usv[i as int], "id"@))),
                        ("login"@, JsonV::Str(login@)),
                    ]);
                    return Ok(out);
                }
                i = i + 1;
            }
            if us.len() > 0 {
                let mut out = empty_obj();
                push_entry(&mut out, "id", clone_or_null(us[0].get("id")));
                push_entry(&mut out, "login", clone_or_null(us[0].get("login")));
                assert(out@->Object_0 =~= seq![
                    ("id"@, or_null(jget(usv[0], "id"@))),
                    ("login"@, or_null(jget(usv[0], "login"@))),
                ]);
                return Ok(out);
            }
            Err(AppError::Bad(concat3("unknown user '", login, "'")))
        },
        None => Err(AppError::Bad(concat3("unknown user '", login, "'"))),
    }
}

/// The login of the current user, read from `GET /api/users/me`.
pub fn current_login_of(me: &Json) -> (r: Result<String, AppError>)
    ensures
        rv(r) == match jget_str(me@, "login"@) {
            Some(l) => Ok::<Seq<char>, AppErrorV>(l),
            None => Err(AppErrorV::Bad("cannot resolve current user"@)),
        },
{
    match me.get_str("login") {
        Some(l) => Ok(l),
        None => Err(bad("cannot resolve current user")),
    }
}

// ---------------------------------------------------------------------
// Link types
// ---------------------------------------------------------------------

/// The link type is the one called `name`, by name or by id.
pub open spec fn names_link_type(t: JsonV, name: Seq<char>) -> bool {
    jget_str(t, "name"@) == Some(name) || jget_str(t, "id"@) == Some(name)
}

/// Index of the first link type at or after `i` called `name`.
pub open spec fn link_type_index_from(ts: Seq<JsonV>, name: Seq<char>, i: int) -> Option<int>
    decreases ts.len() - i,
{
    if i < 0 || i >= ts.len() {
        None
    } else if names_link_type(ts[i], name) {
        Some(i)
    } else {
        link_type_index_from(ts, name, i + 1)
    }
}

/// The link types of a list response (none when it is not an array).
pub fn link_types_of(list: &Json) -> (r: Vec<Json>)
    ensures
        jvs(r@) == array_items(list@),
{
    let mut out: Vec<Json> = Vec::new();
    match list.as_array() {
        Some(arr) => {
            let mut i: usize = 0;
            while i < arr.len()
                invariant
                    i <= arr@.len(),
                    out@.len() == i,
                    forall|k: int| 0 <= k < i ==> (#[trigger] out@[k])@ == arr@[k]@,
                decreases arr@.len() - i,
            {
                out.push(deep_clone(&arr[i]));
                i = i + 1;
            }
            assert(jvs(out@) =~= jvs(arr@));
        },
        None => {
            assert(jvs(out@) =~= Seq::<JsonV>::empty());
        },
    }
    out
}

/// The first link type called `name` (by name or id), if any.
pub fn find_link_type(types: &Vec<Json>, name: &str) -> (r: Option<Json>)
    ensures
        match link_type_index_from(jvs(types@), name@, 0) {
            Some(i) => r matches Some(t) && t@ == jvs(types@)[i],
            None => r is None,
        },
{
    let ghost ts = jvs(types@);
    let mut i: usize = 0;
    while i < types.len()
        invariant
            i <= types@.len(),
            ts == jvs(types@),
            link_type_index_from(ts, name@, 0) == link_type_index_from(ts, name@, i as int),
        decreases types@.len() - i,
    {
        let t = &types[i];
        let by_name = match t.get("name") {
            Some(x) => match x.as_str() {
                Some(s) => str_eq(s, name),
                None => false,
            },
            None => false,
        };
        let by_id = match t.get("id") {
            Some(x) => match x.as_str() {
                Some(s) => str_eq(s, name),
                None => false,
            },
            None => false,
        };
        if by_name || by_id {
            return Some(deep_clone(t));
        }
        i = i + 1;
    }
    None
}

/// The error for an unknown link type.
pub fn unknown_link_type(name: &str) -> (r: AppError)
    ensures
        r@ == AppErrorV::Bad("unknown link type '"@ + name@ + "'"@),
{
    AppError::Bad(concat3("unknown link type '", name, "'"))
}

/// The command keyword of a link type: its target-to-source phrase for an
/// inward link of a directed type, else its source-to-target phrase.
pub open spec fn link_keyword_spec(lt: JsonV, inward: bool) -> Result<Seq<char>, AppErrorV> {
    let directed = match jget(lt, "directed"@) {
        Some(JsonV::Bool(b)) => b,
        _ => false,
    };
    let s = match jget_str(lt, "sourceToTarget"@) {
        Some(x) => x,
        None => Seq::empty(),
    };
    let t = match jget_str(lt, "targetToSource"@) {
        Some(x) => x,
        None => Seq::empty(),
    };
    let k = if directed && inward {
        t
    } else {
        s
    };
    if k.len() == 0 {
        Err(AppErrorV::Bad("link type has no usable keyword"@))
    } else {
        Ok(k)
    }
}

/// The command keyword of link type `lt` for the given direction.
pub fn link_keyword(lt: &Json, inward: bool) -> (r: Result<String, AppError>)
    ensures
        rv(r) == link_keyword_spec(lt@, inward),
{
    let directed = match lt.get("directed") {
        Some(x) => match x.as_bool() {
            Some(b) => b,
            None => false,
        },
        None => false,
    };
    let s = match lt.get_str("sourceToTarget") {
        Some(x) => x,
        None => String::new(),
    };
    let t = match lt.get_str("targetToSource") {
        Some(x) => x,
        None => String::new(),
    };
    let k = if directed && inward {
        t
    } else {
        s
    };
    if k.as_str().is_empty() {
        Err(bad("link type has no usable keyword"))
    } else {
        Ok(k)
    }
}

/// `POST /api/issues/<source>/links` linking `target` with type `lt` (ids
/// expanded).
pub open spec fn link_post_v(yt: YouTrack, source: Seq<char>, target: Seq<char>, lt: JsonV) -> RequestV {
    post_v(
        issue_path(yt.exp(source)) + "/links"@,
        fields_v(F_LINKS@),
        JsonV::Object(
            seq![
                ("linkType"@, JsonV::Object(seq![("name"@, or_null(jget(lt, "name"@)))])),
                ("issues"@, JsonV::Array(seq![JsonV::Object(seq![("idReadable"@, JsonV::Str(yt.exp(target)))])])),
            ],
        ),
    )
}

/// The value reported for a link made through the command API.
pub open spec fn linked_v(yt: YouTrack, source: Seq<char>, target: Seq<char>) -> JsonV {
    JsonV::Object(
        seq![
            ("linked"@, JsonV::Bool(true)),
            ("source"@, JsonV::Str(yt.exp(source))),
            ("target"@, JsonV::Str(yt.exp(target))),
            ("via"@, JsonV::Str("command"@)),
        ],
    )
}

/// The value reported for a removed link.
pub open spec fn unlinked_v(yt: YouTrack, source: Seq<char>, target: Seq<char>) -> JsonV {
    JsonV::Object(
        seq![
            ("unlinked"@, JsonV::Bool(true)),
            ("source"@, JsonV::Str(yt.exp(source))),
            ("target"@, JsonV::Str(yt.exp(target))),
        ],
    )
}

/// Whether YouTrack refused a write's route (404 or 405): a refused link
/// POST is retried through the command API, a refused work item update by
/// replacing the item.
pub fn refused(e: &AppError) -> (r: bool)
    ensures
        r == (e@ matches AppErrorV::Api(s, _) && (s == 404 || s == 405)),
{
    match e {
        AppError::Api { status, .. } => *status == 404 || *status == 405,
        _ => false,
    }
}

impl YouTrack {
    /// `POST /api/issues/<source>/links` linking `target` with type `lt`.
    pub fn link_add(&self, source: &str, target: &str, lt: &Json) -> (r: Request)
        ensures
            r@ == link_post_v(*self, source@, target@, lt@),
    {
        let s = self.cfg.expand_issue_id(source);
        let t = self.cfg.expand_issue_id(target);
        let mut body = empty_obj();
        push_entry(&mut body, "linkType", obj1("name", clone_or_null(lt.get("name"))));
        let mut issues: Vec<Json> = Vec::new();
        issues.push(obj1("idReadable", jstring(t.as_str())));
        push_entry(&mut body, "issues", jarray_of(issues));
        let r = post_request(concat3("/api/issues/", s.as_str(), "/links"), fq(F_LINKS), body);
        assert(r@.body->0->Object_0 =~= seq![
            ("linkType"@, JsonV::Object(seq![("name"@, or_null(jget(lt@, "name"@)))])),
            ("issues"@, JsonV::Array(seq![JsonV::Object(seq![("idReadable"@, JsonV::Str(self.exp(target@)))])])),
        ]) by {
            assert(r@.body->0->Object_0[1].1->Array_0 =~= seq![
                JsonV::Object(seq![("idReadable"@, JsonV::Str(self.exp(target@)))]),
            ]);
        }
        r
    }

    /// The command linking `target` to `source` (`<keyword>: <target>`) and
    /// the value reported once it succeeded.
    pub fn link_add_command(&self, source: &str, target: &str, keyword: &str) -> (r: (
        Request,
        Json,
    ))
        ensures
            r.0@ == command_v(keyword@ + ": "@ + self.exp(target@), self.exp(source@)),
            r.1@ == linked_v(*self, source@, target@),
    {
        let s = self.cfg.expand_issue_id(source);
        let t = self.cfg.expand_issue_id(target);
        let q = concat3(keyword, ": ", t.as_str());
        let req = command(q.as_str(), s.as_str());
        let mut out = empty_obj();
        push_entry(&mut out, "linked", Json::Bool(true));
        push_entry(&mut out, "source", jstring(s.as_str()));
        push_entry(&mut out, "target", jstring(t.as_str()));
        push_entry(&mut out, "via", jstring("command"));
        assert(out@->Object_0 =~= seq![
            ("linked"@, JsonV::Bool(true)),
            ("source"@, JsonV::Str(self.exp(source@))),
            ("target"@, JsonV::Str(self.exp(target@))),
            ("via"@, JsonV::Str("command"@)),
        ]);
        (req, out)
    }

    /// The command unlinking `target` from `source`
    /// (`remove <keyword>: <target>`) and the value reported once it
    /// succeeded.
    pub fn link_remove(&self, source: &str, target: &str, keyword: &str) -> (r: (Request, Json))
        ensures
            r.0@ == command_v("remove "@ + keyword@ + ": "@ + self.exp(target@), self.exp(source@)),
            r.1@ == unlinked_v(*self, source@, target@),
    {
        let s = self.cfg.expand_issue_id(source);
        let t = self.cfg.expand_issue_id(target);
        let a = concat3("remove ", keyword, ": ");
        let q = concat2(a.as_str(), t.as_str());
        let req = command(q.as_str(), s.as_str());
        let mut out = empty_obj();
        push_entry(&mut out, "unlinked", Json::Bool(true));
        push_entry(&mut out, "source", jstring(s.as_str()));
        push_entry(&mut out, "target", jstring(t.as_str()));
        assert(out@->Object_0 =~= seq![
            ("unlinked"@, JsonV::Bool(true)),
            ("source"@, JsonV::Str(self.exp(source@))),
            ("target"@, JsonV::Str(self.exp(target@))),
        ]);
        (req, out)
    }
}

} // verus!

verus! {

// ---------------------------------------------------------------------
// Optional body entries
// ---------------------------------------------------------------------

/// The entry `k: s` when the string is given, else nothing.
pub open spec fn str_entry(k: Seq<char>, o: Option<String>) -> Seq<(Seq<char>, JsonV)> {
    match o {
        Some(s) => seq![(k, JsonV::Str(s@))],
        None => Seq::empty(),
    }
}

/// The entry `k: b` when the flag is given, else nothing.
pub open spec fn bool_entry(k: Seq<char>, o: Option<bool>) -> Seq<(Seq<char>, JsonV)> {
    match o {
        Some(b) => seq![(k, JsonV::Bool(b))],
        None => Seq::empty(),
    }
}

/// The entry `k: {"id": p}` when the id is given, else nothing.
pub open spec fn ref_entry(k: Seq<char>, o: Option<String>) -> Seq<(Seq<char>, JsonV)> {
    match o {
        Some(p) => seq![(k, JsonV::Object(seq![("id"@, JsonV::Str(p@))]))],
        None => Seq::empty(),
    }
}

/// The string, or the empty string.
pub open spec fn or_empty(o: Option<String>) -> Seq<char> {
    match o {
        Some(s) => s@,
        None => Seq::empty(),
    }
}

/// The entries of an object value.
pub open spec fn entries_of(j: JsonV) -> Seq<(Seq<char>, JsonV)> {
    match j {
        JsonV::Object(es) => es,
        _ => Seq::empty(),
    }
}

fn push_opt_str(o: &mut Json, k: &str, v: &Option<String>)
    requires
        old(o)@ is Object,
    ensures
        final(o)@ == JsonV::Object(old(o)@->Object_0 + str_entry(k@, *v)),
{
    match v {
        Some(s) => {
            push_entry(o, k, jstring(s.as_str()));
            assert(old(o)@->Object_0.push((k@, JsonV::Str(s@))) =~= old(o)@->Object_0 + str_entry(
                k@,
                *v,
            ));
        },
        None => {
            assert(old(o)@->Object_0 + str_entry(k@, *v) =~= old(o)@->Object_0);
        },
    }
}

fn push_opt_bool(o: &mut Json, k: &str, v: Option<bool>)
    requires
        old(o)@ is Object,
    ensures
        final(o)@ == JsonV::Object(old(o)@->Object_0 + bool_entry(k@, v)),
{
    match v {
        Some(b) => {
            push_entry(o, k, Json::Bool(b));
            assert(old(o)@->Object_0.push((k@, JsonV::Bool(b))) =~= old(o)@->Object_0 + bool_entry(
                k@,
                v,
            ));
        },
        None => {
            assert(old(o)@->Object_0 + bool_entry(k@, v) =~= old(o)@->Object_0);
        },
    }
}

fn push_opt_ref(o: &mut Json, k: &str, v: &Option<String>)
    requires
        old(o)@ is Object,
    ensures
        final(o)@ == JsonV::Object(old(o)@->Object_0 + ref_entry(k@, *v)),
{
    match v {
        Some(p) => {
            push_entry(o, k, obj1("id", jstring(p.as_str())));
            assert(old(o)@->Object_0.push(
                (k@, JsonV::Object(seq![("id"@, JsonV::Str(p@))])),
            ) =~= old(o)@->Object_0 + ref_entry(k@, *v));
        },
        None => {
            assert(old(o)@->Object_0 + ref_entry(k@, *v) =~= old(o)@->Object_0);
        },
    }
}

fn own_or_empty(o: &Option<String>) -> (r: String)
    ensures
        r@ == or_empty(*o),
{
    match o {
        Some(s) => s.clone(),
        None => String::new(),
    }
}

/// Whether `j` is an object with at least one entry.
pub fn has_entries(j: &Json) -> (r: bool)
    ensures
        r == (j@ is Object && j@->Object_0.len() > 0),
{
    match j {
        Json::Object(es) => {
            assert(j@->Object_0.len() == es@.len());
            es.len() > 0
        },
        _ => false,
    }
}

// ---------------------------------------------------------------------
// Issues: create, update and what goes with them
// ---------------------------------------------------------------------

/// A user reference marked with its type, as an assignee value needs.
pub open spec fn typed_user(u: JsonV) -> JsonV {
    JsonV::Object(entries_of(u).push(("$type"@, JsonV::Str("User"@))))
}

/// The custom-field writes of an issue write: assignee, then state.
pub open spec fn custom_fields_v(user: Option<JsonV>, state: Option<String>) -> Seq<JsonV> {
    let a = match user {
        Some(u) => seq![
            JsonV::Object(
                seq![
                    ("name"@, JsonV::Str("Assignee"@)),
                    ("$type"@, JsonV::Str("SingleUserIssueCustomField"@)),
                    ("value"@, typed_user(u)),
                ],
            ),
        ],
        None => Seq::empty(),
    };
    let s = match state {
        Some(st) => seq![
            JsonV::Object(
                seq![
                    ("name"@, JsonV::Str("State"@)),
                    ("$type"@, JsonV::Str("StateIssueCustomField"@)),
                    ("value"@, JsonV::Object(seq![("name"@, JsonV::Str(st@))])),
                ],
            ),
        ],
        None => Seq::empty(),
    };
    a + s
}

/// References to tags by id.
pub open spec fn tag_refs_v(ids: Seq<Seq<char>>) -> Seq<JsonV> {
    Seq::new(ids.len(), |i: int| JsonV::Object(seq![("id"@, JsonV::Str(ids[i]))]))
}

/// The body setting custom fields and tags: `customFields` when any field is
/// written, `tags` when any tag is given.
pub open spec fn fields_body_v(user: Option<JsonV>, state: Option<String>, tag_ids: Seq<Seq<char>>) -> Seq<
    (Seq<char>, JsonV),
> {
    let cf = custom_fields_v(user, state);
    let c = if cf.len() > 0 {
        seq![("customFields"@, JsonV::Array(cf))]
    } else {
        Seq::empty()
    };
    let t = if tag_ids.len() > 0 {
        seq![("tags"@, JsonV::Array(tag_refs_v(tag_ids)))]
    } else {
        Seq::empty()
    };
    c + t
}

/// The view of an optional JSON value.
pub open spec fn opt_json_v(o: Option<Json>) -> Option<JsonV> {
    match o {
        Some(j) => Some(j@),
        None => None,
    }
}

/// `POST /api/issues` creating an issue in project `project_id`: summary
/// (empty when none), project, and description and markdown when given.
pub open spec fn issue_create_v(a: crate::model::IssueWrite, project_id: Seq<char>) -> RequestV {
    post_v(
        "/api/issues"@,
        fields_v(F_ISSUE@),
        JsonV::Object(
            seq![
                ("summary"@, JsonV::Str(or_empty(a.summary))),
                ("project"@, JsonV::Object(seq![("id"@, JsonV::Str(project_id))])),
            ] + str_entry("description"@, a.description) + bool_entry("usesMarkdown"@, a.markdown),
        ),
    )
}

/// The plain fields an issue update writes: summary, description and
/// markdown, each when given.
pub open spec fn plain_entries(a: crate::model::IssueWrite) -> Seq<(Seq<char>, JsonV)> {
    str_entry("summary"@, a.summary) + str_entry("description"@, a.description) + bool_entry(
        "usesMarkdown"@,
        a.markdown,
    )
}

/// The request error for a missing issue project on create.
pub open spec fn create_needs_project() -> Seq<char> {
    "issue_write op=create requires 'project' (project shortName like ABC or its id)"@
}

/// The request error for a missing issue id on update.
pub open spec fn update_needs_id() -> Seq<char> {
    "issue_write op=update requires 'id' (issue id like ABC-123)"@
}

impl YouTrack {
    /// The project of an issue to create, which is required.
    pub fn issue_create_project(a: &crate::model::IssueWrite) -> (r: Result<String, AppError>)
        ensures
            rv(r) == match a.project {
                Some(p) => Ok::<Seq<char>, AppErrorV>(p@),
                None => Err(AppErrorV::Bad(create_needs_project())),
            },
    {
        match require(
            a.project.as_ref(),
            "issue_write op=create requires 'project' (project shortName like ABC or its id)",
        ) {
            Ok(p) => Ok(own(p)),
            Err(e) => Err(e),
        }
    }

    /// `POST /api/issues` creating an issue in project `project_id`.
    pub fn issue_create_request(&self, a: &crate::model::IssueWrite, project_id: &str) -> (r: Request)
        ensures
            r@ == issue_create_v(*a, project_id@),
    {
        let mut body = empty_obj();
        push_entry(&mut body, "summary", jstring(own_or_empty(&a.summary).as_str()));
        push_entry(&mut body, "project", obj1("id", jstring(project_id)));
        let ghost base = body@->Object_0;
        assert(base =~= seq![
            ("summary"@, JsonV::Str(or_empty(a.summary))),
            ("project"@, JsonV::Object(seq![("id"@, JsonV::Str(project_id@))])),
        ]);
        push_opt_str(&mut body, "description", &a.description);
        push_opt_bool(&mut body, "usesMarkdown", a.markdown);
        assert(body@->Object_0 =~= base + str_entry("description"@, a.description) + bool_entry(
            "usesMarkdown"@,
            a.markdown,
        ));
        post_request(own("/api/issues"), fq(F_ISSUE), body)
    }

    /// The internal and readable ids of a created issue (empty when absent).
    pub fn created_ids(created: &Json) -> (r: (String, String))
        ensures
            r.0@ == match jget_str(created@, "id"@) {
                Some(s) => s,
                None => Seq::empty(),
            },
            r.1@ == match jget_str(created@, "idReadable"@) {
                Some(s) => s,
                None => Seq::empty(),
            },
    {
        let a = match created.get_str("id") {
            Some(s) => s,
            None => String::new(),
        };
        let b = match created.get_str("idReadable") {
            Some(s) => s,
            None => String::new(),
        };
        (a, b)
    }

    /// `GET /api/issues/<id>` with the full fields, `id` taken as it is.
    pub fn issue_fetch(&self, id: &str) -> (r: Request)
        ensures
            r@ == get_v(issue_path(id@), fields_v(F_ISSUE@)),
    {
        get_request(concat2("/api/issues/", id), fq(F_ISSUE))
    }

    /// The (expanded) id of an issue to update, which is required.
    pub fn issue_update_id(&self, a: &crate::model::IssueWrite) -> (r: Result<String, AppError>)
        ensures
            rv(r) == match a.id {
                Some(i) => Ok::<Seq<char>, AppErrorV>(self.exp(i@)),
                None => Err(AppErrorV::Bad(update_needs_id())),
            },
    {
        match require(a.id.as_ref(), "issue_write op=update requires 'id' (issue id like ABC-123)") {
            Ok(raw) => Ok(self.cfg.expand_issue_id(raw)),
            Err(e) => Err(e),
        }
    }

    /// The plain-field update of issue `id`, when any of summary, description
    /// or markdown is given.
    pub fn issue_update_request(&self, id: &str, a: &crate::model::IssueWrite) -> (r: Option<Request>)
        ensures
            ({
                let es = plain_entries(*a);
                if es.len() > 0 {
                    r matches Some(q) && q@ == post_v(
                        issue_path(id@),
                        fields_v(F_ISSUE@),
                        JsonV::Object(es),
                    )
                } else {
                    r is None
                }
            }),
    {
        let mut body = empty_obj();
        push_opt_str(&mut body, "summary", &a.summary);
        push_opt_str(&mut body, "description", &a.description);
        push_opt_bool(&mut body, "usesMarkdown", a.markdown);
        let ghost es = str_entry("summary"@, a.summary) + str_entry("description"@, a.description)
            + bool_entry("usesMarkdown"@, a.markdown);
        assert(body@->Object_0 =~= es);
        if has_entries(&body) {
            Some(post_request(concat2("/api/issues/", id), fq(F_ISSUE), body))
        } else {
            None
        }
    }

    /// The custom-field and tag write of an issue: assignee (`user`, the
    /// picked user reference when an assignee is given), state and tags
    /// (`tag_ids`, the resolved ids of the given tags) in one POST to `id`,
    /// when any of them is given.
    pub fn fields_update(
        &self,
        id: &str,
        a: &crate::model::IssueWrite,
        user: Option<Json>,
        tag_ids: &Vec<String>,
    ) -> (r: Option<Request>)
        ensures
            ({
                let es = fields_body_v(opt_json_v(user), a.state, strings_v(tag_ids@));
                if es.len() > 0 {
                    r matches Some(q) && q@ == post_v(issue_path(id@), Seq::empty(), JsonV::Object(es))
                } else {
                    r is None
                }
            }),
    {
        let ghost uv = opt_json_v(user);
        let ghost a_part = match uv {
            Some(u) => seq![
                JsonV::Object(
                    seq![
                        ("name"@, JsonV::Str("Assignee"@)),
                        ("$type"@, JsonV::Str("SingleUserIssueCustomField"@)),
                        ("value"@, typed_user(u)),
                    ],
                ),
            ],
            None => Seq::<JsonV>::empty(),
        };
        let ghost s_part = match &a.state {
            Some(st) => seq![
                JsonV::Object(
                    seq![
                        ("name"@, JsonV::Str("State"@)),
                        ("$type"@, JsonV::Str("StateIssueCustomField"@)),
                        ("value"@, JsonV::Object(seq![("name"@, JsonV::Str(st@))])),
                    ],
                ),
            ],
            None => Seq::<JsonV>::empty(),
        };
        let mut fields: Vec<Json> = Vec::new();
        match user {
            Some(u) => {
                let ghost u0 = u@;
                let mut typed = match u {
                    Json::Object(es) => Json::Object(es),
                    _ => empty_obj(),
                };
                assert(typed@->Object_0 == entries_of(u0));
                push_entry(&mut typed, "$type", jstring("User"));
                assert(typed@ == typed_user(u0));
                let mut f = empty_obj();
                push_entry(&mut f, "name", jstring("Assignee"));
                push_entry(&mut f, "$type", jstring("SingleUserIssueCustomField"));
                push_entry(&mut f, "value", typed);
                assert(f@->Object_0 =~= seq![
                    ("name"@, JsonV::Str("Assignee"@)),
                    ("$type"@, JsonV::Str("SingleUserIssueCustomField"@)),
                    ("value"@, typed_user(u0)),
                ]);
                fields.push(f);
                assert(jvs(fields@) =~= a_part);
            },
            None => {
                assert(jvs(fields@) =~= a_part);
            },
        }
        let ghost after_a = fields@;
        match &a.state {
            Some(st) => {
                let mut f = empty_obj();
                push_entry(&mut f, "name", jstring("State"));
                push_entry(&mut f, "$type", jstring("StateIssueCustomField"));
                push_entry(&mut f, "value", obj1("name", jstring(st.as_str())));
                assert(f@->Object_0 =~= seq![
                    ("name"@, JsonV::Str("State"@)),
                    ("$type"@, JsonV::Str("StateIssueCustomField"@)),
                    ("value"@, JsonV::Object(seq![("name"@, JsonV::Str(st@))])),
                ]);
                fields.push(f);
                assert(jvs(fields@) =~= jvs(after_a) + s_part);
            },
            None => {
                assert(jvs(fields@) =~= jvs(after_a) + s_part);
            },
        }
        let ghost cf = custom_fields_v(uv, a.state);
        assert(jvs(fields@) =~= cf);
        let nf = fields.len();
        let mut body = empty_obj();
        if nf > 0 {
            push_entry(&mut body, "customFields", jarray_of(fields));
        }
        let ghost mid = body@->Object_0;
        if tag_ids.len() > 0 {
            let mut refs: Vec<Json> = Vec::new();
            let mut i: usize = 0;
            while i < tag_ids.len()
                invariant
                    i <= tag_ids@.len(),
                    refs@.len() == i,
                    forall|k: int|
                        0 <= k < i ==> (#[trigger] refs@[k])@ == JsonV::Object(
                            seq![("id"@, JsonV::Str(tag_ids@[k]@))],
                        ),
                decreases tag_ids@.len() - i,
            {
                refs.push(obj1("id", jstring(tag_ids[i].as_str())));
                i = i + 1;
            }
            assert(jvs(refs@) =~= tag_refs_v(strings_v(tag_ids@)));
            push_entry(&mut body, "tags", jarray_of(refs));
        }
        let ghost es = fields_body_v(uv, a.state, strings_v(tag_ids@));
        assert(body@->Object_0 =~= es);
        let has = has_entries(&body);
        let fields_req = if has {
            let q: Vec<(String, String)> = Vec::new();
            assert(pairs_view(q@) =~= Seq::<(Seq<char>, Seq<char>)>::empty());
            Some(post_request(concat2("/api/issues/", id), q, body))
        } else {
            None
        };
        fields_req
    }

    /// The parent of an issue as `GET ...?fields=parent(issues(idReadable))`
    /// reports it: `/parent/issues/0/idReadable`.
    pub fn current_parent(cur: &Json) -> (r: Option<String>)
        ensures
            match r {
                Some(s) => parent_of_spec(cur@) == Some(s@),
                None => parent_of_spec(cur@) is None,
            },
    {
        let issues = match cur.get("parent") {
            Some(p) => p.get("issues"),
            None => None,
        };
        let first = match issues {
            Some(Json::Array(v)) => {
                if v.len() > 0 {
                    Some(&v[0])
                } else {
                    None
                }
            },
            Some(o) => o.get("0"),
            None => None,
        };
        match first {
            Some(f) => f.get_str("idReadable"),
            None => None,
        }
    }
}

/// The element a JSON pointer token `0` designates: an array's first
/// element, or an object's entry `"0"`.
pub open spec fn pointer_zero(o: Option<JsonV>) -> Option<JsonV> {
    match o {
        Some(JsonV::Array(s)) => if s.len() > 0 {
            Some(s[0])
        } else {
            None
        },
        Some(j) => jget(j, "0"@),
        None => None,
    }
}

/// The string at pointer `/parent/issues/0/idReadable`.
pub open spec fn parent_of_spec(cur: JsonV) -> Option<Seq<char>> {
    jstr(
        crate::json::jget_opt(
            pointer_zero(crate::json::jget_opt(jget(cur, "parent"@), "issues"@)),
            "idReadable"@,
        ),
    )
}

} // verus!

verus! {

/// The view of an optional string slice.
pub open spec fn optv(o: Option<&str>) -> Option<Seq<char>> {
    match o {
        Some(s) => Some(s@),
        None => None,
    }
}

/// The query parameter `k=v` when the value is given, else nothing.
pub open spec fn opt_param(k: Seq<char>, o: Option<Seq<char>>) -> Seq<(Seq<char>, Seq<char>)> {
    match o {
        Some(v) => seq![(k, v)],
        None => Seq::empty(),
    }
}

fn push_opt_param(q: &mut Vec<(String, String)>, k: &str, o: Option<&str>)
    ensures
        pairs_view(final(q)@) == pairs_view(old(q)@) + opt_param(k@, optv(o)),
{
    match o {
        Some(v) => {
            push_param(q, k, v);
            assert(pairs_view(old(q)@).push((k@, v@)) =~= pairs_view(old(q)@) + opt_param(
                k@,
                optv(o),
            ));
        },
        None => {
            assert(pairs_view(old(q)@) + opt_param(k@, optv(o)) =~= pairs_view(old(q)@));
        },
    }
}

/// Strings joined with `,` (`[String]::join(",")`).
pub open spec fn join_comma(ss: Seq<Seq<char>>) -> Seq<char>
    decreases ss.len(),
{
    if ss.len() == 0 {
        Seq::empty()
    } else if ss.len() == 1 {
        ss[0]
    } else {
        join_comma(ss.drop_last()) + ","@ + ss.last()
    }
}

/// The views of a list of strings.
pub open spec fn strings_v(v: Seq<String>) -> Seq<Seq<char>> {
    Seq::new(v.len(), |i: int| v[i]@)
}

/// The activity categories asked for: the given ones joined with `,`, or
/// the default `CustomFieldCategory,CommentsCategory` when none is given.
pub open spec fn categories_spec(cats: Option<Seq<String>>) -> Seq<char> {
    match cats {
        Some(c) => if c.len() > 0 {
            join_comma(strings_v(c))
        } else {
            ACTIVITY_DEFAULT_CATEGORIES@
        },
        None => ACTIVITY_DEFAULT_CATEGORIES@,
    }
}

/// The instant of an ISO date in zone `tz`: noon local time.
pub open spec fn date_ms_spec(tz: Seq<char>, iso: Seq<char>) -> Result<i64, AppErrorV> {
    match crate::dates::ymd_parse(iso) {
        None => Err(AppErrorV::Bad("bad date '"@ + iso + "', expected YYYY-MM-DD"@)),
        Some(d) => match crate::dates::local_noon_ms(tz, d) {
            Some(ms) => Ok(ms),
            None => Err(AppErrorV::Bad("ambiguous date"@)),
        },
    }
}

/// An activity time bound: unix milliseconds, or an ISO date.
pub open spec fn activity_ts_spec(tz: Seq<char>, s: Seq<char>) -> Result<i64, AppErrorV> {
    match crate::text::parse_i64(s) {
        Some(n) => Ok(n),
        None => date_ms_spec(tz, s),
    }
}

/// Thirty days in milliseconds.
pub open spec fn thirty_days_ms() -> i64 {
    2592000000
}

/// The fields of a work item being created.
pub struct WorkitemDraft {
    /// The issue, its id expanded.
    pub issue: String,
    /// ISO date.
    pub date: String,
    pub minutes: i64,
    /// Description: the given one, else the text, else empty.
    pub desc: String,
}

/// The description a new work item gets: the description, else the text,
/// else empty.
pub open spec fn desc_of(a: crate::model::WorkitemWrite) -> Seq<char> {
    match a.description {
        Some(d) => d@,
        None => match a.text {
            Some(t) => t@,
            None => Seq::empty(),
        },
    }
}

/// A listed work item matches `desc` by description or by text.
pub open spec fn logged_as(w: JsonV, desc: Seq<char>) -> bool {
    jget_str(w, "description"@) == Some(desc) || jget_str(w, "text"@) == Some(desc)
}

/// The request error for a missing work item id on update.
pub open spec fn update_needs_wid() -> Seq<char> {
    "workitem_write op=update requires 'workItemId' (get it from workitems_list)"@
}

/// The path of work item `wid` of an issue.
pub open spec fn workitem_path(issue: Seq<char>, wid: Seq<char>) -> Seq<char> {
    issue_path(issue) + "/timeTracking/workItems/"@ + wid
}

/// The path of a work item collection of an issue.
pub open spec fn workitems_path(issue: Seq<char>) -> Seq<char> {
    issue_path(issue) + "/timeTracking/workItems"@
}

impl YouTrack {
    /// The project of an article to create, which is required.
    pub fn article_create_project(a: &crate::model::ArticleWrite) -> (r: Result<String, AppError>)
        ensures
            rv(r) == match a.project {
                Some(p) => Ok::<Seq<char>, AppErrorV>(p@),
                None => Err(
                    AppErrorV::Bad(
                        "article_write op=create requires 'project' (project shortName or id)"@,
                    ),
                ),
            },
    {
        match &a.project {
            Some(p) => Ok(p.clone()),
            None => Err(bad("article_write op=create requires 'project' (project shortName or id)")),
        }
    }

    /// `POST /api/articles` creating an article in project `project_id`.
    pub fn article_create(&self, a: &crate::model::ArticleWrite, project_id: &str) -> (r: Request)
        ensures
            r@ == post_v(
                "/api/articles"@,
                fields_v(F_ARTICLE@),
                JsonV::Object(
                    seq![
                        ("summary"@, JsonV::Str(or_empty(a.summary))),
                        ("content"@, JsonV::Str(or_empty(a.content))),
                        ("project"@, JsonV::Object(seq![("id"@, JsonV::Str(project_id@))])),
                    ] + bool_entry("usesMarkdown"@, a.markdown) + ref_entry(
                        "parentArticle"@,
                        a.parent_article_id,
                    ),
                ),
            ),
    {
        let mut body = empty_obj();
        push_entry(&mut body, "summary", jstring(own_or_empty(&a.summary).as_str()));
        push_entry(&mut body, "content", jstring(own_or_empty(&a.content).as_str()));
        push_entry(&mut body, "project", obj1("id", jstring(project_id)));
        let ghost base = body@->Object_0;
        assert(base =~= seq![
            ("summary"@, JsonV::Str(or_empty(a.summary))),
            ("content"@, JsonV::Str(or_empty(a.content))),
            ("project"@, JsonV::Object(seq![("id"@, JsonV::Str(project_id@))])),
        ]);
        push_opt_bool(&mut body, "usesMarkdown", a.markdown);
        push_opt_ref(&mut body, "parentArticle", &a.parent_article_id);
        assert(body@->Object_0 =~= base + bool_entry("usesMarkdown"@, a.markdown) + ref_entry(
            "parentArticle"@,
            a.parent_article_id,
        ));
        post_request(own("/api/articles"), fq(F_ARTICLE), body)
    }

    /// `POST /api/articles/<id>` updating the given fields; the id is required.
    pub fn article_update(&self, a: &crate::model::ArticleWrite) -> (r: Result<Request, AppError>)
        ensures
            match a.id {
                Some(id) => r matches Ok(q) && q@ == post_v(
                    "/api/articles/"@ + id@,
                    fields_v(F_ARTICLE@),
                    JsonV::Object(
                        str_entry("summary"@, a.summary) + str_entry("content"@, a.content)
                            + bool_entry("usesMarkdown"@, a.markdown) + ref_entry(
                            "parentArticle"@,
                            a.parent_article_id,
                        ),
                    ),
                ),
                None => r matches Err(e) && e@ == AppErrorV::Bad(
                    "article_write op=update requires 'id' (article id)"@,
                ),
            },
    {
        let id = match &a.id {
            Some(i) => i,
            None => {
                return Err(bad("article_write op=update requires 'id' (article id)"));
            },
        };
        let mut body = empty_obj();
        push_opt_str(&mut body, "summary", &a.summary);
        push_opt_str(&mut body, "content", &a.content);
        push_opt_bool(&mut body, "usesMarkdown", a.markdown);
        push_opt_ref(&mut body, "parentArticle", &a.parent_article_id);
        assert(body@->Object_0 =~= str_entry("summary"@, a.summary) + str_entry(
            "content"@,
            a.content,
        ) + bool_entry("usesMarkdown"@, a.markdown) + ref_entry(
            "parentArticle"@,
            a.parent_article_id,
        ));
        Ok(post_request(concat2("/api/articles/", id.as_str()), fq(F_ARTICLE), body))
    }

    // ---- work items ----

    /// The author a work item listing is for: the given login (an alias
    /// resolved), or `None` for the current user.
    pub fn workitems_author(&self, author: Option<&str>) -> (r: Option<String>)
        ensures
            match author {
                Some(a) => r matches Some(l) && l@ == resolved_login(self.cfg.user_aliases@, a@),
                None => r is None,
            },
    {
        match author {
            Some(a) => Some(own(self.cfg.resolve_alias(a))),
            None => None,
        }
    }

    /// `GET /api/workItems` of `author_login`, optionally bounded by dates
    /// and restricted to an issue, paged.
    pub fn workitems_list(
        &self,
        author_login: &str,
        start: Option<&str>,
        end: Option<&str>,
        issue: Option<&str>,
        top: i64,
        skip: i64,
    ) -> (r: Request)
        ensures
            r@ == workitems_list_v(*self, author_login@, optv(start), optv(end), optv(issue), top, skip),
    {
        let mut q = fq(F_WORKITEM);
        push_param(&mut q, "$top", i64_to_decimal(top).as_str());
        push_param(&mut q, "$skip", i64_to_decimal(skip).as_str());
        push_param(&mut q, "author", author_login);
        let ghost base = pairs_view(q@);
        assert(base =~= seq![
            ("fields"@, F_WORKITEM@),
            ("$top"@, decimal(top as int)),
            ("$skip"@, decimal(skip as int)),
            ("author"@, author_login@),
        ]);
        push_opt_param(&mut q, "startDate", start);
        push_opt_param(&mut q, "endDate", end);
        let ghost mid = pairs_view(q@);
        let ei = match issue {
            Some(i) => Some(self.cfg.expand_issue_id(i)),
            None => None,
        };
        let eir = match &ei {
            Some(s) => Some(s.as_str()),
            None => None,
        };
        push_opt_param(&mut q, "issueId", eir);
        get_request(own("/api/workItems"), q)
    }

    /// Unix milliseconds of noon, in the configured zone, on the ISO date
    /// `iso`. Read back with [`YouTrack::epoch_ms_to_iso`], that instant gives
    /// the same date.
    pub fn date_to_epoch_ms(&self, iso: &str) -> (r: Result<i64, AppError>)
        requires
            self.wf(),
        ensures
            rv(r) == date_ms_spec(self.cfg.timezone@, iso@),
            r matches Ok(ms) ==> crate::report::iso_key(self.cfg.timezone@, ms) == crate::dates::ymd_format(
                crate::dates::ymd_parse(iso@)->0,
            ),
            r matches Ok(ms) ==> (crate::dates::canonical_ymd(iso@) ==> crate::report::iso_key(
                self.cfg.timezone@,
                ms,
            ) == iso@),
    {
        match crate::dates::parse_iso_date(iso) {
            None => Err(AppError::Bad(concat3("bad date '", iso, "', expected YYYY-MM-DD"))),
            Some(d) => match crate::dates::local_noon(self.cfg.timezone.as_str(), d) {
                Some(ms) => Ok(ms),
                None => Err(bad("ambiguous date")),
            },
        }
    }

    /// The local ISO date of instant `ms` in the configured zone (empty when
    /// chrono gives none).
    pub fn epoch_ms_to_iso(&self, ms: i64) -> (r: String)
        requires
            self.wf(),
        ensures
            r@ == crate::report::iso_key(self.cfg.timezone@, ms),
    {
        crate::report::iso_date_of_ms(&self.cfg, ms)
    }

    /// The checked fields of a work item to create: the issue (expanded),
    /// the date and the minutes, which are required, and the description.
    pub fn workitem_draft(&self, a: &crate::model::WorkitemWrite) -> (r: Result<
        WorkitemDraft,
        AppError,
    >)
        ensures
            match (a.date, a.minutes) {
                (Some(d), Some(m)) => r matches Ok(w) && w.issue@ == self.exp(a.issue_id@)
                    && w.date@ == d@ && w.minutes == m && w.desc@ == desc_of(*a),
                (None, _) => r matches Err(e) && e@ == AppErrorV::Bad(
                    "workitem_write op=create requires 'date' (ISO YYYY-MM-DD)"@,
                ),
                (Some(_), None) => r matches Err(e) && e@ == AppErrorV::Bad(
                    "workitem_write op=create requires 'minutes' (integer duration)"@,
                ),
            },
    {
        let issue = self.cfg.expand_issue_id(a.issue_id.as_str());
        let date = match &a.date {
            Some(d) => d.clone(),
            None => {
                return Err(bad("workitem_write op=create requires 'date' (ISO YYYY-MM-DD)"));
            },
        };
        let minutes = match a.minutes {
            Some(m) => m,
            None => {
                return Err(bad("workitem_write op=create requires 'minutes' (integer duration)"));
            },
        };
        let desc = match &a.description {
            Some(d) => d.clone(),
            None => own_or_empty(&a.text),
        };
        Ok(WorkitemDraft { issue, date, minutes, desc })
    }

    /// Whether a listed work item already carries `desc` (by description or
    /// text), so that an idempotent create is skipped.
    pub fn already_logged(existing: &Json, desc: &str) -> (r: bool)
        ensures
            r == (exists|i: int|
                0 <= i < array_items(existing@).len() && logged_as(
                    #[trigger] array_items(existing@)[i],
                    desc@,
                )),
    {
        match existing.as_array() {
            Some(arr) => {
                let mut i: usize = 0;
                while i < arr.len()
                    invariant
                        i <= arr@.len(),
                        array_items(existing@) == jvs(arr@),
                        forall|k: int|
                            0 <= k < i ==> !logged_as(#[trigger] jvs(arr@)[k], desc@),
                    decreases arr@.len() - i,
                {
                    let w = &arr[i];
                    let by_desc = match w.get_str("description") {
                        Some(s) => str_eq(s.as_str(), desc),
                        None => false,
                    };
                    let by_text = match w.get_str("text") {
                        Some(s) => str_eq(s.as_str(), desc),
                        None => false,
                    };
                    assert(jvs(arr@)[i as int] == arr@[i as int]@);
                    if by_desc || by_text {
                        assert(logged_as(jvs(arr@)[i as int], desc@));
                        return true;
                    }
                    i = i + 1;
                }
                false
            },
            None => false,
        }
    }

    /// The value reported for a skipped idempotent create.
    pub fn skipped_result() -> (r: Json)
        ensures
            r@ == JsonV::Object(
                seq![("skipped"@, JsonV::Bool(true)), ("reason"@, JsonV::Str("already logged"@))],
            ),
    {
        let mut out = empty_obj();
        push_entry(&mut out, "skipped", Json::Bool(true));
        push_entry(&mut out, "reason", jstring("already logged"));
        assert(out@->Object_0 =~= seq![
            ("skipped"@, JsonV::Bool(true)),
            ("reason"@, JsonV::Str("already logged"@)),
        ]);
        out
    }

    /// `POST` a new work item to issue `issue` (taken as it is).
    pub fn workitem_post(&self, issue: &str, body: Json) -> (r: Request)
        ensures
            r@ == post_v(workitems_path(issue@), fields_v(F_WORKITEM@), body@),
    {
        let p = concat3("/api/issues/", issue, "/timeTracking/workItems");
        post_request(p, fq(F_WORKITEM), body)
    }

    /// The issue (expanded) and work item of an update; the work item id is
    /// required.
    pub fn workitem_update_target(&self, a: &crate::model::WorkitemWrite) -> (r: Result<
        (String, String),
        AppError,
    >)
        ensures
            match a.work_item_id {
                Some(w) => r matches Ok(p) && p.0@ == self.exp(a.issue_id@) && p.1@ == w@,
                None => r matches Err(e) && e@ == AppErrorV::Bad(update_needs_wid()),
            },
    {
        let issue = self.cfg.expand_issue_id(a.issue_id.as_str());
        match &a.work_item_id {
            Some(w) => Ok((issue, w.clone())),
            None => Err(
                bad("workitem_write op=update requires 'workItemId' (get it from workitems_list)"),
            ),
        }
    }

    /// The body of a work item update: the given date (as noon of that day),
    /// minutes, text and description.
    pub fn workitem_update_body(&self, a: &crate::model::WorkitemWrite) -> (r: Result<
        Json,
        AppError,
    >)
        requires
            self.wf(),
        ensures
            rv(r) == update_body_spec(*self, *a),
    {
        let mut body = empty_obj();
        match &a.date {
            Some(d) => {
                let ms = match self.date_to_epoch_ms(d.as_str()) {
                    Ok(ms) => ms,
                    Err(e) => {
                        return Err(e);
                    },
                };
                push_entry(&mut body, "date", Json::Int(ms));
            },
            None => {},
        }
        let ghost base = body@->Object_0;
        match a.minutes {
            Some(m) => push_entry(&mut body, "duration", obj1("minutes", Json::Int(m))),
            None => {},
        }
        push_opt_str(&mut body, "text", &a.text);
        push_opt_str(&mut body, "description", &a.description);
        assert(body@->Object_0 =~= base + workitem_rest_entries(*a));
        Ok(body)
    }

    /// `POST` to work item `wid` of issue `issue` (taken as it is).
    pub fn workitem_update_post(&self, issue: &str, wid: &str, body: Json) -> (r: Request)
        ensures
            r@ == post_v(workitem_path(issue@, wid@), fields_v(F_WORKITEM@), body@),
    {
        let p = concat3("/api/issues/", issue, "/timeTracking/workItems/");
        post_request(concat2(p.as_str(), wid), fq(F_WORKITEM), body)
    }

    /// `GET /api/workItems/<wid>`, read when an in-place update is refused.
    pub fn workitem_fetch(&self, wid: &str) -> (r: Request)
        ensures
            r@ == get_v("/api/workItems/"@ + wid@, fields_v(F_WORKITEM@)),
    {
        get_request(concat2("/api/workItems/", wid), fq(F_WORKITEM))
    }

    /// The work item that replaces one whose in-place update was refused:
    /// the given fields, with date, minutes and description falling back to
    /// the existing item's.
    pub fn merged_workitem(&self, a: &crate::model::WorkitemWrite, issue: &str, existing: &Json) -> (r:
        crate::model::WorkitemWrite)
        requires
            self.wf(),
        ensures
            r.op == crate::model::WorkOp::Create,
            r.issue_id@ == issue@,
            r.work_item_id is None,
            crate::config::opt_view(r.date) == merged_date(*self, *a, existing@),
            r.minutes == merged_minutes(*a, existing@),
            crate::config::opt_view(r.text) == crate::config::opt_view(a.text),
            crate::config::opt_view(r.description) == merged_description(*a, existing@),
            crate::config::opt_view(r.work_type) == crate::config::opt_view(a.work_type),
            r.markdown == a.markdown,
            r.idempotent is None,
    {
        let date = match &a.date {
            Some(d) => Some(d.clone()),
            None => match existing.get("date") {
                Some(x) => match x.as_i64() {
                    Some(ms) => Some(self.epoch_ms_to_iso(ms)),
                    None => None,
                },
                None => None,
            },
        };
        let minutes = match a.minutes {
            Some(m) => Some(m),
            None => match existing.get("duration") {
                Some(d) => match d.get("minutes") {
                    Some(x) => x.as_i64(),
                    None => None,
                },
                None => None,
            },
        };
        let description = match &a.description {
            Some(d) => Some(d.clone()),
            None => existing.get_str("description"),
        };
        let text = match &a.text {
            Some(t) => Some(t.clone()),
            None => None,
        };
        let work_type = match &a.work_type {
            Some(t) => Some(t.clone()),
            None => None,
        };
        crate::model::WorkitemWrite {
            op: crate::model::WorkOp::Create,
            issue_id: own(issue),
            work_item_id: None,
            date,
            minutes,
            text,
            description,
            work_type,
            markdown: a.markdown,
            idempotent: None,
        }
    }

    /// `DELETE` work item `wid` of issue `issue` (taken as it is).
    pub fn workitem_remove(&self, issue: &str, wid: &str) -> (r: Request)
        ensures
            r@ == delete_v(workitem_path(issue@, wid@)),
    {
        let p = concat3("/api/issues/", issue, "/timeTracking/workItems/");
        delete_request(concat2(p.as_str(), wid))
    }

    /// `DELETE` work item `wid` of issue `issue` (expanded), and the value
    /// reported once it succeeded.
    pub fn workitem_delete(&self, issue: &str, wid: &str) -> (r: (Request, Json))
        ensures
            r.0@ == delete_v(workitem_path(self.exp(issue@), wid@)),
            r.1@ == JsonV::Object(
                seq![
                    ("deleted"@, JsonV::Bool(true)),
                    ("issueId"@, JsonV::Str(self.exp(issue@))),
                    ("workItemId"@, JsonV::Str(wid@)),
                ],
            ),
    {
        let eid = self.cfg.expand_issue_id(issue);
        let req = self.workitem_remove(eid.as_str(), wid);
        let mut out = empty_obj();
        push_entry(&mut out, "deleted", Json::Bool(true));
        push_entry(&mut out, "issueId", jstring(eid.as_str()));
        push_entry(&mut out, "workItemId", jstring(wid));
        assert(out@->Object_0 =~= seq![
            ("deleted"@, JsonV::Bool(true)),
            ("issueId"@, JsonV::Str(self.exp(issue@))),
            ("workItemId"@, JsonV::Str(wid@)),
        ]);
        (req, out)
    }
}

/// `GET /api/workItems` of `author`, optionally bounded by dates and
/// restricted to an issue (its id expanded), paged.
pub open spec fn workitems_list_v(
    yt: YouTrack,
    author: Seq<char>,
    start: Option<Seq<char>>,
    end: Option<Seq<char>>,
    issue: Option<Seq<char>>,
    top: i64,
    skip: i64,
) -> RequestV {
    get_v(
        "/api/workItems"@,
        seq![
            ("fields"@, F_WORKITEM@),
            ("$top"@, decimal(top as int)),
            ("$skip"@, decimal(skip as int)),
            ("author"@, author),
        ] + opt_param("startDate"@, start) + opt_param("endDate"@, end) + opt_param(
            "issueId"@,
            match issue {
                Some(i) => Some(yt.exp(i)),
                None => None,
            },
        ),
    )
}

/// The body of a work item update: the given date (as noon of that day in
/// the configured zone), then minutes, text and description, each when
/// given; a bad date is an error.
pub open spec fn update_body_spec(yt: YouTrack, a: crate::model::WorkitemWrite) -> Result<
    JsonV,
    AppErrorV,
> {
    match a.date {
        Some(d) => match date_ms_spec(yt.cfg.timezone@, d@) {
            Ok(ms) => Ok(JsonV::Object(seq![("date"@, JsonV::Int(ms))] + workitem_rest_entries(a))),
            Err(e) => Err(e),
        },
        None => Ok(JsonV::Object(workitem_rest_entries(a))),
    }
}

/// The date of a replacement work item: the given one, else the existing
/// item's (its local date).
pub open spec fn merged_date(yt: YouTrack, a: crate::model::WorkitemWrite, existing: JsonV) -> Option<
    Seq<char>,
> {
    match a.date {
        Some(d) => Some(d@),
        None => match ji64_at(existing, "date"@) {
            Some(ms) => Some(crate::report::iso_key(yt.cfg.timezone@, ms)),
            None => None,
        },
    }
}

/// The minutes of a replacement work item: the given ones, else the
/// existing item's.
pub open spec fn merged_minutes(a: crate::model::WorkitemWrite, existing: JsonV) -> Option<i64> {
    match a.minutes {
        Some(m) => Some(m),
        None => crate::json::ji64(crate::json::jget_opt(jget(existing, "duration"@), "minutes"@)),
    }
}

/// The description of a replacement work item: the given one, else the
/// existing item's.
pub open spec fn merged_description(a: crate::model::WorkitemWrite, existing: JsonV) -> Option<
    Seq<char>,
> {
    match a.description {
        Some(d) => Some(d@),
        None => jget_str(existing, "description"@),
    }
}

/// The integer under key `k`, if there is one.
pub open spec fn ji64_at(j: JsonV, k: Seq<char>) -> Option<i64> {
    crate::json::ji64(jget(j, k))
}

/// The entries of a work item update after its date: minutes, text,
/// description, each when given.
pub open spec fn workitem_rest_entries(a: crate::model::WorkitemWrite) -> Seq<(Seq<char>, JsonV)> {
    (match a.minutes {
        Some(m) => seq![("duration"@, JsonV::Object(seq![("minutes"@, JsonV::Int(m))]))],
        None => Seq::empty(),
    }) + str_entry("text"@, a.text) + str_entry("description"@, a.description)
}

} // verus!

verus! {

// ---------------------------------------------------------------------
// Activities
// ---------------------------------------------------------------------

/// Strings joined with `,`.
pub fn join_with_comma(v: &Vec<String>) -> (r: String)
    ensures
        r@ == join_comma(strings_v(v@)),
{
    let ghost ss = strings_v(v@);
    let mut out = String::new();
    let mut i: usize = 0;
    while i < v.len()
        invariant
            i <= v@.len(),
            ss == strings_v(v@),
            out@ == join_comma(ss.take(i as int)),
        decreases v@.len() - i,
    {
        let ghost nxt = ss.take(i + 1);
        assert(nxt.drop_last() =~= ss.take(i as int));
        assert(nxt.last() == v@[i as int]@);
        if i == 0 {
            out = v[0].clone();
            assert(join_comma(nxt) == nxt[0]);
        } else {
            out.append(",");
            out.append(v[i].as_str());
            assert(join_comma(nxt) == join_comma(ss.take(i as int)) + ","@ + v@[i as int]@);
        }
        i = i + 1;
    }
    assert(ss.take(v@.len() as int) =~= ss);
    out
}

/// The view of optional strings.
pub open spec fn opt_strings(o: Option<&Vec<String>>) -> Option<Seq<String>> {
    match o {
        Some(v) => Some(v@),
        None => None,
    }
}

/// The query of `users_activity` once its bounds are known.
pub open spec fn user_activity_query(
    author: Seq<char>,
    categories: Seq<char>,
    start_ms: i64,
    end_ms: i64,
    reverse: Option<bool>,
    top: i64,
    skip: i64,
) -> Seq<(Seq<char>, Seq<char>)> {
    seq![
        ("fields"@, F_ACTIVITY@),
        ("author"@, author),
        ("categories"@, categories),
        ("start"@, decimal(start_ms as int)),
        ("end"@, decimal(end_ms as int)),
        ("$top"@, decimal(top as int)),
        ("$skip"@, decimal(skip as int)),
    ] + match reverse {
        Some(true) => seq![("reverse"@, "true"@)],
        Some(false) => seq![("reverse"@, "false"@)],
        None => Seq::empty(),
    }
}

impl YouTrack {
    /// An activity time bound: a raw unix-ms integer, or an ISO date (noon
    /// in the configured zone).
    pub fn activity_ts(&self, s: &str) -> (r: Result<i64, AppError>)
        requires
            self.wf(),
        ensures
            rv(r) == activity_ts_spec(self.cfg.timezone@, s@),
    {
        match crate::text::parse_i64_str(s) {
            Some(n) => Ok(n),
            None => self.date_to_epoch_ms(s),
        }
    }

    /// The categories parameter: the given categories joined with `,`, or the
    /// default ones when none is given.
    pub fn activity_categories(cats: Option<&Vec<String>>) -> (r: String)
        ensures
            r@ == categories_spec(opt_strings(cats)),
    {
        match cats {
            Some(c) => {
                if c.len() > 0 {
                    join_with_comma(c)
                } else {
                    own(ACTIVITY_DEFAULT_CATEGORIES)
                }
            },
            None => own(ACTIVITY_DEFAULT_CATEGORIES),
        }
    }

    /// `GET /api/issues/<issue>/activities`, optionally by author and bounded
    /// in time, paged.
    pub fn issue_activities(
        &self,
        issue: &str,
        author: Option<&str>,
        start: Option<&str>,
        end: Option<&str>,
        categories: Option<&Vec<String>>,
        top: i64,
        skip: i64,
    ) -> (r: Result<Request, AppError>)
        requires
            self.wf(),
        ensures
            ({
                let s = match start {
                    Some(x) => match activity_ts_spec(self.cfg.timezone@, x@) {
                        Ok(v) => Ok(Some(v)),
                        Err(e) => Err(e),
                    },
                    None => Ok(None),
                };
                let e = match end {
                    Some(x) => match activity_ts_spec(self.cfg.timezone@, x@) {
                        Ok(v) => Ok(Some(v)),
                        Err(e) => Err(e),
                    },
                    None => Ok(None),
                };
                match (s, e) {
                    (Err(x), _) => r matches Err(y) && y@ == x,
                    (Ok(_), Err(x)) => r matches Err(y) && y@ == x,
                    (Ok(so), Ok(eo)) => r matches Ok(q) && q@ == get_v(
                        issue_path(self.exp(issue@)) + "/activities"@,
                        seq![
                            ("fields"@, F_ACTIVITY@),
                            ("categories"@, categories_spec(opt_strings(categories))),
                            ("$top"@, decimal(top as int)),
                            ("$skip"@, decimal(skip as int)),
                        ] + opt_param(
                            "author"@,
                            match author {
                                Some(a) => Some(resolved_login(self.cfg.user_aliases@, a@)),
                                None => None,
                            },
                        ) + opt_param(
                            "start"@,
                            match so {
                                Some(v) => Some(decimal(v as int)),
                                None => None,
                            },
                        ) + opt_param(
                            "end"@,
                            match eo {
                                Some(v) => Some(decimal(v as int)),
                                None => None,
                            },
                        ),
                    ),
                }
            }),
    {
        let eid = self.cfg.expand_issue_id(issue);
        let mut q = fq(F_ACTIVITY);
        push_param(&mut q, "categories", Self::activity_categories(categories).as_str());
        push_param(&mut q, "$top", i64_to_decimal(top).as_str());
        push_param(&mut q, "$skip", i64_to_decimal(skip).as_str());
        let ghost base = pairs_view(q@);
        assert(base =~= seq![
            ("fields"@, F_ACTIVITY@),
            ("categories"@, categories_spec(opt_strings(categories))),
            ("$top"@, decimal(top as int)),
            ("$skip"@, decimal(skip as int)),
        ]);
        let a = match author {
            Some(a) => Some(own(self.cfg.resolve_alias(a))),
            None => None,
        };
        push_opt_param(
            &mut q,
            "author",
            match &a {
                Some(s) => Some(s.as_str()),
                None => None,
            },
        );
        let sv = match start {
            Some(s) => match self.activity_ts(s) {
                Ok(v) => Some(i64_to_decimal(v)),
                Err(e) => {
                    return Err(e);
                },
            },
            None => None,
        };
        push_opt_param(
            &mut q,
            "start",
            match &sv {
                Some(s) => Some(s.as_str()),
                None => None,
            },
        );
        let ev = match end {
            Some(s) => match self.activity_ts(s) {
                Ok(v) => Some(i64_to_decimal(v)),
                Err(e) => {
                    return Err(e);
                },
            },
            None => None,
        };
        push_opt_param(
            &mut q,
            "end",
            match &ev {
                Some(s) => Some(s.as_str()),
                None => None,
            },
        );
        let r = get_request(concat3("/api/issues/", eid.as_str(), "/activities"), q);
        assert(r@.query =~= base + opt_param(
            "author"@,
            match author {
                Some(x) => Some(resolved_login(self.cfg.user_aliases@, x@)),
                None => None,
            },
        ) + opt_param(
            "start"@,
            match sv {
                Some(x) => Some(x@),
                None => None,
            },
        ) + opt_param(
            "end"@,
            match ev {
                Some(x) => Some(x@),
                None => None,
            },
        ));
        Ok(r)
    }

    /// `GET /api/activities` of `author` between `start` and `end`: the end
    /// defaults to `now_ms`, the start to thirty days before the end; a start
    /// after the end is refused.
    pub fn users_activity(
        &self,
        author: &str,
        start: Option<&str>,
        end: Option<&str>,
        categories: Option<&Vec<String>>,
        reverse: Option<bool>,
        top: i64,
        skip: i64,
        now_ms: i64,
    ) -> (r: Result<Request, AppError>)
        requires
            self.wf(),
        ensures
            ({
                let e = match end {
                    Some(x) => activity_ts_spec(self.cfg.timezone@, x@),
                    None => Ok(now_ms),
                };
                match e {
                    Err(x) => r matches Err(y) && y@ == x,
                    Ok(end_ms) => {
                        let s = match start {
                            Some(x) => activity_ts_spec(self.cfg.timezone@, x@),
                            None => Ok(end_ms.wrapping_sub(thirty_days_ms())),
                        };
                        match s {
                            Err(x) => r matches Err(y) && y@ == x,
                            Ok(start_ms) => if start_ms > end_ms {
                                r matches Err(y) && y@ == AppErrorV::Bad(
                                    "startDate after endDate"@,
                                )
                            } else {
                                r matches Ok(q) && q@ == get_v(
                                    "/api/activities"@,
                                    user_activity_query(
                                        resolved_login(self.cfg.user_aliases@, author@),
                                        categories_spec(opt_strings(categories)),
                                        start_ms,
                                        end_ms,
                                        reverse,
                                        top,
                                        skip,
                                    ),
                                )
                            },
                        }
                    },
                }
            }),
    {
        let end_ms = match end {
            Some(e) => match self.activity_ts(e) {
                Ok(v) => v,
                Err(x) => {
                    return Err(x);
                },
            },
            None => now_ms,
        };
        let start_ms = match start {
            Some(s) => match self.activity_ts(s) {
                Ok(v) => v,
                Err(x) => {
                    return Err(x);
                },
            },
            None => end_ms.wrapping_sub(2592000000),
        };
        if start_ms > end_ms {
            return Err(bad("startDate after endDate"));
        }
        let mut q = fq(F_ACTIVITY);
        push_param(&mut q, "author", self.cfg.resolve_alias(author));
        push_param(&mut q, "categories", Self::activity_categories(categories).as_str());
        push_param(&mut q, "start", i64_to_decimal(start_ms).as_str());
        push_param(&mut q, "end", i64_to_decimal(end_ms).as_str());
        push_param(&mut q, "$top", i64_to_decimal(top).as_str());
        push_param(&mut q, "$skip", i64_to_decimal(skip).as_str());
        let ghost base = pairs_view(q@);
        match reverse {
            Some(rv) => {
                if rv {
                    push_param(&mut q, "reverse", "true");
                } else {
                    push_param(&mut q, "reverse", "false");
                }
            },
            None => {},
        }
        let r = get_request(own("/api/activities"), q);
        assert(r@.query =~= user_activity_query(
            resolved_login(self.cfg.user_aliases@, author@),
            categories_spec(opt_strings(categories)),
            start_ms,
            end_ms,
            reverse,
            top,
            skip,
        ));
        Ok(r)
    }

    // ---- attachment download ----

    /// The name and absolute URL of an attachment from its metadata: the
    /// name defaults to `attachment`; a relative URL is taken from the base
    /// URL; an attachment without URL is an error.
    pub fn attachment_download_source(&self, meta: &Json) -> (r: Result<(String, String), AppError>)
        ensures
            match jget_str(meta@, "url"@) {
                Some(rel) => r matches Ok(p) && p.0@ == match jget_str(meta@, "name"@) {
                    Some(n) => n,
                    None => "attachment"@,
                } && p.1@ == if "http"@.is_prefix_of(rel) {
                    rel
                } else {
                    self.cfg.base_url@ + rel
                },
                None => r matches Err(e) && e@ == AppErrorV::Bad("attachment has no url"@),
            },
    {
        let name = match meta.get_str("name") {
            Some(n) => n,
            None => own("attachment"),
        };
        let rel = match meta.get_str("url") {
            Some(u) => u,
            None => {
                return Err(bad("attachment has no url"));
            },
        };
        let full = if starts_with(rel.as_str(), "http") {
            rel
        } else {
            self.url(rel.as_str())
        };
        Ok((name, full))
    }

    /// The outcome of fetching an attachment's content with status `status`.
    pub fn attachment_fetched(status: u16) -> (r: Result<(), AppError>)
        ensures
            is_success(status) ==> r is Ok,
            !is_success(status) ==> (r matches Err(e) && e@ == AppErrorV::Api(
                status,
                "attachment download failed"@,
            )),
    {
        if 200 <= status && status <= 299 {
            Ok(())
        } else {
            Err(AppError::Api { status, message: own("attachment download failed") })
        }
    }
}

} // verus!

verus! {

// ---------------------------------------------------------------------
// Laws of the requests
// ---------------------------------------------------------------------

/// Creating an issue posts to `/api/issues` a body that carries the
/// project's id, the summary (empty when none), and the description and the
/// markdown flag exactly when the write gives them, each with its value.
pub proof fn lemma_issue_create_carries_fields(a: crate::model::IssueWrite, project_id: Seq<char>)
    ensures
        issue_create_v(a, project_id).method == Method::Post,
        issue_create_v(a, project_id).path == "/api/issues"@,
        issue_create_v(a, project_id).body matches Some(b) && {
            &&& jget(b, "summary"@) == Some(
                JsonV::Str(
                    match a.summary {
                        Some(s) => s@,
                        None => Seq::empty(),
                    },
                ),
            )
            &&& jget(b, "project"@) == Some(
                JsonV::Object(seq![("id"@, JsonV::Str(project_id))]),
            )
            &&& jget(b, "description"@) == match a.description {
                Some(d) => Some(JsonV::Str(d@)),
                None => None,
            }
            &&& jget(b, "usesMarkdown"@) == match a.markdown {
                Some(m) => Some(JsonV::Bool(m)),
                None => None,
            }
        },
{
    reveal_strlit("summary");
    reveal_strlit("project");
    reveal_strlit("description");
    reveal_strlit("usesMarkdown");
    let es = issue_create_v(a, project_id).body->0->Object_0;
    assert("summary"@ != "project"@) by {
        assert("summary"@[0] != "project"@[0]);
    }
    assert("summary"@.len() != "description"@.len());
    assert("summary"@.len() != "usesMarkdown"@.len());
    assert("project"@.len() != "description"@.len());
    assert("project"@.len() != "usesMarkdown"@.len());
    assert("description"@.len() != "usesMarkdown"@.len());
    lemma_first_key(es, "summary"@, 0, 0);
    lemma_first_key(es, "project"@, 0, 1);
    match a.description {
        Some(d) => {
            lemma_first_key(es, "description"@, 0, 2);
            match a.markdown {
                Some(m) => lemma_first_key(es, "usesMarkdown"@, 0, 3),
                None => lemma_no_key(es, "usesMarkdown"@, 0),
            }
        },
        None => {
            lemma_no_key(es, "description"@, 0);
            match a.markdown {
                Some(m) => lemma_first_key(es, "usesMarkdown"@, 0, 2),
                None => lemma_no_key(es, "usesMarkdown"@, 0),
            }
        },
    }
}

/// Key `k` first occurs at `i` from `s` on: the lookup from `s` finds `i`.
proof fn lemma_first_key(es: Seq<(Seq<char>, JsonV)>, k: Seq<char>, s: int, i: int)
    requires
        0 <= s <= i < es.len(),
        es[i].0 == k,
        forall|j: int| s <= j < i ==> (#[trigger] es[j]).0 != k,
    ensures
        key_index_from(es, k, s) == Some(i),
    decreases i - s,
{
    if s < i {
        lemma_first_key(es, k, s + 1, i);
    }
}

/// Key `k` does not occur from `s` on: the lookup from `s` finds nothing.
proof fn lemma_no_key(es: Seq<(Seq<char>, JsonV)>, k: Seq<char>, s: int)
    requires
        0 <= s,
        forall|j: int| s <= j < es.len() ==> (#[trigger] es[j]).0 != k,
    ensures
        key_index_from(es, k, s) is None,
    decreases es.len() - s,
{
    if s < es.len() {
        lemma_no_key(es, k, s + 1);
    }
}

/// Adding a link through the REST API posts to the links of the source
/// issue (its id expanded) a body naming the link type and, as its only
/// issue, the target (its id expanded).
pub proof fn lemma_link_post_names_target(
    yt: YouTrack,
    source: Seq<char>,
    target: Seq<char>,
    lt: JsonV,
)
    ensures
        link_post_v(yt, source, target, lt).method == Method::Post,
        link_post_v(yt, source, target, lt).path == "/api/issues/"@ + yt.exp(source) + "/links"@,
        link_post_v(yt, source, target, lt).body matches Some(b) && {
            &&& jget(b, "issues"@) == Some(
                JsonV::Array(seq![JsonV::Object(seq![("idReadable"@, JsonV::Str(yt.exp(target)))])]),
            )
            &&& jget(b, "linkType"@) == Some(
                JsonV::Object(seq![("name"@, or_null(jget(lt, "name"@)))]),
            )
        },
{
    reveal_strlit("issues");
    reveal_strlit("linkType");
    assert("issues"@.len() != "linkType"@.len());
    let es = link_post_v(yt, source, target, lt).body->0->Object_0;
    lemma_first_key(es, "linkType"@, 0, 0);
    lemma_first_key(es, "issues"@, 0, 1);
}

/// The entry `i` holding name `n` and id `x`, with no later entry of that
/// name, the pairs of the list map `n` to `x`.
proof fn lemma_pairs_keep_last(
    m: Map<Seq<char>, Seq<char>>,
    es: Seq<JsonV>,
    key: Seq<char>,
    i: int,
    n: Seq<char>,
    x: Seq<char>,
)
    requires
        0 <= i < es.len(),
        jget_str(es[i], key) == Some(n),
        jget_str(es[i], "id"@) == Some(x),
        forall|j: int| i < j < es.len() ==> jget_str(#[trigger] es[j], key) != Some(n),
    ensures
        insert_all(m, id_pairs(es, key)).contains_key(n),
        insert_all(m, id_pairs(es, key))[n] == x,
    decreases es.len(),
{
    let rest = id_pairs(es.drop_last(), key);
    let ps = id_pairs(es, key);
    if i == es.len() - 1 {
        assert(ps == rest.push((n, x)));
        assert(rest.push((n, x)).drop_last() =~= rest);
    } else {
        assert forall|j: int| i < j < es.drop_last().len() implies jget_str(
            #[trigger] es.drop_last()[j],
            key,
        ) != Some(n) by {
            assert(es.drop_last()[j] == es[j]);
        }
        assert(es.drop_last()[i] == es[i]);
        lemma_pairs_keep_last(m, es.drop_last(), key, i, n, x);
        assert(jget_str(es[es.len() - 1], key) != Some(n));
        match (jget_str(es.last(), key), jget_str(es.last(), "id"@)) {
            (Some(k), Some(id)) => {
                assert(ps == rest.push((k, id)));
                assert(rest.push((k, id)).drop_last() =~= rest);
            },
            _ => {
                assert(ps == rest);
            },
        }
    }
}

/// A name listed with an id resolves to that id once the list is absorbed:
/// a project by its `shortName`, a tag or a work item type by its `name`
/// (the fields their list requests ask for), the last entry of that name
/// winning.
pub proof fn lemma_listed_name_resolves(
    m: Map<Seq<char>, Seq<char>>,
    kind: IdKind,
    es: Seq<JsonV>,
    i: int,
    n: Seq<char>,
    x: Seq<char>,
)
    requires
        0 <= i < es.len(),
        jget_str(
            es[i],
            match kind {
                IdKind::Project => "shortName"@,
                _ => "name"@,
            },
        ) == Some(n),
        jget_str(es[i], "id"@) == Some(x),
        forall|j: int|
            i < j < es.len() ==> jget_str(
                #[trigger] es[j],
                match kind {
                    IdKind::Project => "shortName"@,
                    _ => "name"@,
                },
            ) != Some(n),
    ensures
        insert_all(m, id_pairs(es, id_key_field(kind))).contains_key(n),
        insert_all(m, id_pairs(es, id_key_field(kind)))[n] == x,
{
    lemma_pairs_keep_last(m, es, id_key_field(kind), i, n, x);
}

} // verus!
