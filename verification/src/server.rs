use vstd::prelude::*;

use crate::config::{Config, opt_view};
use crate::error::{ErrorCode, ToolError, invalid_params};
use crate::json::{Json, JsonV, strip_v, strip_noise, empty_obj, push_entry, jstring};
use crate::model::{
    ActivityArg, ArticleGet, AttachOp, AttachmentArg, CommentWrite, IssueSearch, IssueWrite,
    LinkRole, LinkWrite, SearchFields, UsersArg, WorkitemWrite, WorkitemsList, WriteOp,
};
use crate::text::{concat3, strip_trailing, strip_trailing_str, string_of, chars_of};

verus! {

/// The value of a required argument, or an invalid-params error with `msg`.
pub fn req<'a>(v: &'a Option<String>, msg: &str) -> (r: Result<&'a str, ToolError>)
    ensures
        match v {
            Some(s) => r matches Ok(x) && x@ == s@,
            None => r matches Err(e) && e.code == ErrorCode::InvalidParams && e.message@ == msg@,
        },
{
    match v {
        Some(s) => Ok(s.as_str()),
        None => Err(invalid_params(msg)),
    }
}

/// A tool's result with YouTrack's `$type` discriminators removed
/// everywhere.
pub fn ok(v: Json) -> (r: Json)
    ensures
        r@ == strip_v(v@),
{
    let mut v = v;
    strip_noise(&mut v);
    v
}

/// The arguments of an issue search: full fields or not, page size
/// (default 50) and offset (default 0).
pub fn search_args(a: &IssueSearch) -> (r: (bool, i64, i64))
    ensures
        r.0 == (a.fields == Some(SearchFields::Full)),
        r.1 == match a.top {
            Some(t) => t,
            None => 50,
        },
        r.2 == match a.skip {
            Some(s) => s,
            None => 0,
        },
{
    let full = match a.fields {
        Some(SearchFields::Full) => true,
        _ => false,
    };
    let top = match a.top {
        Some(t) => t,
        None => 50,
    };
    let skip = match a.skip {
        Some(s) => s,
        None => 0,
    };
    (full, top, skip)
}

/// Whether a link is written inward (only when asked for; outward is the
/// default).
pub fn link_inward(a: &LinkWrite) -> (r: bool)
    ensures
        r == (a.role == Some(LinkRole::Inward)),
{
    match a.role {
        Some(LinkRole::Inward) => true,
        _ => false,
    }
}

/// The comment a write targets (none for a create; required for an
/// update) and whether notifications are muted (default no).
pub fn comment_args<'a>(a: &'a CommentWrite) -> (r: Result<(Option<&'a str>, bool), ToolError>)
    ensures
        match a.op {
            WriteOp::Create => r matches Ok(p) && p.0 is None && p.1 == (a.mute == Some(true)),
            WriteOp::Update => match a.comment_id {
                Some(c) => r matches Ok(p) && p.0 matches Some(x) && x@ == c@ && p.1 == (a.mute
                    == Some(true)),
                None => r matches Err(e) && e.code == ErrorCode::InvalidParams && e.message@
                    == "comment_write op=update requires 'commentId'"@,
            },
        },
{
    let id = match a.op {
        WriteOp::Create => None,
        WriteOp::Update => match req(&a.comment_id, "comment_write op=update requires 'commentId'") {
            Ok(c) => Some(c),
            Err(e) => {
                return Err(e);
            },
        },
    };
    let mute = match a.mute {
        Some(m) => m,
        None => false,
    };
    Ok((id, mute))
}

/// The paging of a work item listing: page size (default 200) and offset
/// (default 0).
pub fn workitems_paging(a: &WorkitemsList) -> (r: (i64, i64))
    ensures
        r.0 == match a.top {
            Some(t) => t,
            None => 200,
        },
        r.1 == match a.skip {
            Some(s) => s,
            None => 0,
        },
{
    (
        match a.top {
            Some(t) => t,
            None => 200,
        },
        match a.skip {
            Some(s) => s,
            None => 0,
        },
    )
}

/// The paging of an activity feed: page size (default 100) and offset
/// (default 0).
pub fn activity_paging(a: &ActivityArg) -> (r: (i64, i64))
    ensures
        r.0 == match a.top {
            Some(t) => t,
            None => 100,
        },
        r.1 == match a.skip {
            Some(s) => s,
            None => 0,
        },
{
    (
        match a.top {
            Some(t) => t,
            None => 100,
        },
        match a.skip {
            Some(s) => s,
            None => 0,
        },
    )
}

/// Where an upload's content comes from.
pub enum UploadSource {
    /// Base64 text given in the call.
    Base64(String),
    /// A local file.
    Path(String),
}

/// The content of an upload: the base64 text when given, else the path.
pub fn upload_source(a: &AttachmentArg) -> (r: Result<UploadSource, ToolError>)
    ensures
        match (a.content_base64, a.path) {
            (Some(b), _) => r matches Ok(UploadSource::Base64(x)) && x@ == b@,
            (None, Some(p)) => r matches Ok(UploadSource::Path(x)) && x@ == p@,
            (None, None) => r matches Err(e) && e.code == ErrorCode::InvalidParams && e.message@
                == "contentBase64 or path required"@,
        },
{
    match &a.content_base64 {
        Some(b) => Ok(UploadSource::Base64(b.clone())),
        None => match &a.path {
            Some(p) => Ok(UploadSource::Path(p.clone())),
            None => Err(invalid_params("contentBase64 or path required")),
        },
    }
}

/// Where a download is saved: the given path, else `<download dir>/<name>`
/// (the directory without trailing `/`), else nowhere (the content is
/// returned inline).
pub open spec fn download_target_spec(
    path: Option<String>,
    dir: Option<String>,
    name: Seq<char>,
) -> Option<Seq<char>> {
    match path {
        Some(p) => Some(p@),
        None => match dir {
            Some(d) => Some(strip_trailing(d@, '/') + "/"@ + name),
            None => None,
        },
    }
}

/// Where a downloaded attachment called `name` is saved, if anywhere.
pub fn download_target(a: &AttachmentArg, cfg: &Config, name: &str) -> (r: Option<String>)
    ensures
        opt_view(r) == download_target_spec(a.path, cfg.download_dir, name@),
{
    match &a.path {
        Some(p) => Some(p.clone()),
        None => match &cfg.download_dir {
            Some(d) => {
                let base = strip_trailing_str(d.as_str(), '/');
                Some(concat3(base.as_str(), "/", name))
            },
            None => None,
        },
    }
}

/// A byte count as a JSON number.
pub fn json_count(n: usize) -> (r: Json)
    ensures
        r@ == if n <= i64::MAX {
            JsonV::Int(n as i64)
        } else {
            JsonV::UInt(n as u64)
        },
{
    if n as u64 <= i64::MAX as u64 {
        Json::Int(n as i64)
    } else {
        Json::UInt(n as u64)
    }
}

/// The report of a download saved to `path`: `{"saved", "bytes"}`.
pub fn saved_result(path: &str, bytes: usize) -> (r: Json)
    ensures
        r@ == JsonV::Object(
            seq![("saved"@, JsonV::Str(path@)), ("bytes"@, json_count_v(bytes))],
        ),
{
    let mut out = empty_obj();
    push_entry(&mut out, "saved", jstring(path));
    push_entry(&mut out, "bytes", json_count(bytes));
    assert(out@->Object_0 =~= seq![("saved"@, JsonV::Str(path@)), ("bytes"@, json_count_v(bytes))]);
    out
}

/// The report of a download returned inline: `{"name", "bytes",
/// "contentBase64"}`.
pub fn inline_result(name: &str, bytes: usize, content_base64: &str) -> (r: Json)
    ensures
        r@ == JsonV::Object(
            seq![
                ("name"@, JsonV::Str(name@)),
                ("bytes"@, json_count_v(bytes)),
                ("contentBase64"@, JsonV::Str(content_base64@)),
            ],
        ),
{
    let mut out = empty_obj();
    push_entry(&mut out, "name", jstring(name));
    push_entry(&mut out, "bytes", json_count(bytes));
    push_entry(&mut out, "contentBase64", jstring(content_base64));
    assert(out@->Object_0 =~= seq![
        ("name"@, JsonV::Str(name@)),
        ("bytes"@, json_count_v(bytes)),
        ("contentBase64"@, JsonV::Str(content_base64@)),
    ]);
    out
}

/// A byte count as a JSON number value.
pub open spec fn json_count_v(n: usize) -> JsonV {
    if n <= i64::MAX {
        JsonV::Int(n as i64)
    } else {
        JsonV::UInt(n as u64)
    }
}

/// The attachment an operation addresses; required by get, download and
/// delete.
pub fn attachment_id<'a>(a: &'a AttachmentArg) -> (r: Result<&'a str, ToolError>)
    ensures
        match a.attachment_id {
            Some(x) => r matches Ok(y) && y@ == x@,
            None => r matches Err(e) && e.code == ErrorCode::InvalidParams && e.message@
                == match a.op {
                AttachOp::Get => "attachment op=get requires 'attachmentId'"@,
                AttachOp::Download => "attachment op=download requires 'attachmentId'"@,
                _ => "attachment op=delete requires 'attachmentId'"@,
            },
        },
{
    let msg = match a.op {
        AttachOp::Get => "attachment op=get requires 'attachmentId'",
        AttachOp::Download => "attachment op=download requires 'attachmentId'",
        _ => "attachment op=delete requires 'attachmentId'",
    };
    req(&a.attachment_id, msg)
}

/// `r` is the required value `v`, or the invalid-params error `msg` when
/// it is absent.
pub open spec fn required(v: Option<String>, msg: Seq<char>, r: Result<&str, ToolError>) -> bool {
    match v {
        Some(x) => r matches Ok(y) && y@ == x@,
        None => r matches Err(e) && e.code == ErrorCode::InvalidParams && e.message@ == msg,
    }
}

/// The issue a delete addresses, which is required.
pub fn issue_delete_id<'a>(a: &'a IssueWrite) -> (r: Result<&'a str, ToolError>)
    ensures
        required(a.id, "issue_write op=delete requires 'id'"@, r),
{
    req(&a.id, "issue_write op=delete requires 'id'")
}

/// The article a get addresses, which is required.
pub fn article_get_id<'a>(a: &'a ArticleGet) -> (r: Result<&'a str, ToolError>)
    ensures
        required(a.id, "article_get op=get requires 'id'"@, r),
{
    req(&a.id, "article_get op=get requires 'id'")
}

/// The work item a delete addresses, which is required.
pub fn workitem_delete_id<'a>(a: &'a WorkitemWrite) -> (r: Result<&'a str, ToolError>)
    ensures
        required(a.work_item_id, "workitem_write op=delete requires 'workItemId'"@, r),
{
    req(&a.work_item_id, "workitem_write op=delete requires 'workItemId'")
}

/// The user a get addresses, which is required.
pub fn user_get_id<'a>(a: &'a UsersArg) -> (r: Result<&'a str, ToolError>)
    ensures
        required(a.id, "users op=get requires 'id'"@, r),
{
    req(&a.id, "users op=get requires 'id'")
}

/// The file name of an upload, which is required.
pub fn upload_name<'a>(a: &'a AttachmentArg) -> (r: Result<&'a str, ToolError>)
    ensures
        required(a.name, "attachment op=upload requires 'name'"@, r),
{
    req(&a.name, "attachment op=upload requires 'name'")
}

/// The issue of an issue-scoped activity feed, which is required.
pub fn activity_issue<'a>(a: &'a ActivityArg) -> (r: Result<&'a str, ToolError>)
    ensures
        required(a.issue_id, "activity scope=issue requires 'issueId'"@, r),
{
    req(&a.issue_id, "activity scope=issue requires 'issueId'")
}

/// The author of a user-scoped activity feed, which is required.
pub fn activity_author<'a>(a: &'a ActivityArg) -> (r: Result<&'a str, ToolError>)
    ensures
        required(a.author, "activity scope=user requires 'author'"@, r),
{
    req(&a.author, "activity scope=user requires 'author'")
}

} // verus!
