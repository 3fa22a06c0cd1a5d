use vstd::prelude::*;

verus! {

/// Create or update.
#[derive(Debug, Clone, Copy, PartialEq, Eq, Structural)]
pub enum WriteOp {
    Create,
    Update,
}

/// What a comment is attached to.
#[derive(Debug, Clone, Copy, PartialEq, Eq, Structural)]
pub enum Entity {
    Issue,
    Article,
}

/// Operation of `issue_write`.
#[derive(Debug, Clone, Copy, PartialEq, Eq, Structural)]
pub enum IssueOp {
    Create,
    Update,
    Delete,
}

/// Arguments of `issue_write`.
#[derive(Debug)]
pub struct IssueWrite {
    pub op: IssueOp,
    /// Issue id (required for update; bare number expanded via default project).
    pub id: Option<String>,
    /// Project shortName or id (required for create).
    pub project: Option<String>,
    pub summary: Option<String>,
    pub description: Option<String>,
    pub markdown: Option<bool>,
    /// Parent issue id for native subtask hierarchy. Empty string clears it.
    pub parent_id: Option<String>,
    /// Assignee login.
    pub assignee: Option<String>,
    pub tags: Option<Vec<String>>,
    pub state: Option<String>,
    /// Agile board name or id.
    pub board: Option<String>,
    /// Sprint name or id within `board`.
    pub sprint: Option<String>,
}

/// Arguments of `comment_write`.
#[derive(Debug)]
pub struct CommentWrite {
    pub entity: Entity,
    pub op: WriteOp,
    /// Issue or article id.
    pub parent_id: String,
    pub comment_id: Option<String>,
    pub text: String,
    pub markdown: Option<bool>,
    pub mute: Option<bool>,
}

/// Arguments of `article_write`.
#[derive(Debug)]
pub struct ArticleWrite {
    pub op: WriteOp,
    pub id: Option<String>,
    pub project: Option<String>,
    pub summary: Option<String>,
    pub content: Option<String>,
    pub parent_article_id: Option<String>,
    pub markdown: Option<bool>,
}

/// Add or remove a link.
#[derive(Debug, Clone, Copy, PartialEq, Eq, Structural)]
pub enum LinkOp {
    Add,
    Remove,
}

/// Direction of a link for directed link types.
#[derive(Debug, Clone, Copy, PartialEq, Eq, Structural)]
pub enum LinkRole {
    Outward,
    Inward,
}

/// Arguments of `link_write`.
#[derive(Debug)]
pub struct LinkWrite {
    pub op: LinkOp,
    pub source_id: String,
    pub target_id: String,
    /// Link type name, e.g. "Relates", "Depend".
    pub link_type: String,
    /// Semantic direction for directed types. Default outward.
    pub role: Option<LinkRole>,
}

/// Operation of `workitem_write`.
#[derive(Debug, Clone, Copy, PartialEq, Eq, Structural)]
pub enum WorkOp {
    Create,
    Update,
    Delete,
}

/// Arguments of `workitem_write`.
#[derive(Debug)]
pub struct WorkitemWrite {
    pub op: WorkOp,
    pub issue_id: String,
    pub work_item_id: Option<String>,
    /// ISO date YYYY-MM-DD.
    pub date: Option<String>,
    pub minutes: Option<i64>,
    pub text: Option<String>,
    pub description: Option<String>,
    /// Work item type name or id.
    pub work_type: Option<String>,
    pub markdown: Option<bool>,
    /// On create: skip if same issue+date+description already logged.
    pub idempotent: Option<bool>,
}

/// A single id argument.
#[derive(Debug)]
pub struct IdArg {
    pub id: String,
}

/// Field set of `issue_search` results.
#[derive(Debug, Clone, Copy, PartialEq, Eq, Structural)]
pub enum SearchFields {
    Short,
    Full,
}

/// Arguments of `issue_search`.
#[derive(Debug)]
pub struct IssueSearch {
    pub query: String,
    pub fields: Option<SearchFields>,
    pub top: Option<i64>,
    pub skip: Option<i64>,
}

/// Arguments of `comments_list`.
#[derive(Debug)]
pub struct CommentsList {
    pub entity: Entity,
    pub parent_id: String,
}

/// Get one or list many.
#[derive(Debug, Clone, Copy, PartialEq, Eq, Structural)]
pub enum GetOp {
    Get,
    List,
}

/// Arguments of `article_get`.
#[derive(Debug)]
pub struct ArticleGet {
    pub op: GetOp,
    pub id: Option<String>,
    pub query: Option<String>,
}

/// Arguments of `workitems_list`.
#[derive(Debug)]
pub struct WorkitemsList {
    pub author: Option<String>,
    pub start_date: Option<String>,
    pub end_date: Option<String>,
    pub issue_id: Option<String>,
    pub top: Option<i64>,
    pub skip: Option<i64>,
}

/// Arguments of `workitems_report`.
#[derive(Debug)]
pub struct WorkitemsReport {
    pub author: Option<String>,
    pub start_date: String,
    pub end_date: String,
}

/// Operation of `users`.
#[derive(Debug, Clone, Copy, PartialEq, Eq, Structural)]
pub enum UsersOp {
    List,
    Me,
    Get,
}

/// Arguments of `users`.
#[derive(Debug)]
pub struct UsersArg {
    pub op: UsersOp,
    pub id: Option<String>,
    pub query: Option<String>,
}

/// What `meta` lists.
#[derive(Debug, Clone, Copy, PartialEq, Eq, Structural)]
pub enum MetaKind {
    Projects,
    LinkTypes,
    WorkItemTypes,
}

/// Arguments of `meta`.
#[derive(Debug)]
pub struct MetaArg {
    pub kind: MetaKind,
    pub project: Option<String>,
}

/// Scope of `activity`.
#[derive(Debug, Clone, Copy, PartialEq, Eq, Structural)]
pub enum ActivityScope {
    /// Change-history of one issue.
    Issue,
    /// Cross-issue feed for one author.
    User,
}

/// Arguments of `activity`.
#[derive(Debug)]
pub struct ActivityArg {
    pub scope: ActivityScope,
    /// Required for scope=issue.
    pub issue_id: Option<String>,
    /// Author login. Required for scope=user; optional filter for scope=issue.
    pub author: Option<String>,
    /// ISO YYYY-MM-DD or unix ms. scope=user defaults to 30 days back.
    pub start_date: Option<String>,
    /// ISO YYYY-MM-DD or unix ms. Defaults to now.
    pub end_date: Option<String>,
    /// Activity categories. Default CustomFieldCategory,CommentsCategory.
    pub categories: Option<Vec<String>>,
    /// scope=user only: oldest-first when true.
    pub reverse: Option<bool>,
    pub top: Option<i64>,
    pub skip: Option<i64>,
}

/// Operation of `attachment`.
#[derive(Debug, Clone, Copy, PartialEq, Eq, Structural)]
pub enum AttachOp {
    List,
    Get,
    Upload,
    Download,
    Delete,
}

/// Arguments of `attachment`.
#[derive(Debug)]
pub struct AttachmentArg {
    pub op: AttachOp,
    pub issue_id: String,
    pub attachment_id: Option<String>,
    pub name: Option<String>,
    pub content_base64: Option<String>,
    /// Local source for upload, or target for download.
    pub path: Option<String>,
}

} // verus!
