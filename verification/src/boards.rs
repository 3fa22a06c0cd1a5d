use vstd::prelude::*;

use crate::config::pairs_view;
use crate::error::{AppError, AppErrorV};
use crate::json::{Json, JsonV, jget, jget_opt, jget_str, jstr, jstring, jvs, obj1};
use crate::text::{concat2, concat3, concat4, str_eq, trim, trim_str};
use crate::youtrack::{
    Request, RequestV, array_items, get_request, get_v, own, post_request,
    post_v, push_param, fq,
};

verus! {

// ---------------------------------------------------------------------
// Names compared without regard to case
// ---------------------------------------------------------------------

/// The Unicode lowercase mapping of `s`, as `str::to_lowercase` computes it.
pub uninterp spec fn lowercase(s: Seq<char>) -> Seq<char>;

/// `str::to_lowercase` (std). Claimed: the result is `lowercase` of the
/// argument, which depends on its characters alone. Nothing is stated about
/// the mapping itself.
#[verifier::external_body]
fn lowercase_str(s: &str) -> (r: String)
    ensures
        r@ == lowercase(s@),
{
    s.to_lowercase()
}

/// Two names agree: trimmed, their lowercase forms are equal.
pub open spec fn same_name(a: Seq<char>, b: Seq<char>) -> bool {
    lowercase(trim(a)) == lowercase(trim(b))
}

/// A board or sprint entry has `input` (trimmed) as its id.
pub open spec fn has_id(e: JsonV, input: Seq<char>) -> bool {
    jget_str(e, "id"@) == Some(trim(input))
}

/// A board or sprint entry has a name that agrees with `input`.
pub open spec fn has_name(e: JsonV, input: Seq<char>) -> bool {
    match jget_str(e, "name"@) {
        Some(n) => same_name(n, input),
        None => false,
    }
}

/// Index of the first entry at or after `i` whose id is `input`.
pub open spec fn id_index_from(es: Seq<JsonV>, input: Seq<char>, i: int) -> Option<int>
    decreases es.len() - i,
{
    if i < 0 || i >= es.len() {
        None
    } else if has_id(es[i], input) {
        Some(i)
    } else {
        id_index_from(es, input, i + 1)
    }
}

/// The indices of the entries whose name agrees with `input`, in order.
pub open spec fn name_hits(es: Seq<JsonV>, input: Seq<char>) -> Seq<int>
    decreases es.len(),
{
    if es.len() == 0 {
        Seq::empty()
    } else {
        let h = name_hits(es.drop_last(), input);
        if has_name(es.last(), input) {
            h.push(es.len() - 1)
        } else {
            h
        }
    }
}

/// What an input designates among entries.
pub enum Choice {
    /// The entry at this index.
    Found(int),
    /// No entry.
    Unknown,
    /// Several entries by name.
    Ambiguous,
}

/// The entry `input` designates: the first whose id it is; else the one
/// whose name agrees with it; none is unknown, several are ambiguous.
pub open spec fn designated(es: Seq<JsonV>, input: Seq<char>) -> Choice {
    match id_index_from(es, input, 0) {
        Some(i) => Choice::Found(i),
        None => {
            let h = name_hits(es, input);
            if h.len() == 1 {
                Choice::Found(h[0])
            } else if h.len() == 0 {
                Choice::Unknown
            } else {
                Choice::Ambiguous
            }
        },
    }
}

/// The outcome of looking an entry up by id or name.
pub enum Picked {
    Found(usize),
    Unknown,
    Ambiguous,
}

/// Looks up the entry `input` designates.
#[verifier::loop_isolation(false)]
pub fn pick_entry(es: &Vec<Json>, input: &str) -> (r: Picked)
    ensures
        match designated(jvs(es@), input@) {
            Choice::Found(i) => r matches Picked::Found(j) && j == i,
            Choice::Unknown => r is Unknown,
            Choice::Ambiguous => r is Ambiguous,
        },
        r matches Picked::Found(j) ==> j < es@.len(),
{
    let ghost ev = jvs(es@);
    let t = trim_str(input);
    let key = lowercase_str(t.as_str());
    let mut count: usize = 0;
    let mut first: usize = 0;
    let mut i: usize = 0;
    while i < es.len()
        invariant
            i <= es@.len(),
            ev == jvs(es@),
            id_index_from(ev, input@, 0) == id_index_from(ev, input@, i as int),
            count == name_hits(ev.take(i as int), input@).len(),
            count > 0 ==> name_hits(ev.take(i as int), input@)[0] == first,
            count > 0 ==> first < i,
            count <= i,
        decreases es@.len() - i,
    {
        let e = &es[i];
        assert(ev[i as int] == e@);
        let by_id = match e.get_str("id") {
            Some(x) => str_eq(x.as_str(), t.as_str()),
            None => false,
        };
        if by_id {
            return Picked::Found(i);
        }
        let by_name = match e.get_str("name") {
            Some(n) => {
                let ln = lowercase_str(trim_str(n.as_str()).as_str());
                str_eq(ln.as_str(), key.as_str())
            },
            None => false,
        };
        let ghost pre = ev.take(i as int);
        let ghost nxt = ev.take(i + 1);
        assert(nxt.drop_last() =~= pre);
        assert(nxt.last() == ev[i as int]);
        if by_name {
            if count == 0 {
                first = i;
            }
            count = count + 1;
        }
        i = i + 1;
    }
    assert(ev.take(es@.len() as int) =~= ev);
    if count == 1 {
        Picked::Found(first)
    } else if count == 0 {
        Picked::Unknown
    } else {
        Picked::Ambiguous
    }
}

// ---------------------------------------------------------------------
// Listing names in errors
// ---------------------------------------------------------------------

/// The names of the entries that have one, in order.
pub open spec fn names_of(es: Seq<JsonV>) -> Seq<Seq<char>>
    decreases es.len(),
{
    if es.len() == 0 {
        Seq::empty()
    } else {
        let r = names_of(es.drop_last());
        match jget_str(es.last(), "name"@) {
            Some(n) => r.push(n),
            None => r,
        }
    }
}

/// Strings joined with `, `.
pub open spec fn join_list(ss: Seq<Seq<char>>) -> Seq<char>
    decreases ss.len(),
{
    if ss.len() == 0 {
        Seq::empty()
    } else if ss.len() == 1 {
        ss[0]
    } else {
        join_list(ss.drop_last()) + ", "@ + ss.last()
    }
}

/// The names of the entries, joined with `, `.
pub fn names_joined(es: &Vec<Json>) -> (r: String)
    ensures
        r@ == join_list(names_of(jvs(es@))),
{
    let ghost ev = jvs(es@);
    let mut out = String::new();
    let mut n: usize = 0;
    let mut i: usize = 0;
    while i < es.len()
        invariant
            i <= es@.len(),
            ev == jvs(es@),
            n == names_of(ev.take(i as int)).len(),
            n <= i,
            out@ == join_list(names_of(ev.take(i as int))),
        decreases es@.len() - i,
    {
        let ghost pre = ev.take(i as int);
        let ghost nxt = ev.take(i + 1);
        assert(nxt.drop_last() =~= pre);
        assert(nxt.last() == ev[i as int]);
        assert(ev[i as int] == es@[i as int]@);
        match es[i].get_str("name") {
            Some(name) => {
                let ghost ns = names_of(pre);
                assert(names_of(nxt) == ns.push(name@));
                assert(ns.push(name@).drop_last() =~= ns);
                if n == 0 {
                    out = name;
                } else {
                    out.append(", ");
                    out.append(name.as_str());
                }
                n = n + 1;
            },
            None => {},
        }
        i = i + 1;
    }
    assert(ev.take(es@.len() as int) =~= ev);
    out
}

// ---------------------------------------------------------------------
// Boards and sprints
// ---------------------------------------------------------------------

/// The fields asked for when listing boards.
pub const F_BOARDS: &'static str = "id,name,currentSprint(id,name),sprints(id,name)";

/// `GET /api/agiles`: every board with its current sprint and its sprints.
pub open spec fn boards_v() -> RequestV {
    get_v("/api/agiles"@, seq![("fields"@, F_BOARDS@), ("$top"@, "1000"@)])
}

/// The request listing the boards.
pub fn boards_request() -> (r: Request)
    ensures
        r@ == boards_v(),
{
    let mut q = fq(F_BOARDS);
    push_param(&mut q, "$top", "1000");
    assert(pairs_view(q@) =~= seq![("fields"@, F_BOARDS@), ("$top"@, "1000"@)]);
    get_request(own("/api/agiles"), q)
}

/// `POST /api/agiles/<board>/sprints/<sprint>/issues` adding issue
/// `readable` to that sprint.
pub open spec fn sprint_add_v(board_id: Seq<char>, sprint_id: Seq<char>, readable: Seq<char>) -> RequestV {
    post_v(
        "/api/agiles/"@ + board_id + "/sprints/"@ + sprint_id + "/issues"@,
        Seq::empty(),
        JsonV::Object(seq![("idReadable"@, JsonV::Str(readable))]),
    )
}

/// The string, or the empty string.
pub open spec fn text_or_empty(o: Option<Seq<char>>) -> Seq<char> {
    match o {
        Some(s) => s,
        None => Seq::empty(),
    }
}

/// The sprints listed for a board.
pub open spec fn sprints_of(b: JsonV) -> Seq<JsonV> {
    match jget(b, "sprints"@) {
        Some(s) => array_items(s),
        None => Seq::empty(),
    }
}

/// Where issue `readable` goes on board `board`: the sprint `sprint`
/// designates on that board, or, when none is named, the board's current
/// sprint; each placement goes through the boards REST API, never through
/// a command. An unknown or ambiguous board lists the boards; an unknown or
/// ambiguous sprint, or a board with no current sprint when none is named,
/// lists the board's sprints.
pub open spec fn placement_spec(
    boards: JsonV,
    board: Seq<char>,
    sprint: Option<Seq<char>>,
    readable: Seq<char>,
) -> Result<RequestV, AppErrorV> {
    let bs = array_items(boards);
    let all = join_list(names_of(bs));
    match designated(bs, board) {
        Choice::Unknown => Err(
            AppErrorV::Bad("unknown board '"@ + board + "'; available boards: "@ + all),
        ),
        Choice::Ambiguous => Err(
            AppErrorV::Bad("ambiguous board '"@ + board + "'; available boards: "@ + all),
        ),
        Choice::Found(i) => {
            let b = bs[i];
            let bid = text_or_empty(jget_str(b, "id"@));
            let ss = sprints_of(b);
            let valid = join_list(names_of(ss));
            match sprint {
                Some(s) => match designated(ss, s) {
                    Choice::Unknown => Err(
                        AppErrorV::Bad(
                            "unknown sprint '"@ + s + "' on board '"@ + board + "'; valid sprints: "@
                                + valid,
                        ),
                    ),
                    Choice::Ambiguous => Err(
                        AppErrorV::Bad(
                            "ambiguous sprint '"@ + s + "' on board '"@ + board
                                + "'; valid sprints: "@ + valid,
                        ),
                    ),
                    Choice::Found(j) => Ok(
                        sprint_add_v(bid, text_or_empty(jget_str(ss[j], "id"@)), readable),
                    ),
                },
                None => match jstr(jget_opt(jget(b, "currentSprint"@), "id"@)) {
                    Some(cid) => Ok(sprint_add_v(bid, cid, readable)),
                    None => Err(
                        AppErrorV::Bad(
                            "board '"@ + board + "' has no current sprint; valid sprints: "@
                                + valid,
                        ),
                    ),
                },
            }
        },
    }
}

fn str_or_empty(o: Option<String>) -> (r: String)
    ensures
        r@ == text_or_empty(
            match o {
                Some(s) => Some(s@),
                None => None,
            },
        ),
{
    match o {
        Some(s) => s,
        None => String::new(),
    }
}

fn sprint_add(board_id: &str, sprint_id: &str, readable: &str) -> (r: Request)
    ensures
        r@ == sprint_add_v(board_id@, sprint_id@, readable@),
{
    let a = concat4("/api/agiles/", board_id, "/sprints/", sprint_id);
    let q: Vec<(String, String)> = Vec::new();
    let r = post_request(concat2(a.as_str(), "/issues"), q, obj1("idReadable", jstring(readable)));
    assert(r@.query =~= Seq::<(Seq<char>, Seq<char>)>::empty());
    r
}

/// The request placing issue `readable` on board `board` (and sprint
/// `sprint`, else the board's current sprint), resolved against the board
/// list `boards`; or the request error naming the valid choices.
pub fn board_placement(boards: &Json, board: &str, sprint: Option<&str>, readable: &str) -> (r:
    Result<Request, AppError>)
    ensures
        match placement_spec(boards@, board@, crate::youtrack::optv(sprint), readable@) {
            Ok(q) => r matches Ok(x) && x@ == q,
            Err(e) => r matches Err(x) && x@ == e,
        },
{
    let empty: Vec<Json> = Vec::new();
    let bs = match boards.as_array() {
        Some(v) => v,
        None => &empty,
    };
    assert(jvs(bs@) == array_items(boards@));
    let all = names_joined(bs);
    let i = match pick_entry(bs, board) {
        Picked::Unknown => {
            return Err(
                AppError::Bad(concat4("unknown board '", board, "'; available boards: ", all.as_str())),
            );
        },
        Picked::Ambiguous => {
            return Err(
                AppError::Bad(concat4("ambiguous board '", board, "'; available boards: ", all.as_str())),
            );
        },
        Picked::Found(i) => i,
    };
    let b = &bs[i];
    assert(i < bs@.len());
    assert(b@ == array_items(boards@)[i as int]);
    let bid = str_or_empty(b.get_str("id"));
    let empty_s: Vec<Json> = Vec::new();
    let ss = match b.get("sprints") {
        Some(s) => match s.as_array() {
            Some(v) => v,
            None => &empty_s,
        },
        None => &empty_s,
    };
    assert(jvs(ss@) == sprints_of(b@));
    let valid = names_joined(ss);
    match sprint {
        Some(s) => match pick_entry(ss, s) {
            Picked::Unknown => {
                let a = concat3("unknown sprint '", s, "' on board '");
                let m = concat4(a.as_str(), board, "'; valid sprints: ", valid.as_str());
                Err(AppError::Bad(m))
            },
            Picked::Ambiguous => {
                let a = concat3("ambiguous sprint '", s, "' on board '");
                let m = concat4(a.as_str(), board, "'; valid sprints: ", valid.as_str());
                Err(AppError::Bad(m))
            },
            Picked::Found(j) => {
                assert(j < ss@.len());
                assert(ss@[j as int]@ == sprints_of(b@)[j as int]);
                let sid = str_or_empty(ss[j].get_str("id"));
                Ok(sprint_add(bid.as_str(), sid.as_str(), readable))
            },
        },
        None => {
            let cur = match b.get("currentSprint") {
                Some(c) => match c.get("id") {
                    Some(x) => match x.as_str() {
                        Some(t) => Some(own(t)),
                        None => None,
                    },
                    None => None,
                },
                None => None,
            };
            match cur {
                Some(cid) => Ok(sprint_add(bid.as_str(), cid.as_str(), readable)),
                None => {
                    let m = concat4("board '", board, "' has no current sprint; valid sprints: ", valid.as_str());
                    Err(AppError::Bad(m))
                },
            }
        },
    }
}

} // verus!
