use vstd::prelude::*;

use crate::dates::{DateSet, dates_in_csv, parse_dates, tz_known, tz_name_known, default_tz};
use crate::error::AppError;
use crate::text::{
    chars_of, contains_char, concat3, find_char, pieces_view, split_char, split_chars, split_once,
    string_of, strip_trailing, strip_trailing_str, sub_chars, trim, trim_chars, trim_str,
};

verus! {

// ---------------------------------------------------------------------
// String maps
// ---------------------------------------------------------------------

/// The map built by inserting `es` in order, a later entry replacing an
/// earlier one with the same key.
pub open spec fn pairs_map(es: Seq<(Seq<char>, Seq<char>)>) -> Map<Seq<char>, Seq<char>>
    decreases es.len(),
{
    if es.len() == 0 {
        Map::empty()
    } else {
        pairs_map(es.drop_last()).insert(es.last().0, es.last().1)
    }
}

/// The character sequences of a list of string pairs.
pub open spec fn pairs_view(v: Seq<(String, String)>) -> Seq<(Seq<char>, Seq<char>)> {
    Seq::new(v.len(), |i: int| (v[i].0@, v[i].1@))
}

/// A map from strings to strings, kept as its insertions in order.
pub struct StrMap {
    entries: Vec<(String, String)>,
}

impl View for StrMap {
    type V = Map<Seq<char>, Seq<char>>;

    closed spec fn view(&self) -> Map<Seq<char>, Seq<char>> {
        pairs_map(pairs_view(self.entries@))
    }
}

proof fn lemma_pairs_map_tail(es: Seq<(Seq<char>, Seq<char>)>, k: Seq<char>, j: int)
    requires
        0 <= j <= es.len(),
        forall|i: int| j <= i < es.len() ==> (#[trigger] es[i]).0 != k,
    ensures
        pairs_map(es).contains_key(k) == pairs_map(es.take(j)).contains_key(k),
        pairs_map(es).contains_key(k) ==> pairs_map(es)[k] == pairs_map(es.take(j))[k],
    decreases es.len() - j,
{
    if j < es.len() {
        assert(es.drop_last().take(j) =~= es.take(j));
        assert(es.last() == es[es.len() - 1]);
        lemma_pairs_map_tail(es.drop_last(), k, j);
    } else {
        assert(es.take(j) =~= es);
    }
}

impl StrMap {
    /// The empty map.
    pub fn new() -> (r: StrMap)
        ensures
            r@ == Map::<Seq<char>, Seq<char>>::empty(),
    {
        let r = StrMap { entries: Vec::new() };
        assert(pairs_view(r.entries@) =~= Seq::<(Seq<char>, Seq<char>)>::empty());
        r
    }

    /// Maps `k` to `v`, replacing any earlier value of `k`.
    pub fn insert(&mut self, k: String, v: String)
        ensures
            final(self)@ == old(self)@.insert(k@, v@),
    {
        let ghost before = pairs_view(self.entries@);
        self.entries.push((k, v));
        proof {
            let after = pairs_view(self.entries@);
            assert(after.drop_last() =~= before);
            assert(after.last() == (k@, v@));
        }
    }

    /// The value of `k`, if any.
    pub fn get<'a>(&'a self, k: &str) -> (r: Option<&'a String>)
        ensures
            match r {
                Some(v) => self@.contains_key(k@) && self@[k@] == v@,
                None => !self@.contains_key(k@),
            },
    {
        let ghost es = pairs_view(self.entries@);
        let mut j: usize = self.entries.len();
        while j > 0
            invariant
                j <= self.entries@.len(),
                es == pairs_view(self.entries@),
                forall|i: int| j <= i < es.len() ==> (#[trigger] es[i]).0 != k@,
            decreases j,
        {
            if crate::text::str_eq(self.entries[j - 1].0.as_str(), k) {
                proof {
                    lemma_pairs_map_tail(es, k@, j as int);
                    let t = es.take(j as int);
                    assert(t.last() == es[j - 1]);
                    assert(t.drop_last() =~= es.take(j - 1));
                }
                return Some(&self.entries[j - 1].1);
            }
            j = j - 1;
        }
        proof {
            lemma_pairs_map_tail(es, k@, 0);
            assert(es.take(0) =~= Seq::<(Seq<char>, Seq<char>)>::empty());
        }
        None
    }
}

// ---------------------------------------------------------------------
// Configuration
// ---------------------------------------------------------------------

/// The settings the server runs with.
pub struct Config {
    /// YouTrack base URL, without trailing `/`.
    pub base_url: String,
    /// Permanent token, sent as a bearer token.
    pub token: String,
    /// IANA name of the zone reports bucket dates in.
    pub timezone: String,
    /// Project that bare numeric issue ids belong to.
    pub default_project: Option<String>,
    /// Days skipped by the work-time report.
    pub holidays: DateSet,
    /// Days counted at 7/8 of the norm by the work-time report.
    pub pre_holidays: DateSet,
    /// Aliases for user logins.
    pub user_aliases: StrMap,
    /// Directory attachments are downloaded to when no path is given.
    pub download_dir: Option<String>,
}

impl Config {
    /// The time zone is one chrono-tz knows.
    pub open spec fn wf(&self) -> bool {
        &&& tz_known(self.timezone@)
    }
}

/// The environment variables the configuration is read from, each `None`
/// when unset (or not valid Unicode).
pub struct EnvVars {
    /// `YOUTRACK_URL`
    pub url: Option<String>,
    /// `YOUTRACK_TOKEN`
    pub token: Option<String>,
    /// `YOUTRACK_TIMEZONE`
    pub timezone: Option<String>,
    /// `YOUTRACK_DEFAULT_PROJECT`
    pub default_project: Option<String>,
    /// `YOUTRACK_HOLIDAYS`
    pub holidays: Option<String>,
    /// `YOUTRACK_PRE_HOLIDAYS`
    pub pre_holidays: Option<String>,
    /// `YOUTRACK_USER_ALIASES`
    pub user_aliases: Option<String>,
    /// `YOUTRACK_DOWNLOAD_DIR`
    pub download_dir: Option<String>,
}

/// The `alias:login` pairs of a comma-separated list, in order, each side
/// trimmed; pieces without `:` are skipped.
pub open spec fn alias_pairs(pieces: Seq<Seq<char>>) -> Seq<(Seq<char>, Seq<char>)>
    decreases pieces.len(),
{
    if pieces.len() == 0 {
        Seq::empty()
    } else {
        let rest = alias_pairs(pieces.drop_last());
        match split_once(pieces.last(), ':') {
            Some((a, l)) => rest.push((trim(a), trim(l))),
            None => rest,
        }
    }
}

/// The alias map described by a `YOUTRACK_USER_ALIASES` value.
pub open spec fn aliases_in_csv(raw: Seq<char>) -> Map<Seq<char>, Seq<char>> {
    pairs_map(alias_pairs(split_char(raw, ',')))
}

/// `Some` of a non-empty value, else `None`.
pub open spec fn non_empty(v: Option<String>) -> Option<Seq<char>> {
    match v {
        Some(s) => if s@.len() > 0 {
            Some(s@)
        } else {
            None
        },
        None => None,
    }
}

/// The view of an optional string.
pub open spec fn opt_view(v: Option<String>) -> Option<Seq<char>> {
    match v {
        Some(s) => Some(s@),
        None => None,
    }
}

fn opt_non_empty(v: Option<String>) -> (r: Option<String>)
    ensures
        opt_view(r) == non_empty(v),
{
    match v {
        Some(s) => {
            if !s.as_str().is_empty() {
                Some(s)
            } else {
                None
            }
        },
        None => None,
    }
}

/// Parses a comma-separated list of `alias:login` pairs.
pub fn parse_aliases(raw: &str) -> (r: StrMap)
    ensures
        r@ == aliases_in_csv(raw@),
{
    let v = chars_of(raw);
    let pieces = split_chars(&v, ',');
    let ghost ps = split_char(raw@, ',');
    let mut m = StrMap::new();
    let mut i: usize = 0;
    while i < pieces.len()
        invariant
            pieces_view(pieces@) == ps,
            i <= pieces@.len(),
            m@ == pairs_map(alias_pairs(ps.take(i as int))),
        decreases pieces@.len() - i,
    {
        let ghost nxt = ps.take(i + 1);
        assert(nxt.drop_last() =~= ps.take(i as int));
        assert(nxt.last() == ps[i as int]);
        let p = pieces[i].as_slice();
        assert(p@ == ps[i as int]);
        match find_char(p, ':') {
            Some(c) => {
                let n = p.len();
                assert(c < n);
                let a = trim_chars(sub_chars(p, 0, c).as_slice());
                let l = trim_chars(sub_chars(p, c + 1, n).as_slice());
                assert(p@.subrange(0, c as int) =~= p@.take(c as int));
                assert(p@.subrange(c + 1, p@.len() as int) =~= p@.skip(c + 1));
                let ghost before = alias_pairs(ps.take(i as int));
                m.insert(string_of(&a), string_of(&l));
                assert(alias_pairs(nxt) == before.push((a@, l@)));
                assert(before.push((a@, l@)).drop_last() =~= before);
            },
            None => {},
        }
        i = i + 1;
    }
    assert(ps.take(pieces@.len() as int) =~= ps);
    m
}

/// Text of the error for a missing required variable.
pub open spec fn url_required() -> Seq<char> {
    "YOUTRACK_URL is required"@
}

/// Text of the error for a missing token.
pub open spec fn token_required() -> Seq<char> {
    "YOUTRACK_TOKEN is required"@
}

impl Config {
    /// Builds the configuration from the environment variables' values.
    ///
    /// `YOUTRACK_URL` and `YOUTRACK_TOKEN` are required; the URL loses its
    /// trailing slashes. An unknown or missing zone falls back to
    /// `Europe/Moscow`. Empty project and download-dir values count as unset.
    pub fn from_vars(vars: EnvVars) -> (r: Result<Config, AppError>)
        ensures
            vars.url is None ==> (r matches Err(AppError::Config(m)) && m@ == url_required()),
            vars.url is Some && vars.token is None ==> (r matches Err(AppError::Config(m)) && m@
                == token_required()),
            vars.url is Some && vars.token is Some ==> (r matches Ok(c) && {
                &&& c.wf()
                &&& c.base_url@ == strip_trailing(vars.url->0@, '/')
                &&& c.token@ == vars.token->0@
                &&& c.timezone@ == match vars.timezone {
                    Some(z) => if tz_known(z@) {
                        z@
                    } else {
                        seq!['E', 'u', 'r', 'o', 'p', 'e', '/', 'M', 'o', 's', 'c', 'o', 'w']
                    },
                    None => seq!['E', 'u', 'r', 'o', 'p', 'e', '/', 'M', 'o', 's', 'c', 'o', 'w'],
                }
                &&& opt_view(c.default_project) == non_empty(vars.default_project)
                &&& c.holidays@ == match vars.holidays {
                    Some(h) => dates_in_csv(h@),
                    None => Set::empty(),
                }
                &&& c.pre_holidays@ == match vars.pre_holidays {
                    Some(h) => dates_in_csv(h@),
                    None => Set::empty(),
                }
                &&& c.user_aliases@ == match vars.user_aliases {
                    Some(a) => aliases_in_csv(a@),
                    None => Map::empty(),
                }
                &&& opt_view(c.download_dir) == non_empty(vars.download_dir)
            }),
    {
        let url = match vars.url {
            Some(u) => u,
            None => {
                return Err(AppError::Config(string_of(&chars_of("YOUTRACK_URL is required"))));
            },
        };
        let base_url = strip_trailing_str(url.as_str(), '/');
        let token = match vars.token {
            Some(t) => t,
            None => {
                return Err(AppError::Config(string_of(&chars_of("YOUTRACK_TOKEN is required"))));
            },
        };
        let timezone = match vars.timezone {
            Some(z) => {
                if tz_name_known(z.as_str()) {
                    z
                } else {
                    default_tz()
                }
            },
            None => default_tz(),
        };
        let default_project = opt_non_empty(vars.default_project);
        let holidays = match vars.holidays {
            Some(h) => parse_dates(h.as_str()),
            None => DateSet::new(),
        };
        let pre_holidays = match vars.pre_holidays {
            Some(h) => parse_dates(h.as_str()),
            None => DateSet::new(),
        };
        let user_aliases = match vars.user_aliases {
            Some(a) => parse_aliases(a.as_str()),
            None => StrMap::new(),
        };
        let download_dir = opt_non_empty(vars.download_dir);
        Ok(
            Config {
                base_url,
                token,
                timezone,
                default_project,
                holidays,
                pre_holidays,
                user_aliases,
                download_dir,
            },
        )
    }

    /// Expands a bare numeric issue id ("123") to "PROJ-123" when a default
    /// project is configured. Ids already containing "-" pass through.
    pub fn expand_issue_id(&self, raw: &str) -> (r: String)
        ensures
            r@ == expanded_id(self.default_project, raw@),
    {
        let t = trim_str(raw);
        match &self.default_project {
            Some(p) => {
                if !contains_char(t.as_str(), '-') {
                    concat3(p.as_str(), "-", t.as_str())
                } else {
                    t
                }
            },
            None => t,
        }
    }

    /// Maps a configured alias to a real login, otherwise returns the input.
    pub fn resolve_alias<'a>(&'a self, login: &'a str) -> (r: &'a str)
        ensures
            r@ == resolved_login(self.user_aliases@, login@),
    {
        match self.user_aliases.get(login) {
            Some(s) => s.as_str(),
            None => login,
        }
    }
}

/// The issue id `raw` stands for: trimmed, and prefixed with
/// `<default project>-` when a default project is set and the id holds no `-`.
pub open spec fn expanded_id(default_project: Option<String>, raw: Seq<char>) -> Seq<char> {
    let t = trim(raw);
    match default_project {
        Some(p) => if !t.contains('-') {
            p@ + "-"@ + t
        } else {
            t
        },
        None => t,
    }
}

/// The login an alias stands for, or the input when it is no alias.
pub open spec fn resolved_login(aliases: Map<Seq<char>, Seq<char>>, login: Seq<char>) -> Seq<
    char,
> {
    if aliases.contains_key(login) {
        aliases[login]
    } else {
        login
    }
}

} // verus!
