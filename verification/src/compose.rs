//! Deterministic assembly of the query string's key/value pairs.
//!
//! The order is fixed: mode, token, application id, then the search
//! key/value pair if the intent carries one, then — only if parameters
//! are given — the ranked flag, sort key, limit, response format, and
//! the optional seeder floor, leecher floor and category list. Absent
//! options are omitted entirely, never sent as empty values. Values are
//! handed to the transport unescaped; URL encoding is its business.

use vstd::prelude::*;

use crate::api_parameters::{ApiParameters, ApiParametersView};
use crate::category::Category;
use crate::mode::Mode;

verus! {

/// Which field a search matches against: the free-text search string,
/// or one of the external id namespaces.
#[derive(Clone, Copy, Debug, PartialEq, Eq, Structural)]
pub enum SearchKey {
    Keyword,
    Imdb,
    Tvdb,
    Tmdb,
}

impl SearchKey {
    /// The query key carrying the search value.
    pub open spec fn spec_str(self) -> Seq<char> {
        match self {
            SearchKey::Keyword => "search_string"@,
            SearchKey::Imdb => "search_imdb"@,
            SearchKey::Tvdb => "search_tvdb"@,
            SearchKey::Tmdb => "search_tmdb"@,
        }
    }

    /// Serialize the search key for the query string.
    pub fn as_str(&self) -> (r: &str)
        ensures
            r@ == self.spec_str(),
    {
        match self {
            SearchKey::Keyword => "search_string",
            SearchKey::Imdb => "search_imdb",
            SearchKey::Tvdb => "search_tvdb",
            SearchKey::Tmdb => "search_tmdb",
        }
    }
}

/// Specification-level content of a [`CallIntent`].
pub struct CallIntentView {
    pub mode: Mode,
    pub search: Option<(SearchKey, Seq<char>)>,
    pub parameters: Option<ApiParametersView>,
}

/// One logical request: its mode, at most one search key/value pair,
/// and optional parameters. Created per call, discarded after.
#[derive(Clone, Debug)]
pub struct CallIntent {
    mode: Mode,
    search: Option<(SearchKey, String)>,
    parameters: Option<ApiParameters>,
}

impl View for CallIntent {
    type V = CallIntentView;

    closed spec fn view(&self) -> CallIntentView {
        CallIntentView {
            mode: self.mode,
            search: match self.search {
                Some((k, v)) => Some((k, v@)),
                None => None,
            },
            parameters: match self.parameters {
                Some(p) => Some(p@),
                None => None,
            },
        }
    }
}

impl CallIntent {
    /// The intent of listing recent torrents.
    pub fn list(parameters: Option<ApiParameters>) -> (r: CallIntent)
        ensures
            r@.mode == Mode::List,
            r@.search is None,
            r@.parameters == match parameters {
                Some(p) => Some(p@),
                None => None::<ApiParametersView>,
            },
    {
        CallIntent { mode: Mode::List, search: None, parameters }
    }

    /// The intent of searching torrents by name.
    pub fn search(value: String, parameters: Option<ApiParameters>) -> (r: CallIntent)
        ensures
            r@.mode == Mode::Search,
            r@.search == Some((SearchKey::Keyword, value@)),
            r@.parameters == match parameters {
                Some(p) => Some(p@),
                None => None::<ApiParametersView>,
            },
    {
        CallIntent { mode: Mode::Search, search: Some((SearchKey::Keyword, value)), parameters }
    }

    /// The intent of searching torrents by IMDB id.
    pub fn search_by_imdb(value: String, parameters: Option<ApiParameters>) -> (r: CallIntent)
        ensures
            r@.mode == Mode::Search,
            r@.search == Some((SearchKey::Imdb, value@)),
            r@.parameters == match parameters {
                Some(p) => Some(p@),
                None => None::<ApiParametersView>,
            },
    {
        CallIntent { mode: Mode::Search, search: Some((SearchKey::Imdb, value)), parameters }
    }

    /// The intent of searching torrents by TVDB id.
    pub fn search_by_tvdb(value: String, parameters: Option<ApiParameters>) -> (r: CallIntent)
        ensures
            r@.mode == Mode::Search,
            r@.search == Some((SearchKey::Tvdb, value@)),
            r@.parameters == match parameters {
                Some(p) => Some(p@),
                None => None::<ApiParametersView>,
            },
    {
        CallIntent { mode: Mode::Search, search: Some((SearchKey::Tvdb, value)), parameters }
    }

    /// The intent of searching torrents by TMDB id.
    pub fn search_by_tmdb(value: String, parameters: Option<ApiParameters>) -> (r: CallIntent)
        ensures
            r@.mode == Mode::Search,
            r@.search == Some((SearchKey::Tmdb, value@)),
            r@.parameters == match parameters {
                Some(p) => Some(p@),
                None => None::<ApiParametersView>,
            },
    {
        CallIntent { mode: Mode::Search, search: Some((SearchKey::Tmdb, value)), parameters }
    }
}

/// The character of one decimal digit.
pub open spec fn spec_digit(d: int) -> char {
    if d == 0 {
        '0'
    } else if d == 1 {
        '1'
    } else if d == 2 {
        '2'
    } else if d == 3 {
        '3'
    } else if d == 4 {
        '4'
    } else if d == 5 {
        '5'
    } else if d == 6 {
        '6'
    } else if d == 7 {
        '7'
    } else if d == 8 {
        '8'
    } else {
        '9'
    }
}

/// The decimal writing of a non-negative integer, most significant
/// digit first, with no leading zero except for zero itself.
pub open spec fn spec_dec(n: int) -> Seq<char>
    recommends
        n >= 0,
    decreases n,
{
    if n < 10 {
        seq![spec_digit(n)]
    } else {
        spec_dec(n / 10) + seq![spec_digit(n % 10)]
    }
}

/// Append one digit's character.
fn push_digit(s: &mut String, d: u32)
    requires
        d < 10,
    ensures
        final(s)@ == old(s)@ + seq![spec_digit(d as int)],
{
    let ds: &str = if d == 0 {
        "0"
    } else if d == 1 {
        "1"
    } else if d == 2 {
        "2"
    } else if d == 3 {
        "3"
    } else if d == 4 {
        "4"
    } else if d == 5 {
        "5"
    } else if d == 6 {
        "6"
    } else if d == 7 {
        "7"
    } else if d == 8 {
        "8"
    } else {
        "9"
    };
    proof {
        reveal_strlit("0");
        reveal_strlit("1");
        reveal_strlit("2");
        reveal_strlit("3");
        reveal_strlit("4");
        reveal_strlit("5");
        reveal_strlit("6");
        reveal_strlit("7");
        reveal_strlit("8");
        reveal_strlit("9");
        assert(ds@ =~= seq![spec_digit(d as int)]);
    }
    s.append(ds);
}

/// Append a number's decimal digits.
fn push_dec(s: &mut String, n: u32)
    ensures
        final(s)@ == old(s)@ + spec_dec(n as int),
    decreases n,
{
    if n >= 10 {
        push_dec(s, n / 10);
        push_digit(s, n % 10);
        proof {
            assert(old(s)@ + spec_dec(n as int / 10) + seq![spec_digit(n as int % 10)] =~= old(
                s,
            )@ + spec_dec(n as int));
        }
    } else {
        push_digit(s, n);
    }
}

/// The decimal writing of `n`, as the query string carries it.
pub fn u32_to_dec(n: u32) -> (r: String)
    ensures
        r@ == spec_dec(n as int),
{
    let mut s = String::new();
    push_dec(&mut s, n);
    proof {
        assert(Seq::<char>::empty() + spec_dec(n as int) =~= spec_dec(n as int));
    }
    s
}

/// The category list's wire form: each category's numeric code, joined
/// by semicolons, in the given order.
pub open spec fn spec_cat_join(cats: Seq<Category>) -> Seq<char>
    decreases cats.len(),
{
    if cats.len() == 0 {
        Seq::empty()
    } else if cats.len() == 1 {
        cats[0].spec_str()
    } else {
        spec_cat_join(cats.drop_last()) + ";"@ + cats.last().spec_str()
    }
}

/// Join the categories' numeric codes with semicolons.
fn join_categories(cats: &Vec<Category>) -> (r: String)
    ensures
        r@ == spec_cat_join(cats@),
{
    let mut out = String::new();
    let mut i: usize = 0;
    while i < cats.len()
        invariant
            i <= cats.len(),
            out@ == spec_cat_join(cats@.take(i as int)),
        decreases cats.len() - i,
    {
        if i > 0 {
            out.append(";");
        }
        out.append(cats[i].as_str());
        i = i + 1;
        proof {
            assert(cats@.take(i as int).drop_last() =~= cats@.take(i as int - 1));
            assert(cats@.take(i as int).last() == cats@[i as int - 1]);
            if i == 1 {
                assert(Seq::<char>::empty() + cats@[0].spec_str() =~= cats@[0].spec_str());
            }
            assert(out@ =~= spec_cat_join(cats@.take(i as int)));
        }
    }
    proof {
        assert(cats@.take(cats@.len() as int) =~= cats@);
    }
    out
}

/// The view of a built pair list, for stating what [`compose`] returns.
pub open spec fn pairs_view(ps: Seq<(String, String)>) -> Seq<(Seq<char>, Seq<char>)> {
    ps.map_values(|p: (String, String)| (p.0@, p.1@))
}

/// The pairs contributed by a parameter bundle, in their fixed order.
pub open spec fn spec_param_pairs(p: ApiParametersView) -> Seq<(Seq<char>, Seq<char>)> {
    seq![
        ("ranked"@, if p.ranked { "1"@ } else { "0"@ }),
        ("sort"@, p.sort_by.spec_str()),
        ("limit"@, p.limit.spec_str()),
        ("format"@, p.format.spec_str()),
    ] + (match p.minimum_seeders {
        Some(n) => seq![("min_seeders"@, spec_dec(n as int))],
        None => Seq::empty(),
    }) + (match p.minimum_leechers {
        Some(n) => seq![("min_leechers"@, spec_dec(n as int))],
        None => Seq::empty(),
    }) + (match p.categories {
        Some(cs) => seq![("category"@, spec_cat_join(cs))],
        None => Seq::empty(),
    })
}

/// The whole query of one call, in its fixed order.
pub open spec fn spec_compose(
    intent: CallIntentView,
    app_id: Seq<char>,
    token: Seq<char>,
) -> Seq<(Seq<char>, Seq<char>)> {
    seq![("mode"@, intent.mode.spec_str()), ("token"@, token), ("app_id"@, app_id)] + (
    match intent.search {
        Some((k, v)) => seq![(k.spec_str(), v)],
        None => Seq::empty(),
    }) + (match intent.parameters {
        Some(p) => spec_param_pairs(p),
        None => Seq::empty(),
    })
}

/// The value under `key` in a composed pair list, reading front to
/// back: how a receiver parses the query back into fields.
pub open spec fn spec_lookup(
    pairs: Seq<(Seq<char>, Seq<char>)>,
    key: Seq<char>,
) -> Option<Seq<char>>
    decreases pairs.len(),
{
    if pairs.len() == 0 {
        None
    } else if pairs.first().0 == key {
        Some(pairs.first().1)
    } else {
        spec_lookup(pairs.drop_first(), key)
    }
}

/// Lengths and first characters of the query keys: enough to tell any
/// two keys that could meet in one query apart.
proof fn lemma_key_facts()
    ensures
        "mode"@.len() == 4,
        "token"@.len() == 5,
        "app_id"@.len() == 6,
        "search_string"@.len() == 13,
        "search_imdb"@.len() == 11,
        "search_tvdb"@.len() == 11,
        "search_tmdb"@.len() == 11,
        "ranked"@.len() == 6,
        "sort"@.len() == 4,
        "limit"@.len() == 5,
        "format"@.len() == 6,
        "min_seeders"@.len() == 11,
        "min_leechers"@.len() == 12,
        "category"@.len() == 8,
        "mode"@[0] == 'm',
        "token"@[0] == 't',
        "app_id"@[0] == 'a',
        "search_string"@[0] == 's',
        "search_imdb"@[0] == 's',
        "search_tvdb"@[0] == 's',
        "search_tmdb"@[0] == 's',
        "ranked"@[0] == 'r',
        "sort"@[0] == 's',
        "limit"@[0] == 'l',
        "format"@[0] == 'f',
        "min_seeders"@[0] == 'm',
        "min_leechers"@[0] == 'm',
        "category"@[0] == 'c',
{
    reveal_strlit("mode");
    reveal_strlit("token");
    reveal_strlit("app_id");
    reveal_strlit("search_string");
    reveal_strlit("search_imdb");
    reveal_strlit("search_tvdb");
    reveal_strlit("search_tmdb");
    reveal_strlit("ranked");
    reveal_strlit("sort");
    reveal_strlit("limit");
    reveal_strlit("format");
    reveal_strlit("min_seeders");
    reveal_strlit("min_leechers");
    reveal_strlit("category");
}

/// Options that are absent are omitted entirely: with no seeder floor,
/// no leecher floor and no category restriction, the composed query
/// holds no `min_seeders`, `min_leechers` or `category` pair at all —
/// in particular, none with an empty value.
pub proof fn lemma_absent_options_omitted(
    intent: CallIntentView,
    app_id: Seq<char>,
    token: Seq<char>,
)
    requires
        intent.parameters matches Some(p) ==> {
            &&& p.minimum_seeders is None
            &&& p.minimum_leechers is None
            &&& p.categories is None
        },
    ensures
        forall|k: int| 0 <= k < spec_compose(intent, app_id, token).len() ==> {
            &&& (#[trigger] spec_compose(intent, app_id, token)[k]).0 != "min_seeders"@
            &&& spec_compose(intent, app_id, token)[k].0 != "min_leechers"@
            &&& spec_compose(intent, app_id, token)[k].0 != "category"@
        },
{
    lemma_key_facts();
    let q = spec_compose(intent, app_id, token);
    let head = seq![("mode"@, intent.mode.spec_str()), ("token"@, token), ("app_id"@, app_id)];
    let searchpart: Seq<(Seq<char>, Seq<char>)> = match intent.search {
        Some((k, v)) => seq![(k.spec_str(), v)],
        None => Seq::empty(),
    };
    let parampart: Seq<(Seq<char>, Seq<char>)> = match intent.parameters {
        Some(p) => seq![
            ("ranked"@, if p.ranked { "1"@ } else { "0"@ }),
            ("sort"@, p.sort_by.spec_str()),
            ("limit"@, p.limit.spec_str()),
            ("format"@, p.format.spec_str()),
        ],
        None => Seq::empty(),
    };
    assert(q =~= head + searchpart + parampart);
    assert forall|k: int| 0 <= k < q.len() implies {
        &&& (#[trigger] q[k]).0 != "min_seeders"@
        &&& q[k].0 != "min_leechers"@
        &&& q[k].0 != "category"@
    } by {
        if k < 3 {
            assert(q[k] == head[k]);
        } else if k < 3 + searchpart.len() {
            assert(q[k] == searchpart[k - 3]);
        } else {
            assert(q[k] == parampart[k - 3 - searchpart.len()]);
        }
    }
}

/// Round trip: composing a request with every optional field set and
/// then reading the pair list back key by key recovers every field's
/// wire value exactly.
pub proof fn lemma_round_trip(intent: CallIntentView, app_id: Seq<char>, token: Seq<char>)
    requires
        intent.parameters matches Some(p) && {
            &&& p.minimum_seeders is Some
            &&& p.minimum_leechers is Some
            &&& p.categories is Some
        },
    ensures
        spec_lookup(spec_compose(intent, app_id, token), "mode"@) == Some(intent.mode.spec_str()),
        spec_lookup(spec_compose(intent, app_id, token), "token"@) == Some(token),
        spec_lookup(spec_compose(intent, app_id, token), "app_id"@) == Some(app_id),
        intent.search matches Some((k, v)) ==> spec_lookup(
            spec_compose(intent, app_id, token),
            k.spec_str(),
        ) == Some(v),
        spec_lookup(spec_compose(intent, app_id, token), "ranked"@) == Some(
            if intent.parameters.unwrap().ranked {
                "1"@
            } else {
                "0"@
            },
        ),
        spec_lookup(spec_compose(intent, app_id, token), "sort"@) == Some(
            intent.parameters.unwrap().sort_by.spec_str(),
        ),
        spec_lookup(spec_compose(intent, app_id, token), "limit"@) == Some(
            intent.parameters.unwrap().limit.spec_str(),
        ),
        spec_lookup(spec_compose(intent, app_id, token), "format"@) == Some(
            intent.parameters.unwrap().format.spec_str(),
        ),
        spec_lookup(spec_compose(intent, app_id, token), "min_seeders"@) == Some(
            spec_dec(intent.parameters.unwrap().minimum_seeders.unwrap() as int),
        ),
        spec_lookup(spec_compose(intent, app_id, token), "min_leechers"@) == Some(
            spec_dec(intent.parameters.unwrap().minimum_leechers.unwrap() as int),
        ),
        spec_lookup(spec_compose(intent, app_id, token), "category"@) == Some(
            spec_cat_join(intent.parameters.unwrap().categories.unwrap()),
        ),
{
    reveal_with_fuel(spec_lookup, 16);
    lemma_key_facts();
    let p = intent.parameters.unwrap();
    let base = seq![
        ("ranked"@, if p.ranked { "1"@ } else { "0"@ }),
        ("sort"@, p.sort_by.spec_str()),
        ("limit"@, p.limit.spec_str()),
        ("format"@, p.format.spec_str()),
        ("min_seeders"@, spec_dec(p.minimum_seeders.unwrap() as int)),
        ("min_leechers"@, spec_dec(p.minimum_leechers.unwrap() as int)),
        ("category"@, spec_cat_join(p.categories.unwrap())),
    ];
    let q = spec_compose(intent, app_id, token);
    match intent.search {
        Some((k, v)) => {
            assert(q =~= seq![
                ("mode"@, intent.mode.spec_str()),
                ("token"@, token),
                ("app_id"@, app_id),
                (k.spec_str(), v),
            ] + base);
            assert(q.drop_first() =~= seq![
                ("token"@, token),
                ("app_id"@, app_id),
                (k.spec_str(), v),
            ] + base);
            assert(q.drop_first().drop_first() =~= seq![("app_id"@, app_id), (k.spec_str(), v)]
                + base);
            assert(q.drop_first().drop_first().drop_first() =~= seq![(k.spec_str(), v)] + base);
            assert(q.drop_first().drop_first().drop_first().drop_first() =~= base);
        },
        None => {
            assert(q =~= seq![
                ("mode"@, intent.mode.spec_str()),
                ("token"@, token),
                ("app_id"@, app_id),
            ] + base);
            assert(q.drop_first() =~= seq![("token"@, token), ("app_id"@, app_id)] + base);
            assert(q.drop_first().drop_first() =~= seq![("app_id"@, app_id)] + base);
            assert(q.drop_first().drop_first().drop_first() =~= base);
        },
    }
}

/// Assemble the ordered key/value pairs of one call.
pub fn compose(intent: &CallIntent, app_id: &str, token: &str) -> (r: Vec<(String, String)>)
    ensures
        pairs_view(r@) == spec_compose(intent@, app_id@, token@),
{
    let mut out: Vec<(String, String)> = Vec::new();
    out.push(("mode".to_owned(), intent.mode.as_str().to_owned()));
    out.push(("token".to_owned(), token.to_owned()));
    out.push(("app_id".to_owned(), app_id.to_owned()));
    match &intent.search {
        Some(kv) => {
            out.push((kv.0.as_str().to_owned(), kv.1.clone()));
        },
        None => {},
    }
    match &intent.parameters {
        Some(p) => {
            let ranked_value: &str = if *p.ranked() {
                "1"
            } else {
                "0"
            };
            out.push(("ranked".to_owned(), ranked_value.to_owned()));
            out.push(("sort".to_owned(), p.sort_by().as_str().to_owned()));
            out.push(("limit".to_owned(), p.limit().as_str().to_owned()));
            out.push(("format".to_owned(), p.format().as_str().to_owned()));
            match p.minimum_seeders() {
                Some(n) => {
                    out.push(("min_seeders".to_owned(), u32_to_dec(*n)));
                },
                None => {},
            }
            match p.minimum_leechers() {
                Some(n) => {
                    out.push(("min_leechers".to_owned(), u32_to_dec(*n)));
                },
                None => {},
            }
            match p.categories() {
                Some(cs) => {
                    out.push(("category".to_owned(), join_categories(cs)));
                },
                None => {},
            }
        },
        None => {},
    }
    proof {
        assert(pairs_view(out@) =~= spec_compose(intent@, app_id@, token@));
    }
    out
}

} // verus!
