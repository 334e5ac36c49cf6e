//! Response disambiguation.
//!
//! The server answers every request with one bare JSON object and no
//! discriminant field: the same payload shape means success or failure
//! depending on content. Disambiguation is therefore an ordered trial
//! parse: the results schema is tried first, then the error schema, and
//! a body matching neither is reported as malformed, never guessed at.

use vstd::prelude::*;

use crate::category::Category;
use crate::episode_info::{EpisodeInfo, EpisodeInfoView};
use crate::error::{ClientError, Error, ErrorView};
use crate::json::{
    doc_as_array, doc_as_i64, doc_as_str, doc_get, doc_is_null, doc_is_object, json_parse,
    json_rep, obj_lookup, parse_document, JsonRep,
};
use crate::torrent_result::{TorrentResult, TorrentResultView};
use crate::torrent_results::TorrentResults;

verus! {

/// An optional string field of schema object `fields`: `Some(Some(s))`
/// for a string value, `Some(None)` where the field is absent or null,
/// and `None` where it is present with any other type, which fails the
/// whole schema.
pub open spec fn spec_opt_text(
    fields: Seq<(Seq<char>, JsonRep)>,
    key: Seq<char>,
) -> Option<Option<Seq<char>>> {
    match obj_lookup(fields, key) {
        None => Some(None),
        Some(JsonRep::Null) => Some(None),
        Some(JsonRep::Text(s)) => Some(Some(s)),
        Some(_) => None,
    }
}

/// An optional integer field of schema object `fields`, read like
/// [`spec_opt_text`] but for integers that fit an `i64`.
pub open spec fn spec_opt_int(
    fields: Seq<(Seq<char>, JsonRep)>,
    key: Seq<char>,
) -> Option<Option<i64>> {
    match obj_lookup(fields, key) {
        None => Some(None),
        Some(JsonRep::Null) => Some(None),
        Some(JsonRep::Int(n)) => if i64::MIN <= n <= i64::MAX {
            Some(Some(n as i64))
        } else {
            None
        },
        Some(_) => None,
    }
}

/// The `ranked` field of a torrent object: the server encodes the flag
/// as the integer 0 or 1. Absent means unknown; null or any other value
/// fails the schema.
pub open spec fn spec_opt_ranked(fields: Seq<(Seq<char>, JsonRep)>) -> Option<Option<bool>> {
    match obj_lookup(fields, "ranked"@) {
        None => Some(None),
        Some(JsonRep::Int(n)) => if n == 0 {
            Some(Some(false))
        } else if n == 1 {
            Some(Some(true))
        } else {
            None
        },
        Some(_) => None,
    }
}

/// Episode metadata as a schema: an object whose known fields, where
/// present and not null, are strings. Unknown fields are ignored.
pub open spec fn spec_episode_of(j: JsonRep) -> Option<EpisodeInfoView> {
    match j {
        JsonRep::Obj(fields) => match (
            spec_opt_text(fields, "imdb"@),
            spec_opt_text(fields, "tvrage"@),
            spec_opt_text(fields, "tvdb"@),
            spec_opt_text(fields, "themoviedb"@),
            spec_opt_text(fields, "airdate"@),
            spec_opt_text(fields, "epnum"@),
            spec_opt_text(fields, "seasonnum"@),
            spec_opt_text(fields, "title"@),
        ) {
            (
                Some(imdb),
                Some(tvrage),
                Some(tvdb),
                Some(themoviedb),
                Some(airdate),
                Some(epnum),
                Some(seasonnum),
                Some(title),
            ) => Some(
                EpisodeInfoView {
                    imdb,
                    tvrage,
                    tvdb,
                    themoviedb,
                    airdate,
                    epnum,
                    seasonnum,
                    title,
                },
            ),
            _ => None,
        },
        _ => None,
    }
}

/// The optional `episode_info` field of a torrent object.
pub open spec fn spec_opt_episode(
    fields: Seq<(Seq<char>, JsonRep)>,
) -> Option<Option<EpisodeInfoView>> {
    match obj_lookup(fields, "episode_info"@) {
        None => Some(None),
        Some(JsonRep::Null) => Some(None),
        Some(j) => match spec_episode_of(j) {
            Some(e) => Some(Some(e)),
            None => None,
        },
    }
}

/// One element of the results schema: an object with a string magnet
/// link under `download`, a known category name under `category`, and
/// well-typed optional detail fields.
pub open spec fn spec_torrent_of(j: JsonRep) -> Option<TorrentResultView> {
    match j {
        JsonRep::Obj(fields) => match (
            obj_lookup(fields, "download"@),
            obj_lookup(fields, "category"@),
        ) {
            (Some(JsonRep::Text(download)), Some(JsonRep::Text(catname))) => match Category::spec_of_name(
                catname,
            ) {
                Some(category) => match (
                    spec_opt_text(fields, "title"@),
                    spec_opt_text(fields, "filename"@),
                    spec_opt_int(fields, "seeders"@),
                    spec_opt_int(fields, "leechers"@),
                    spec_opt_int(fields, "size"@),
                    spec_opt_text(fields, "pubdate"@),
                    spec_opt_episode(fields),
                    spec_opt_ranked(fields),
                    spec_opt_text(fields, "info_page"@),
                ) {
                    (
                        Some(title),
                        Some(filename),
                        Some(seeders),
                        Some(leechers),
                        Some(size),
                        Some(pubdate),
                        Some(episode_info),
                        Some(ranked),
                        Some(info_page),
                    ) => Some(
                        TorrentResultView {
                            title,
                            filename,
                            category,
                            download,
                            seeders,
                            leechers,
                            size,
                            pubdate,
                            episode_info,
                            ranked,
                            info_page,
                        },
                    ),
                    _ => None,
                },
                None => None,
            },
            _ => None,
        },
        _ => None,
    }
}

/// Every element in order, or failure as soon as one element fails.
pub open spec fn spec_torrents_of(items: Seq<JsonRep>) -> Option<Seq<TorrentResultView>>
    decreases items.len(),
{
    if items.len() == 0 {
        Some(Seq::empty())
    } else {
        match (spec_torrent_of(items.first()), spec_torrents_of(items.drop_first())) {
            (Some(t), Some(ts)) => Some(seq![t] + ts),
            _ => None,
        }
    }
}

/// The results schema: an object whose `torrent_results` field is an
/// array of well-formed torrent objects.
pub open spec fn spec_results_of(j: JsonRep) -> Option<Seq<TorrentResultView>> {
    match j {
        JsonRep::Obj(fields) => match obj_lookup(fields, "torrent_results"@) {
            Some(JsonRep::Arr(items)) => spec_torrents_of(items),
            _ => None,
        },
        _ => None,
    }
}

/// The error schema: an object with a string description under `error`
/// and an integer code in byte range under `error_code`.
pub open spec fn spec_error_of(j: JsonRep) -> Option<ErrorView> {
    match j {
        JsonRep::Obj(fields) => match (
            obj_lookup(fields, "error"@),
            obj_lookup(fields, "error_code"@),
        ) {
            (Some(JsonRep::Text(error)), Some(JsonRep::Int(code))) => if 0 <= code <= 255 {
                Some(ErrorView { error, error_code: code as u8 })
            } else {
                None
            },
            _ => None,
        },
        _ => None,
    }
}

/// Specification-level content of a [`ResolvedResponse`].
pub enum ResolvedView {
    Results(Seq<TorrentResultView>),
    ApiError(ErrorView),
}

/// What one response body means: the torrents it lists, or the error
/// the server reported. Exactly one of the two, never both or neither;
/// a body meaning neither is rejected by [`resolve`], not represented.
#[derive(Clone, Debug)]
pub enum ResolvedResponse {
    Results(TorrentResults),
    ApiError(Error),
}

impl View for ResolvedResponse {
    type V = ResolvedView;

    open spec fn view(&self) -> ResolvedView {
        match self {
            ResolvedResponse::Results(ts) => ResolvedView::Results(ts@),
            ResolvedResponse::ApiError(e) => ResolvedView::ApiError(e@),
        }
    }
}

/// What [`resolve`] yields for a parsed document: the results schema is
/// tried first, the error schema only after it fails, and `None` stands
/// for a body that matches neither (or was not JSON at all).
pub open spec fn spec_resolve(doc: Option<JsonRep>) -> Option<ResolvedView> {
    match doc {
        None => None,
        Some(j) => match spec_results_of(j) {
            Some(ts) => Some(ResolvedView::Results(ts)),
            None => match spec_error_of(j) {
                Some(e) => Some(ResolvedView::ApiError(e)),
                None => None,
            },
        },
    }
}

/// The torrent flag encoding used by the server: 0 is false, 1 is true,
/// anything else is no flag at all.
pub fn bool_from_int(n: i64) -> (r: Option<bool>)
    ensures
        r == if n == 0 {
            Some(false)
        } else if n == 1 {
            Some(true)
        } else {
            None::<bool>
        },
{
    if n == 0 {
        Some(false)
    } else if n == 1 {
        Some(true)
    } else {
        None
    }
}

/// Read an optional string field of the object `v`.
fn get_opt_text(v: &serde_json::Value, key: &str) -> (r: Option<Option<String>>)
    requires
        json_rep(*v) is Obj,
    ensures
        json_rep(*v) matches JsonRep::Obj(fields) ==> match r {
            Some(Some(s)) => spec_opt_text(fields, key@) == Some(Some(s@)),
            Some(None) => spec_opt_text(fields, key@) == Some(None::<Seq<char>>),
            None => spec_opt_text(fields, key@) is None,
        },
{
    match doc_get(v, key) {
        None => Some(None),
        Some(f) => {
            if doc_is_null(f) {
                Some(None)
            } else {
                match doc_as_str(f) {
                    Some(s) => Some(Some(s.to_owned())),
                    None => None,
                }
            }
        },
    }
}

/// Read an optional integer field of the object `v`.
fn get_opt_i64(v: &serde_json::Value, key: &str) -> (r: Option<Option<i64>>)
    requires
        json_rep(*v) is Obj,
    ensures
        json_rep(*v) matches JsonRep::Obj(fields) ==> match r {
            Some(Some(n)) => spec_opt_int(fields, key@) == Some(Some(n)),
            Some(None) => spec_opt_int(fields, key@) == Some(None::<i64>),
            None => spec_opt_int(fields, key@) is None,
        },
{
    match doc_get(v, key) {
        None => Some(None),
        Some(f) => {
            if doc_is_null(f) {
                Some(None)
            } else {
                match doc_as_i64(f) {
                    Some(n) => Some(Some(n)),
                    None => None,
                }
            }
        },
    }
}

/// Read the `ranked` field of the object `v`, decoding the 0/1 flag.
fn get_opt_ranked(v: &serde_json::Value) -> (r: Option<Option<bool>>)
    requires
        json_rep(*v) is Obj,
    ensures
        json_rep(*v) matches JsonRep::Obj(fields) ==> match r {
            Some(Some(b)) => spec_opt_ranked(fields) == Some(Some(b)),
            Some(None) => spec_opt_ranked(fields) == Some(None::<bool>),
            None => spec_opt_ranked(fields) is None,
        },
{
    match doc_get(v, "ranked") {
        None => Some(None),
        Some(f) => match doc_as_i64(f) {
            Some(n) => match bool_from_int(n) {
                Some(b) => Some(Some(b)),
                None => None,
            },
            None => None,
        },
    }
}

/// Read the optional `episode_info` field of the torrent object `v`.
fn get_opt_episode(v: &serde_json::Value) -> (r: Option<Option<EpisodeInfo>>)
    requires
        json_rep(*v) is Obj,
    ensures
        json_rep(*v) matches JsonRep::Obj(fields) ==> match r {
            Some(Some(e)) => spec_opt_episode(fields) == Some(Some(e@)),
            Some(None) => spec_opt_episode(fields) == Some(None::<EpisodeInfoView>),
            None => spec_opt_episode(fields) is None,
        },
{
    match doc_get(v, "episode_info") {
        None => Some(None),
        Some(f) => {
            if doc_is_null(f) {
                Some(None)
            } else {
                match extract_episode(f) {
                    Some(e) => Some(Some(e)),
                    None => None,
                }
            }
        },
    }
}

/// Read a whole episode metadata object.
fn extract_episode(v: &serde_json::Value) -> (r: Option<EpisodeInfo>)
    ensures
        match r {
            Some(e) => spec_episode_of(json_rep(*v)) == Some(e@),
            None => spec_episode_of(json_rep(*v)) is None,
        },
{
    if !doc_is_object(v) {
        return None;
    }
    let imdb = match get_opt_text(v, "imdb") {
        Some(x) => x,
        None => {
            return None;
        },
    };
    let tvrage = match get_opt_text(v, "tvrage") {
        Some(x) => x,
        None => {
            return None;
        },
    };
    let tvdb = match get_opt_text(v, "tvdb") {
        Some(x) => x,
        None => {
            return None;
        },
    };
    let themoviedb = match get_opt_text(v, "themoviedb") {
        Some(x) => x,
        None => {
            return None;
        },
    };
    let airdate = match get_opt_text(v, "airdate") {
        Some(x) => x,
        None => {
            return None;
        },
    };
    let epnum = match get_opt_text(v, "epnum") {
        Some(x) => x,
        None => {
            return None;
        },
    };
    let seasonnum = match get_opt_text(v, "seasonnum") {
        Some(x) => x,
        None => {
            return None;
        },
    };
    let title = match get_opt_text(v, "title") {
        Some(x) => x,
        None => {
            return None;
        },
    };
    Some(
        EpisodeInfo::from_parts(
            imdb,
            tvrage,
            tvdb,
            themoviedb,
            airdate,
            epnum,
            seasonnum,
            title,
        ),
    )
}

/// Read one element of the `torrent_results` array.
fn extract_torrent(v: &serde_json::Value) -> (r: Option<TorrentResult>)
    ensures
        match r {
            Some(t) => spec_torrent_of(json_rep(*v)) == Some(t@),
            None => spec_torrent_of(json_rep(*v)) is None,
        },
{
    let download = match doc_get(v, "download") {
        None => {
            return None;
        },
        Some(f) => match doc_as_str(f) {
            None => {
                return None;
            },
            Some(s) => s.to_owned(),
        },
    };
    let category = match doc_get(v, "category") {
        None => {
            return None;
        },
        Some(f) => match doc_as_str(f) {
            None => {
                return None;
            },
            Some(s) => match Category::from_name(s) {
                None => {
                    return None;
                },
                Some(c) => c,
            },
        },
    };
    let title = match get_opt_text(v, "title") {
        Some(x) => x,
        None => {
            return None;
        },
    };
    let filename = match get_opt_text(v, "filename") {
        Some(x) => x,
        None => {
            return None;
        },
    };
    let seeders = match get_opt_i64(v, "seeders") {
        Some(x) => x,
        None => {
            return None;
        },
    };
    let leechers = match get_opt_i64(v, "leechers") {
        Some(x) => x,
        None => {
            return None;
        },
    };
    let size = match get_opt_i64(v, "size") {
        Some(x) => x,
        None => {
            return None;
        },
    };
    let pubdate = match get_opt_text(v, "pubdate") {
        Some(x) => x,
        None => {
            return None;
        },
    };
    let episode_info = match get_opt_episode(v) {
        Some(x) => x,
        None => {
            return None;
        },
    };
    let ranked = match get_opt_ranked(v) {
        Some(x) => x,
        None => {
            return None;
        },
    };
    let info_page = match get_opt_text(v, "info_page") {
        Some(x) => x,
        None => {
            return None;
        },
    };
    Some(
        TorrentResult::from_parts(
            title,
            filename,
            category,
            download,
            seeders,
            leechers,
            size,
            pubdate,
            episode_info,
            ranked,
            info_page,
        ),
    )
}

/// A sequence of elements parses as a whole exactly when every element
/// parses, and then elementwise.
proof fn lemma_torrents_of(items: Seq<JsonRep>)
    ensures
        (spec_torrents_of(items) is Some) <==> (forall|k: int|
            0 <= k < items.len() ==> spec_torrent_of(items[k]) is Some),
        spec_torrents_of(items) matches Some(ts) ==> ts == items.map_values(
            |j: JsonRep| spec_torrent_of(j).unwrap(),
        ),
    decreases items.len(),
{
    if items.len() == 0 {
        assert(items.map_values(|j: JsonRep| spec_torrent_of(j).unwrap()) =~= Seq::empty());
    } else {
        let rest = items.drop_first();
        lemma_torrents_of(rest);
        if forall|k: int| 0 <= k < items.len() ==> spec_torrent_of(#[trigger] items[k]) is Some {
            assert(spec_torrent_of(items.first()) is Some);
            assert forall|k: int| 0 <= k < rest.len() implies spec_torrent_of(
                #[trigger] rest[k],
            ) is Some by {
                assert(rest[k] == items[k + 1]);
            }
            assert(spec_torrents_of(rest) is Some);
        }
        if spec_torrents_of(items) is Some {
            assert(spec_torrent_of(items.first()) is Some);
            assert(spec_torrents_of(rest) is Some);
            assert forall|k: int| 0 <= k < items.len() implies spec_torrent_of(
                #[trigger] items[k],
            ) is Some by {
                if k == 0 {
                    assert(items[0] == items.first());
                } else {
                    assert(items[k] == rest[k - 1]);
                }
            }
            let f = |j: JsonRep| spec_torrent_of(j).unwrap();
            let ts = spec_torrents_of(items).unwrap();
            assert(ts == seq![spec_torrent_of(items.first()).unwrap()] + spec_torrents_of(
                rest,
            ).unwrap());
            assert forall|k: int| 0 <= k < items.len() implies ts[k] == items.map_values(f)[k] by {
                if k == 0 {
                    assert(items[0] == items.first());
                } else {
                    assert(ts[k] == rest.map_values(f)[k - 1]);
                    assert(rest[k - 1] == items[k]);
                }
            }
            assert(ts =~= items.map_values(f));
        }
    }
}

/// Read the whole `torrent_results` array, in order.
fn extract_torrents(arr: &Vec<serde_json::Value>) -> (r: Option<Vec<TorrentResult>>)
    ensures
        match r {
            Some(ts) => spec_torrents_of(arr@.map_values(|e: serde_json::Value| json_rep(e)))
                == Some(ts@.map_values(|t: TorrentResult| t@)),
            None => spec_torrents_of(arr@.map_values(|e: serde_json::Value| json_rep(e))) is None,
        },
{
    let ghost models = arr@.map_values(|e: serde_json::Value| json_rep(e));
    let mut out: Vec<TorrentResult> = Vec::new();
    let mut i: usize = 0;
    while i < arr.len()
        invariant
            i <= arr.len(),
            models == arr@.map_values(|e: serde_json::Value| json_rep(e)),
            out@.len() == i,
            forall|k: int| 0 <= k < i ==> spec_torrent_of(#[trigger] models[k]) is Some,
            forall|k: int| 0 <= k < i ==> #[trigger] out@[k]@ == spec_torrent_of(
                models[k],
            ).unwrap(),
        decreases arr.len() - i,
    {
        match extract_torrent(&arr[i]) {
            None => {
                proof {
                    assert(models[i as int] == json_rep(arr@[i as int]));
                    lemma_torrents_of(models);
                }
                return None;
            },
            Some(t) => {
                proof {
                    assert(models[i as int] == json_rep(arr@[i as int]));
                }
                out.push(t);
            },
        }
        i = i + 1;
    }
    proof {
        lemma_torrents_of(models);
        let f = |j: JsonRep| spec_torrent_of(j).unwrap();
        let g = |t: TorrentResult| t@;
        assert forall|k: int| 0 <= k < models.len() implies #[trigger] out@.map_values(g)[k]
            == models.map_values(f)[k] by {
            assert(out@[k]@ == spec_torrent_of(models[k]).unwrap());
        }
        assert(out@.map_values(g) =~= models.map_values(f));
    }
    Some(out)
}

/// Try the results schema on a parsed document.
fn extract_results(v: &serde_json::Value) -> (r: Option<TorrentResults>)
    ensures
        match r {
            Some(ts) => spec_results_of(json_rep(*v)) == Some(ts@),
            None => spec_results_of(json_rep(*v)) is None,
        },
{
    match doc_get(v, "torrent_results") {
        None => None,
        Some(f) => match doc_as_array(f) {
            None => None,
            Some(arr) => match extract_torrents(arr) {
                None => None,
                Some(ts) => Some(TorrentResults::new(ts)),
            },
        },
    }
}

/// Try the error schema on a parsed document.
fn extract_error(v: &serde_json::Value) -> (r: Option<Error>)
    ensures
        match r {
            Some(e) => spec_error_of(json_rep(*v)) == Some(e@),
            None => spec_error_of(json_rep(*v)) is None,
        },
{
    let message = match doc_get(v, "error") {
        None => {
            return None;
        },
        Some(f) => match doc_as_str(f) {
            None => {
                return None;
            },
            Some(s) => s.to_owned(),
        },
    };
    match doc_get(v, "error_code") {
        None => None,
        Some(f) => match doc_as_i64(f) {
            None => None,
            Some(n) => {
                if 0 <= n && n <= 255 {
                    Some(Error::new(message, n as u8))
                } else {
                    None
                }
            },
        },
    }
}

/// Decide what one response body means.
///
/// The body is parsed once; the results schema is tried on the document
/// first and, only where it does not fit, the error schema. A body that
/// is not JSON or fits neither schema is reported as malformed, with one
/// diagnostic per failed attempt.
pub fn resolve(raw: &str) -> (r: Result<ResolvedResponse, ClientError>)
    ensures
        match r {
            Ok(res) => spec_resolve(json_parse(raw@)) == Some(res@),
            Err(e) => {
                &&& spec_resolve(json_parse(raw@)) is None
                &&& e@ is MalformedResponse
            },
        },
{
    match parse_document(raw) {
        None => Err(
            ClientError::MalformedResponse(
                "the body is not JSON, so the results schema cannot fit".to_owned(),
                "the body is not JSON, so the error schema cannot fit".to_owned(),
            ),
        ),
        Some(v) => match extract_results(&v) {
            Some(ts) => Ok(ResolvedResponse::Results(ts)),
            None => match extract_error(&v) {
                Some(e) => Ok(ResolvedResponse::ApiError(e)),
                None => Err(
                    ClientError::MalformedResponse(
                        "the body does not match the results schema".to_owned(),
                        "the body does not match the error schema".to_owned(),
                    ),
                ),
            },
        },
    }
}

} // verus!
