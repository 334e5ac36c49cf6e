use rarbg_api::error::ClientError;
use rarbg_api::category::Category;
use rarbg_api::interpret_response;
use rarbg_api::resolve::{bool_from_int, resolve, ResolvedResponse};
use rarbg_api::torrent_result::magnet_file_path;

#[test]
fn results_body_resolves_to_results() {
    let raw = r#"{"torrent_results":[
        {"filename":"Show.S01E01.720p.WEB","category":"TV HD Episodes","download":"magnet:?xt=urn:btih:abc"},
        {"filename":"Show.S01E02.720p.WEB","category":"TV HD Episodes","download":"magnet:?xt=urn:btih:def"}
    ]}"#;
    match resolve(raw) {
        Ok(ResolvedResponse::Results(results)) => {
            let torrents = results.torrents();
            assert_eq!(torrents.len(), 2);
            assert_eq!(
                torrents[0].filename().as_ref().unwrap(),
                "Show.S01E01.720p.WEB"
            );
            assert_eq!(*torrents[0].category(), Category::TvHdEpisodes);
            assert_eq!(torrents[0].download(), "magnet:?xt=urn:btih:abc");
            assert_eq!(torrents[1].download(), "magnet:?xt=urn:btih:def");
            assert!(torrents[0].title().is_none());
            assert!(torrents[0].seeders().is_none());
            assert!(torrents[0].ranked().is_none());
        }
        other => panic!("expected results, got {:?}", other),
    }
}

#[test]
fn results_schema_wins_over_error_schema() {
    // A body carrying both shapes resolves as results: the resolver
    // tries the results schema first and never looks further.
    let raw = r#"{"torrent_results":[],"error":"phantom","error_code":5}"#;
    match resolve(raw) {
        Ok(ResolvedResponse::Results(results)) => {
            assert_eq!(results.torrents().len(), 0);
        }
        other => panic!("expected results, got {:?}", other),
    }
}

#[test]
fn error_body_resolves_to_api_error() {
    let raw = r#"{"error":"Invalid token","error_code":2}"#;
    match resolve(raw) {
        Ok(ResolvedResponse::ApiError(error)) => {
            assert_eq!(error.error(), "Invalid token");
            assert_eq!(*error.error_code(), 2);
        }
        other => panic!("expected an API error, got {:?}", other),
    }
}

#[test]
fn unrecognized_body_is_malformed() {
    let raw = r#"{"unexpected":true}"#;
    match resolve(raw) {
        Err(ClientError::MalformedResponse(first, second)) => {
            assert!(!first.is_empty());
            assert!(!second.is_empty());
        }
        other => panic!("expected a malformed response, got {:?}", other),
    }
}

#[test]
fn non_json_body_is_malformed() {
    assert!(matches!(
        resolve("<html>503</html>"),
        Err(ClientError::MalformedResponse(_, _))
    ));
    assert!(matches!(
        resolve(""),
        Err(ClientError::MalformedResponse(_, _))
    ));
}

#[test]
fn extended_fields_are_read_back() {
    let raw = r#"{"torrent_results":[{
        "title":"Show.S01E03.1080p.WEB",
        "category":"TV UHD Episodes",
        "download":"magnet:?xt=urn:btih:123",
        "seeders":120,
        "leechers":15,
        "size":734003200,
        "pubdate":"2020-02-20 12:34:56 +0000",
        "ranked":1,
        "info_page":"https://example.invalid/info",
        "episode_info":{
            "imdb":"tt2861424",
            "tvdb":"275274",
            "tvrage":"33381",
            "themoviedb":"60625",
            "airdate":"2020-02-19",
            "epnum":"3",
            "seasonnum":"1",
            "title":"Episode Three"
        }
    }]}"#;
    let results = match resolve(raw) {
        Ok(ResolvedResponse::Results(results)) => results,
        other => panic!("expected results, got {:?}", other),
    };
    let torrents = results.torrents();
    assert_eq!(torrents.len(), 1);
    let torrent = &torrents[0];
    assert_eq!(torrent.title().as_ref().unwrap(), "Show.S01E03.1080p.WEB");
    assert!(torrent.filename().is_none());
    assert_eq!(*torrent.category(), Category::TvUhdEpisodes);
    assert_eq!(*torrent.seeders(), Some(120));
    assert_eq!(*torrent.leechers(), Some(15));
    assert_eq!(*torrent.size(), Some(734003200));
    assert_eq!(
        torrent.pub_date().as_ref().unwrap(),
        "2020-02-20 12:34:56 +0000"
    );
    assert_eq!(*torrent.ranked(), Some(true));
    assert_eq!(
        torrent.info_page().as_ref().unwrap(),
        "https://example.invalid/info"
    );
    let episode = torrent.episode_info().as_ref().unwrap();
    assert_eq!(episode.imdb_id().unwrap(), "tt2861424");
    assert_eq!(episode.tvdb_id().unwrap(), "275274");
    assert_eq!(episode.tvrage_id().unwrap(), "33381");
    assert_eq!(episode.tmdb_id().unwrap(), "60625");
    assert_eq!(episode.air_date().unwrap(), "2020-02-19");
    assert_eq!(episode.episode_number().unwrap(), "3");
    assert_eq!(episode.season_number().unwrap(), "1");
    assert_eq!(episode.title().unwrap(), "Episode Three");
}

#[test]
fn placeholder_air_date_reads_as_absent() {
    let raw = r#"{"torrent_results":[{
        "category":"TV Episodes",
        "download":"magnet:?x",
        "episode_info":{"airdate":"0000-00-00"}
    }]}"#;
    let results = match resolve(raw) {
        Ok(ResolvedResponse::Results(results)) => results,
        other => panic!("expected results, got {:?}", other),
    };
    let torrent = &results.torrents()[0];
    let episode = torrent.episode_info().as_ref().unwrap();
    assert!(episode.air_date().is_none());
}

#[test]
fn ranked_flag_decoding() {
    assert_eq!(bool_from_int(0), Some(false));
    assert_eq!(bool_from_int(1), Some(true));
    assert_eq!(bool_from_int(2), None);
    assert_eq!(bool_from_int(-1), None);

    let zero = r#"{"torrent_results":[{"category":"TV Episodes","download":"m","ranked":0}]}"#;
    match resolve(zero) {
        Ok(ResolvedResponse::Results(results)) => {
            assert_eq!(*results.torrents()[0].ranked(), Some(false));
        }
        other => panic!("expected results, got {:?}", other),
    }
    // Any other integer fails the results schema, and the body matches
    // the error schema no better.
    let two = r#"{"torrent_results":[{"category":"TV Episodes","download":"m","ranked":2}]}"#;
    assert!(matches!(
        resolve(two),
        Err(ClientError::MalformedResponse(_, _))
    ));
}

#[test]
fn wrongly_typed_fields_fail_the_results_schema() {
    let bad_download = r#"{"torrent_results":[{"category":"TV Episodes","download":5}]}"#;
    assert!(matches!(
        resolve(bad_download),
        Err(ClientError::MalformedResponse(_, _))
    ));
    let bad_seeders =
        r#"{"torrent_results":[{"category":"TV Episodes","download":"m","seeders":"many"}]}"#;
    assert!(matches!(
        resolve(bad_seeders),
        Err(ClientError::MalformedResponse(_, _))
    ));
    let unknown_category = r#"{"torrent_results":[{"category":"Movies/Unknown","download":"m"}]}"#;
    assert!(matches!(
        resolve(unknown_category),
        Err(ClientError::MalformedResponse(_, _))
    ));
    let missing_category = r#"{"torrent_results":[{"download":"m"}]}"#;
    assert!(matches!(
        resolve(missing_category),
        Err(ClientError::MalformedResponse(_, _))
    ));
    let not_an_array = r#"{"torrent_results":{"download":"m"}}"#;
    assert!(matches!(
        resolve(not_an_array),
        Err(ClientError::MalformedResponse(_, _))
    ));
}

#[test]
fn null_optional_fields_read_as_absent() {
    let raw = r#"{"torrent_results":[{
        "title":null,
        "category":"TV Episodes",
        "download":"m",
        "seeders":null,
        "episode_info":null
    }]}"#;
    let results = match resolve(raw) {
        Ok(ResolvedResponse::Results(results)) => results,
        other => panic!("expected results, got {:?}", other),
    };
    let torrent = &results.torrents()[0];
    assert!(torrent.title().is_none());
    assert!(torrent.seeders().is_none());
    assert!(torrent.episode_info().is_none());
}

#[test]
fn error_schema_needs_a_byte_sized_code() {
    let too_big = r#"{"error":"x","error_code":300}"#;
    assert!(matches!(
        resolve(too_big),
        Err(ClientError::MalformedResponse(_, _))
    ));
    let negative = r#"{"error":"x","error_code":-1}"#;
    assert!(matches!(
        resolve(negative),
        Err(ClientError::MalformedResponse(_, _))
    ));
    let fractional = r#"{"error":"x","error_code":2.5}"#;
    assert!(matches!(
        resolve(fractional),
        Err(ClientError::MalformedResponse(_, _))
    ));
    let missing_message = r#"{"error_code":2}"#;
    assert!(matches!(
        resolve(missing_message),
        Err(ClientError::MalformedResponse(_, _))
    ));
}

#[test]
fn interpret_response_maps_each_outcome() {
    let ok = interpret_response(r#"{"torrent_results":[]}"#);
    assert_eq!(ok.unwrap().torrents().len(), 0);

    let api_error = interpret_response(r#"{"error":"No results found","error_code":20}"#);
    match api_error {
        Err(ClientError::ApiError(error)) => {
            assert_eq!(error.error(), "No results found");
            assert_eq!(*error.error_code(), 20);
        }
        other => panic!("expected an API error, got {:?}", other),
    }

    assert!(matches!(
        interpret_response("not json"),
        Err(ClientError::MalformedResponse(_, _))
    ));
}

#[test]
fn export_name_prefers_the_title() {
    let raw = r#"{"torrent_results":[
        {"title":"Named","filename":"named.file","category":"TV Episodes","download":"m"},
        {"filename":"only.file","category":"TV Episodes","download":"m"},
        {"category":"TV Episodes","download":"m"}
    ]}"#;
    let results = match resolve(raw) {
        Ok(ResolvedResponse::Results(results)) => results,
        other => panic!("expected results, got {:?}", other),
    };
    let torrents = results.torrents();
    assert_eq!(torrents[0].export_name().unwrap(), "Named");
    assert_eq!(torrents[1].export_name().unwrap(), "only.file");
    assert!(torrents[2].export_name().is_none());
}

#[test]
fn magnet_file_path_shape() {
    assert_eq!(magnet_file_path(".", "Named"), "./Named.magnet");
    assert_eq!(
        magnet_file_path("/tmp/exports", "Show.S01E01"),
        "/tmp/exports/Show.S01E01.magnet"
    );
}
