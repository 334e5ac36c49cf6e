use rarbg_api::api_parameters_builder::ApiParametersBuilder;
use rarbg_api::category::Category;
use rarbg_api::format::Format;
use rarbg_api::limit::Limit;
use rarbg_api::sort_by::SortBy;

#[test]
fn builder_defaults() {
    let parameters = ApiParametersBuilder::new().build();
    assert!(*parameters.ranked());
    assert_eq!(*parameters.limit(), Limit::TwentyFive);
    assert!(parameters.categories().is_none());
    assert_eq!(*parameters.sort_by(), SortBy::Last);
    assert_eq!(parameters.minimum_seeders(), None);
    assert_eq!(parameters.minimum_leechers(), None);
    assert_eq!(*parameters.format(), Format::Json);
}

#[test]
fn builder_keeps_chosen_options_and_defaults() {
    let parameters = ApiParametersBuilder::new()
        .limit(Limit::TwentyFive)
        .categories(vec![
            Category::TvUhdEpisodes,
            Category::TvHdEpisodes,
            Category::TvEpisodes,
        ])
        .sort_by(SortBy::Seeders)
        .build();
    // Specified options
    assert_eq!(*parameters.limit(), Limit::TwentyFive);
    assert_eq!(
        *parameters.categories().unwrap(),
        vec![
            Category::TvUhdEpisodes,
            Category::TvHdEpisodes,
            Category::TvEpisodes
        ]
    );
    assert_eq!(*parameters.sort_by(), SortBy::Seeders);
    // Default options
    assert!(*parameters.ranked());
    assert_eq!(parameters.minimum_seeders(), None);
    assert_eq!(parameters.minimum_leechers(), None);
    assert_eq!(*parameters.format(), Format::Json);
}

#[test]
fn builder_sets_every_field() {
    let parameters = ApiParametersBuilder::new()
        .ranked(false)
        .limit(Limit::OneHundred)
        .categories(vec![Category::TvHdEpisodes, Category::TvUhdEpisodes])
        .sort_by(SortBy::Seeders)
        .minimum_seeders(42)
        .minimum_leechers(42)
        .format(Format::JsonExtended)
        .build();
    assert!(!*parameters.ranked());
    assert_eq!(*parameters.limit(), Limit::OneHundred);
    assert_eq!(
        *parameters.categories().unwrap(),
        vec![Category::TvHdEpisodes, Category::TvUhdEpisodes]
    );
    assert_eq!(*parameters.sort_by(), SortBy::Seeders);
    assert_eq!(parameters.minimum_seeders(), Some(&42));
    assert_eq!(parameters.minimum_leechers(), Some(&42));
    assert_eq!(*parameters.format(), Format::JsonExtended);
}

#[test]
fn wire_values_of_the_enumerations() {
    assert_eq!(Limit::TwentyFive.as_str(), "25");
    assert_eq!(Limit::Fifty.as_str(), "50");
    assert_eq!(Limit::OneHundred.as_str(), "100");
    assert_eq!(SortBy::Seeders.as_str(), "seeders");
    assert_eq!(SortBy::Leechers.as_str(), "leechers");
    assert_eq!(SortBy::Last.as_str(), "last");
    assert_eq!(Format::Json.as_str(), "json");
    assert_eq!(Format::JsonExtended.as_str(), "json_extended");
    assert_eq!(Category::TvEpisodes.as_str(), "18");
    assert_eq!(Category::TvHdEpisodes.as_str(), "41");
    assert_eq!(Category::TvUhdEpisodes.as_str(), "49");
    assert_eq!(Category::MoviesX2644k.as_str(), "50");
    assert_eq!(Category::GamesPs4.as_str(), "53");
}

#[test]
fn category_names_round_trip() {
    let all = vec![
        Category::Xxx,
        Category::MoviesXvid,
        Category::MoviesXvid720,
        Category::MoviesX264,
        Category::MoviesX2641080,
        Category::MoviesX264720,
        Category::MoviesX2643d,
        Category::MoviesX2644k,
        Category::MoviesX2654k,
        Category::MoviesX2654kHdr,
        Category::MoviesFullBd,
        Category::MoviesBdRemux,
        Category::TvEpisodes,
        Category::TvHdEpisodes,
        Category::TvUhdEpisodes,
        Category::MusicMp3,
        Category::MusicFlac,
        Category::GamesPcIso,
        Category::GamesPcRip,
        Category::GamesPs3,
        Category::GamesXbox360,
        Category::SoftwarePcIso,
        Category::GamesPs4,
    ];
    let names = vec![
        "XXX (18+)",
        "Movies/XVID",
        "Movies/XVID/720",
        "Movies/x264",
        "Movies/x264/1080",
        "Movies/x264/720",
        "Movies/x264/3D",
        "Movies/x264/4k",
        "Movies/x265/4k",
        "Movies/x264/4k/HDR",
        "Movies/Full BD",
        "Movies/BD Remux",
        "TV Episodes",
        "TV HD Episodes",
        "TV UHD Episodes",
        "Music/MP3",
        "Music/FLAC",
        "Games/PC ISO",
        "Games/PC RIP",
        "Games/PS3",
        "Games/XBOX-360",
        "Software/PC ISO",
        "Games/PS4",
    ];
    for (category, name) in all.iter().zip(names.iter()) {
        assert_eq!(Category::from_name(name), Some(*category));
    }
    assert_eq!(Category::from_name("TV"), None);
    assert_eq!(Category::from_name(""), None);
}
