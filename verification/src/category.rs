//! Content categories understood by the API.
//!
//! Each category has two wire forms: a numeric code, sent in query strings
//! (joined by `;` when several are given), and a display name, which the
//! server uses for the `category` field of a returned torrent.

use vstd::prelude::*;

verus! {

/// A content category. The API identifies one by a numeric code in
/// requests and by a display name in responses.
#[derive(Clone, Copy, Debug, PartialEq, Eq, Structural)]
pub enum Category {
    Xxx,
    MoviesXvid,
    MoviesXvid720,
    MoviesX264,
    MoviesX2641080,
    MoviesX264720,
    MoviesX2643d,
    MoviesX2644k,
    MoviesX2654k,
    MoviesX2654kHdr,
    MoviesFullBd,
    MoviesBdRemux,
    TvEpisodes,
    TvHdEpisodes,
    TvUhdEpisodes,
    MusicMp3,
    MusicFlac,
    GamesPcIso,
    GamesPcRip,
    GamesPs3,
    GamesXbox360,
    SoftwarePcIso,
    GamesPs4,
}

impl Category {
    /// The numeric code of this category, as the query string carries it.
    pub open spec fn spec_str(self) -> Seq<char> {
        match self {
            Category::Xxx => "4"@,
            Category::MoviesXvid => "14"@,
            Category::MoviesXvid720 => "48"@,
            Category::MoviesX264 => "17"@,
            Category::MoviesX2641080 => "44"@,
            Category::MoviesX264720 => "45"@,
            Category::MoviesX2643d => "47"@,
            Category::MoviesX2644k => "50"@,
            Category::MoviesX2654k => "51"@,
            Category::MoviesX2654kHdr => "52"@,
            Category::MoviesFullBd => "42"@,
            Category::MoviesBdRemux => "46"@,
            Category::TvEpisodes => "18"@,
            Category::TvHdEpisodes => "41"@,
            Category::TvUhdEpisodes => "49"@,
            Category::MusicMp3 => "23"@,
            Category::MusicFlac => "25"@,
            Category::GamesPcIso => "27"@,
            Category::GamesPcRip => "28"@,
            Category::GamesPs3 => "40"@,
            Category::GamesXbox360 => "32"@,
            Category::SoftwarePcIso => "33"@,
            Category::GamesPs4 => "53"@,
        }
    }

    /// The display name of this category, as the server writes it in the
    /// `category` field of a response element.
    pub open spec fn spec_name(self) -> Seq<char> {
        match self {
            Category::Xxx => "XXX (18+)"@,
            Category::MoviesXvid => "Movies/XVID"@,
            Category::MoviesXvid720 => "Movies/XVID/720"@,
            Category::MoviesX264 => "Movies/x264"@,
            Category::MoviesX2641080 => "Movies/x264/1080"@,
            Category::MoviesX264720 => "Movies/x264/720"@,
            Category::MoviesX2643d => "Movies/x264/3D"@,
            Category::MoviesX2644k => "Movies/x264/4k"@,
            Category::MoviesX2654k => "Movies/x265/4k"@,
            Category::MoviesX2654kHdr => "Movies/x264/4k/HDR"@,
            Category::MoviesFullBd => "Movies/Full BD"@,
            Category::MoviesBdRemux => "Movies/BD Remux"@,
            Category::TvEpisodes => "TV Episodes"@,
            Category::TvHdEpisodes => "TV HD Episodes"@,
            Category::TvUhdEpisodes => "TV UHD Episodes"@,
            Category::MusicMp3 => "Music/MP3"@,
            Category::MusicFlac => "Music/FLAC"@,
            Category::GamesPcIso => "Games/PC ISO"@,
            Category::GamesPcRip => "Games/PC RIP"@,
            Category::GamesPs3 => "Games/PS3"@,
            Category::GamesXbox360 => "Games/XBOX-360"@,
            Category::SoftwarePcIso => "Software/PC ISO"@,
            Category::GamesPs4 => "Games/PS4"@,
        }
    }

    /// The category whose display name is `name`, if any.
    pub open spec fn spec_of_name(name: Seq<char>) -> Option<Category> {
        if name == Category::Xxx.spec_name() { Some(Category::Xxx) }
        else if name == Category::MoviesXvid.spec_name() { Some(Category::MoviesXvid) }
        else if name == Category::MoviesXvid720.spec_name() { Some(Category::MoviesXvid720) }
        else if name == Category::MoviesX264.spec_name() { Some(Category::MoviesX264) }
        else if name == Category::MoviesX2641080.spec_name() { Some(Category::MoviesX2641080) }
        else if name == Category::MoviesX264720.spec_name() { Some(Category::MoviesX264720) }
        else if name == Category::MoviesX2643d.spec_name() { Some(Category::MoviesX2643d) }
        else if name == Category::MoviesX2644k.spec_name() { Some(Category::MoviesX2644k) }
        else if name == Category::MoviesX2654k.spec_name() { Some(Category::MoviesX2654k) }
        else if name == Category::MoviesX2654kHdr.spec_name() { Some(Category::MoviesX2654kHdr) }
        else if name == Category::MoviesFullBd.spec_name() { Some(Category::MoviesFullBd) }
        else if name == Category::MoviesBdRemux.spec_name() { Some(Category::MoviesBdRemux) }
        else if name == Category::TvEpisodes.spec_name() { Some(Category::TvEpisodes) }
        else if name == Category::TvHdEpisodes.spec_name() { Some(Category::TvHdEpisodes) }
        else if name == Category::TvUhdEpisodes.spec_name() { Some(Category::TvUhdEpisodes) }
        else if name == Category::MusicMp3.spec_name() { Some(Category::MusicMp3) }
        else if name == Category::MusicFlac.spec_name() { Some(Category::MusicFlac) }
        else if name == Category::GamesPcIso.spec_name() { Some(Category::GamesPcIso) }
        else if name == Category::GamesPcRip.spec_name() { Some(Category::GamesPcRip) }
        else if name == Category::GamesPs3.spec_name() { Some(Category::GamesPs3) }
        else if name == Category::GamesXbox360.spec_name() { Some(Category::GamesXbox360) }
        else if name == Category::SoftwarePcIso.spec_name() { Some(Category::SoftwarePcIso) }
        else if name == Category::GamesPs4.spec_name() { Some(Category::GamesPs4) }
        else { None }
    }

    /// Serialize the category's numeric code for the query string.
    pub fn as_str(&self) -> (r: &str)
        ensures
            r@ == self.spec_str(),
    {
        match self {
            Category::Xxx => "4",
            Category::MoviesXvid => "14",
            Category::MoviesXvid720 => "48",
            Category::MoviesX264 => "17",
            Category::MoviesX2641080 => "44",
            Category::MoviesX264720 => "45",
            Category::MoviesX2643d => "47",
            Category::MoviesX2644k => "50",
            Category::MoviesX2654k => "51",
            Category::MoviesX2654kHdr => "52",
            Category::MoviesFullBd => "42",
            Category::MoviesBdRemux => "46",
            Category::TvEpisodes => "18",
            Category::TvHdEpisodes => "41",
            Category::TvUhdEpisodes => "49",
            Category::MusicMp3 => "23",
            Category::MusicFlac => "25",
            Category::GamesPcIso => "27",
            Category::GamesPcRip => "28",
            Category::GamesPs3 => "40",
            Category::GamesXbox360 => "32",
            Category::SoftwarePcIso => "33",
            Category::GamesPs4 => "53",
        }
    }

    /// Recognize a category from the display name the server sent.
    pub fn from_name(name: &str) -> (r: Option<Category>)
        ensures
            r == Category::spec_of_name(name@),
    {
        if str_eq(name, "XXX (18+)") { Some(Category::Xxx) }
        else if str_eq(name, "Movies/XVID") { Some(Category::MoviesXvid) }
        else if str_eq(name, "Movies/XVID/720") { Some(Category::MoviesXvid720) }
        else if str_eq(name, "Movies/x264") { Some(Category::MoviesX264) }
        else if str_eq(name, "Movies/x264/1080") { Some(Category::MoviesX2641080) }
        else if str_eq(name, "Movies/x264/720") { Some(Category::MoviesX264720) }
        else if str_eq(name, "Movies/x264/3D") { Some(Category::MoviesX2643d) }
        else if str_eq(name, "Movies/x264/4k") { Some(Category::MoviesX2644k) }
        else if str_eq(name, "Movies/x265/4k") { Some(Category::MoviesX2654k) }
        else if str_eq(name, "Movies/x264/4k/HDR") { Some(Category::MoviesX2654kHdr) }
        else if str_eq(name, "Movies/Full BD") { Some(Category::MoviesFullBd) }
        else if str_eq(name, "Movies/BD Remux") { Some(Category::MoviesBdRemux) }
        else if str_eq(name, "TV Episodes") { Some(Category::TvEpisodes) }
        else if str_eq(name, "TV HD Episodes") { Some(Category::TvHdEpisodes) }
        else if str_eq(name, "TV UHD Episodes") { Some(Category::TvUhdEpisodes) }
        else if str_eq(name, "Music/MP3") { Some(Category::MusicMp3) }
        else if str_eq(name, "Music/FLAC") { Some(Category::MusicFlac) }
        else if str_eq(name, "Games/PC ISO") { Some(Category::GamesPcIso) }
        else if str_eq(name, "Games/PC RIP") { Some(Category::GamesPcRip) }
        else if str_eq(name, "Games/PS3") { Some(Category::GamesPs3) }
        else if str_eq(name, "Games/XBOX-360") { Some(Category::GamesXbox360) }
        else if str_eq(name, "Software/PC ISO") { Some(Category::SoftwarePcIso) }
        else if str_eq(name, "Games/PS4") { Some(Category::GamesPs4) }
        else { None }
    }
}

/// String slice equality, decided through the owned strings' comparison.
pub fn str_eq(a: &str, b: &str) -> (r: bool)
    ensures
        r == (a@ == b@),
{
    let owned_a: String = a.to_owned();
    let owned_b: String = b.to_owned();
    owned_a == owned_b
}

} // verus!
