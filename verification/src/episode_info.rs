//! Episode metadata attached to a torrent under the extended format.

use vstd::prelude::*;

use crate::category::str_eq;

verus! {

/// Specification-level content of an [`EpisodeInfo`].
pub struct EpisodeInfoView {
    pub imdb: Option<Seq<char>>,
    pub tvrage: Option<Seq<char>>,
    pub tvdb: Option<Seq<char>>,
    pub themoviedb: Option<Seq<char>>,
    pub airdate: Option<Seq<char>>,
    pub epnum: Option<Seq<char>>,
    pub seasonnum: Option<Seq<char>>,
    pub title: Option<Seq<char>>,
}

/// Identifiers and airing details of the episode a torrent belongs to.
/// Every field is optional: the server sends what it knows.
#[derive(Clone, Debug)]
pub struct EpisodeInfo {
    imdb: Option<String>,
    tvrage: Option<String>,
    tvdb: Option<String>,
    themoviedb: Option<String>,
    airdate: Option<String>,
    epnum: Option<String>,
    seasonnum: Option<String>,
    title: Option<String>,
}

impl View for EpisodeInfo {
    type V = EpisodeInfoView;

    closed spec fn view(&self) -> EpisodeInfoView {
        EpisodeInfoView {
            imdb: match self.imdb {
                Some(s) => Some(s@),
                None => None,
            },
            tvrage: match self.tvrage {
                Some(s) => Some(s@),
                None => None,
            },
            tvdb: match self.tvdb {
                Some(s) => Some(s@),
                None => None,
            },
            themoviedb: match self.themoviedb {
                Some(s) => Some(s@),
                None => None,
            },
            airdate: match self.airdate {
                Some(s) => Some(s@),
                None => None,
            },
            epnum: match self.epnum {
                Some(s) => Some(s@),
                None => None,
            },
            seasonnum: match self.seasonnum {
                Some(s) => Some(s@),
                None => None,
            },
            title: match self.title {
                Some(s) => Some(s@),
                None => None,
            },
        }
    }
}

impl EpisodeInfo {
    /// Assemble episode metadata from its parts.
    pub fn from_parts(
        imdb: Option<String>,
        tvrage: Option<String>,
        tvdb: Option<String>,
        themoviedb: Option<String>,
        airdate: Option<String>,
        epnum: Option<String>,
        seasonnum: Option<String>,
        title: Option<String>,
    ) -> (r: EpisodeInfo)
        ensures
            r@ == (EpisodeInfoView {
                imdb: match imdb {
                    Some(s) => Some(s@),
                    None => None,
                },
                tvrage: match tvrage {
                    Some(s) => Some(s@),
                    None => None,
                },
                tvdb: match tvdb {
                    Some(s) => Some(s@),
                    None => None,
                },
                themoviedb: match themoviedb {
                    Some(s) => Some(s@),
                    None => None,
                },
                airdate: match airdate {
                    Some(s) => Some(s@),
                    None => None,
                },
                epnum: match epnum {
                    Some(s) => Some(s@),
                    None => None,
                },
                seasonnum: match seasonnum {
                    Some(s) => Some(s@),
                    None => None,
                },
                title: match title {
                    Some(s) => Some(s@),
                    None => None,
                },
            }),
    {
        EpisodeInfo { imdb, tvrage, tvdb, themoviedb, airdate, epnum, seasonnum, title }
    }

    /// The IMDB id.
    pub fn imdb_id(&self) -> (r: Option<&String>)
        ensures
            match r {
                Some(s) => self@.imdb == Some(s@),
                None => self@.imdb is None,
            },
    {
        self.imdb.as_ref()
    }

    /// The TVRage id.
    pub fn tvrage_id(&self) -> (r: Option<&String>)
        ensures
            match r {
                Some(s) => self@.tvrage == Some(s@),
                None => self@.tvrage is None,
            },
    {
        self.tvrage.as_ref()
    }

    /// The TVDB id.
    pub fn tvdb_id(&self) -> (r: Option<&String>)
        ensures
            match r {
                Some(s) => self@.tvdb == Some(s@),
                None => self@.tvdb is None,
            },
    {
        self.tvdb.as_ref()
    }

    /// The TMDB id.
    pub fn tmdb_id(&self) -> (r: Option<&String>)
        ensures
            match r {
                Some(s) => self@.themoviedb == Some(s@),
                None => self@.themoviedb is None,
            },
    {
        self.themoviedb.as_ref()
    }

    /// The airing date as the server sent it, in `year-month-day` order,
    /// unless it is absent or the all-zero placeholder the server uses
    /// for an unknown date.
    pub fn air_date(&self) -> (r: Option<&String>)
        ensures
            match r {
                Some(d) => {
                    &&& self@.airdate == Some(d@)
                    &&& d@ != "0000-00-00"@
                },
                None => self@.airdate is None || self@.airdate == Some("0000-00-00"@),
            },
    {
        match self.airdate.as_ref() {
            None => None,
            Some(d) => {
                if str_eq(d.as_str(), "0000-00-00") {
                    None
                } else {
                    Some(d)
                }
            },
        }
    }

    /// The episode number.
    pub fn episode_number(&self) -> (r: Option<&String>)
        ensures
            match r {
                Some(s) => self@.epnum == Some(s@),
                None => self@.epnum is None,
            },
    {
        self.epnum.as_ref()
    }

    /// The season number.
    pub fn season_number(&self) -> (r: Option<&String>)
        ensures
            match r {
                Some(s) => self@.seasonnum == Some(s@),
                None => self@.seasonnum is None,
            },
    {
        self.seasonnum.as_ref()
    }

    /// The episode's title.
    pub fn title(&self) -> (r: Option<&String>)
        ensures
            match r {
                Some(s) => self@.title == Some(s@),
                None => self@.title is None,
            },
    {
        self.title.as_ref()
    }
}

} // verus!
