//! One torrent as returned by the API.

use vstd::prelude::*;

use crate::category::Category;
use crate::episode_info::{EpisodeInfo, EpisodeInfoView};

verus! {

/// Specification-level content of a [`TorrentResult`].
pub struct TorrentResultView {
    pub title: Option<Seq<char>>,
    pub filename: Option<Seq<char>>,
    pub category: Category,
    pub download: Seq<char>,
    pub seeders: Option<i64>,
    pub leechers: Option<i64>,
    pub size: Option<i64>,
    pub pubdate: Option<Seq<char>>,
    pub episode_info: Option<EpisodeInfoView>,
    pub ranked: Option<bool>,
    pub info_page: Option<Seq<char>>,
}

/// A torrent from a response element: category, magnet link, and the
/// detail fields the server includes only under the extended format.
/// Constructed by the response resolver, immutable afterwards, with no
/// identity beyond its fields.
#[derive(Clone, Debug)]
pub struct TorrentResult {
    title: Option<String>,
    filename: Option<String>,
    category: Category,
    download: String,
    seeders: Option<i64>,
    leechers: Option<i64>,
    size: Option<i64>,
    pubdate: Option<String>,
    episode_info: Option<EpisodeInfo>,
    ranked: Option<bool>,
    info_page: Option<String>,
}

impl View for TorrentResult {
    type V = TorrentResultView;

    closed spec fn view(&self) -> TorrentResultView {
        TorrentResultView {
            title: match self.title {
                Some(s) => Some(s@),
                None => None,
            },
            filename: match self.filename {
                Some(s) => Some(s@),
                None => None,
            },
            category: self.category,
            download: self.download@,
            seeders: self.seeders,
            leechers: self.leechers,
            size: self.size,
            pubdate: match self.pubdate {
                Some(s) => Some(s@),
                None => None,
            },
            episode_info: match self.episode_info {
                Some(e) => Some(e@),
                None => None,
            },
            ranked: self.ranked,
            info_page: match self.info_page {
                Some(s) => Some(s@),
                None => None,
            },
        }
    }
}

impl TorrentResult {
    /// Assemble a torrent record from its parts.
    pub fn from_parts(
        title: Option<String>,
        filename: Option<String>,
        category: Category,
        download: String,
        seeders: Option<i64>,
        leechers: Option<i64>,
        size: Option<i64>,
        pubdate: Option<String>,
        episode_info: Option<EpisodeInfo>,
        ranked: Option<bool>,
        info_page: Option<String>,
    ) -> (r: TorrentResult)
        ensures
            r@ == (TorrentResultView {
                title: match title {
                    Some(s) => Some(s@),
                    None => None,
                },
                filename: match filename {
                    Some(s) => Some(s@),
                    None => None,
                },
                category,
                download: download@,
                seeders,
                leechers,
                size,
                pubdate: match pubdate {
                    Some(s) => Some(s@),
                    None => None,
                },
                episode_info: match episode_info {
                    Some(e) => Some(e@),
                    None => None,
                },
                ranked,
                info_page: match info_page {
                    Some(s) => Some(s@),
                    None => None,
                },
            }),
    {
        TorrentResult {
            title,
            filename,
            category,
            download,
            seeders,
            leechers,
            size,
            pubdate,
            episode_info,
            ranked,
            info_page,
        }
    }

    /// The title. Sent only under the extended format.
    pub fn title(&self) -> (r: &Option<String>)
        ensures
            match r {
                Some(s) => self@.title == Some(s@),
                None => self@.title is None,
            },
    {
        &self.title
    }

    /// The filename. Sent only under the compact format.
    pub fn filename(&self) -> (r: &Option<String>)
        ensures
            match r {
                Some(s) => self@.filename == Some(s@),
                None => self@.filename is None,
            },
    {
        &self.filename
    }

    /// The category the torrent belongs to.
    pub fn category(&self) -> (r: &Category)
        ensures
            *r == self@.category,
    {
        &self.category
    }

    /// The magnet link.
    pub fn download(&self) -> (r: &String)
        ensures
            r@ == self@.download,
    {
        &self.download
    }

    /// The number of seeders. Sent only under the extended format.
    pub fn seeders(&self) -> (r: &Option<i64>)
        ensures
            *r == self@.seeders,
    {
        &self.seeders
    }

    /// The number of leechers. Sent only under the extended format.
    pub fn leechers(&self) -> (r: &Option<i64>)
        ensures
            *r == self@.leechers,
    {
        &self.leechers
    }

    /// The size in bytes. Sent only under the extended format.
    pub fn size(&self) -> (r: &Option<i64>)
        ensures
            *r == self@.size,
    {
        &self.size
    }

    /// The publication date as the server sent it. Sent only under the
    /// extended format.
    pub fn pub_date(&self) -> (r: &Option<String>)
        ensures
            match r {
                Some(s) => self@.pubdate == Some(s@),
                None => self@.pubdate is None,
            },
    {
        &self.pubdate
    }

    /// The episode metadata. Sent only under the extended format.
    pub fn episode_info(&self) -> (r: &Option<EpisodeInfo>)
        ensures
            match r {
                Some(e) => self@.episode_info == Some(e@),
                None => self@.episode_info is None,
            },
    {
        &self.episode_info
    }

    /// Whether this is a scene, rarbg or rartv release. Sent only under
    /// the extended format.
    pub fn ranked(&self) -> (r: &Option<bool>)
        ensures
            *r == self@.ranked,
    {
        &self.ranked
    }

    /// An HTTP link to the torrent's info page. Sent only under the
    /// extended format.
    pub fn info_page(&self) -> (r: &Option<String>)
        ensures
            match r {
                Some(s) => self@.info_page == Some(s@),
                None => self@.info_page is None,
            },
    {
        &self.info_page
    }

    /// The name an export of this torrent prefers: the title where the
    /// server sent one, else the filename, else nothing.
    pub fn export_name(&self) -> (r: Option<&String>)
        ensures
            match r {
                Some(s) => self@.title == Some(s@) || (self@.title is None
                    && self@.filename == Some(s@)),
                None => self@.title is None && self@.filename is None,
            },
    {
        match self.title.as_ref() {
            Some(t) => Some(t),
            None => self.filename.as_ref(),
        }
    }
}

/// The path of the magnet file an export writes inside folder `path`:
/// the folder, a separator, the chosen name, and the `.magnet` suffix.
pub fn magnet_file_path(path: &str, name: &str) -> (r: String)
    ensures
        r@ == path@ + "/"@ + name@ + ".magnet"@,
{
    let mut out: String = path.to_owned();
    out.append("/");
    out.append(name);
    out.append(".magnet");
    out
}

} // verus!
