//! The collection of torrents one successful response carries.

use vstd::prelude::*;

use crate::torrent_result::{TorrentResult, TorrentResultView};

verus! {

/// The torrents of one successful response, in the server's order.
#[derive(Clone, Debug)]
pub struct TorrentResults {
    torrent_results: Vec<TorrentResult>,
}

impl View for TorrentResults {
    type V = Seq<TorrentResultView>;

    closed spec fn view(&self) -> Seq<TorrentResultView> {
        self.torrent_results@.map_values(|t: TorrentResult| t@)
    }
}

impl TorrentResults {
    /// Wrap a list of torrents, keeping its order.
    pub fn new(torrent_results: Vec<TorrentResult>) -> (r: Self)
        ensures
            r@ == torrent_results@.map_values(|t: TorrentResult| t@),
    {
        TorrentResults { torrent_results }
    }

    /// The list of torrents.
    pub fn torrents(&self) -> (r: &Vec<TorrentResult>)
        ensures
            r@.map_values(|t: TorrentResult| t@) == self@,
    {
        &self.torrent_results
    }
}

} // verus!
