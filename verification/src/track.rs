//! The track record and what is shown of it.

use crate::naming::{audio_url, file_url};
use vstd::prelude::*;

verus! {

/// One stored upload: the record kept for a file in the upload directory.
#[derive(Debug, PartialEq, Eq)]
pub struct Track {
    pub artist: String,
    pub title: String,
    /// Name of the file inside the upload directory.
    pub file_path: String,
    /// Public handle of the upload.
    pub demo_id: String,
    /// Owner tag as the caller supplied it.
    pub user_id: String,
}

/// Mathematical value of a [`Track`].
pub struct TrackView {
    pub artist: Seq<char>,
    pub title: Seq<char>,
    pub file_path: Seq<char>,
    pub demo_id: Seq<char>,
    pub user_id: Seq<char>,
}

impl View for Track {
    type V = TrackView;

    open spec fn view(&self) -> TrackView {
        TrackView {
            artist: self.artist@,
            title: self.title@,
            file_path: self.file_path@,
            demo_id: self.demo_id@,
            user_id: self.user_id@,
        }
    }
}

impl Clone for Track {
    fn clone(&self) -> (copy: Track)
        ensures
            copy@ == self@,
    {
        Track {
            artist: self.artist.clone(),
            title: self.title.clone(),
            file_path: self.file_path.clone(),
            demo_id: self.demo_id.clone(),
            user_id: self.user_id.clone(),
        }
    }
}

impl DeepView for Track {
    type V = TrackView;

    open spec fn deep_view(&self) -> TrackView {
        self@
    }
}

/// What a caller is shown of a track: no owner, and a URL in place of the
/// file name.
#[derive(Debug, PartialEq, Eq)]
pub struct TrackInfo {
    pub artist: String,
    pub title: String,
    pub file_url: String,
    pub demo_id: String,
}

/// Mathematical value of a [`TrackInfo`].
pub struct TrackInfoView {
    pub artist: Seq<char>,
    pub title: Seq<char>,
    pub file_url: Seq<char>,
    pub demo_id: Seq<char>,
}

impl View for TrackInfo {
    type V = TrackInfoView;

    open spec fn view(&self) -> TrackInfoView {
        TrackInfoView {
            artist: self.artist@,
            title: self.title@,
            file_url: self.file_url@,
            demo_id: self.demo_id@,
        }
    }
}

impl Clone for TrackInfo {
    fn clone(&self) -> (copy: TrackInfo)
        ensures
            copy@ == self@,
    {
        TrackInfo {
            artist: self.artist.clone(),
            title: self.title.clone(),
            file_url: self.file_url.clone(),
            demo_id: self.demo_id.clone(),
        }
    }
}

impl DeepView for TrackInfo {
    type V = TrackInfoView;

    open spec fn deep_view(&self) -> TrackInfoView {
        self@
    }
}

/// The public face of a record.
pub open spec fn info_of(track: TrackView) -> TrackInfoView {
    TrackInfoView {
        artist: track.artist,
        title: track.title,
        file_url: audio_url(track.file_path),
        demo_id: track.demo_id,
    }
}

/// The public faces of a list of records, in the same order.
pub open spec fn infos_of(tracks: Seq<TrackView>) -> Seq<TrackInfoView> {
    Seq::new(tracks.len(), |i: int| info_of(tracks[i]))
}

impl Track {
    /// The public face of this record.
    pub fn info(&self) -> (info: TrackInfo)
        ensures
            info@ == info_of(self@),
    {
        TrackInfo {
            artist: self.artist.clone(),
            title: self.title.clone(),
            file_url: file_url(self.file_path.as_str()),
            demo_id: self.demo_id.clone(),
        }
    }
}

/// The public faces of `tracks`, in the same order.
pub fn infos(tracks: &Vec<Track>) -> (list: Vec<TrackInfo>)
    ensures
        list.deep_view() == infos_of(tracks.deep_view()),
{
    let mut list: Vec<TrackInfo> = Vec::new();
    let mut i: usize = 0;
    while i < tracks.len()
        invariant
            i <= tracks.len(),
            list.len() == i,
            forall|j: int| 0 <= j < i ==> (#[trigger] list[j])@ == info_of(tracks[j]@),
        decreases tracks.len() - i,
    {
        list.push(tracks[i].info());
        i += 1;
    }
    assert(list.deep_view() =~= infos_of(tracks.deep_view()));
    list
}

/// Scalar metadata of an upload.
#[derive(Debug, PartialEq, Eq)]
pub struct Metadata {
    pub user_id: String,
    pub artist: String,
    pub title: String,
}

/// Mathematical value of a [`Metadata`].
pub struct MetadataView {
    pub user_id: Seq<char>,
    pub artist: Seq<char>,
    pub title: Seq<char>,
}

impl View for Metadata {
    type V = MetadataView;

    open spec fn view(&self) -> MetadataView {
        MetadataView { user_id: self.user_id@, artist: self.artist@, title: self.title@ }
    }
}

impl Clone for Metadata {
    fn clone(&self) -> (copy: Metadata)
        ensures
            copy@ == self@,
    {
        Metadata {
            user_id: self.user_id.clone(),
            artist: self.artist.clone(),
            title: self.title.clone(),
        }
    }
}

} // verus!
