//! Catalog records of media files.
use vstd::prelude::*;

verus! {

/// One catalog entry for a discovered media file.
#[derive(Debug)]
pub struct MediaRecord {
    /// Stable identity, assigned when the record is first stored.
    pub id: u64,
    /// Path of the original file.
    pub source_path: String,
    /// Path of the folder that holds the original file.
    pub parent_path: String,
    /// Path of the cached square preview, once one was generated.
    pub square_preview_path: Option<String>,
}

/// A catalog entry as plain values.
pub struct RecordView {
    pub id: u64,
    pub source_path: Seq<char>,
    pub parent_path: Seq<char>,
    pub square_preview_path: Option<Seq<char>>,
}

pub open spec fn opt_str_view(p: Option<String>) -> Option<Seq<char>> {
    match p {
        Some(s) => Some(s@),
        None => None,
    }
}

impl View for MediaRecord {
    type V = RecordView;

    open spec fn view(&self) -> RecordView {
        RecordView {
            id: self.id,
            source_path: self.source_path@,
            parent_path: self.parent_path@,
            square_preview_path: opt_str_view(self.square_preview_path),
        }
    }
}

pub open spec fn record_views(s: Seq<MediaRecord>) -> Seq<RecordView> {
    s.map_values(|r: MediaRecord| r@)
}

pub fn clone_opt_str(p: &Option<String>) -> (r: Option<String>)
    ensures
        r == *p,
{
    match p {
        Some(s) => Some(s.clone()),
        None => None,
    }
}

impl Clone for MediaRecord {
    fn clone(&self) -> (r: Self)
        ensures
            r == *self,
    {
        MediaRecord {
            id: self.id,
            source_path: self.source_path.clone(),
            parent_path: self.parent_path.clone(),
            square_preview_path: clone_opt_str(&self.square_preview_path),
        }
    }
}

impl MediaRecord {
    /// A record not stored yet; the repository assigns its identity.
    pub fn new(source_path: String, parent_path: String) -> (r: Self)
        ensures
            r.id == 0,
            r.source_path == source_path,
            r.parent_path == parent_path,
            r.square_preview_path is None,
    {
        MediaRecord { id: 0, source_path, parent_path, square_preview_path: None }
    }

    /// Whether a preview was generated for this record.
    pub fn has_preview(&self) -> (r: bool)
        ensures
            r == (self.square_preview_path is Some),
    {
        self.square_preview_path.is_some()
    }
}

/// A photo, a video, or a live photo pairing a still image with a short
/// video: a read-side view of one or two records.
#[derive(Debug)]
pub enum VisualItem {
    Picture { picture_id: u64, picture_path: String },
    Video { video_id: u64, video_path: String },
    PictureWithVideo { picture_id: u64, picture_path: String, video_id: u64, video_path: String },
}

impl VisualItem {
    /// The item made of an optional picture and an optional video; none
    /// when both are absent.
    pub fn from_parts(picture: Option<(u64, String)>, video: Option<(u64, String)>) -> (r: Option<
        VisualItem,
    >)
        ensures
            r is None <==> picture is None && video is None,
            r is Some ==> r->Some_0.picture() == picture && r->Some_0.video() == video,
    {
        match (picture, video) {
            (Some((picture_id, picture_path)), Some((video_id, video_path))) => Some(
                VisualItem::PictureWithVideo { picture_id, picture_path, video_id, video_path },
            ),
            (Some((picture_id, picture_path)), None) => Some(
                VisualItem::Picture { picture_id, picture_path },
            ),
            (None, Some((video_id, video_path))) => Some(VisualItem::Video { video_id, video_path }),
            (None, None) => None,
        }
    }

    pub open spec fn picture(&self) -> Option<(u64, String)> {
        match self {
            VisualItem::Picture { picture_id, picture_path } => Some((*picture_id, *picture_path)),
            VisualItem::PictureWithVideo { picture_id, picture_path, .. } => Some(
                (*picture_id, *picture_path),
            ),
            VisualItem::Video { .. } => None,
        }
    }

    pub open spec fn video(&self) -> Option<(u64, String)> {
        match self {
            VisualItem::Video { video_id, video_path } => Some((*video_id, *video_path)),
            VisualItem::PictureWithVideo { video_id, video_path, .. } => Some(
                (*video_id, *video_path),
            ),
            VisualItem::Picture { .. } => None,
        }
    }

    pub fn picture_id(&self) -> (r: Option<u64>)
        ensures
            r == match self.picture() {
                Some(p) => Some(p.0),
                None => None::<u64>,
            },
    {
        match self {
            VisualItem::Picture { picture_id, .. } => Some(*picture_id),
            VisualItem::PictureWithVideo { picture_id, .. } => Some(*picture_id),
            VisualItem::Video { .. } => None,
        }
    }

    pub fn video_id(&self) -> (r: Option<u64>)
        ensures
            r == match self.video() {
                Some(v) => Some(v.0),
                None => None::<u64>,
            },
    {
        match self {
            VisualItem::Video { video_id, .. } => Some(*video_id),
            VisualItem::PictureWithVideo { video_id, .. } => Some(*video_id),
            VisualItem::Picture { .. } => None,
        }
    }

    /// The path to show the item by: the picture's, else the video's.
    pub fn path(&self) -> (r: &String)
        ensures
            *r == match self.picture() {
                Some(p) => p.1,
                None => self.video()->Some_0.1,
            },
    {
        match self {
            VisualItem::Picture { picture_path, .. } => picture_path,
            VisualItem::PictureWithVideo { picture_path, .. } => picture_path,
            VisualItem::Video { video_path, .. } => video_path,
        }
    }
}

} // verus!
