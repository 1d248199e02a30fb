//! What the properties panel of a photo or video shows: which rows and
//! groups are visible, and the text of each row.
use vstd::prelude::*;
use vstd::string::StringExecFns;
use crate::media::opt_str_view;

verus! {

/// Row subtitle when the value is absent.
pub const FALLBACK: &'static str = "–";

/// A point in time: seconds since the Unix epoch, and the offset from UTC,
/// in seconds, of the zone it was recorded in.
#[derive(Debug, Clone, Copy, PartialEq, Eq, Structural)]
pub struct Instant {
    pub seconds: i64,
    pub offset_seconds: i32,
}

/// Text of an instant as `YYYY-MM-DD HH:MM:SS +HH:MM`.
pub uninterp spec fn instant_text(seconds: i64, offset_seconds: i32) -> Seq<char>;

/// Text of a byte count in decimal units (kB, MB, ...).
pub uninterp spec fn decimal_size_text(bytes: u64) -> Seq<char>;

/// Decimal digits of `n`.
pub open spec fn decimal(n: nat) -> Seq<char>
    decreases n,
{
    if n < 10 {
        seq![digit(n)]
    } else {
        decimal(n / 10).push(digit(n % 10))
    }
}

/// The character of a decimal digit.
pub open spec fn digit(d: nat) -> char {
    if d == 0 { '0' }
    else if d == 1 { '1' }
    else if d == 2 { '2' }
    else if d == 3 { '3' }
    else if d == 4 { '4' }
    else if d == 5 { '5' }
    else if d == 6 { '6' }
    else if d == 7 { '7' }
    else if d == 8 { '8' }
    else { '9' }
}

/// Largest distance from the epoch, in seconds, of an instant that always
/// has a text (some 253,000 years; chrono's dates reach year 262,142).
pub const INSTANT_RANGE_SECONDS: i64 = 8_000_000_000_000;

/// Whether `t` has a text: its offset is less than a day and it lies within
/// the range of dates.
pub open spec fn instant_in_range(seconds: i64, offset_seconds: i32) -> bool {
    &&& -86_400 < offset_seconds < 86_400
    &&& -INSTANT_RANGE_SECONDS <= seconds <= INSTANT_RANGE_SECONDS
}

/// Relies on chrono's `FixedOffset::east_opt`, `DateTime::from_timestamp`,
/// `with_timezone` and `format`: the text of the instant in its own zone;
/// none when the offset is a day or more (`east_opt`) or the instant out of
/// chrono's range of dates (`from_timestamp`), which reaches beyond
/// `INSTANT_RANGE_SECONDS` from the epoch either way.
#[verifier::external_body]
fn format_instant(seconds: i64, offset_seconds: i32) -> (r: Option<String>)
    ensures
        r is Some ==> r->Some_0@ == instant_text(seconds, offset_seconds),
        !(-86_400 < offset_seconds < 86_400) ==> r is None,
        instant_in_range(seconds, offset_seconds) ==> r is Some,
{
    let offset = chrono::FixedOffset::east_opt(offset_seconds)?;
    let utc = chrono::DateTime::from_timestamp(seconds, 0)?;
    Some(utc.with_timezone(&offset).format("%Y-%m-%d %H:%M:%S %:z").to_string())
}

/// Relies on humansize's `format_size` with its `DECIMAL` options.
#[verifier::external_body]
fn format_size(bytes: u64) -> (r: String)
    ensures
        r@ == decimal_size_text(bytes),
{
    humansize::format_size(bytes, humansize::DECIMAL)
}

/// The one-character text of a decimal digit.
fn digit_str(d: u32) -> (r: &'static str)
    requires
        d < 10,
    ensures
        r@ == seq![digit(d as nat)],
{
    proof {
        reveal_strlit("0");
        reveal_strlit("1");
        reveal_strlit("2");
        reveal_strlit("3");
        reveal_strlit("4");
        reveal_strlit("5");
        reveal_strlit("6");
        reveal_strlit("7");
        reveal_strlit("8");
        reveal_strlit("9");
    }
    if d == 0 { "0" }
    else if d == 1 { "1" }
    else if d == 2 { "2" }
    else if d == 3 { "3" }
    else if d == 4 { "4" }
    else if d == 5 { "5" }
    else if d == 6 { "6" }
    else if d == 7 { "7" }
    else if d == 8 { "8" }
    else { "9" }
}

/// Decimal digits of `n`, without sign or padding.
pub fn decimal_text(n: u32) -> (r: String)
    ensures
        r@ == decimal(n as nat),
    decreases n,
{
    if n < 10 {
        String::from_str(digit_str(n))
    } else {
        let mut r = decimal_text(n / 10);
        r.append(digit_str(n % 10));
        r
    }
}

/// Text of an image's pixel size, as `WIDTH x HEIGHT`.
pub fn dimensions_text(width: u32, height: u32) -> (r: String)
    ensures
        r@ == decimal(width as nat) + " x "@ + decimal(height as nat),
{
    let mut r = decimal_text(width);
    r.append(" x ");
    let h = decimal_text(height);
    r.append(h.as_str());
    r
}

/// One labelled value of the panel.
#[derive(Debug)]
pub struct PropertyRow {
    pub subtitle: String,
    pub visible: bool,
}

/// The row shows `value`, or is hidden behind the fallback when it is absent.
pub open spec fn shows(row: PropertyRow, value: Option<Seq<char>>) -> bool {
    match value {
        Some(v) => row.subtitle@ == v && row.visible,
        None => row.subtitle@ == FALLBACK@ && !row.visible,
    }
}

/// The row shows the text of `t`, or is hidden when `t` is absent or has no
/// text. An instant in range always has one; an offset of a day or more
/// never does.
pub open spec fn shows_instant(row: PropertyRow, t: Option<Instant>) -> bool {
    match t {
        None => shows(row, None),
        Some(t) => if instant_in_range(t.seconds, t.offset_seconds) {
            shows(row, Some(instant_text(t.seconds, t.offset_seconds)))
        } else if -86_400 < t.offset_seconds < 86_400 {
            shows(row, None) || shows(row, Some(instant_text(t.seconds, t.offset_seconds)))
        } else {
            shows(row, None)
        },
    }
}

impl PropertyRow {
    /// A visible row with no text yet.
    pub fn new() -> (r: Self)
        ensures
            r.subtitle@ == Seq::<char>::empty(),
            r.visible,
    {
        PropertyRow { subtitle: String::new(), visible: true }
    }
}

/// The text of an optional instant, if it has one.
fn instant_value(t: Option<Instant>) -> (r: Option<String>)
    ensures
        t is None ==> r is None,
        r is Some ==> t is Some && -86_400 < t->Some_0.offset_seconds < 86_400
            && r->Some_0@ == instant_text(t->Some_0.seconds, t->Some_0.offset_seconds),
        t is Some && !(-86_400 < t->Some_0.offset_seconds < 86_400) ==> r is None,
        t is Some && instant_in_range(t->Some_0.seconds, t->Some_0.offset_seconds) ==> r is Some,
{
    match t {
        Some(t) => format_instant(t.seconds, t.offset_seconds),
        None => None,
    }
}

/// Shows the text of `t` in `row`; returns whether the row is visible.
fn update_instant_row(row: &mut PropertyRow, t: Option<Instant>) -> (r: bool)
    ensures
        shows_instant(*final(row), t),
        r == final(row).visible,
{
    PhotoInfo::update_row(row, instant_value(t))
}

/// Timestamps of a file as the filesystem reports them.
#[derive(Debug, Clone, Copy)]
pub struct FileFacts {
    pub created_at: Option<Instant>,
    pub modified_at: Option<Instant>,
}

/// Originally-created and -modified instants from an EXIF block.
#[derive(Debug, Clone, Copy)]
pub struct ExifFacts {
    pub created_at: Option<Instant>,
    pub modified_at: Option<Instant>,
}

/// What the decoder reports of an image.
#[derive(Debug)]
pub struct ImageFacts {
    pub width: u32,
    pub height: u32,
    pub format_name: Option<String>,
    /// `None` when the image has no readable EXIF block.
    pub exif: Option<ExifFacts>,
}

/// What the container of a video reports; each field absent when unreadable.
#[derive(Debug)]
pub struct VideoFacts {
    pub created_at: Option<Instant>,
    pub duration: Option<String>,
    pub container_format: Option<String>,
}

/// What is known of the item that the panel is asked to show.
#[derive(Debug)]
pub struct VisualFacts {
    /// Whether the item has a picture or video path at all.
    pub has_path: bool,
    /// Name of the folder that holds the item.
    pub folder_name: Option<String>,
    /// Timestamps of the item's file; `None` when it could not be read.
    pub file: Option<FileFacts>,
    /// Size in bytes of the picture file; `None` when the item has no
    /// picture, or its file could not be read.
    pub picture_file_size: Option<u64>,
    /// `None` when the item has no video.
    pub video: Option<VideoFacts>,
}

#[derive(Debug)]
pub enum PhotoInfoInput {
    Photo(VisualFacts, ImageFacts),
    Video(VisualFacts),
}

/// Properties panel of a photo or video: its rows and the visibility of
/// each group of rows.
#[derive(Debug)]
pub struct PhotoInfo {
    pub folder: PropertyRow,
    pub date_time_details: bool,
    pub created_at: PropertyRow,
    pub modified_at: PropertyRow,
    pub image_details: bool,
    pub image_size: PropertyRow,
    pub image_format: PropertyRow,
    pub image_file_size: PropertyRow,
    pub exif_details: bool,
    pub exif_originally_created_at: PropertyRow,
    pub exif_originally_modified_at: PropertyRow,
    pub video_details: bool,
    pub video_container_format: PropertyRow,
    pub video_file_size: PropertyRow,
    pub video_originally_created_at: PropertyRow,
    pub video_duration: PropertyRow,
}

impl PhotoInfo {
    /// Shows `value` in `row`, or hides the row when there is none; returns
    /// whether the row is visible.
    pub fn update_row(row: &mut PropertyRow, value: Option<String>) -> (r: bool)
        ensures
            shows(*final(row), opt_str_view(value)),
            r == final(row).visible,
            r == value is Some,
    {
        match value {
            Some(v) => {
                row.subtitle = v;
                row.visible = true;
                true
            },
            None => {
                row.subtitle = FALLBACK.to_owned();
                row.visible = false;
                false
            },
        }
    }

    /// A panel whose rows and groups are all visible and empty.
    pub fn init() -> (r: Self)
        ensures
            r.date_time_details && r.image_details && r.exif_details && r.video_details,
            r.rows().len() == 12,
            forall|i: int| 0 <= i < r.rows().len() ==> (#[trigger] r.rows()[i]).visible
                && r.rows()[i].subtitle@ == Seq::<char>::empty(),
    {
        PhotoInfo {
            folder: PropertyRow::new(),
            date_time_details: true,
            created_at: PropertyRow::new(),
            modified_at: PropertyRow::new(),
            image_details: true,
            image_size: PropertyRow::new(),
            image_format: PropertyRow::new(),
            image_file_size: PropertyRow::new(),
            exif_details: true,
            exif_originally_created_at: PropertyRow::new(),
            exif_originally_modified_at: PropertyRow::new(),
            video_details: true,
            video_container_format: PropertyRow::new(),
            video_file_size: PropertyRow::new(),
            video_originally_created_at: PropertyRow::new(),
            video_duration: PropertyRow::new(),
        }
    }

    /// Every row of the panel.
    pub open spec fn rows(&self) -> Seq<PropertyRow> {
        seq![
            self.folder,
            self.created_at,
            self.modified_at,
            self.image_size,
            self.image_format,
            self.image_file_size,
            self.exif_originally_created_at,
            self.exif_originally_modified_at,
            self.video_container_format,
            self.video_file_size,
            self.video_originally_created_at,
            self.video_duration,
        ]
    }

    /// The folder, timestamp rows and date group are those of `o`.
    pub open spec fn same_file_part(&self, o: PhotoInfo) -> bool {
        &&& self.folder == o.folder
        &&& self.created_at == o.created_at
        &&& self.modified_at == o.modified_at
        &&& self.date_time_details == o.date_time_details
    }

    /// The image and EXIF rows and groups are those of `o`.
    pub open spec fn same_image_part(&self, o: PhotoInfo) -> bool {
        &&& self.image_details == o.image_details
        &&& self.image_size == o.image_size
        &&& self.image_format == o.image_format
        &&& self.image_file_size == o.image_file_size
        &&& self.exif_details == o.exif_details
        &&& self.exif_originally_created_at == o.exif_originally_created_at
        &&& self.exif_originally_modified_at == o.exif_originally_modified_at
    }

    /// The video rows and group are those of `o`.
    pub open spec fn same_video_part(&self, o: PhotoInfo) -> bool {
        &&& self.video_details == o.video_details
        &&& self.video_container_format == o.video_container_format
        &&& self.video_file_size == o.video_file_size
        &&& self.video_originally_created_at == o.video_originally_created_at
        &&& self.video_duration == o.video_duration
    }

    /// The file part after an item described by `v` was shown: nothing
    /// changes without a path; the folder is shown, and the timestamps when
    /// the file could be read.
    pub open spec fn file_part_updated(&self, o: PhotoInfo, v: VisualFacts) -> bool {
        if !v.has_path {
            self.same_file_part(o)
        } else {
            match v.file {
                Some(f) => self.file_details_shown(v.folder_name, f),
                None => {
                    &&& shows(self.folder, opt_str_view(v.folder_name))
                    &&& self.created_at == o.created_at
                    &&& self.modified_at == o.modified_at
                    &&& self.date_time_details == o.date_time_details
                },
            }
        }
    }

    /// The video part after an item described by `v` was shown.
    pub open spec fn video_part_updated(&self, o: PhotoInfo, v: VisualFacts) -> bool {
        match v.video {
            Some(vf) => self.video_details_shown(vf) && self.video_file_size == o.video_file_size,
            None => self.same_video_part(o),
        }
    }

    /// The folder row and the file's timestamps.
    pub open spec fn file_details_shown(&self, folder_name: Option<String>, file: FileFacts) -> bool {
        &&& shows(self.folder, opt_str_view(folder_name))
        &&& shows_instant(self.created_at, file.created_at)
        &&& shows_instant(self.modified_at, file.modified_at)
        &&& self.date_time_details == (self.created_at.visible || self.modified_at.visible)
    }

    /// The image rows, and the EXIF rows when there is an EXIF block.
    pub open spec fn photo_details_shown(&self, image: ImageFacts, file_size: u64) -> bool {
        &&& shows(
            self.image_size,
            Some(decimal(image.width as nat) + " x "@ + decimal(image.height as nat)),
        )
        &&& shows(self.image_format, opt_str_view(image.format_name))
        &&& shows(self.image_file_size, Some(decimal_size_text(file_size)))
        &&& self.image_details
        &&& match image.exif {
            Some(e) => {
                &&& shows_instant(self.exif_originally_created_at, e.created_at)
                &&& shows_instant(self.exif_originally_modified_at, e.modified_at)
                &&& self.exif_details == (self.exif_originally_created_at.visible
                    || self.exif_originally_modified_at.visible)
            },
            None => !self.exif_details,
        }
    }

    /// The video rows.
    pub open spec fn video_details_shown(&self, video: VideoFacts) -> bool {
        &&& shows_instant(self.video_originally_created_at, video.created_at)
        &&& shows(self.video_duration, opt_str_view(video.duration))
        &&& shows(self.video_container_format, opt_str_view(video.container_format))
        &&& self.video_details == (self.video_originally_created_at.visible
            || self.video_duration.visible || self.video_container_format.visible)
    }

    /// Shows the folder and the file's timestamps; the date group is visible
    /// when one of them is.
    pub fn update_file_details(&mut self, folder_name: Option<String>, file: FileFacts)
        ensures
            final(self).file_details_shown(folder_name, file),
            final(self).same_image_part(*old(self)),
            final(self).same_video_part(*old(self)),
    {
        Self::update_row(&mut self.folder, folder_name);
        let created = update_instant_row(&mut self.created_at, file.created_at);
        let modified = update_instant_row(&mut self.modified_at, file.modified_at);
        self.date_time_details = created || modified;
    }

    /// Shows the image's size, format and file size, and its EXIF instants;
    /// the EXIF group is hidden when there is no EXIF block.
    pub fn update_photo_details(&mut self, image: &ImageFacts, file_size: u64)
        ensures
            final(self).photo_details_shown(*image, file_size),
            final(self).same_file_part(*old(self)),
            final(self).same_video_part(*old(self)),
    {
        let dimensions = dimensions_text(image.width, image.height);
        let format_name = crate::media::clone_opt_str(&image.format_name);
        let shown_size = Self::update_row(&mut self.image_size, Some(dimensions));
        let shown_format = Self::update_row(&mut self.image_format, format_name);
        let shown_file_size = Self::update_row(&mut self.image_file_size, Some(format_size(file_size)));
        self.image_details = shown_size || shown_format || shown_file_size;
        match image.exif {
            Some(e) => {
                let created = update_instant_row(&mut self.exif_originally_created_at, e.created_at);
                let modified = update_instant_row(
                    &mut self.exif_originally_modified_at,
                    e.modified_at,
                );
                self.exif_details = created || modified;
            },
            None => {
                self.exif_details = false;
            },
        }
    }

    /// Shows the video's creation instant, duration and container format;
    /// the video group is visible when one of them is.
    pub fn update_video_details(&mut self, video: &VideoFacts)
        ensures
            final(self).video_details_shown(*video),
            final(self).video_file_size == old(self).video_file_size,
            final(self).same_file_part(*old(self)),
            final(self).same_image_part(*old(self)),
    {
        let created = update_instant_row(&mut self.video_originally_created_at, video.created_at);
        let duration = Self::update_row(
            &mut self.video_duration,
            crate::media::clone_opt_str(&video.duration),
        );
        let container = Self::update_row(
            &mut self.video_container_format,
            crate::media::clone_opt_str(&video.container_format),
        );
        self.video_details = created || duration || container;
    }

    fn show_file(&mut self, v: &VisualFacts)
        ensures
            final(self).file_part_updated(*old(self), *v),
            final(self).same_image_part(*old(self)),
            final(self).same_video_part(*old(self)),
    {
        if v.has_path {
            let folder_name = crate::media::clone_opt_str(&v.folder_name);
            match v.file {
                Some(f) => self.update_file_details(folder_name, f),
                None => {
                    Self::update_row(&mut self.folder, folder_name);
                },
            }
        }
    }

    fn show_video(&mut self, v: &VisualFacts)
        ensures
            final(self).video_part_updated(*old(self), *v),
            final(self).same_file_part(*old(self)),
            final(self).same_image_part(*old(self)),
    {
        match &v.video {
            Some(vf) => self.update_video_details(vf),
            None => {},
        }
    }

    /// Shows the item of `msg`. For a photo: its file, its picture details
    /// when it has a readable picture, its video details when it has a video.
    /// For a video: the image and EXIF groups are hidden, then its file and
    /// video details are shown.
    pub fn update(&mut self, msg: PhotoInfoInput)
        ensures
            match msg {
                PhotoInfoInput::Photo(v, image) => {
                    &&& final(self).file_part_updated(*old(self), v)
                    &&& final(self).video_part_updated(*old(self), v)
                    &&& match v.picture_file_size {
                        Some(n) => final(self).photo_details_shown(image, n),
                        None => final(self).same_image_part(*old(self)),
                    }
                },
                PhotoInfoInput::Video(v) => {
                    &&& final(self).file_part_updated(*old(self), v)
                    &&& final(self).video_part_updated(*old(self), v)
                    &&& !final(self).image_details
                    &&& !final(self).exif_details
                    &&& final(self).image_size == old(self).image_size
                    &&& final(self).image_format == old(self).image_format
                    &&& final(self).image_file_size == old(self).image_file_size
                    &&& final(self).exif_originally_created_at == old(self).exif_originally_created_at
                    &&& final(self).exif_originally_modified_at
                        == old(self).exif_originally_modified_at
                },
            },
    {
        match msg {
            PhotoInfoInput::Photo(v, image) => {
                self.show_file(&v);
                match v.picture_file_size {
                    Some(n) => self.update_photo_details(&image, n),
                    None => {},
                }
                self.show_video(&v);
            },
            PhotoInfoInput::Video(v) => {
                self.image_details = false;
                self.exif_details = false;
                self.show_file(&v);
                self.show_video(&v);
            },
        }
    }
}

} // verus!
