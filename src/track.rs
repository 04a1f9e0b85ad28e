use vstd::prelude::*;

verus! {

/// One entry of the play queue: what was read from the file's tags, and where
/// the file is.
#[derive(Debug, PartialEq, Eq)]
pub struct TrackInfo {
    pub index: usize,
    pub title: String,
    pub artist: String,
    pub album: String,
    /// Length of the track in whole seconds.
    pub duration: u64,
    pub path: String,
}

impl Clone for TrackInfo {
    fn clone(&self) -> (r: Self)
        ensures
            r == *self,
    {
        TrackInfo {
            index: self.index,
            title: self.title.clone(),
            artist: self.artist.clone(),
            album: self.album.clone(),
            duration: self.duration,
            path: self.path.clone(),
        }
    }
}

/// What a file's tags and properties gave, field by field; a missing tag is
/// `None`.
#[derive(Debug, PartialEq, Eq)]
pub struct TrackTags {
    pub title: Option<String>,
    pub artist: Option<String>,
    pub album: Option<String>,
    /// Length of the track in whole seconds.
    pub duration: u64,
}

fn copy_text(t: &Option<String>) -> (r: Option<String>)
    ensures
        r == *t,
{
    match t {
        Some(s) => Some(s.clone()),
        None => None,
    }
}

impl Clone for TrackTags {
    fn clone(&self) -> (r: Self)
        ensures
            r == *self,
    {
        TrackTags {
            title: copy_text(&self.title),
            artist: copy_text(&self.artist),
            album: copy_text(&self.album),
            duration: self.duration,
        }
    }
}

/// The text of a tag, or `fallback` where the tag is missing.
pub open spec fn tag_or(tag: Option<String>, fallback: Seq<char>) -> Seq<char> {
    match tag {
        Some(s) => s@,
        None => fallback,
    }
}

/// `info` is the descriptor of the file at `path`, at position `index` of the
/// queue, given what reading its tags gave (`None`: the file could not be read).
pub open spec fn describes(info: TrackInfo, path: Seq<char>, index: int, tags: Option<TrackTags>) -> bool {
    &&& info.path@ == path
    &&& info.index == index
    &&& match tags {
        Some(t) => {
            &&& info.title@ == tag_or(t.title, "Unknown Title"@)
            &&& info.artist@ == tag_or(t.artist, "Unknown Title"@)
            &&& info.album@ == tag_or(t.album, "Unknown Title"@)
            &&& info.duration == t.duration
        },
        None => {
            &&& info.title@ == "Unknown Track"@
            &&& info.artist@ == "Unknown Artist"@
            &&& info.album@ == "Unknown Album"@
            &&& info.duration == 0
        },
    }
}

fn text_or(tag: Option<String>, fallback: &str) -> (r: String)
    ensures
        r@ == tag_or(tag, fallback@),
{
    match tag {
        Some(s) => s,
        None => fallback.to_owned(),
    }
}

impl TrackInfo {
    /// The descriptor of the file at `path`, from what reading its tags gave.
    /// Never fails: an unreadable file or a missing tag gives a placeholder.
    pub fn from_tags(path: &str, index: usize, tags: Option<TrackTags>) -> (r: TrackInfo)
        ensures
            describes(r, path@, index as int, tags),
    {
        match tags {
            Some(t) => TrackInfo {
                index,
                title: text_or(t.title, "Unknown Title"),
                artist: text_or(t.artist, "Unknown Title"),
                album: text_or(t.album, "Unknown Title"),
                duration: t.duration,
                path: path.to_owned(),
            },
            None => TrackInfo {
                index,
                title: "Unknown Track".to_owned(),
                artist: "Unknown Artist".to_owned(),
                album: "Unknown Album".to_owned(),
                duration: 0,
                path: path.to_owned(),
            },
        }
    }
}

} // verus!
