//! The tags extracted from an audio file.

use vstd::prelude::*;
use crate::sndfile::{SndFile, StringSoundType};

verus! {

/// The tags of a sound. A tag that the file lacks is the empty string.
#[allow(non_snake_case)]
#[derive(PartialEq, Eq, Debug)]
pub struct Tags {
    /// The title of the sound.
    pub title: String,
    /// The copyright of the sound.
    pub copyright: String,
    /// The name of the software used to create the sound.
    pub software: String,
    /// The name of the artist.
    pub artist: String,
    /// A comment.
    pub comment: String,
    /// The creation date.
    pub date: String,
    /// The name of the album.
    pub album: String,
    /// The license.
    pub license: String,
    /// The track number.
    pub trackNumber: String,
    /// The genre.
    pub genre: String,
}

impl Tags {
    /// Whether every tag is the empty string.
    pub open spec fn is_empty(&self) -> bool {
        &&& self.title@ == Seq::<char>::empty()
        &&& self.copyright@ == Seq::<char>::empty()
        &&& self.software@ == Seq::<char>::empty()
        &&& self.artist@ == Seq::<char>::empty()
        &&& self.comment@ == Seq::<char>::empty()
        &&& self.date@ == Seq::<char>::empty()
        &&& self.album@ == Seq::<char>::empty()
        &&& self.license@ == Seq::<char>::empty()
        &&& self.trackNumber@ == Seq::<char>::empty()
        &&& self.genre@ == Seq::<char>::empty()
    }

    /// A copy of the tags.
    pub fn copy(&self) -> (tags: Tags)
        ensures
            tags == *self,
    {
        Tags {
            title: self.title.clone(),
            copyright: self.copyright.clone(),
            software: self.software.clone(),
            artist: self.artist.clone(),
            comment: self.comment.clone(),
            date: self.date.clone(),
            album: self.album.clone(),
            license: self.license.clone(),
            trackNumber: self.trackNumber.clone(),
            genre: self.genre.clone(),
        }
    }
}

/// The tags of a file that has none.
pub fn empty() -> (tags: Tags)
    ensures
        tags.is_empty(),
{
    Tags {
        title: String::new(),
        copyright: String::new(),
        software: String::new(),
        artist: String::new(),
        comment: String::new(),
        date: String::new(),
        album: String::new(),
        license: String::new(),
        trackNumber: String::new(),
        genre: String::new(),
    }
}

/// The text of a tag: what the file holds, or the empty string.
pub open spec fn text_or_empty(text: Option<String>) -> Seq<char> {
    match text {
        Some(t) => t@,
        None => Seq::empty(),
    }
}

fn or_empty(text: Option<String>) -> (out: String)
    ensures
        out@ == text_or_empty(text),
{
    match text {
        Some(t) => t,
        None => String::new(),
    }
}

/// Whether `tags` are the tags of `file`.
pub open spec fn tags_of(tags: Tags, file: &SndFile) -> bool {
    &&& tags.title@ == text_or_empty(file@.string(StringSoundType::Title))
    &&& tags.copyright@ == text_or_empty(file@.string(StringSoundType::Copyright))
    &&& tags.software@ == text_or_empty(file@.string(StringSoundType::Software))
    &&& tags.artist@ == text_or_empty(file@.string(StringSoundType::Artist))
    &&& tags.comment@ == text_or_empty(file@.string(StringSoundType::Comment))
    &&& tags.date@ == text_or_empty(file@.string(StringSoundType::Date))
    &&& tags.album@ == text_or_empty(file@.string(StringSoundType::Album))
    &&& tags.license@ == text_or_empty(file@.string(StringSoundType::License))
    &&& tags.trackNumber@ == text_or_empty(file@.string(StringSoundType::TrackNumber))
    &&& tags.genre@ == text_or_empty(file@.string(StringSoundType::Genre))
}

/// Reads every tag of `file`; a tag that the file lacks comes out empty.
pub fn get_sound_tags(file: &SndFile) -> (tags: Tags)
    requires
        file.wf(),
    ensures
        tags_of(tags, file),
{
    Tags {
        title: or_empty(file.get_string(StringSoundType::Title)),
        copyright: or_empty(file.get_string(StringSoundType::Copyright)),
        software: or_empty(file.get_string(StringSoundType::Software)),
        artist: or_empty(file.get_string(StringSoundType::Artist)),
        comment: or_empty(file.get_string(StringSoundType::Comment)),
        date: or_empty(file.get_string(StringSoundType::Date)),
        album: or_empty(file.get_string(StringSoundType::Album)),
        license: or_empty(file.get_string(StringSoundType::License)),
        trackNumber: or_empty(file.get_string(StringSoundType::TrackNumber)),
        genre: or_empty(file.get_string(StringSoundType::Genre)),
    }
}

/// What everything that provides audio offers: its tags.
pub trait AudioTags {
    /// The tags, as a value.
    spec fn tags(&self) -> Tags;

    /// Get the tags of the audio source.
    fn get_tags(&self) -> (tags: Tags)
        ensures
            tags == self.tags(),
    ;
}

} // verus!
