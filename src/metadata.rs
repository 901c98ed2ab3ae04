//! Descriptors of playable tracks and their key/value form.
use vstd::prelude::*;

verus! {

/// One playable item. Tracks never change once built.
///
/// The rating, a number between 0.0 and 1.0, is held as the bit pattern of
/// its IEEE-754 double (`f64::to_bits`), so that the value passes through the
/// library unchanged.
#[derive(Debug, Clone, PartialEq)]
pub struct Metadata {
    pub trackid: String,
    /// Duration in milliseconds.
    pub length: u64,
    pub art_url: String,
    pub album: String,
    pub album_artist: Vec<String>,
    pub artist: Vec<String>,
    pub auto_rating_bits: u64,
    pub disc_number: i32,
    pub title: String,
    pub track_number: i32,
    pub url: String,
}

/// A value of the key/value form of a track.
#[derive(Debug, Clone)]
pub enum MetadataValue {
    Text(String),
    Millis(u64),
    Names(Vec<String>),
    /// Bit pattern of an IEEE-754 double.
    RatingBits(u64),
    Number(i32),
}

impl MetadataValue {
    pub open spec fn is_text(&self, s: Seq<char>) -> bool {
        match self {
            MetadataValue::Text(t) => t@ == s,
            _ => false,
        }
    }

    pub open spec fn is_names(&self, names: Seq<String>) -> bool {
        match self {
            MetadataValue::Names(v) => v@ == names,
            _ => false,
        }
    }
}

/// The keys of the key/value form, in the order in which `Metadata::entries`
/// lists them.
pub open spec fn metadata_keys() -> Seq<Seq<char>> {
    seq![
        "mpris:trackid"@,
        "mpris:length"@,
        "mpris:artUrl"@,
        "xesam:album"@,
        "xesam:albumArtist"@,
        "xesam:artist"@,
        "xesam:autoRating"@,
        "xesam:discNumber"@,
        "xesam:title"@,
        "xesam:trackNumber"@,
        "xesam:url"@,
    ]
}

fn entry(key: &str, value: MetadataValue) -> (r: (String, MetadataValue))
    ensures
        r.0@ == key@,
        r.1 == value,
{
    (key.to_string(), value)
}

fn copy_names(v: &Vec<String>) -> (r: Vec<String>)
    ensures
        r@ == v@,
{
    let r = v.clone();
    assert(r@ =~= v@);
    r
}

impl Metadata {
    /// Two descriptors with the same field values.
    pub open spec fn same_as(&self, o: &Metadata) -> bool {
        &&& self.trackid@ == o.trackid@
        &&& self.length == o.length
        &&& self.art_url@ == o.art_url@
        &&& self.album@ == o.album@
        &&& self.album_artist@ == o.album_artist@
        &&& self.artist@ == o.artist@
        &&& self.auto_rating_bits == o.auto_rating_bits
        &&& self.disc_number == o.disc_number
        &&& self.title@ == o.title@
        &&& self.track_number == o.track_number
        &&& self.url@ == o.url@
    }

    /// A field-by-field copy.
    pub fn duplicate(&self) -> (r: Metadata)
        ensures
            r.same_as(self),
    {
        Metadata {
            trackid: self.trackid.clone(),
            length: self.length,
            art_url: self.art_url.clone(),
            album: self.album.clone(),
            album_artist: copy_names(&self.album_artist),
            artist: copy_names(&self.artist),
            auto_rating_bits: self.auto_rating_bits,
            disc_number: self.disc_number,
            title: self.title.clone(),
            track_number: self.track_number,
            url: self.url.clone(),
        }
    }

    /// The track as key/value pairs, one per field, under the keys of the
    /// remote-control vocabulary (`metadata_keys`).
    pub fn entries(&self) -> (r: Vec<(String, MetadataValue)>)
        ensures
            r@.len() == 11,
            forall|i: int| 0 <= i < 11 ==> (#[trigger] r@[i]).0@ == metadata_keys()[i],
            r@[0].1.is_text(self.trackid@),
            r@[1].1 == MetadataValue::Millis(self.length),
            r@[2].1.is_text(self.art_url@),
            r@[3].1.is_text(self.album@),
            r@[4].1.is_names(self.album_artist@),
            r@[5].1.is_names(self.artist@),
            r@[6].1 == MetadataValue::RatingBits(self.auto_rating_bits),
            r@[7].1 == MetadataValue::Number(self.disc_number),
            r@[8].1.is_text(self.title@),
            r@[9].1 == MetadataValue::Number(self.track_number),
            r@[10].1.is_text(self.url@),
    {
        let mut r: Vec<(String, MetadataValue)> = Vec::new();
        r.push(entry("mpris:trackid", MetadataValue::Text(self.trackid.clone())));
        r.push(entry("mpris:length", MetadataValue::Millis(self.length)));
        r.push(entry("mpris:artUrl", MetadataValue::Text(self.art_url.clone())));
        r.push(entry("xesam:album", MetadataValue::Text(self.album.clone())));
        r.push(entry("xesam:albumArtist", MetadataValue::Names(copy_names(&self.album_artist))));
        r.push(entry("xesam:artist", MetadataValue::Names(copy_names(&self.artist))));
        r.push(entry("xesam:autoRating", MetadataValue::RatingBits(self.auto_rating_bits)));
        r.push(entry("xesam:discNumber", MetadataValue::Number(self.disc_number)));
        r.push(entry("xesam:title", MetadataValue::Text(self.title.clone())));
        r.push(entry("xesam:trackNumber", MetadataValue::Number(self.track_number)));
        r.push(entry("xesam:url", MetadataValue::Text(self.url.clone())));
        assert(forall|i: int| 0 <= i < 11 ==> (#[trigger] r@[i]).0@ == metadata_keys()[i]);
        r
    }
}

} // verus!
