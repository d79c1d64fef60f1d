use vstd::prelude::*;

verus! {

/// An audio-feature score, kept as the bit pattern of an IEEE 754
/// single-precision number. The library never does arithmetic on a score:
/// it is carried from the provider to the store and back bit for bit.
#[derive(Clone, Copy, Debug, PartialEq, Eq, Structural)]
pub struct Score {
    pub bits: u32,
}

/// One cached track: descriptive attributes and audio-analysis scores.
#[derive(Debug, PartialEq, Eq)]
pub struct Track {
    /// Primary key: the 16-byte big-endian decoding of the provider's track id.
    pub id: [u8; 16],
    pub name: String,
    /// The artists' names in the provider's order, joined by `", "`.
    pub artists: String,
    pub album: String,
    /// URL of the tallest cover image, if the provider supplied any.
    pub album_cover: Option<String>,
    pub release_date: Option<String>,
    /// Whole seconds.
    pub duration: i32,
    pub explicit: bool,
    pub danceability: Score,
    pub acousticness: Score,
    pub energy: Score,
    pub instrumentalness: Score,
    /// Pitch class 0..=11; anything else means the provider does not know.
    pub key: i32,
    /// 0 = unknown, 1 = major, 2 = minor.
    pub mode: i32,
    pub liveness: Score,
    pub loudness: Score,
    pub speechiness: Score,
    pub tempo: Score,
    pub valence: Score,
    /// Beats per bar.
    pub time_signature: i32,
}

/// The mathematical value of a [`Track`]: texts as sequences of characters,
/// the key as a sequence of sixteen bytes.
pub struct TrackView {
    pub id: Seq<u8>,
    pub name: Seq<char>,
    pub artists: Seq<char>,
    pub album: Seq<char>,
    pub album_cover: Option<Seq<char>>,
    pub release_date: Option<Seq<char>>,
    pub duration: i32,
    pub explicit: bool,
    pub danceability: Score,
    pub acousticness: Score,
    pub energy: Score,
    pub instrumentalness: Score,
    pub key: i32,
    pub mode: i32,
    pub liveness: Score,
    pub loudness: Score,
    pub speechiness: Score,
    pub tempo: Score,
    pub valence: Score,
    pub time_signature: i32,
}

/// The view of an optional text.
pub open spec fn opt_text(o: Option<String>) -> Option<Seq<char>> {
    match o {
        Some(s) => Some(s@),
        None => None,
    }
}

impl View for Track {
    type V = TrackView;

    open spec fn view(&self) -> TrackView {
        TrackView {
            id: self.id@,
            name: self.name@,
            artists: self.artists@,
            album: self.album@,
            album_cover: opt_text(self.album_cover),
            release_date: opt_text(self.release_date),
            duration: self.duration,
            explicit: self.explicit,
            danceability: self.danceability,
            acousticness: self.acousticness,
            energy: self.energy,
            instrumentalness: self.instrumentalness,
            key: self.key,
            mode: self.mode,
            liveness: self.liveness,
            loudness: self.loudness,
            speechiness: self.speechiness,
            tempo: self.tempo,
            valence: self.valence,
            time_signature: self.time_signature,
        }
    }
}

/// Copies an optional text.
fn clone_opt_text(o: &Option<String>) -> (r: Option<String>)
    ensures
        opt_text(r) == opt_text(*o),
{
    match o {
        Some(s) => Some(s.clone()),
        None => None,
    }
}

impl Clone for Track {
    fn clone(&self) -> (r: Self)
        ensures
            r@ == self@,
    {
        Track {
            id: self.id,
            name: self.name.clone(),
            artists: self.artists.clone(),
            album: self.album.clone(),
            album_cover: clone_opt_text(&self.album_cover),
            release_date: clone_opt_text(&self.release_date),
            duration: self.duration,
            explicit: self.explicit,
            danceability: self.danceability,
            acousticness: self.acousticness,
            energy: self.energy,
            instrumentalness: self.instrumentalness,
            key: self.key,
            mode: self.mode,
            liveness: self.liveness,
            loudness: self.loudness,
            speechiness: self.speechiness,
            tempo: self.tempo,
            valence: self.valence,
            time_signature: self.time_signature,
        }
    }
}

} // verus!
