use crate::track::{opt_text, Score, Track, TrackView};
use vstd::prelude::*;
use vstd::string::StringExecFns;

verus! {

/// The provider's verdict on whether a track is in a major or a minor key.
#[derive(Clone, Copy, Debug, PartialEq, Eq, Structural)]
pub enum Modality {
    Major,
    Minor,
    NoResult,
}

/// One cover image as the provider lists it.
#[derive(Clone, Debug, PartialEq, Eq)]
pub struct Image {
    pub url: String,
    /// Height in pixels, where the provider gives one.
    pub height: Option<u32>,
}

/// What an [`Image`] stands for in contracts.
pub struct ImageView {
    pub url: Seq<char>,
    pub height: Option<u32>,
}

impl View for Image {
    type V = ImageView;

    open spec fn view(&self) -> ImageView {
        ImageView { url: self.url@, height: self.height }
    }
}

/// What the provider's track lookup returns, as far as a record needs it.
#[derive(Clone, Debug, PartialEq, Eq)]
pub struct TrackMeta {
    pub name: String,
    /// The artists' names in the provider's order.
    pub artists: Vec<String>,
    pub album: String,
    /// The album's cover images in the provider's order.
    pub images: Vec<Image>,
    pub release_date: Option<String>,
    /// Length of the track in milliseconds.
    pub duration_ms: i64,
    pub explicit: bool,
}

/// What a [`TrackMeta`] stands for in contracts.
pub struct TrackMetaView {
    pub name: Seq<char>,
    pub artists: Seq<Seq<char>>,
    pub album: Seq<char>,
    pub images: Seq<ImageView>,
    pub release_date: Option<Seq<char>>,
    pub duration_ms: i64,
    pub explicit: bool,
}

/// The views of a list of texts.
pub open spec fn texts(v: Seq<String>) -> Seq<Seq<char>> {
    Seq::new(v.len(), |i: int| v[i]@)
}

/// The views of a list of images.
pub open spec fn images_view(v: Seq<Image>) -> Seq<ImageView> {
    Seq::new(v.len(), |i: int| v[i]@)
}

impl View for TrackMeta {
    type V = TrackMetaView;

    open spec fn view(&self) -> TrackMetaView {
        TrackMetaView {
            name: self.name@,
            artists: texts(self.artists@),
            album: self.album@,
            images: images_view(self.images@),
            release_date: opt_text(self.release_date),
            duration_ms: self.duration_ms,
            explicit: self.explicit,
        }
    }
}

/// What the provider's audio-feature lookup returns, as far as a record
/// needs it.
#[derive(Clone, Copy, Debug, PartialEq, Eq, Structural)]
pub struct AudioFeatures {
    pub danceability: Score,
    pub acousticness: Score,
    pub energy: Score,
    pub instrumentalness: Score,
    pub key: i32,
    pub mode: Modality,
    pub liveness: Score,
    pub loudness: Score,
    pub speechiness: Score,
    pub tempo: Score,
    pub valence: Score,
    pub time_signature: i32,
}

/// Why a pair of provider responses makes no record.
#[derive(Clone, Copy, Debug, PartialEq, Eq, Structural)]
pub enum NormalizeError {
    /// The provider listed no artist.
    EmptyArtistList,
    /// The duration in whole seconds does not fit in 32 bits.
    DurationOverflow,
}

/// The modality that the provider's number stands for: 1 is major, 0 is
/// minor, and every other number, the provider's -1 among them, no result.
pub open spec fn modality_of(raw: int) -> Modality {
    if raw == 1 {
        Modality::Major
    } else if raw == 0 {
        Modality::Minor
    } else {
        Modality::NoResult
    }
}

/// The number a modality is stored as.
pub open spec fn mode_code(m: Modality) -> i32 {
    match m {
        Modality::Major => 1,
        Modality::Minor => 2,
        Modality::NoResult => 0,
    }
}

/// Whole seconds in a number of milliseconds, rounded down.
pub open spec fn seconds_in(ms: int) -> int {
    ms / 1000
}

/// The texts of `names` in order, with `", "` between neighbours.
pub open spec fn joined(names: Seq<Seq<char>>) -> Seq<char>
    decreases names.len(),
{
    if names.len() == 0 {
        Seq::empty()
    } else if names.len() == 1 {
        names[0]
    } else {
        joined(names.drop_last()) + seq![',', ' '] + names.last()
    }
}

/// Where a height stands in the order of heights: an unknown height comes
/// before every known one.
pub open spec fn rank(height: Option<u32>) -> int {
    match height {
        Some(h) => h as int,
        None => -1,
    }
}

/// Position of the first image among those of the greatest height; 0 for an
/// empty list.
pub open spec fn tallest(images: Seq<ImageView>) -> int
    decreases images.len(),
{
    if images.len() <= 1 {
        0
    } else {
        let before = tallest(images.drop_last());
        if rank(images.last().height) > rank(images[before].height) {
            images.len() - 1
        } else {
            before
        }
    }
}

/// The URL of the cover to keep: that of the tallest image, none for an
/// empty list.
pub open spec fn cover_of(images: Seq<ImageView>) -> Option<Seq<char>> {
    if images.len() == 0 {
        None
    } else {
        Some(images[tallest(images)].url)
    }
}

/// The reason why `meta` makes no record, if there is one. A missing artist
/// is reported before an overlong duration.
pub open spec fn defect(meta: TrackMetaView) -> Option<NormalizeError> {
    if meta.artists.len() == 0 {
        Some(NormalizeError::EmptyArtistList)
    } else if !(i32::MIN <= seconds_in(meta.duration_ms as int) <= i32::MAX) {
        Some(NormalizeError::DurationOverflow)
    } else {
        None
    }
}

/// The record that a pair of provider responses makes under the key `key`.
pub open spec fn normalized(key: Seq<u8>, meta: TrackMetaView, features: AudioFeatures) -> TrackView {
    TrackView {
        id: key,
        name: meta.name,
        artists: joined(meta.artists),
        album: meta.album,
        album_cover: cover_of(meta.images),
        release_date: meta.release_date,
        duration: seconds_in(meta.duration_ms as int) as i32,
        explicit: meta.explicit,
        danceability: features.danceability,
        acousticness: features.acousticness,
        energy: features.energy,
        instrumentalness: features.instrumentalness,
        key: features.key,
        mode: mode_code(features.mode),
        liveness: features.liveness,
        loudness: features.loudness,
        speechiness: features.speechiness,
        tempo: features.tempo,
        valence: features.valence,
        time_signature: features.time_signature,
    }
}

/// `tallest` names an image of the list, no image is taller than it, and
/// every image before it is shorter.
pub proof fn lemma_tallest(images: Seq<ImageView>)
    requires
        images.len() > 0,
    ensures
        0 <= tallest(images) < images.len(),
        forall|j: int|
            0 <= j < images.len() ==> rank(#[trigger] images[j].height) <= rank(
                images[tallest(images)].height,
            ),
        forall|j: int|
            0 <= j < tallest(images) ==> rank(#[trigger] images[j].height) < rank(
                images[tallest(images)].height,
            ),
    decreases images.len(),
{
    if images.len() > 1 {
        let front = images.drop_last();
        lemma_tallest(front);
        assert forall|j: int| 0 <= j < images.len() implies rank(#[trigger] images[j].height)
            <= rank(images[tallest(images)].height) by {
            if j < front.len() {
                assert(front[j] == images[j]);
            }
        }
        assert forall|j: int| 0 <= j < tallest(images) implies rank(#[trigger] images[j].height)
            < rank(images[tallest(images)].height) by {
            assert(front[j] == images[j]);
        }
    }
}

impl Modality {
    /// Reads the provider's number for a modality. A number that the
    /// provider does not define counts as no result.
    pub fn from_provider(raw: i32) -> (r: Modality)
        ensures
            r == modality_of(raw as int),
    {
        if raw == 1 {
            Modality::Major
        } else if raw == 0 {
            Modality::Minor
        } else {
            Modality::NoResult
        }
    }

    /// The number this modality is stored as: 1 for major, 2 for minor, 0
    /// where the provider had no result.
    pub fn stored(self) -> (r: i32)
        ensures
            r == mode_code(self),
    {
        match self {
            Modality::Major => 1,
            Modality::Minor => 2,
            Modality::NoResult => 0,
        }
    }
}

/// Whole seconds of a duration in milliseconds, rounded down; fails where
/// they do not fit in 32 bits.
pub fn whole_seconds(duration_ms: i64) -> (r: Result<i32, NormalizeError>)
    ensures
        r is Ok <==> i32::MIN <= seconds_in(duration_ms as int) <= i32::MAX,
        r matches Ok(s) ==> s == seconds_in(duration_ms as int),
        r matches Err(e) ==> e == NormalizeError::DurationOverflow,
{
    let secs: i64 = if duration_ms >= 0 {
        duration_ms / 1000
    } else {
        -((-(duration_ms + 1)) / 1000) - 1
    };
    if secs < i32::MIN as i64 || secs > i32::MAX as i64 {
        Err(NormalizeError::DurationOverflow)
    } else {
        Ok(secs as i32)
    }
}

/// The artists' names joined by `", "`; fails on an empty list.
pub fn join_artists(names: &Vec<String>) -> (r: Result<String, NormalizeError>)
    ensures
        r is Ok <==> names@.len() > 0,
        r matches Ok(s) ==> s@ == joined(texts(names@)),
        r matches Err(e) ==> e == NormalizeError::EmptyArtistList,
{
    if names.len() == 0 {
        return Err(NormalizeError::EmptyArtistList);
    }
    let mut out = String::new();
    let mut i: usize = 0;
    assert(texts(names@).subrange(0, 0) =~= Seq::<Seq<char>>::empty());
    while i < names.len()
        invariant
            i <= names@.len(),
            out@ == joined(texts(names@).subrange(0, i as int)),
        decreases names@.len() - i,
    {
        let ghost before = texts(names@).subrange(0, i as int);
        let ghost after = texts(names@).subrange(0, i + 1);
        assert(after.drop_last() =~= before);
        assert(after.last() == names@[i as int]@);
        if i > 0 {
            out.append(", ");
        }
        out.append(names[i].as_str());
        assert(out@ =~= joined(after)) by {
            reveal_strlit(", ");
            assert(", "@ =~= seq![',', ' ']);
            if i == 0 {
                assert(after.len() == 1);
                assert(after[0] == names@[0]@);
            }
        }
        i = i + 1;
    }
    assert(texts(names@).subrange(0, i as int) =~= texts(names@));
    Ok(out)
}

/// The URL of the tallest image, the first of them where several are as
/// tall; none for an empty list.
pub fn album_cover(images: &Vec<Image>) -> (r: Option<String>)
    ensures
        opt_text(r) == cover_of(images_view(images@)),
{
    if images.len() == 0 {
        return None;
    }
    let ghost all = images_view(images@);
    let mut best: usize = 0;
    let mut i: usize = 1;
    assert(all.subrange(0, 1).len() == 1);
    while i < images.len()
        invariant
            1 <= i <= images@.len(),
            all == images_view(images@),
            best < i,
            best == tallest(all.subrange(0, i as int)),
        decreases images@.len() - i,
    {
        let ghost upto = all.subrange(0, i + 1);
        assert(upto.drop_last() =~= all.subrange(0, i as int));
        assert(upto.last() == images@[i as int]@);
        assert(upto[best as int] == images@[best as int]@);
        if taller(images[i].height, images[best].height) {
            best = i;
        }
        i = i + 1;
    }
    assert(all.subrange(0, i as int) =~= all);
    Some(images[best].url.clone())
}

/// Whether the height `a` comes after the height `b` in the order of heights.
fn taller(a: Option<u32>, b: Option<u32>) -> (r: bool)
    ensures
        r == (rank(a) > rank(b)),
{
    match (a, b) {
        (Some(x), Some(y)) => x > y,
        (Some(_), None) => true,
        (None, _) => false,
    }
}

/// Makes the record for the key `key` out of the provider's two responses.
///
/// The artists' names are joined by `", "`, the cover is the tallest image,
/// the duration is cut down to whole seconds and the modality becomes its
/// stored number; everything else is taken over as it is. Fails where no
/// artist is listed, and otherwise where the whole seconds do not fit in 32
/// bits.
pub fn normalize(key: [u8; 16], meta: TrackMeta, features: AudioFeatures) -> (r: Result<
    Track,
    NormalizeError,
>)
    ensures
        r is Ok <==> defect(meta@) is None,
        r matches Ok(t) ==> t@ == normalized(key@, meta@, features),
        r matches Err(e) ==> defect(meta@) == Some(e),
{
    let artists = join_artists(&meta.artists)?;
    let duration = whole_seconds(meta.duration_ms)?;
    let cover = album_cover(&meta.images);
    Ok(
        Track {
            id: key,
            name: meta.name,
            artists,
            album: meta.album,
            album_cover: cover,
            release_date: meta.release_date,
            duration,
            explicit: meta.explicit,
            danceability: features.danceability,
            acousticness: features.acousticness,
            energy: features.energy,
            instrumentalness: features.instrumentalness,
            key: features.key,
            mode: features.mode.stored(),
            liveness: features.liveness,
            loudness: features.loudness,
            speechiness: features.speechiness,
            tempo: features.tempo,
            valence: features.valence,
            time_signature: features.time_signature,
        },
    )
}

} // verus!
