use crate::track::{opt_text, Score, Track, TrackView};
use vstd::prelude::*;

verus! {

/// Why the store did not do what it was asked.
#[derive(Clone, Copy, Debug, PartialEq, Eq, Structural)]
pub enum StoreError {
    /// The store cannot be opened, or another process holds it.
    StoreUnavailable,
    /// A lookup failed, or the row it found is no record.
    StoreReadError,
    /// An insert failed.
    StoreWriteError,
    /// An insert met a row with the same key.
    DuplicateKeyError,
}

/// What the store was asked to do.
#[derive(Clone, Copy, Debug, PartialEq, Eq, Structural)]
pub enum StoreOp {
    Open,
    Get,
    Put,
}

/// How the database engine says that it failed.
#[derive(Clone, Copy, Debug, PartialEq, Eq, Structural)]
pub enum Failure {
    /// The database file is in use by another connection.
    Busy,
    /// A table is locked.
    Locked,
    /// The table holds a row with the key of the row to insert.
    KeyTaken,
    /// Anything else.
    Other,
}

/// The engine's result code for a database file that another connection
/// uses.
pub const SQLITE_BUSY: i32 = 5;

/// The engine's result code for a locked table.
pub const SQLITE_LOCKED: i32 = 6;

/// The engine's extended result code for a broken primary-key constraint.
pub const SQLITE_CONSTRAINT_PRIMARYKEY: i32 = 1555;

/// What an extended result code of the engine says; `None` stands for a
/// failure that comes with no code.
///
/// The low byte of an extended code is the primary code, which alone tells
/// a busy or locked database; a taken key has an extended code of its own.
pub open spec fn failure_kind(extended_code: Option<i32>) -> Failure {
    match extended_code {
        Some(code) => if code >= 0 && code % 256 == SQLITE_BUSY {
            Failure::Busy
        } else if code >= 0 && code % 256 == SQLITE_LOCKED {
            Failure::Locked
        } else if code == SQLITE_CONSTRAINT_PRIMARYKEY {
            Failure::KeyTaken
        } else {
            Failure::Other
        },
        None => Failure::Other,
    }
}

/// Reads the engine's extended result code of a failure.
pub fn failure_of(extended_code: Option<i32>) -> (r: Failure)
    ensures
        r == failure_kind(extended_code),
{
    match extended_code {
        Some(code) => {
            if code < 0 {
                Failure::Other
            } else if code % 256 == SQLITE_BUSY {
                Failure::Busy
            } else if code % 256 == SQLITE_LOCKED {
                Failure::Locked
            } else if code == SQLITE_CONSTRAINT_PRIMARYKEY {
                Failure::KeyTaken
            } else {
                Failure::Other
            }
        },
        None => Failure::Other,
    }
}

/// The error that a failure of the engine is reported as.
///
/// A busy or locked database is unavailable, whatever was asked. Otherwise
/// a failure to open is unavailability, a failure to look up a read error,
/// and a failure to insert a duplicate key where the key was taken and a
/// write error in every other case.
pub open spec fn classified(op: StoreOp, failure: Failure) -> StoreError {
    if failure == Failure::Busy || failure == Failure::Locked {
        StoreError::StoreUnavailable
    } else {
        match op {
            StoreOp::Open => StoreError::StoreUnavailable,
            StoreOp::Get => StoreError::StoreReadError,
            StoreOp::Put => if failure == Failure::KeyTaken {
                StoreError::DuplicateKeyError
            } else {
                StoreError::StoreWriteError
            },
        }
    }
}

/// The error to report for a failure of the engine during `op`.
pub fn classify(op: StoreOp, failure: Failure) -> (r: StoreError)
    ensures
        r == classified(op, failure),
{
    match failure {
        Failure::Busy => StoreError::StoreUnavailable,
        Failure::Locked => StoreError::StoreUnavailable,
        Failure::KeyTaken => match op {
            StoreOp::Open => StoreError::StoreUnavailable,
            StoreOp::Get => StoreError::StoreReadError,
            StoreOp::Put => StoreError::DuplicateKeyError,
        },
        Failure::Other => match op {
            StoreOp::Open => StoreError::StoreUnavailable,
            StoreOp::Get => StoreError::StoreReadError,
            StoreOp::Put => StoreError::StoreWriteError,
        },
    }
}

/// The number of columns of the table of tracks.
pub const COLUMN_COUNT: usize = 20;

/// Creates the table of tracks unless it is there. A score is kept as the
/// integer of its bit pattern, which the engine stores exactly.
pub const SCHEMA_SQL: &'static str =
    "create table if not exists tracks (\
     id blob not null primary key, \
     name text not null, \
     artists text not null, \
     album text not null, \
     album_cover text, \
     release_date text, \
     duration integer not null, \
     explicit integer not null, \
     danceability integer not null, \
     acousticness integer not null, \
     energy integer not null, \
     instrumentalness integer not null, \
     \"key\" integer not null, \
     mode integer not null, \
     liveness integer not null, \
     loudness integer not null, \
     speechiness integer not null, \
     tempo integer not null, \
     valence integer not null, \
     time_signature integer not null)";

/// Selects the row with a given key, its columns in the table's order.
pub const SELECT_SQL: &'static str =
    "select id, name, artists, album, album_cover, release_date, duration, explicit, \
     danceability, acousticness, energy, instrumentalness, \"key\", mode, liveness, loudness, \
     speechiness, tempo, valence, time_signature from tracks where id = ?";

/// Inserts a row, its values in the table's order.
pub const INSERT_SQL: &'static str =
    "insert into tracks (id, name, artists, album, album_cover, release_date, duration, \
     explicit, danceability, acousticness, energy, instrumentalness, \"key\", mode, liveness, \
     loudness, speechiness, tempo, valence, time_signature) \
     values (?, ?, ?, ?, ?, ?, ?, ?, ?, ?, ?, ?, ?, ?, ?, ?, ?, ?, ?, ?)";

/// One value of a row, in the engine's five storage classes. A real number
/// is held as the bit pattern of its double-precision form.
#[derive(Clone, Debug, PartialEq, Eq)]
pub enum SqlValue {
    Null,
    Integer(i64),
    Real(u64),
    Text(String),
    Blob(Vec<u8>),
}

/// What a [`SqlValue`] stands for in contracts.
pub enum SqlValueView {
    Null,
    Integer(i64),
    Real(u64),
    Text(Seq<char>),
    Blob(Seq<u8>),
}

impl View for SqlValue {
    type V = SqlValueView;

    open spec fn view(&self) -> SqlValueView {
        match self {
            SqlValue::Null => SqlValueView::Null,
            SqlValue::Integer(i) => SqlValueView::Integer(*i),
            SqlValue::Real(x) => SqlValueView::Real(*x),
            SqlValue::Text(s) => SqlValueView::Text(s@),
            SqlValue::Blob(b) => SqlValueView::Blob(b@),
        }
    }
}

/// The views of the values of a row.
pub open spec fn row_view(row: Seq<SqlValue>) -> Seq<SqlValueView> {
    Seq::new(row.len(), |i: int| row[i]@)
}

/// How an optional text is stored: as a text, or as null where there is none.
pub open spec fn sql_opt_text(o: Option<Seq<char>>) -> SqlValueView {
    match o {
        Some(s) => SqlValueView::Text(s),
        None => SqlValueView::Null,
    }
}

/// How a score is stored: as the integer of its bit pattern.
pub open spec fn sql_score(x: Score) -> SqlValueView {
    SqlValueView::Integer(x.bits as i64)
}

/// How a truth value is stored: as 1 or 0.
pub open spec fn sql_bool(b: bool) -> SqlValueView {
    SqlValueView::Integer(
        if b {
            1
        } else {
            0
        },
    )
}

/// The row that holds the record `t`: its fields in the order of the
/// table's columns.
pub open spec fn encoded(t: TrackView) -> Seq<SqlValueView> {
    seq![
        SqlValueView::Blob(t.id),
        SqlValueView::Text(t.name),
        SqlValueView::Text(t.artists),
        SqlValueView::Text(t.album),
        sql_opt_text(t.album_cover),
        sql_opt_text(t.release_date),
        SqlValueView::Integer(t.duration as i64),
        sql_bool(t.explicit),
        sql_score(t.danceability),
        sql_score(t.acousticness),
        sql_score(t.energy),
        sql_score(t.instrumentalness),
        SqlValueView::Integer(t.key as i64),
        SqlValueView::Integer(t.mode as i64),
        sql_score(t.liveness),
        sql_score(t.loudness),
        sql_score(t.speechiness),
        sql_score(t.tempo),
        sql_score(t.valence),
        SqlValueView::Integer(t.time_signature as i64),
    ]
}

/// A value read as a key: a blob of sixteen bytes.
pub open spec fn as_key(v: SqlValueView) -> Option<Seq<u8>> {
    match v {
        SqlValueView::Blob(b) => if b.len() == 16 {
            Some(b)
        } else {
            None
        },
        _ => None,
    }
}

/// A value read as a required text.
pub open spec fn as_text(v: SqlValueView) -> Option<Seq<char>> {
    match v {
        SqlValueView::Text(s) => Some(s),
        _ => None,
    }
}

/// A value read as an optional text: a text, or null for none.
pub open spec fn as_opt_text(v: SqlValueView) -> Option<Option<Seq<char>>> {
    match v {
        SqlValueView::Text(s) => Some(Some(s)),
        SqlValueView::Null => Some(None),
        _ => None,
    }
}

/// A value read as a number of 32 bits: an integer in their range.
pub open spec fn as_i32(v: SqlValueView) -> Option<i32> {
    match v {
        SqlValueView::Integer(i) => if i32::MIN <= i <= i32::MAX {
            Some(i as i32)
        } else {
            None
        },
        _ => None,
    }
}

/// A value read as a truth value: an integer, true unless it is 0.
pub open spec fn as_bool(v: SqlValueView) -> Option<bool> {
    match v {
        SqlValueView::Integer(i) => Some(i != 0),
        _ => None,
    }
}

/// A value read as a score: an integer that is a pattern of 32 bits.
pub open spec fn as_score(v: SqlValueView) -> Option<Score> {
    match v {
        SqlValueView::Integer(i) => if 0 <= i <= u32::MAX {
            Some(Score { bits: i as u32 })
        } else {
            None
        },
        _ => None,
    }
}

/// Whether `row` holds a record: it has the table's twenty columns, each
/// with a value that its field can take.
pub open spec fn is_record(row: Seq<SqlValueView>) -> bool {
    &&& row.len() == COLUMN_COUNT
    &&& as_key(row[0]) is Some
    &&& as_text(row[1]) is Some
    &&& as_text(row[2]) is Some
    &&& as_text(row[3]) is Some
    &&& as_opt_text(row[4]) is Some
    &&& as_opt_text(row[5]) is Some
    &&& as_i32(row[6]) is Some
    &&& as_bool(row[7]) is Some
    &&& as_score(row[8]) is Some
    &&& as_score(row[9]) is Some
    &&& as_score(row[10]) is Some
    &&& as_score(row[11]) is Some
    &&& as_i32(row[12]) is Some
    &&& as_i32(row[13]) is Some
    &&& as_score(row[14]) is Some
    &&& as_score(row[15]) is Some
    &&& as_score(row[16]) is Some
    &&& as_score(row[17]) is Some
    &&& as_score(row[18]) is Some
    &&& as_i32(row[19]) is Some
}

/// The record that `row` holds, if it holds one.
pub open spec fn decoded(row: Seq<SqlValueView>) -> Option<TrackView> {
    if is_record(row) {
        Some(
            TrackView {
                id: as_key(row[0])->0,
                name: as_text(row[1])->0,
                artists: as_text(row[2])->0,
                album: as_text(row[3])->0,
                album_cover: as_opt_text(row[4])->0,
                release_date: as_opt_text(row[5])->0,
                duration: as_i32(row[6])->0,
                explicit: as_bool(row[7])->0,
                danceability: as_score(row[8])->0,
                acousticness: as_score(row[9])->0,
                energy: as_score(row[10])->0,
                instrumentalness: as_score(row[11])->0,
                key: as_i32(row[12])->0,
                mode: as_i32(row[13])->0,
                liveness: as_score(row[14])->0,
                loudness: as_score(row[15])->0,
                speechiness: as_score(row[16])->0,
                tempo: as_score(row[17])->0,
                valence: as_score(row[18])->0,
                time_signature: as_i32(row[19])->0,
            },
        )
    } else {
        None
    }
}

/// A record that is written to a row and read back is the same record,
/// every field of it.
pub proof fn lemma_row_round_trip(t: TrackView)
    requires
        t.id.len() == 16,
    ensures
        decoded(encoded(t)) == Some(t),
{
    let row = encoded(t);
    assert(is_record(row));
    assert(decoded(row)->0.album_cover == t.album_cover);
    assert(decoded(row)->0.release_date == t.release_date);
}

fn opt_text_value(o: &Option<String>) -> (r: SqlValue)
    ensures
        r@ == sql_opt_text(opt_text(*o)),
{
    match o {
        Some(s) => SqlValue::Text(s.clone()),
        None => SqlValue::Null,
    }
}

fn key_value(key: &[u8; 16]) -> (r: SqlValue)
    ensures
        r@ == SqlValueView::Blob(key@),
{
    let mut bytes: Vec<u8> = Vec::new();
    let mut i: usize = 0;
    while i < 16
        invariant
            i <= 16,
            bytes@ == key@.take(i as int),
        decreases 16 - i,
    {
        bytes.push(key[i]);
        assert(bytes@ =~= key@.take(i + 1));
        i = i + 1;
    }
    assert(bytes@ =~= key@);
    SqlValue::Blob(bytes)
}

/// The row to insert for `track`: one value for each column, in the
/// table's order.
pub fn encode_row(track: &Track) -> (r: Vec<SqlValue>)
    ensures
        row_view(r@) == encoded(track@),
{
    let mut row: Vec<SqlValue> = Vec::new();
    row.push(key_value(&track.id));
    row.push(SqlValue::Text(track.name.clone()));
    row.push(SqlValue::Text(track.artists.clone()));
    row.push(SqlValue::Text(track.album.clone()));
    row.push(opt_text_value(&track.album_cover));
    row.push(opt_text_value(&track.release_date));
    row.push(SqlValue::Integer(track.duration as i64));
    row.push(SqlValue::Integer(if track.explicit {
        1
    } else {
        0
    }));
    row.push(SqlValue::Integer(track.danceability.bits as i64));
    row.push(SqlValue::Integer(track.acousticness.bits as i64));
    row.push(SqlValue::Integer(track.energy.bits as i64));
    row.push(SqlValue::Integer(track.instrumentalness.bits as i64));
    row.push(SqlValue::Integer(track.key as i64));
    row.push(SqlValue::Integer(track.mode as i64));
    row.push(SqlValue::Integer(track.liveness.bits as i64));
    row.push(SqlValue::Integer(track.loudness.bits as i64));
    row.push(SqlValue::Integer(track.speechiness.bits as i64));
    row.push(SqlValue::Integer(track.tempo.bits as i64));
    row.push(SqlValue::Integer(track.valence.bits as i64));
    row.push(SqlValue::Integer(track.time_signature as i64));
    assert(row_view(row@) =~= encoded(track@));
    row
}

fn key_in(v: &SqlValue) -> (r: Option<[u8; 16]>)
    ensures
        r is Some <==> as_key(v@) is Some,
        r matches Some(key) ==> as_key(v@) == Some(key@),
{
    match v {
        SqlValue::Blob(bytes) => {
            if bytes.len() != 16 {
                return None;
            }
            let mut key = [0u8; 16];
            let mut i: usize = 0;
            while i < 16
                invariant
                    i <= 16,
                    bytes@.len() == 16,
                    forall|j: int| 0 <= j < i ==> key@[j] == bytes@[j],
                decreases 16 - i,
            {
                key[i] = bytes[i];
                i = i + 1;
            }
            assert(key@ =~= bytes@);
            Some(key)
        },
        _ => None,
    }
}

fn text_in(v: &SqlValue) -> (r: Option<String>)
    ensures
        r is Some <==> as_text(v@) is Some,
        r matches Some(s) ==> as_text(v@) == Some(s@),
{
    match v {
        SqlValue::Text(s) => Some(s.clone()),
        _ => None,
    }
}

fn opt_text_in(v: &SqlValue) -> (r: Option<Option<String>>)
    ensures
        r is Some <==> as_opt_text(v@) is Some,
        r matches Some(o) ==> as_opt_text(v@) == Some(opt_text(o)),
{
    match v {
        SqlValue::Text(s) => Some(Some(s.clone())),
        SqlValue::Null => Some(None),
        _ => None,
    }
}

fn i32_in(v: &SqlValue) -> (r: Option<i32>)
    ensures
        r == as_i32(v@),
{
    match v {
        SqlValue::Integer(i) => {
            if *i < i32::MIN as i64 || *i > i32::MAX as i64 {
                None
            } else {
                Some(*i as i32)
            }
        },
        _ => None,
    }
}

fn bool_in(v: &SqlValue) -> (r: Option<bool>)
    ensures
        r == as_bool(v@),
{
    match v {
        SqlValue::Integer(i) => Some(*i != 0),
        _ => None,
    }
}

fn score_in(v: &SqlValue) -> (r: Option<Score>)
    ensures
        r == as_score(v@),
{
    match v {
        SqlValue::Integer(i) => {
            if *i < 0 || *i > u32::MAX as i64 {
                None
            } else {
                Some(Score { bits: *i as u32 })
            }
        },
        _ => None,
    }
}

/// The record in a row of twenty values, if they make one.
fn record_in(row: &Vec<SqlValue>) -> (r: Option<Track>)
    requires
        row@.len() == COLUMN_COUNT,
    ensures
        r is Some <==> decoded(row_view(row@)) is Some,
        r matches Some(t) ==> decoded(row_view(row@)) == Some(t@),
{
    assert(forall|i: int| 0 <= i < 20 ==> row_view(row@)[i] == row@[i]@);
    let id = key_in(&row[0])?;
    let name = text_in(&row[1])?;
    let artists = text_in(&row[2])?;
    let album = text_in(&row[3])?;
    let album_cover = opt_text_in(&row[4])?;
    let release_date = opt_text_in(&row[5])?;
    let duration = i32_in(&row[6])?;
    let explicit = bool_in(&row[7])?;
    let danceability = score_in(&row[8])?;
    let acousticness = score_in(&row[9])?;
    let energy = score_in(&row[10])?;
    let instrumentalness = score_in(&row[11])?;
    let key = i32_in(&row[12])?;
    let mode = i32_in(&row[13])?;
    let liveness = score_in(&row[14])?;
    let loudness = score_in(&row[15])?;
    let speechiness = score_in(&row[16])?;
    let tempo = score_in(&row[17])?;
    let valence = score_in(&row[18])?;
    let time_signature = i32_in(&row[19])?;
    Some(
        Track {
            id,
            name,
            artists,
            album,
            album_cover,
            release_date,
            duration,
            explicit,
            danceability,
            acousticness,
            energy,
            instrumentalness,
            key,
            mode,
            liveness,
            loudness,
            speechiness,
            tempo,
            valence,
            time_signature,
        },
    )
}

/// The record that a row of the table holds.
///
/// Fails with `StoreReadError` where the row has not the table's twenty
/// columns, or a column holds a value that its field cannot take: a key
/// that is no blob of sixteen bytes, a text that is none, a number or a
/// score outside 32 bits.
pub fn decode_row(row: &Vec<SqlValue>) -> (r: Result<Track, StoreError>)
    ensures
        r is Ok <==> decoded(row_view(row@)) is Some,
        r matches Ok(t) ==> decoded(row_view(row@)) == Some(t@),
        r matches Err(e) ==> e == StoreError::StoreReadError,
{
    if row.len() != COLUMN_COUNT {
        return Err(StoreError::StoreReadError);
    }
    match record_in(row) {
        Some(track) => Ok(track),
        None => Err(StoreError::StoreReadError),
    }
}

} // verus!
