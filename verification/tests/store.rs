use rusqlite::types::Value;
use rusqlite::{params_from_iter, Connection, OptionalExtension};
use spotk::store::{
    classify, decode_row, encode_row, failure_of, Failure, SqlValue, StoreError, StoreOp,
    COLUMN_COUNT, INSERT_SQL, SCHEMA_SQL, SELECT_SQL, SQLITE_BUSY, SQLITE_CONSTRAINT_PRIMARYKEY,
    SQLITE_LOCKED,
};
use spotk::track::{Score, Track};

fn score(x: f32) -> Score {
    Score { bits: x.to_bits() }
}

fn track(id: u8) -> Track {
    Track {
        id: [id; 16],
        name: "Paranoid Android".to_string(),
        artists: "Radiohead, Und\u{e9}r".to_string(),
        album: "OK Computer".to_string(),
        album_cover: Some("https://i.scdn.co/image/x".to_string()),
        release_date: None,
        duration: 387,
        explicit: true,
        danceability: score(0.251),
        acousticness: score(0.0369),
        energy: score(0.848),
        instrumentalness: score(0.00317),
        key: 12,
        mode: 2,
        liveness: score(0.0579),
        loudness: score(-6.01),
        speechiness: score(0.0588),
        tempo: score(163.7),
        valence: score(0.19),
        time_signature: 4,
    }
}

fn to_engine(v: SqlValue) -> Value {
    match v {
        SqlValue::Null => Value::Null,
        SqlValue::Integer(i) => Value::Integer(i),
        SqlValue::Real(bits) => Value::Real(f64::from_bits(bits)),
        SqlValue::Text(s) => Value::Text(s),
        SqlValue::Blob(b) => Value::Blob(b),
    }
}

fn from_engine(v: Value) -> SqlValue {
    match v {
        Value::Null => SqlValue::Null,
        Value::Integer(i) => SqlValue::Integer(i),
        Value::Real(x) => SqlValue::Real(x.to_bits()),
        Value::Text(s) => SqlValue::Text(s),
        Value::Blob(b) => SqlValue::Blob(b),
    }
}

fn failure(e: &rusqlite::Error) -> Failure {
    failure_of(match e {
        rusqlite::Error::SqliteFailure(cause, _) => Some(cause.extended_code),
        _ => None,
    })
}

fn open() -> Connection {
    let db = Connection::open_in_memory().unwrap();
    db.execute_batch(SCHEMA_SQL).unwrap();
    db
}

fn get(db: &Connection, key: [u8; 16]) -> Result<Option<Track>, StoreError> {
    let row = db
        .query_row(SELECT_SQL, [key.to_vec()], |row| {
            let mut values = Vec::new();
            for i in 0..COLUMN_COUNT {
                values.push(from_engine(row.get::<usize, Value>(i)?));
            }
            Ok(values)
        })
        .optional()
        .map_err(|e| classify(StoreOp::Get, failure(&e)))?;
    match row {
        Some(values) => decode_row(&values).map(Some),
        None => Ok(None),
    }
}

fn put(db: &Connection, t: &Track) -> Result<(), StoreError> {
    db.execute(INSERT_SQL, params_from_iter(encode_row(t).into_iter().map(to_engine)))
        .map(|_| ())
        .map_err(|e| classify(StoreOp::Put, failure(&e)))
}

fn good_row() -> Vec<SqlValue> {
    encode_row(&track(1))
}

#[test]
fn row_holds_the_fields_in_column_order() {
    let row = encode_row(&track(3));
    let expected = vec![
        SqlValue::Blob(vec![3; 16]),
        SqlValue::Text("Paranoid Android".to_string()),
        SqlValue::Text("Radiohead, Und\u{e9}r".to_string()),
        SqlValue::Text("OK Computer".to_string()),
        SqlValue::Text("https://i.scdn.co/image/x".to_string()),
        SqlValue::Null,
        SqlValue::Integer(387),
        SqlValue::Integer(1),
        SqlValue::Integer(0.251f32.to_bits() as i64),
        SqlValue::Integer(0.0369f32.to_bits() as i64),
        SqlValue::Integer(0.848f32.to_bits() as i64),
        SqlValue::Integer(0.00317f32.to_bits() as i64),
        SqlValue::Integer(12),
        SqlValue::Integer(2),
        SqlValue::Integer(0.0579f32.to_bits() as i64),
        SqlValue::Integer((-6.01f32).to_bits() as i64),
        SqlValue::Integer(0.0588f32.to_bits() as i64),
        SqlValue::Integer(163.7f32.to_bits() as i64),
        SqlValue::Integer(0.19f32.to_bits() as i64),
        SqlValue::Integer(4),
    ];
    assert_eq!(row, expected);
    assert_eq!(row.len(), COLUMN_COUNT);
}

#[test]
fn row_round_trip() {
    let t = track(1);
    assert_eq!(decode_row(&encode_row(&t)), Ok(t));
    let mut u = track(2);
    u.album_cover = None;
    u.release_date = Some("1997".to_string());
    u.explicit = false;
    u.duration = i32::MIN;
    u.key = -1;
    u.time_signature = i32::MAX;
    u.tempo = Score { bits: 0x7fc0_0000 };
    assert_eq!(decode_row(&encode_row(&u)), Ok(u));
}

#[test]
fn a_row_of_another_shape_is_a_read_error() {
    let broken = Err(StoreError::StoreReadError);
    assert_eq!(decode_row(&Vec::new()), broken);
    let mut short = good_row();
    short.pop();
    assert_eq!(decode_row(&short), broken);
    let mut long = good_row();
    long.push(SqlValue::Null);
    assert_eq!(decode_row(&long), broken);
    for column in 0..COLUMN_COUNT {
        let mut row = good_row();
        row[column] = SqlValue::Blob(vec![0; 15]);
        assert_eq!(decode_row(&row), broken);
    }
    // Only the optional texts may be null.
    for column in 0..COLUMN_COUNT {
        let mut row = good_row();
        row[column] = SqlValue::Null;
        if column == 4 || column == 5 {
            assert!(decode_row(&row).is_ok());
        } else {
            assert_eq!(decode_row(&row), broken);
        }
    }
}

#[test]
fn numbers_outside_their_field_are_a_read_error() {
    for column in [6usize, 12, 13, 19] {
        let mut row = good_row();
        row[column] = SqlValue::Integer(i32::MAX as i64 + 1);
        assert_eq!(decode_row(&row), Err(StoreError::StoreReadError));
        row[column] = SqlValue::Integer(i32::MIN as i64 - 1);
        assert_eq!(decode_row(&row), Err(StoreError::StoreReadError));
        row[column] = SqlValue::Integer(i32::MAX as i64);
        assert!(decode_row(&row).is_ok());
        row[column] = SqlValue::Real(1.0f64.to_bits());
        assert_eq!(decode_row(&row), Err(StoreError::StoreReadError));
    }
    let mut row = good_row();
    row[0] = SqlValue::Blob(vec![0; 17]);
    assert_eq!(decode_row(&row), Err(StoreError::StoreReadError));
}

#[test]
fn a_score_is_a_pattern_of_32_bits() {
    for column in [8usize, 9, 10, 11, 14, 15, 16, 17, 18] {
        let mut row = good_row();
        row[column] = SqlValue::Integer(0);
        assert!(decode_row(&row).is_ok());
        row[column] = SqlValue::Integer(u32::MAX as i64);
        assert!(decode_row(&row).is_ok());
        row[column] = SqlValue::Integer(u32::MAX as i64 + 1);
        assert_eq!(decode_row(&row), Err(StoreError::StoreReadError));
        row[column] = SqlValue::Integer(-1);
        assert_eq!(decode_row(&row), Err(StoreError::StoreReadError));
        row[column] = SqlValue::Real(0.5f64.to_bits());
        assert_eq!(decode_row(&row), Err(StoreError::StoreReadError));
    }
    let mut row = good_row();
    row[17] = SqlValue::Integer(163.5f32.to_bits() as i64);
    assert_eq!(decode_row(&row).unwrap().tempo, score(163.5));
}

#[test]
fn any_number_but_zero_is_true() {
    let mut row = good_row();
    row[7] = SqlValue::Integer(0);
    assert_eq!(decode_row(&row).unwrap().explicit, false);
    row[7] = SqlValue::Integer(1);
    assert_eq!(decode_row(&row).unwrap().explicit, true);
    row[7] = SqlValue::Integer(-5);
    assert_eq!(decode_row(&row).unwrap().explicit, true);
    row[7] = SqlValue::Integer(i64::MAX);
    assert_eq!(decode_row(&row).unwrap().explicit, true);
}

#[test]
fn failures_are_classified() {
    for op in [StoreOp::Open, StoreOp::Get, StoreOp::Put] {
        assert_eq!(classify(op, Failure::Busy), StoreError::StoreUnavailable);
        assert_eq!(classify(op, Failure::Locked), StoreError::StoreUnavailable);
    }
    assert_eq!(classify(StoreOp::Open, Failure::Other), StoreError::StoreUnavailable);
    assert_eq!(classify(StoreOp::Open, Failure::KeyTaken), StoreError::StoreUnavailable);
    assert_eq!(classify(StoreOp::Get, Failure::Other), StoreError::StoreReadError);
    assert_eq!(classify(StoreOp::Get, Failure::KeyTaken), StoreError::StoreReadError);
    assert_eq!(classify(StoreOp::Put, Failure::Other), StoreError::StoreWriteError);
    assert_eq!(classify(StoreOp::Put, Failure::KeyTaken), StoreError::DuplicateKeyError);
}

#[test]
fn result_codes_match_the_engine() {
    assert_eq!(SQLITE_BUSY, rusqlite::ffi::SQLITE_BUSY);
    assert_eq!(SQLITE_LOCKED, rusqlite::ffi::SQLITE_LOCKED);
    assert_eq!(SQLITE_CONSTRAINT_PRIMARYKEY, rusqlite::ffi::SQLITE_CONSTRAINT_PRIMARYKEY);
}

#[test]
fn result_codes_are_read() {
    assert_eq!(failure_of(None), Failure::Other);
    assert_eq!(failure_of(Some(5)), Failure::Busy);
    assert_eq!(failure_of(Some(rusqlite::ffi::SQLITE_BUSY_TIMEOUT)), Failure::Busy);
    assert_eq!(failure_of(Some(rusqlite::ffi::SQLITE_BUSY_RECOVERY)), Failure::Busy);
    assert_eq!(failure_of(Some(6)), Failure::Locked);
    assert_eq!(failure_of(Some(rusqlite::ffi::SQLITE_LOCKED_SHAREDCACHE)), Failure::Locked);
    assert_eq!(failure_of(Some(1555)), Failure::KeyTaken);
    assert_eq!(failure_of(Some(rusqlite::ffi::SQLITE_CONSTRAINT_NOTNULL)), Failure::Other);
    assert_eq!(failure_of(Some(rusqlite::ffi::SQLITE_CONSTRAINT)), Failure::Other);
    assert_eq!(failure_of(Some(rusqlite::ffi::SQLITE_CANTOPEN)), Failure::Other);
    assert_eq!(failure_of(Some(rusqlite::ffi::SQLITE_CORRUPT)), Failure::Other);
    assert_eq!(failure_of(Some(0)), Failure::Other);
    assert_eq!(failure_of(Some(-251)), Failure::Other);
    assert_eq!(failure_of(Some(i32::MIN)), Failure::Other);
}

#[test]
fn a_store_that_cannot_be_opened_is_unavailable() {
    let e = match Connection::open("/no-such-directory/spotk/spotkcache.db3") {
        Ok(_) => panic!("opened a database where no directory is"),
        Err(e) => e,
    };
    assert_eq!(classify(StoreOp::Open, failure(&e)), StoreError::StoreUnavailable);
}

#[test]
fn get_after_put_returns_the_record() {
    let db = open();
    let t = track(1);
    assert_eq!(get(&db, t.id), Ok(None));
    assert_eq!(put(&db, &t), Ok(()));
    assert_eq!(get(&db, t.id), Ok(Some(t)));
    let mut u = track(2);
    u.album_cover = None;
    u.release_date = Some("1997-05-28".to_string());
    u.explicit = false;
    u.duration = -1;
    u.key = -1;
    u.loudness = score(f32::MIN_POSITIVE);
    u.tempo = score(f32::NAN);
    u.valence = score(-0.0);
    u.energy = Score { bits: u32::MAX };
    u.liveness = score(f32::NEG_INFINITY);
    assert_eq!(put(&db, &u), Ok(()));
    assert_eq!(get(&db, u.id), Ok(Some(u)));
    assert_eq!(get(&db, [3; 16]), Ok(None));
}

#[test]
fn get_twice_returns_the_same() {
    let db = open();
    let t = track(5);
    assert_eq!(get(&db, t.id), get(&db, t.id));
    put(&db, &t).unwrap();
    let first = get(&db, t.id);
    let second = get(&db, t.id);
    assert_eq!(first, second);
    assert_eq!(first, Ok(Some(t)));
}

#[test]
fn put_twice_is_a_duplicate_key() {
    let db = open();
    let t = track(1);
    assert_eq!(put(&db, &t), Ok(()));
    assert_eq!(put(&db, &t), Err(StoreError::DuplicateKeyError));
    let mut other = track(1);
    other.name = "Another".to_string();
    assert_eq!(put(&db, &other), Err(StoreError::DuplicateKeyError));
    assert_eq!(get(&db, t.id), Ok(Some(t)));
}

#[test]
fn schema_script_can_run_again() {
    let db = open();
    put(&db, &track(1)).unwrap();
    db.execute_batch(SCHEMA_SQL).unwrap();
    assert_eq!(get(&db, [1; 16]), Ok(Some(track(1))));
}

#[test]
fn a_write_without_a_table_is_a_write_error() {
    let db = Connection::open_in_memory().unwrap();
    assert_eq!(put(&db, &track(1)), Err(StoreError::StoreWriteError));
    assert_eq!(get(&db, [1; 16]), Err(StoreError::StoreReadError));
}
