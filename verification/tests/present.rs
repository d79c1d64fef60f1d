use spotk::present::{
    format_duration, key_name, mode_name, push_decimal, push_signed_decimal, render, Line, Shown,
};
use spotk::track::{Score, Track};

fn score(x: f32) -> Score {
    Score { bits: x.to_bits() }
}

fn track() -> Track {
    Track {
        id: [9; 16],
        name: "Paranoid Android".to_string(),
        artists: "Radiohead".to_string(),
        album: "OK Computer".to_string(),
        album_cover: Some("https://i.scdn.co/image/x".to_string()),
        release_date: Some("1997-05-28".to_string()),
        duration: 125,
        explicit: true,
        danceability: score(0.25),
        acousticness: score(0.5),
        energy: score(0.75),
        instrumentalness: score(1.0),
        key: 12,
        mode: 0,
        liveness: score(1.25),
        loudness: score(-6.5),
        speechiness: score(1.75),
        tempo: score(163.5),
        valence: score(2.25),
        time_signature: 4,
    }
}

fn text(label: &'static str, value: &str, color: usize) -> Line {
    Line { label, value: Shown::Text(value.to_string()), color }
}

fn number(label: &'static str, value: f32, color: usize) -> Line {
    Line { label, value: Shown::Number(score(value)), color }
}

#[test]
fn duration_is_shown_as_minutes_and_seconds() {
    assert_eq!(format_duration(125), "2:05");
    assert_eq!(format_duration(0), "0:00");
    assert_eq!(format_duration(59), "0:59");
    assert_eq!(format_duration(60), "1:00");
    assert_eq!(format_duration(387), "6:27");
    assert_eq!(format_duration(3600), "60:00");
    assert_eq!(format_duration(i32::MAX), "35791394:07");
}

#[test]
fn negative_duration_carries_a_sign() {
    assert_eq!(format_duration(-1), "-0:01");
    assert_eq!(format_duration(-125), "-2:05");
    assert_eq!(format_duration(i32::MIN), "-35791394:08");
}

#[test]
fn decimal_notation() {
    let mut out = String::from("n=");
    push_decimal(&mut out, 0);
    assert_eq!(out, "n=0");
    push_decimal(&mut out, 1234567890);
    assert_eq!(out, "n=01234567890");
    let mut out = String::new();
    push_decimal(&mut out, u64::MAX);
    assert_eq!(out, "18446744073709551615");
    let mut out = String::new();
    push_signed_decimal(&mut out, -40);
    push_signed_decimal(&mut out, 7);
    push_signed_decimal(&mut out, i32::MIN);
    push_signed_decimal(&mut out, i32::MAX);
    assert_eq!(out, "-407-21474836482147483647");
}

#[test]
fn pitch_classes_have_their_names() {
    let names = ["C", "C#/Db", "D", "D#/Eb", "E", "F", "F#/Gb", "G", "G#/Ab", "A", "A#/Bb", "B"];
    for (key, name) in names.iter().enumerate() {
        assert_eq!(key_name(key as i32), *name);
    }
}

#[test]
fn unknown_key_and_mode_are_no_idea() {
    assert_eq!(key_name(12), "no idea");
    assert_eq!(key_name(-1), "no idea");
    assert_eq!(key_name(i32::MAX), "no idea");
    assert_eq!(mode_name(0), "no idea");
    assert_eq!(mode_name(3), "no idea");
    assert_eq!(mode_name(-1), "no idea");
}

#[test]
fn modes_have_their_names() {
    assert_eq!(mode_name(1), "Major");
    assert_eq!(mode_name(2), "minor");
}

#[test]
fn a_track_is_presented_on_nineteen_lines() {
    let expected = vec![
        text("name", "Paranoid Android", 0),
        text("artists", "Radiohead", 1),
        text("album", "OK Computer", 2),
        text("album cover", "https://i.scdn.co/image/x", 3),
        text("release date", "1997-05-28", 4),
        text("duration", "2:05", 5),
        text("explicit", "true", 0),
        number("danceability", 0.25, 1),
        number("acousticness", 0.5, 2),
        number("energy", 0.75, 3),
        number("instrumentalness", 1.0, 4),
        number("liveness", 1.25, 5),
        number("loudness", -6.5, 0),
        number("speechiness", 1.75, 1),
        number("tempo", 163.5, 2),
        number("valence", 2.25, 3),
        text("time signature", "4/4", 4),
        text("key", "no idea", 5),
        text("mode", "no idea", 0),
    ];
    assert_eq!(render(&track()), expected);
}

#[test]
fn missing_cover_and_date_are_said_so() {
    let mut t = track();
    t.album_cover = None;
    t.release_date = None;
    t.explicit = false;
    t.key = 6;
    t.mode = 2;
    t.time_signature = -3;
    let lines = render(&t);
    assert_eq!(lines[3], text("album cover", "none", 3));
    assert_eq!(lines[4], text("release date", "no idea", 4));
    assert_eq!(lines[6], text("explicit", "false", 0));
    assert_eq!(lines[16], text("time signature", "-3/4", 4));
    assert_eq!(lines[17], text("key", "F#/Gb", 5));
    assert_eq!(lines[18], text("mode", "minor", 0));
}
