use crate::color_spinner::ColorSpinner;
use crate::track::{Score, Track, TrackView};
use vstd::prelude::*;
use vstd::string::StringExecFns;

verus! {

/// The number of colours the output cycles through.
pub const PALETTE_SIZE: usize = 6;

/// The number of lines a track is presented on.
pub const LINE_COUNT: usize = 19;

/// What stands after the colon of an output line.
#[derive(Debug, PartialEq, Eq)]
pub enum Shown {
    /// A text, printed as it is.
    Text(String),
    /// A score, printed as the number whose bit pattern it holds.
    Number(Score),
}

/// What a [`Shown`] stands for in contracts.
pub enum ShownView {
    Text(Seq<char>),
    Number(Score),
}

impl View for Shown {
    type V = ShownView;

    open spec fn view(&self) -> ShownView {
        match self {
            Shown::Text(s) => ShownView::Text(s@),
            Shown::Number(x) => ShownView::Number(*x),
        }
    }
}

/// One `label: value` line of the output.
#[derive(Debug, PartialEq, Eq)]
pub struct Line {
    pub label: &'static str,
    pub value: Shown,
    /// Position in the palette of the colour the label is printed in.
    pub color: usize,
}

/// What a [`Line`] stands for in contracts.
pub struct LineView {
    pub label: Seq<char>,
    pub value: ShownView,
    pub color: nat,
}

impl View for Line {
    type V = LineView;

    open spec fn view(&self) -> LineView {
        LineView { label: self.label@, value: self.value@, color: self.color as nat }
    }
}

/// The views of a list of lines.
pub open spec fn lines_view(lines: Seq<Line>) -> Seq<LineView> {
    Seq::new(lines.len(), |i: int| lines[i]@)
}

/// The character that writes the digit `d`.
pub open spec fn digit_char(d: int) -> char {
    if d == 0 {
        '0'
    } else if d == 1 {
        '1'
    } else if d == 2 {
        '2'
    } else if d == 3 {
        '3'
    } else if d == 4 {
        '4'
    } else if d == 5 {
        '5'
    } else if d == 6 {
        '6'
    } else if d == 7 {
        '7'
    } else if d == 8 {
        '8'
    } else {
        '9'
    }
}

/// Decimal notation of a natural number, without leading zeros.
pub open spec fn decimal(n: nat) -> Seq<char>
    decreases n,
{
    if n < 10 {
        seq![digit_char(n as int)]
    } else {
        decimal(n / 10).push(digit_char((n % 10) as int))
    }
}

/// Decimal notation of an integer, with a minus sign where it is negative.
pub open spec fn signed_decimal(i: int) -> Seq<char> {
    if i < 0 {
        seq!['-'] + decimal((-i) as nat)
    } else {
        decimal(i as nat)
    }
}

/// `minutes:seconds` for a number of seconds that is not negative, the
/// seconds on two digits.
pub open spec fn clock(secs: nat) -> Seq<char> {
    decimal(secs / 60) + seq![
        ':',
        digit_char(((secs % 60) / 10) as int),
        digit_char(((secs % 60) % 10) as int),
    ]
}

/// `minutes:seconds` for any duration; a negative one is written as a minus
/// sign before its magnitude.
pub open spec fn duration_text(secs: int) -> Seq<char> {
    if secs < 0 {
        seq!['-'] + clock((-secs) as nat)
    } else {
        clock(secs as nat)
    }
}

/// The name of a pitch class in musical notation, with the enharmonic
/// alternate where there is one.
pub open spec fn key_text(key: i32) -> Seq<char> {
    if key == 0 {
        "C"@
    } else if key == 1 {
        "C#/Db"@
    } else if key == 2 {
        "D"@
    } else if key == 3 {
        "D#/Eb"@
    } else if key == 4 {
        "E"@
    } else if key == 5 {
        "F"@
    } else if key == 6 {
        "F#/Gb"@
    } else if key == 7 {
        "G"@
    } else if key == 8 {
        "G#/Ab"@
    } else if key == 9 {
        "A"@
    } else if key == 10 {
        "A#/Bb"@
    } else if key == 11 {
        "B"@
    } else {
        "no idea"@
    }
}

/// The name of a stored mode.
pub open spec fn mode_text(mode: i32) -> Seq<char> {
    if mode == 1 {
        "Major"@
    } else if mode == 2 {
        "minor"@
    } else {
        "no idea"@
    }
}

/// `true` or `false`.
pub open spec fn bool_text(b: bool) -> Seq<char> {
    if b {
        "true"@
    } else {
        "false"@
    }
}

/// The line at position `index` that shows a text.
pub open spec fn text_line(index: nat, label: Seq<char>, text: Seq<char>) -> LineView {
    LineView { label, value: ShownView::Text(text), color: index % (PALETTE_SIZE as nat) }
}

/// The line at position `index` that shows a score.
pub open spec fn number_line(index: nat, label: Seq<char>, x: Score) -> LineView {
    LineView { label, value: ShownView::Number(x), color: index % (PALETTE_SIZE as nat) }
}

/// The lines a track is presented on, in order.
pub open spec fn rendered(t: TrackView) -> Seq<LineView> {
    seq![
        text_line(0, "name"@, t.name),
        text_line(1, "artists"@, t.artists),
        text_line(2, "album"@, t.album),
        text_line(
            3,
            "album cover"@,
            match t.album_cover {
                Some(url) => url,
                None => "none"@,
            },
        ),
        text_line(
            4,
            "release date"@,
            match t.release_date {
                Some(date) => date,
                None => "no idea"@,
            },
        ),
        text_line(5, "duration"@, duration_text(t.duration as int)),
        text_line(6, "explicit"@, bool_text(t.explicit)),
        number_line(7, "danceability"@, t.danceability),
        number_line(8, "acousticness"@, t.acousticness),
        number_line(9, "energy"@, t.energy),
        number_line(10, "instrumentalness"@, t.instrumentalness),
        number_line(11, "liveness"@, t.liveness),
        number_line(12, "loudness"@, t.loudness),
        number_line(13, "speechiness"@, t.speechiness),
        number_line(14, "tempo"@, t.tempo),
        number_line(15, "valence"@, t.valence),
        text_line(16, "time signature"@, signed_decimal(t.time_signature as int) + "/4"@),
        text_line(17, "key"@, key_text(t.key)),
        text_line(18, "mode"@, mode_text(t.mode)),
    ]
}

fn digit_str(d: u64) -> (r: &'static str)
    requires
        d < 10,
    ensures
        r@ == seq![digit_char(d as int)],
{
    proof {
        reveal_strlit("0");
        reveal_strlit("1");
        reveal_strlit("2");
        reveal_strlit("3");
        reveal_strlit("4");
        reveal_strlit("5");
        reveal_strlit("6");
        reveal_strlit("7");
        reveal_strlit("8");
        reveal_strlit("9");
    }
    let r = if d == 0 {
        "0"
    } else if d == 1 {
        "1"
    } else if d == 2 {
        "2"
    } else if d == 3 {
        "3"
    } else if d == 4 {
        "4"
    } else if d == 5 {
        "5"
    } else if d == 6 {
        "6"
    } else if d == 7 {
        "7"
    } else if d == 8 {
        "8"
    } else {
        "9"
    };
    assert(r@ =~= seq![digit_char(d as int)]);
    r
}

/// Appends the decimal notation of `n` to `out`.
pub fn push_decimal(out: &mut String, n: u64)
    ensures
        final(out)@ == old(out)@ + decimal(n as nat),
    decreases n,
{
    if n >= 10 {
        push_decimal(out, n / 10);
    }
    out.append(digit_str(n % 10));
    assert(final(out)@ =~= old(out)@ + decimal(n as nat));
}

/// Appends the decimal notation of `i` to `out`.
pub fn push_signed_decimal(out: &mut String, i: i32)
    ensures
        final(out)@ == old(out)@ + signed_decimal(i as int),
{
    proof {
        reveal_strlit("-");
    }
    if i < 0 {
        out.append("-");
        push_decimal(out, (-(i as i64)) as u64);
    } else {
        push_decimal(out, i as u64);
    }
    assert(final(out)@ =~= old(out)@ + signed_decimal(i as int));
}

/// A duration in whole seconds as `minutes:seconds`.
pub fn format_duration(secs: i32) -> (r: String)
    ensures
        r@ == duration_text(secs as int),
{
    proof {
        reveal_strlit("-");
        reveal_strlit(":");
    }
    let mut out = String::new();
    let magnitude: u64 = if secs < 0 {
        out.append("-");
        (-(secs as i64)) as u64
    } else {
        secs as u64
    };
    let rest: u64 = magnitude % 60;
    push_decimal(&mut out, magnitude / 60);
    out.append(":");
    out.append(digit_str(rest / 10));
    out.append(digit_str(rest % 10));
    assert(out@ =~= duration_text(secs as int));
    out
}

/// The name of a pitch class: `C` to `B` for 0 to 11, `no idea` otherwise.
pub fn key_name(key: i32) -> (r: &'static str)
    ensures
        r@ == key_text(key),
{
    match key {
        0 => "C",
        1 => "C#/Db",
        2 => "D",
        3 => "D#/Eb",
        4 => "E",
        5 => "F",
        6 => "F#/Gb",
        7 => "G",
        8 => "G#/Ab",
        9 => "A",
        10 => "A#/Bb",
        11 => "B",
        _ => "no idea",
    }
}

/// The name of a stored mode: `Major` for 1, `minor` for 2, `no idea`
/// otherwise.
pub fn mode_name(mode: i32) -> (r: &'static str)
    ensures
        r@ == mode_text(mode),
{
    match mode {
        1 => "Major",
        2 => "minor",
        _ => "no idea",
    }
}

fn text(s: &str) -> (r: Shown)
    ensures
        r@ == ShownView::Text(s@),
{
    Shown::Text(String::from_str(s))
}

fn push_line(lines: &mut Vec<Line>, spinner: &mut ColorSpinner, label: &'static str, value: Shown)
    requires
        old(spinner).size() == PALETTE_SIZE,
        old(spinner).count() == old(lines)@.len(),
        old(lines)@.len() < LINE_COUNT,
    ensures
        final(spinner).size() == PALETTE_SIZE,
        final(spinner).count() == final(lines)@.len(),
        final(lines)@.len() == old(lines)@.len() + 1,
        lines_view(final(lines)@) == lines_view(old(lines)@).push(
            LineView {
                label: label@,
                value: value@,
                color: old(lines)@.len() % (PALETTE_SIZE as nat),
            },
        ),
{
    let color = spinner.next();
    lines.push(Line { label, value, color });
    assert(lines_view(lines@) =~= lines_view(old(lines)@).push(
        LineView { label: label@, value: value@, color: old(lines)@.len() % (PALETTE_SIZE as nat) },
    ));
}

/// The lines to print for a track: one per field but the id, each with the
/// position of its colour, the colours taken from the palette in turn.
pub fn render(track: &Track) -> (r: Vec<Line>)
    ensures
        lines_view(r@) == rendered(track@),
{
    let mut spinner = ColorSpinner::new(PALETTE_SIZE);
    let mut lines: Vec<Line> = Vec::new();
    assert(lines_view(lines@) =~= Seq::<LineView>::empty());

    push_line(&mut lines, &mut spinner, "name", text(track.name.as_str()));
    push_line(&mut lines, &mut spinner, "artists", text(track.artists.as_str()));
    push_line(&mut lines, &mut spinner, "album", text(track.album.as_str()));
    let cover = match &track.album_cover {
        Some(url) => text(url.as_str()),
        None => text("none"),
    };
    push_line(&mut lines, &mut spinner, "album cover", cover);
    let date = match &track.release_date {
        Some(date) => text(date.as_str()),
        None => text("no idea"),
    };
    push_line(&mut lines, &mut spinner, "release date", date);
    push_line(&mut lines, &mut spinner, "duration", Shown::Text(format_duration(track.duration)));
    let explicit = if track.explicit {
        text("true")
    } else {
        text("false")
    };
    push_line(&mut lines, &mut spinner, "explicit", explicit);
    push_line(&mut lines, &mut spinner, "danceability", Shown::Number(track.danceability));
    push_line(&mut lines, &mut spinner, "acousticness", Shown::Number(track.acousticness));
    push_line(&mut lines, &mut spinner, "energy", Shown::Number(track.energy));
    push_line(&mut lines, &mut spinner, "instrumentalness", Shown::Number(track.instrumentalness));
    push_line(&mut lines, &mut spinner, "liveness", Shown::Number(track.liveness));
    push_line(&mut lines, &mut spinner, "loudness", Shown::Number(track.loudness));
    push_line(&mut lines, &mut spinner, "speechiness", Shown::Number(track.speechiness));
    push_line(&mut lines, &mut spinner, "tempo", Shown::Number(track.tempo));
    push_line(&mut lines, &mut spinner, "valence", Shown::Number(track.valence));
    let mut signature = String::new();
    push_signed_decimal(&mut signature, track.time_signature);
    signature.append("/4");
    push_line(&mut lines, &mut spinner, "time signature", Shown::Text(signature));
    push_line(&mut lines, &mut spinner, "key", text(key_name(track.key)));
    push_line(&mut lines, &mut spinner, "mode", text(mode_name(track.mode)));

    assert(lines_view(lines@) =~= rendered(track@));
    lines
}

} // verus!
