use spotk::resolver::{decode_key, key_bytes, parse_track_id, resolve, ResolveError};

const ID: &str = "4iV5W9uYEdYUVa79Axb7Rh";

fn id_of(raw: &str) -> Result<String, ResolveError> {
    parse_track_id(raw)
}

#[test]
fn bare_id_resolves_to_itself() {
    let found = resolve(ID).unwrap();
    assert_eq!(found.canonical_id, ID);
    let value = base62::decode(ID).unwrap();
    assert_eq!(found.key, value.to_be_bytes());
}

#[test]
fn key_is_sixteen_bytes_most_significant_first() {
    // "10" in base 62 is 62, "1A" is 62 + 10, "z" is 61.
    let mut expected = [0u8; 16];
    expected[15] = 62;
    assert_eq!(decode_key("10"), Ok(expected));
    expected[15] = 72;
    assert_eq!(decode_key("1A"), Ok(expected));
    expected[15] = 61;
    assert_eq!(decode_key("z"), Ok(expected));
    // 62^2 * 4 + 62 * 10 + 36 = 16032 = 0x3EA0
    expected[14] = 0x3e;
    expected[15] = 0xa0;
    assert_eq!(decode_key("4Aa"), Ok(expected));
}

#[test]
fn key_bytes_are_big_endian() {
    assert_eq!(key_bytes(0), [0; 16]);
    assert_eq!(key_bytes(1), [0, 0, 0, 0, 0, 0, 0, 0, 0, 0, 0, 0, 0, 0, 0, 1]);
    assert_eq!(key_bytes(0x0102), [0, 0, 0, 0, 0, 0, 0, 0, 0, 0, 0, 0, 0, 0, 1, 2]);
    assert_eq!(
        key_bytes(0x0102_0304_0506_0708_090a_0b0c_0d0e_0f10),
        [1, 2, 3, 4, 5, 6, 7, 8, 9, 10, 11, 12, 13, 14, 15, 16]
    );
    assert_eq!(key_bytes(u128::MAX), [0xff; 16]);
    assert_eq!(key_bytes(0xdead_beef), 0xdead_beef_u128.to_be_bytes());
}

#[test]
fn resolving_twice_gives_the_same_result() {
    assert_eq!(resolve(ID), resolve(ID));
    assert_eq!(resolve("spotify:track:4iV5W9uYEdYUVa79Axb7Rh"), resolve("spotify:track:4iV5W9uYEdYUVa79Axb7Rh"));
    assert_eq!(resolve("no track"), resolve("no track"));
}

#[test]
fn uri_and_url_resolve_like_the_bare_id() {
    let bare = resolve(ID).unwrap();
    assert_eq!(resolve("spotify:track:4iV5W9uYEdYUVa79Axb7Rh").unwrap(), bare);
    assert_eq!(resolve("spotify/track/4iV5W9uYEdYUVa79Axb7Rh").unwrap(), bare);
    assert_eq!(resolve("https://open.spotify.com/track/4iV5W9uYEdYUVa79Axb7Rh").unwrap(), bare);
    assert_eq!(resolve("http://open.spotify.com/track/4iV5W9uYEdYUVa79Axb7Rh").unwrap(), bare);
    assert_eq!(
        resolve("https://open.spotify.com/track/4iV5W9uYEdYUVa79Axb7Rh?si=abc123").unwrap(),
        bare
    );
    assert_eq!(
        resolve("https://open.spotify.com/track/4iV5W9uYEdYUVa79Axb7Rh?").unwrap(),
        bare
    );
}

#[test]
fn different_ids_have_different_keys() {
    let a = resolve("4iV5W9uYEdYUVa79Axb7Rh").unwrap();
    let b = resolve("4iV5W9uYEdYUVa79Axb7Ri").unwrap();
    assert_ne!(a.key, b.key);
}

#[test]
fn uri_forms_that_name_a_track() {
    assert_eq!(id_of("spotify:track:abc"), Ok("abc".to_string()));
    assert_eq!(id_of("spotify/track/abc"), Ok("abc".to_string()));
    // Without a separator behind it the scheme is a word like any other.
    assert_eq!(id_of("spotify"), Ok("spotify".to_string()));
    assert_eq!(id_of("spotifyXtrack"), Ok("spotifyXtrack".to_string()));
    // Letters and digits alone: the empty text among them.
    assert_eq!(id_of("spotify:track:"), Ok(String::new()));
    assert_eq!(id_of(""), Ok(String::new()));
}

#[test]
fn unrecognized_forms_are_invalid_identifiers() {
    let invalid = Err(ResolveError::InvalidIdentifier);
    assert_eq!(id_of("spotify:album:4iV5W9uYEdYUVa79Axb7Rh"), invalid);
    assert_eq!(id_of("spotify:Track:abc"), invalid);
    assert_eq!(id_of("spotify:track:a:b"), invalid);
    assert_eq!(id_of("spotify:user:track:abc"), invalid);
    assert_eq!(id_of("spotify:track/abc"), invalid);
    assert_eq!(id_of("spotify/track:abc"), invalid);
    assert_eq!(id_of("spotify:"), invalid);
    assert_eq!(id_of("spotify:track"), invalid);
    assert_eq!(id_of("spotify:track:ab-c"), invalid);
    assert_eq!(id_of("spotify:track:abc "), invalid);
    assert_eq!(id_of("not an id"), invalid);
    assert_eq!(id_of("abc_def"), invalid);
    assert_eq!(id_of("\u{e9}t\u{e9}"), invalid);
    assert_eq!(id_of("spotify:track:\u{e9}"), invalid);
    assert_eq!(resolve("not an id"), Err(ResolveError::InvalidIdentifier));
}

#[test]
fn url_forms() {
    assert_eq!(id_of("https://open.spotify.com/track/abc?si=1&x=?"), Ok("abc".to_string()));
    assert_eq!(id_of("https://open.spotify.com/track/"), Ok(String::new()));
    let invalid = Err(ResolveError::InvalidIdentifier);
    assert_eq!(id_of("https://open.spotify.com/track/abc/def"), invalid);
    assert_eq!(id_of("https://open.spotify.com/track/abc#top"), invalid);
    assert_eq!(id_of("https://open.spotify.com/album/abc"), invalid);
    assert_eq!(id_of("https://open.spotify.com/track"), invalid);
    assert_eq!(id_of("https://example.com/track/abc"), invalid);
    assert_eq!(id_of("ftp://open.spotify.com/track/abc"), invalid);
    assert_eq!(id_of("https://open.spotify.com/track/abc?si=\u{e9}"), invalid);
    assert_eq!(id_of("https://open.spotify.com/track/spotify:track:abc"), invalid);
}

#[test]
fn key_decode_errors() {
    let failed = Err(ResolveError::KeyDecodeError);
    // Empty, and one more than the greatest number of 128 bits.
    assert_eq!(decode_key(""), failed);
    assert_eq!(decode_key("7n42DGM5Tflk9n8mt7Fhc8"), failed);
    assert_eq!(decode_key("zzzzzzzzzzzzzzzzzzzzzz"), failed);
    assert_eq!(decode_key("10000000000000000000000"), failed);
    // Bytes outside the alphabet.
    assert_eq!(decode_key("ab!"), failed);
    assert_eq!(decode_key("a b"), failed);
    assert_eq!(decode_key("\u{e9}"), failed);
    assert_eq!(decode_key("spotify:track:abc"), failed);
    assert_eq!(resolve(""), Err(ResolveError::KeyDecodeError));
    assert_eq!(resolve("spotify:track:zzzzzzzzzzzzzzzzzzzzzz"), Err(ResolveError::KeyDecodeError));
}

#[test]
fn greatest_key_and_leading_zeros() {
    assert_eq!(decode_key("7n42DGM5Tflk9n8mt7Fhc7"), Ok([0xff; 16]));
    assert_eq!(decode_key("0007n42DGM5Tflk9n8mt7Fhc7"), Ok([0xff; 16]));
    assert_eq!(decode_key("0"), Ok([0; 16]));
    assert_eq!(decode_key("000000000000000000000000000000"), Ok([0; 16]));
    let mut one = [0u8; 16];
    one[15] = 1;
    assert_eq!(decode_key("00000000000000000000000000000001"), Ok(one));
}

#[test]
fn the_client_takes_every_id_that_is_parsed() {
    for raw in [
        ID,
        "spotify:track:4iV5W9uYEdYUVa79Axb7Rh",
        "spotify/track/abc",
        "https://open.spotify.com/track/4iV5W9uYEdYUVa79Axb7Rh?si=abc123",
        "spotify",
        "",
    ] {
        let id = parse_track_id(raw).unwrap();
        let taken = rspotify::model::TrackId::from_id(id.as_str()).unwrap();
        assert_eq!(rspotify::prelude::Id::id(&taken), id);
    }
}
