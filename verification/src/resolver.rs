use rspotify::prelude::Id;
use vstd::prelude::*;
use vstd::string::{StrSliceExecFns, StringSliceAdditionalSpecFns};
use vstd::utf8::{encode_utf8, is_ascii_chars};

verus! {

/// Why an input names no track.
#[derive(Clone, Copy, Debug, PartialEq, Eq, Structural)]
pub enum ResolveError {
    /// The input is no track URI, no track URL and no bare id.
    InvalidIdentifier,
    /// The id is no base62 number, or one of more than 128 bits.
    KeyDecodeError,
}

/// A track as the input names it: the provider's id and the key under which
/// the store holds the track.
#[derive(Debug, PartialEq, Eq)]
pub struct Resolved {
    pub canonical_id: String,
    pub key: [u8; 16],
}

/// What a [`Resolved`] stands for in contracts.
pub struct ResolvedView {
    pub canonical_id: Seq<char>,
    pub key: Seq<u8>,
}

impl View for Resolved {
    type V = ResolvedView;

    open spec fn view(&self) -> ResolvedView {
        ResolvedView { canonical_id: self.canonical_id@, key: self.key@ }
    }
}

/// The error of `base62::decode`. Nothing is read of it.
#[verifier::external_type_specification]
#[verifier::external_body]
pub struct ExDecodeError(base62::DecodeError);

/// The error of rspotify's id parsers. Nothing is read of it.
#[verifier::external_type_specification]
#[verifier::external_body]
pub struct ExIdError(rspotify::model::IdError);

/// Whether `c` is an ASCII letter or digit.
pub open spec fn is_alnum(c: char) -> bool {
    ('0' <= c <= '9') || ('A' <= c <= 'Z') || ('a' <= c <= 'z')
}

/// Whether `s` holds ASCII letters and digits alone.
pub open spec fn all_alnum(s: Seq<char>) -> bool {
    forall|i: int| 0 <= i < s.len() ==> is_alnum(#[trigger] s[i])
}

/// The word that a track URI starts with.
pub open spec fn uri_scheme() -> Seq<char> {
    seq!['s', 'p', 'o', 't', 'i', 'f', 'y']
}

/// The word by which a URI says that it names a track.
pub open spec fn track_word() -> Seq<char> {
    seq!['t', 'r', 'a', 'c', 'k']
}

/// Whether `s` starts like a URI: the scheme, then `:` or `/`.
pub open spec fn has_scheme(s: Seq<char>) -> bool {
    s.len() > 7 && s.take(7) == uri_scheme() && (s[7] == ':' || s[7] == '/')
}

/// Position of the last `c` in `s`, or -1 where there is none.
pub open spec fn last_index_of(s: Seq<char>, c: char) -> int
    decreases s.len(),
{
    if s.len() == 0 {
        -1
    } else if s.last() == c {
        s.len() - 1
    } else {
        last_index_of(s.drop_last(), c)
    }
}

/// The id in a track URI or a bare id.
///
/// A text that starts with `spotify:` or `spotify/` is a URI, and that
/// separator is its only one: what follows is cut at the separator's last
/// occurrence, the part before it must be the word `track`, and the part
/// behind it, made of letters and digits alone, is the id. Any other text is
/// itself the id if it is made of letters and digits alone.
pub open spec fn uri_or_id(s: Seq<char>) -> Option<Seq<char>> {
    if has_scheme(s) {
        let rest = s.skip(8);
        let mid = last_index_of(rest, s[7]);
        if mid >= 0 && rest.take(mid) == track_word() && all_alnum(rest.skip(mid + 1)) {
            Some(rest.skip(mid + 1))
        } else {
            None
        }
    } else if all_alnum(s) {
        Some(s)
    } else {
        None
    }
}

/// What a track URL starts with when it is given with `https`.
pub open spec fn secure_url_prefix() -> Seq<char> {
    "https://open.spotify.com/track/"@
}

/// What a track URL starts with when it is given with `http`.
pub open spec fn plain_url_prefix() -> Seq<char> {
    "http://open.spotify.com/track/"@
}

/// Position of the first `c` in `s`, or the length of `s` where there is
/// none.
pub open spec fn first_index_of(s: Seq<char>, c: char) -> int
    decreases s.len(),
{
    if s.len() == 0 {
        0
    } else if s[0] == c {
        0
    } else {
        1 + first_index_of(s.drop_first(), c)
    }
}

/// The part of `s` before its query, that is before the first `?`.
pub open spec fn before_query(s: Seq<char>) -> Seq<char> {
    s.take(first_index_of(s, '?'))
}

/// The last path segment of a track URL: what stands between the prefix
/// `https://open.spotify.com/track/` (or the same with `http`) and the
/// query. A text with a character outside ASCII is no URL.
pub open spec fn url_segment(s: Seq<char>) -> Option<Seq<char>> {
    if !is_ascii_chars(s) {
        None
    } else if secure_url_prefix().is_prefix_of(s) {
        Some(before_query(s.skip(secure_url_prefix().len() as int)))
    } else if plain_url_prefix().is_prefix_of(s) {
        Some(before_query(s.skip(plain_url_prefix().len() as int)))
    } else {
        None
    }
}

/// The provider's id of the track that `raw` names, if it names one: the
/// segment of a track URL, the id of a track URI, or `raw` itself.
pub open spec fn canonical_id(raw: Seq<char>) -> Option<Seq<char>> {
    match url_segment(raw) {
        Some(segment) => if all_alnum(segment) {
            Some(segment)
        } else {
            None
        },
        None => uri_or_id(raw),
    }
}

/// Value of one base62 digit in the standard ordering (`0-9`, `A-Z`, `a-z`),
/// or `None` for a byte outside the alphabet.
pub open spec fn digit_value(b: u8) -> Option<nat> {
    if 0x30 <= b <= 0x39 {
        Some((b - 0x30) as nat)
    } else if 0x41 <= b <= 0x5A {
        Some((b - 0x41 + 10) as nat)
    } else if 0x61 <= b <= 0x7A {
        Some((b - 0x61 + 36) as nat)
    } else {
        None
    }
}

/// Whether every byte of `s` is a base62 digit.
pub open spec fn all_digits(s: Seq<u8>) -> bool {
    forall|i: int| 0 <= i < s.len() ==> digit_value(#[trigger] s[i]) is Some
}

/// The number that the digits `s` write in base 62, most significant digit
/// first. A byte that is no digit counts as 0.
pub open spec fn base62_value(s: Seq<u8>) -> nat
    decreases s.len(),
{
    if s.len() == 0 {
        0
    } else {
        base62_value(s.drop_last()) * 62 + match digit_value(s.last()) {
            Some(d) => d,
            None => 0,
        }
    }
}

/// Whether `s` writes a number of at most 128 bits in base 62.
pub open spec fn decodable(s: Seq<u8>) -> bool {
    s.len() > 0 && all_digits(s) && base62_value(s) <= u128::MAX
}

/// The `n` low-order bytes of `v`, most significant byte first.
pub open spec fn be_bytes(v: nat, n: nat) -> Seq<u8>
    decreases n,
{
    if n == 0 {
        Seq::empty()
    } else {
        be_bytes(v / 256, (n - 1) as nat).push((v % 256) as u8)
    }
}

/// The key of the track with the id `id`: the id read as a base62 number,
/// written on sixteen bytes, most significant byte first.
pub open spec fn key_of(id: Seq<char>) -> Option<Seq<u8>> {
    if decodable(encode_utf8(id)) {
        Some(be_bytes(base62_value(encode_utf8(id)), 16))
    } else {
        None
    }
}

/// What `raw` resolves to: the id and the key, or the reason why there is
/// none.
pub open spec fn resolution(raw: Seq<char>) -> Result<ResolvedView, ResolveError> {
    match canonical_id(raw) {
        None => Err(ResolveError::InvalidIdentifier),
        Some(id) => match key_of(id) {
            None => Err(ResolveError::KeyDecodeError),
            Some(key) => Ok(ResolvedView { canonical_id: id, key }),
        },
    }
}

/// `TrackId::from_id_or_uri` of rspotify, with the id of the parsed value as
/// an owned text. The contract restates the function: it succeeds exactly on
/// the texts that `uri_or_id` reads, with the id that `uri_or_id` gives.
#[verifier::external_body]
fn track_id_of(text: &str) -> (r: Result<String, rspotify::model::IdError>)
    ensures
        r is Ok <==> uri_or_id(text@) is Some,
        r matches Ok(id) ==> uri_or_id(text@) == Some(id@),
{
    match rspotify::model::TrackId::from_id_or_uri(text) {
        Ok(id) => Ok(id.id().to_owned()),
        Err(e) => Err(e),
    }
}

/// `base62::decode` on a byte slice. The contract restates the function: it
/// succeeds exactly on a non-empty run of digits of the standard alphabet
/// whose value fits in 128 bits, and then returns that value.
#[verifier::external_body]
fn base62_decode(input: &[u8]) -> (r: Result<u128, base62::DecodeError>)
    ensures
        r is Ok <==> decodable(input@),
        r matches Ok(v) ==> v == base62_value(input@),
{
    base62::decode(input)
}

/// Whether the ASCII text `s` starts with the ASCII text `prefix`.
fn starts_with(s: &str, prefix: &str) -> (r: bool)
    requires
        is_ascii_chars(s@),
        is_ascii_chars(prefix@),
    ensures
        r == prefix@.is_prefix_of(s@),
{
    let n = prefix.unicode_len();
    if s.unicode_len() < n {
        return false;
    }
    let mut i: usize = 0;
    while i < n
        invariant
            i <= n,
            n == prefix@.len(),
            n <= s@.len(),
            is_ascii_chars(s@),
            is_ascii_chars(prefix@),
            forall|j: int| 0 <= j < i ==> s@[j] == prefix@[j],
        decreases n - i,
    {
        if s.get_ascii(i) != prefix.get_ascii(i) {
            assert(s@.subrange(0, n as int)[i as int] != prefix@[i as int]);
            return false;
        }
        i = i + 1;
    }
    assert(s@.subrange(0, n as int) =~= prefix@);
    true
}

/// Whether the ASCII text `s` holds letters and digits alone.
fn is_alnum_text(s: &str) -> (r: bool)
    requires
        is_ascii_chars(s@),
    ensures
        r == all_alnum(s@),
{
    let n = s.unicode_len();
    let mut i: usize = 0;
    while i < n
        invariant
            i <= n,
            n == s@.len(),
            is_ascii_chars(s@),
            forall|j: int| 0 <= j < i ==> is_alnum(#[trigger] s@[j]),
        decreases n - i,
    {
        let b = s.get_ascii(i);
        if !((0x30 <= b && b <= 0x39) || (0x41 <= b && b <= 0x5A) || (0x61 <= b && b <= 0x7A)) {
            assert(!is_alnum(s@[i as int]));
            return false;
        }
        i = i + 1;
    }
    true
}

/// The part of the ASCII text `s` from position `start` up to the query.
fn segment_from(s: &str, start: usize) -> (r: &str)
    requires
        is_ascii_chars(s@),
        start <= s@.len(),
    ensures
        r@ == before_query(s@.skip(start as int)),
        is_ascii_chars(r@),
{
    let n = s.unicode_len();
    let mut end: usize = start;
    let ghost tail = s@.skip(start as int);
    assert(tail.skip(0) =~= tail);
    while end < n && s.get_ascii(end) != 0x3F
        invariant
            start <= end <= n,
            n == s@.len(),
            is_ascii_chars(s@),
            tail == s@.skip(start as int),
            first_index_of(tail, '?') == (end - start) + first_index_of(
                tail.skip(end - start),
                '?',
            ),
        decreases n - end,
    {
        let ghost here = tail.skip(end - start);
        assert(here[0] == s@[end as int]);
        assert(here.drop_first() =~= tail.skip(end - start + 1));
        end = end + 1;
    }
    proof {
        let here = tail.skip(end - start);
        if end < n {
            assert(here[0] == s@[end as int]);
        }
        assert(first_index_of(here, '?') == 0);
        assert(s@.subrange(start as int, end as int) =~= tail.take(end - start));
    }
    s.substring_ascii(start, end)
}

/// The last path segment of `raw` where `raw` is a track URL.
fn url_segment_of(raw: &str) -> (r: Option<&str>)
    ensures
        r is Some <==> url_segment(raw@) is Some,
        r matches Some(segment) ==> url_segment(raw@) == Some(segment@) && is_ascii_chars(
            segment@,
        ),
{
    if !raw.is_ascii() {
        return None;
    }
    proof {
        reveal_strlit("https://open.spotify.com/track/");
        reveal_strlit("http://open.spotify.com/track/");
    }
    if starts_with(raw, "https://open.spotify.com/track/") {
        Some(segment_from(raw, 31))
    } else if starts_with(raw, "http://open.spotify.com/track/") {
        Some(segment_from(raw, 30))
    } else {
        None
    }
}

/// The provider's id of the track that `raw` names.
///
/// `raw` may be a track URL (`https://open.spotify.com/track/` and the id,
/// a query may follow), a track URI (`spotify:track:` and the id) or the
/// bare id. Fails with `InvalidIdentifier` on every other text.
pub fn parse_track_id(raw: &str) -> (r: Result<String, ResolveError>)
    ensures
        r is Ok <==> canonical_id(raw@) is Some,
        r matches Ok(id) ==> canonical_id(raw@) == Some(id@),
        r matches Err(e) ==> e == ResolveError::InvalidIdentifier,
{
    match url_segment_of(raw) {
        Some(segment) => {
            if is_alnum_text(segment) {
                Ok(segment.to_owned())
            } else {
                Err(ResolveError::InvalidIdentifier)
            }
        },
        None => match track_id_of(raw) {
            Ok(id) => Ok(id),
            Err(_) => Err(ResolveError::InvalidIdentifier),
        },
    }
}

/// The sixteen bytes of `v`, most significant byte first.
pub fn key_bytes(v: u128) -> (r: [u8; 16])
    ensures
        r@ == be_bytes(v as nat, 16),
{
    let mut out = [0u8; 16];
    let mut rest: u128 = v;
    let mut i: usize = 16;
    while i > 0
        invariant
            i <= 16,
            be_bytes(v as nat, 16) == be_bytes(rest as nat, i as nat) + out@.skip(i as int),
        decreases i,
    {
        i = i - 1;
        out[i] = (rest % 256) as u8;
        rest = rest / 256;
        assert(be_bytes(v as nat, 16) =~= be_bytes(rest as nat, i as nat) + out@.skip(i as int));
    }
    assert(out@.skip(0) =~= out@);
    out
}

/// The key of the track with the id `canonical_id`.
///
/// Fails with `KeyDecodeError` where the id is empty, holds anything but
/// base62 digits, or writes a number of more than 128 bits.
pub fn decode_key(canonical_id: &str) -> (r: Result<[u8; 16], ResolveError>)
    ensures
        r is Ok <==> key_of(canonical_id@) is Some,
        r matches Ok(key) ==> key_of(canonical_id@) == Some(key@),
        r matches Err(e) ==> e == ResolveError::KeyDecodeError,
{
    match base62_decode(canonical_id.as_bytes()) {
        Ok(v) => Ok(key_bytes(v)),
        Err(_) => Err(ResolveError::KeyDecodeError),
    }
}

/// Resolves what the user typed to the provider's id of a track and the key
/// of that track in the store.
///
/// The result depends on the characters of `raw` alone. Fails with
/// `InvalidIdentifier` where `raw` names no track, and with `KeyDecodeError`
/// where the id that it names has no key.
pub fn resolve(raw: &str) -> (r: Result<Resolved, ResolveError>)
    ensures
        r is Ok <==> resolution(raw@) is Ok,
        r matches Ok(found) ==> resolution(raw@) == Ok::<ResolvedView, ResolveError>(found@),
        r matches Err(e) ==> resolution(raw@) == Err::<ResolvedView, ResolveError>(e),
{
    let canonical_id = parse_track_id(raw)?;
    let key = decode_key(canonical_id.as_str())?;
    Ok(Resolved { canonical_id, key })
}

/// In a text that ends with a part free of `c`, the last `c` is the last
/// `c` of the part before.
proof fn lemma_last_index_skips_tail(head: Seq<char>, tail: Seq<char>, c: char)
    requires
        forall|i: int| 0 <= i < tail.len() ==> tail[i] != c,
    ensures
        last_index_of(head + tail, c) == last_index_of(head, c),
    decreases tail.len(),
{
    if tail.len() == 0 {
        assert(head + tail =~= head);
    } else {
        let whole = head + tail;
        assert(whole.last() == tail.last());
        assert(whole.drop_last() =~= head + tail.drop_last());
        lemma_last_index_skips_tail(head, tail.drop_last(), c);
    }
}

/// In a text that starts with a part free of `c`, the first `c` comes as
/// far behind that part as it comes in the rest.
proof fn lemma_first_index_skips_head(head: Seq<char>, tail: Seq<char>, c: char)
    requires
        forall|i: int| 0 <= i < head.len() ==> head[i] != c,
    ensures
        first_index_of(head + tail, c) == head.len() + first_index_of(tail, c),
    decreases head.len(),
{
    if head.len() == 0 {
        assert(head + tail =~= tail);
    } else {
        let whole = head + tail;
        assert(whole[0] == head[0]);
        assert(whole.drop_first() =~= head.drop_first() + tail);
        lemma_first_index_skips_head(head.drop_first(), tail, c);
    }
}

/// The URI of the track with the id `id`, written with the separator `sep`.
pub open spec fn track_uri(sep: char, id: Seq<char>) -> Seq<char> {
    uri_scheme() + seq![sep] + track_word() + seq![sep] + id
}

/// The URL of the track with the id `id`, followed by `rest`.
pub open spec fn track_url(id: Seq<char>, rest: Seq<char>) -> Seq<char> {
    secure_url_prefix() + id + rest
}

/// A text of letters and digits is its own id.
pub proof fn lemma_bare_id(id: Seq<char>)
    requires
        all_alnum(id),
    ensures
        canonical_id(id) == Some(id),
{
    reveal_strlit("https://open.spotify.com/track/");
    reveal_strlit("http://open.spotify.com/track/");
    if secure_url_prefix().is_prefix_of(id) {
        assert(id.subrange(0, secure_url_prefix().len() as int)[5] == secure_url_prefix()[5]);
        assert(is_alnum(id[5]));
    }
    if plain_url_prefix().is_prefix_of(id) {
        assert(id.subrange(0, plain_url_prefix().len() as int)[4] == plain_url_prefix()[4]);
        assert(is_alnum(id[4]));
    }
    if id.len() > 7 {
        assert(is_alnum(id[7]));
    }
}

/// A track URI names the id that it ends with, whether it is written with
/// `:` or with `/`.
pub proof fn lemma_uri_names_id(sep: char, id: Seq<char>)
    requires
        sep == ':' || sep == '/',
        all_alnum(id),
    ensures
        canonical_id(track_uri(sep, id)) == Some(id),
{
    reveal_strlit("https://open.spotify.com/track/");
    reveal_strlit("http://open.spotify.com/track/");
    let s = track_uri(sep, id);
    if secure_url_prefix().is_prefix_of(s) {
        assert(s[0] == secure_url_prefix()[0]);
    }
    if plain_url_prefix().is_prefix_of(s) {
        assert(s[0] == plain_url_prefix()[0]);
    }
    assert(url_segment(s) is None);
    assert(s.take(7) =~= uri_scheme());
    assert(s[7] == sep);
    let rest = s.skip(8);
    let head = track_word() + seq![sep];
    assert(rest =~= head + id);
    assert forall|i: int| 0 <= i < id.len() implies id[i] != sep by {
        assert(is_alnum(id[i]));
    }
    lemma_last_index_skips_tail(head, id, sep);
    assert(head.last() == sep);
    assert(last_index_of(head, sep) == 5);
    assert(rest.take(5) =~= track_word());
    assert(rest.skip(6) =~= id);
}

/// A track URL names the id that follows its prefix, whatever query stands
/// behind the id.
pub proof fn lemma_url_names_id(id: Seq<char>, query: Seq<char>)
    requires
        all_alnum(id),
        is_ascii_chars(query),
    ensures
        canonical_id(track_url(id, Seq::empty())) == Some(id),
        canonical_id(track_url(id, seq!['?'] + query)) == Some(id),
{
    reveal_strlit("https://open.spotify.com/track/");
    let prefix = secure_url_prefix();
    assert forall|i: int| 0 <= i < id.len() implies id[i] != '?' by {
        assert(is_alnum(id[i]));
    }
    assert forall|rest: Seq<char>|
        is_ascii_chars(rest) && first_index_of(rest, '?') == 0 implies canonical_id(
        #[trigger] track_url(id, rest),
    ) == Some(id) by {
        let s = track_url(id, rest);
        assert forall|i: int| 0 <= i < s.len() implies '\0' <= #[trigger] s[i] <= '\u{7f}' by {
            if i < prefix.len() {
                assert(s[i] == prefix[i]);
            } else if i < prefix.len() + id.len() {
                assert(s[i] == id[i - prefix.len()]);
                assert(is_alnum(id[i - prefix.len()]));
            } else {
                assert(s[i] == rest[i - prefix.len() - id.len()]);
            }
        }
        assert(prefix.is_prefix_of(s));
        let tail = s.skip(prefix.len() as int);
        assert(tail =~= id + rest);
        lemma_first_index_skips_head(id, rest, '?');
        assert(tail.take(id.len() as int) =~= id);
    }
    let none = Seq::<char>::empty();
    assert(is_ascii_chars(none) && first_index_of(none, '?') == 0);
    let some = seq!['?'] + query;
    assert(some[0] == '?');
    assert(is_ascii_chars(some)) by {
        assert forall|i: int| 0 <= i < some.len() implies '\0' <= #[trigger] some[i] <= '\u{7f}' by {
            if i > 0 {
                assert(some[i] == query[i - 1]);
            }
        }
    }
    assert(first_index_of(some, '?') == 0);
}

/// The URI, the URL and the bare id of one track resolve to the same id and
/// the same key, or fail alike.
pub proof fn lemma_same_track_same_key(id: Seq<char>, query: Seq<char>)
    requires
        all_alnum(id),
        is_ascii_chars(query),
    ensures
        resolution(track_uri(':', id)) == resolution(id),
        resolution(track_uri('/', id)) == resolution(id),
        resolution(track_url(id, Seq::empty())) == resolution(id),
        resolution(track_url(id, seq!['?'] + query)) == resolution(id),
{
    lemma_bare_id(id);
    lemma_uri_names_id(':', id);
    lemma_uri_names_id('/', id);
    lemma_url_names_id(id, query);
}


/// 256 to the power `n`.
pub open spec fn pow256(n: nat) -> nat
    decreases n,
{
    if n == 0 {
        1
    } else {
        256 * pow256((n - 1) as nat)
    }
}

/// Two numbers below 256 to the `n` that have the same `n` bytes are the
/// same number.
pub proof fn lemma_be_bytes_injective(a: nat, b: nat, n: nat)
    requires
        a < pow256(n),
        b < pow256(n),
        be_bytes(a, n) == be_bytes(b, n),
    ensures
        a == b,
    decreases n,
{
    if n > 0 {
        let m = (n - 1) as nat;
        let front_a = be_bytes(a / 256, m);
        let front_b = be_bytes(b / 256, m);
        assert(be_bytes(a, n).last() == (a % 256) as u8);
        assert(be_bytes(b, n).last() == (b % 256) as u8);
        assert(be_bytes(a, n).drop_last() =~= front_a);
        assert(be_bytes(b, n).drop_last() =~= front_b);
        lemma_be_bytes_injective(a / 256, b / 256, m);
    }
}

/// Two runs of base62 digits of the same length that write the same number
/// are the same run.
pub proof fn lemma_base62_injective(a: Seq<u8>, b: Seq<u8>)
    requires
        a.len() == b.len(),
        all_digits(a),
        all_digits(b),
        base62_value(a) == base62_value(b),
    ensures
        a == b,
    decreases a.len(),
{
    if a.len() > 0 {
        let da = digit_value(a.last());
        let db = digit_value(b.last());
        assert(da is Some && db is Some);
        assert(da->0 < 62 && db->0 < 62);
        let va = base62_value(a.drop_last());
        let vb = base62_value(b.drop_last());
        assert(va * 62 + da->0 == vb * 62 + db->0);
        assert(va == vb && da->0 == db->0);
        assert(a.last() == b.last());
        assert forall|i: int| 0 <= i < a.drop_last().len() implies digit_value(
            #[trigger] a.drop_last()[i],
        ) is Some by {
            assert(a.drop_last()[i] == a[i]);
        }
        assert forall|i: int| 0 <= i < b.drop_last().len() implies digit_value(
            #[trigger] b.drop_last()[i],
        ) is Some by {
            assert(b.drop_last()[i] == b[i]);
        }
        lemma_base62_injective(a.drop_last(), b.drop_last());
        assert(a =~= a.drop_last().push(a.last()));
        assert(b =~= b.drop_last().push(b.last()));
    } else {
        assert(a =~= b);
    }
}

/// Keys do not collide: two ids of the same length, of letters and digits
/// alone, that have the same key are the same id.
pub proof fn lemma_key_collision_free(a: Seq<char>, b: Seq<char>)
    requires
        all_alnum(a),
        all_alnum(b),
        a.len() == b.len(),
        key_of(a) is Some,
        key_of(a) == key_of(b),
    ensures
        a == b,
{
    assert(is_ascii_chars(a)) by {
        assert forall|i: int| 0 <= i < a.len() implies '\0' <= #[trigger] a[i] <= '\u{7f}' by {
            assert(is_alnum(a[i]));
        }
    }
    assert(is_ascii_chars(b)) by {
        assert forall|i: int| 0 <= i < b.len() implies '\0' <= #[trigger] b[i] <= '\u{7f}' by {
            assert(is_alnum(b[i]));
        }
    }
    vstd::utf8::is_ascii_chars_encode_utf8(a);
    vstd::utf8::is_ascii_chars_encode_utf8(b);
    let bytes_a = encode_utf8(a);
    let bytes_b = encode_utf8(b);
    let va = base62_value(bytes_a);
    let vb = base62_value(bytes_b);
    assert(pow256(16) == 0x1_0000_0000_0000_0000_0000_0000_0000_0000) by {
        reveal_with_fuel(pow256, 17);
    }
    lemma_be_bytes_injective(va, vb, 16);
    lemma_base62_injective(bytes_a, bytes_b);
    assert forall|i: int| 0 <= i < a.len() implies a[i] == b[i] by {
        assert(is_alnum(a[i]) && is_alnum(b[i]));
        assert(a[i] as u8 == bytes_a[i]);
        assert(b[i] as u8 == bytes_b[i]);
    }
    assert(a =~= b);
}

} // verus!
