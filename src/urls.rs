//! Outbound search links for a track.

use percent_encoding::{utf8_percent_encode, NON_ALPHANUMERIC};
use vstd::prelude::*;
use vstd::utf8::encode_utf8;

verus! {

/// An upper-case hexadecimal digit.
pub open spec fn hex_upper(d: nat) -> char {
    if d < 10 {
        ('0' as nat + d) as char
    } else {
        ('A' as nat + (d - 10)) as char
    }
}

/// An ASCII letter or digit.
pub open spec fn is_alphanumeric_byte(b: u8) -> bool {
    (48 <= b <= 57) || (65 <= b <= 90) || (97 <= b <= 122)
}

/// One byte of percent-encoded text: letters and digits stay, every other
/// byte becomes `%` and two upper-case hexadecimal digits.
pub open spec fn encode_byte(b: u8) -> Seq<char> {
    if is_alphanumeric_byte(b) {
        seq![b as char]
    } else {
        seq!['%', hex_upper(b as nat / 16), hex_upper(b as nat % 16)]
    }
}

/// The percent-encoding of a byte sequence.
pub open spec fn percent_bytes(bs: Seq<u8>) -> Seq<char>
    decreases bs.len(),
{
    if bs.len() == 0 {
        Seq::empty()
    } else {
        encode_byte(bs[0]) + percent_bytes(bs.drop_first())
    }
}

/// The percent-encoding of the UTF-8 bytes of `s`, every byte that is not an
/// ASCII letter or digit written as `%XX`.
pub open spec fn percent_encoded(s: Seq<char>) -> Seq<char> {
    percent_bytes(encode_utf8(s))
}

/// Relies on percent_encoding::utf8_percent_encode with the NON_ALPHANUMERIC
/// set: each UTF-8 byte outside that set is kept, each byte in it is written
/// as `%` and two upper-case hexadecimal digits.
#[verifier::external_body]
fn encode_query(q: &str) -> (r: String)
    ensures
        r@ == percent_encoded(q@),
{
    utf8_percent_encode(q, NON_ALPHANUMERIC).to_string()
}

/// The search text for a track: artist, a space, and title.
pub open spec fn search_query(artist: Seq<char>, title: Seq<char>) -> Seq<char> {
    artist + " "@ + title
}

fn query_text(artist: &str, title: &str) -> (r: String)
    ensures
        r@ == search_query(artist@, title@),
{
    let mut q = String::from_str(artist);
    q.append(" ");
    q.append(title);
    q
}

/// The music-store search page for a track.
pub fn apple_music_search_url(artist: &str, title: &str) -> (r: String)
    ensures
        r@ == "https://music.apple.com/us/search?term="@ + percent_encoded(
            search_query(artist@, title@),
        ),
{
    let q = query_text(artist, title);
    let encoded = encode_query(q.as_str());
    let mut url = String::from_str("https://music.apple.com/us/search?term=");
    url.append(encoded.as_str());
    url
}

/// The streaming-service search page for a track.
pub fn spotify_search_url(artist: &str, title: &str) -> (r: String)
    ensures
        r@ == "https://open.spotify.com/search/"@ + percent_encoded(search_query(artist@, title@)),
{
    let q = query_text(artist, title);
    let encoded = encode_query(q.as_str());
    let mut url = String::from_str("https://open.spotify.com/search/");
    url.append(encoded.as_str());
    url
}

} // verus!
