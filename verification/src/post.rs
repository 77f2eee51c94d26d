//! Building the post: its text, the byte range of the link annotation that
//! covers the credit suffix, and the JSON payload of the record-creation
//! request.

use vstd::prelude::*;
use vstd::utf8::{encode_utf8, is_ascii_chars, is_ascii_chars_encode_utf8};
use crate::encode::{
    dec_rep, json_quoted, lemma_encode_utf8_concat, push_decimal, push_json_quoted,
    push_str_chars, string_from_chars,
};
use crate::scrape::BirdImage;
use crate::session::Token;
use crate::species::Bird;

verus! {

broadcast use vstd::slice::group_slice_axioms;

/// The number of bytes of the credit suffix, which is ASCII.
pub const CREDIT_BYTES: usize = 12;

/// The UTF-8 byte length of a text.
pub open spec fn byte_len(t: Seq<char>) -> nat {
    encode_utf8(t).len()
}

/// The text of a post: the common name, the scientific name in parentheses,
/// and the credit suffix.
pub open spec fn post_text(common: Seq<char>, sci: Seq<char>) -> Seq<char> {
    common + " ("@ + sci + ")\n\nImage Credit"@
}

/// Builds the text of the post for a bird's two names.
pub fn build_post_text(common: &str, sci: &str) -> (r: String)
    ensures
        r@ == post_text(common@, sci@),
{
    let mut out: Vec<char> = Vec::new();
    push_str_chars(&mut out, common);
    push_str_chars(&mut out, " (");
    push_str_chars(&mut out, sci);
    push_str_chars(&mut out, ")\n\nImage Credit");
    proof {
        assert(out@ =~= post_text(common@, sci@));
    }
    string_from_chars(&out)
}

/// The law of the link annotation: in every post text, for any pair of
/// names, the credit suffix occupies exactly the last bytes of the text. So
/// a byte range that ends at the text's total byte length and starts
/// `CREDIT_BYTES` before it covers exactly the credit suffix, whatever
/// characters, of whatever width, the names hold.
pub proof fn lemma_credit_range(common: Seq<char>, sci: Seq<char>)
    ensures
        byte_len("Image Credit"@) == CREDIT_BYTES,
        byte_len(post_text(common, sci)) >= CREDIT_BYTES,
        encode_utf8(post_text(common, sci)).subrange(
            byte_len(post_text(common, sci)) - CREDIT_BYTES,
            byte_len(post_text(common, sci)) as int,
        ) == encode_utf8("Image Credit"@),
{
    reveal_strlit(")\n\nImage Credit");
    reveal_strlit(")\n\n");
    reveal_strlit("Image Credit");
    assert(is_ascii_chars("Image Credit"@));
    is_ascii_chars_encode_utf8("Image Credit"@);
    assert(")\n\nImage Credit"@ =~= ")\n\n"@ + "Image Credit"@);
    let p = common + " ("@ + sci + ")\n\n"@;
    assert(post_text(common, sci) =~= p + "Image Credit"@);
    lemma_encode_utf8_concat(p, "Image Credit"@);
    assert(encode_utf8(post_text(common, sci)).subrange(
        byte_len(post_text(common, sci)) - CREDIT_BYTES,
        byte_len(post_text(common, sci)) as int,
    ) =~= encode_utf8("Image Credit"@));
}

/// The byte range of the link annotation of a post text: it ends at the
/// text's total byte length and starts `CREDIT_BYTES` bytes before it.
pub fn credit_range(text: &str) -> (r: (usize, usize))
    requires
        byte_len(text@) >= CREDIT_BYTES,
    ensures
        r.1 == byte_len(text@),
        r.0 + CREDIT_BYTES == r.1,
{
    let bytes = text.as_bytes();
    let end = bytes.len();
    let start = end - CREDIT_BYTES;
    (start, end)
}

/// The JSON payload of the record-creation request: the post text with its
/// link annotation over the credit suffix, the creation time, and the image
/// embed carrying the accessibility text and the uploaded blob, inserted
/// verbatim.
pub open spec fn post_payload(
    did: Seq<char>,
    text: Seq<char>,
    uri: Seq<char>,
    created_at: Seq<char>,
    alt: Seq<char>,
    blob_raw: Seq<char>,
) -> Seq<char> {
    "{\"repo\":"@ + json_quoted(did)
        + ",\"collection\":\"app.bsky.feed.post\",\"record\":{\"$type\":\"app.bsky.feed.post\",\"text\":"@
        + json_quoted(text) + ",\"facets\":[{\"index\":{\"byteStart\":"@ + dec_rep(
        (byte_len(text) - CREDIT_BYTES) as nat,
    ) + ",\"byteEnd\":"@ + dec_rep(byte_len(text)) + "},\"features\":[{\"$type\":\"app.bsky.richtext.facet#link\",\"uri\":"@
        + json_quoted(uri) + "}]}],\"createdAt\":"@ + json_quoted(created_at)
        + ",\"embed\":{\"$type\":\"app.bsky.embed.images\",\"images\":[{\"alt\":"@ + json_quoted(
        alt,
    ) + ",\"image\":"@ + blob_raw + "}]}}}"@
}

/// Builds the JSON payload of the record-creation request for a chosen bird,
/// its scraped photo metadata, the session, the uploaded blob (as the JSON
/// text the upload endpoint returned for it), and a creation timestamp.
pub fn build_post_payload(
    bird: &Bird,
    image: &BirdImage,
    token: &Token,
    blob_raw: &str,
    created_at: &str,
) -> (r: String)
    ensures
        r@ == post_payload(
            token.did@,
            post_text(bird.common_name@, bird.scientific_name@),
            image.url_source@,
            created_at@,
            image.alt_text@,
            blob_raw@,
        ),
{
    let text = build_post_text(bird.common_name.as_str(), bird.scientific_name.as_str());
    proof {
        lemma_credit_range(bird.common_name@, bird.scientific_name@);
    }
    let (byte_start, byte_end) = credit_range(text.as_str());
    let mut out: Vec<char> = Vec::new();
    push_str_chars(&mut out, "{\"repo\":");
    push_json_quoted(&mut out, token.did.as_str());
    push_str_chars(
        &mut out,
        ",\"collection\":\"app.bsky.feed.post\",\"record\":{\"$type\":\"app.bsky.feed.post\",\"text\":",
    );
    push_json_quoted(&mut out, text.as_str());
    push_str_chars(&mut out, ",\"facets\":[{\"index\":{\"byteStart\":");
    push_decimal(&mut out, byte_start);
    push_str_chars(&mut out, ",\"byteEnd\":");
    push_decimal(&mut out, byte_end);
    push_str_chars(
        &mut out,
        "},\"features\":[{\"$type\":\"app.bsky.richtext.facet#link\",\"uri\":",
    );
    push_json_quoted(&mut out, image.url_source.as_str());
    push_str_chars(&mut out, "}]}],\"createdAt\":");
    push_json_quoted(&mut out, created_at);
    push_str_chars(&mut out, ",\"embed\":{\"$type\":\"app.bsky.embed.images\",\"images\":[{\"alt\":");
    push_json_quoted(&mut out, image.alt_text.as_str());
    push_str_chars(&mut out, ",\"image\":");
    push_str_chars(&mut out, blob_raw);
    push_str_chars(&mut out, "}]}}}");
    proof {
        assert(out@ =~= post_payload(
            token.did@,
            post_text(bird.common_name@, bird.scientific_name@),
            image.url_source@,
            created_at@,
            image.alt_text@,
            blob_raw@,
        ));
    }
    string_from_chars(&out)
}

/// The value of the authorization header for a bearer token.
pub open spec fn bearer_of(token: Seq<char>) -> Seq<char> {
    "Bearer "@ + token
}

/// Builds the authorization header value for a bearer token.
pub fn bearer_header(token: &str) -> (r: String)
    ensures
        r@ == bearer_of(token@),
{
    let mut out: Vec<char> = Vec::new();
    push_str_chars(&mut out, "Bearer ");
    push_str_chars(&mut out, token);
    string_from_chars(&out)
}

/// Relies on time's `OffsetDateTime::now_utc` and its RFC 3339 formatting:
/// reads the clock, so nothing is promised of the text that comes back.
#[verifier::external_body]
pub(crate) fn now_rfc3339() -> (r: Option<String>) {
    match time::OffsetDateTime::now_utc().format(&time::format_description::well_known::Rfc3339) {
        Ok(s) => Some(s),
        Err(_) => None,
    }
}

} // verus!
