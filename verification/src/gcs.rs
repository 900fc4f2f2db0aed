//! The addresses under which Google Cloud Storage lists and hands out objects.

use vstd::prelude::*;
use vstd::string::{StringExecFns, StringSliceAdditionalSpecFns};
use crate::text::opt_view;

verus! {

/// Whether a byte is an ASCII letter or digit.
pub open spec fn is_alphanumeric(b: u8) -> bool {
    (0x30 <= b <= 0x39) || (0x41 <= b <= 0x5a) || (0x61 <= b <= 0x7a)
}

/// The upper-case hexadecimal digit for a number below sixteen.
pub open spec fn hex_upper(n: u8) -> char {
    if n < 10 {
        (0x30 + n) as u8 as char
    } else {
        (0x41 + n - 10) as u8 as char
    }
}

/// One byte in percent-encoding: itself where it is an ASCII letter or digit,
/// else `%` and its two hexadecimal digits.
pub open spec fn encoded_byte(b: u8) -> Seq<char> {
    if is_alphanumeric(b) {
        seq![b as char]
    } else {
        seq!['%', hex_upper(b / 16), hex_upper(b % 16)]
    }
}

/// A run of bytes in percent-encoding.
pub open spec fn percent_encoded(bytes: Seq<u8>) -> Seq<char>
    decreases bytes.len(),
{
    if bytes.len() == 0 {
        Seq::empty()
    } else {
        percent_encoded(bytes.drop_last()) + encoded_byte(bytes.last())
    }
}

/// The address that lists the objects of a bucket, one page at a time.
pub open spec fn list_url(
    bucket: Seq<char>,
    prefix: Option<Seq<char>>,
    page_token: Option<Seq<char>>,
) -> Seq<char> {
    "https://storage.googleapis.com/storage/v1/b/"@ + bucket
        + "/o?fields=items(name),nextPageToken"@ + (match prefix {
        Some(p) => "&prefix="@ + percent_encoded(vstd::utf8::encode_utf8(p)),
        None => Seq::empty(),
    }) + (match page_token {
        Some(t) => "&pageToken="@ + t,
        None => Seq::empty(),
    })
}

/// The address that hands out the content of an object of a bucket.
pub open spec fn object_url(bucket: Seq<char>, object: Seq<char>) -> Seq<char> {
    "https://storage.googleapis.com/storage/v1/b/"@ + bucket + "/o/"@ + percent_encoded(
        vstd::utf8::encode_utf8(object),
    ) + "?alt=media"@
}

/// Calls `percent_encoding::percent_encode` with the set `NON_ALPHANUMERIC` on
/// the UTF-8 bytes of `input`, and collects what it displays. The contract
/// states the encoding in full: a byte that is an ASCII letter or digit stays,
/// every other byte becomes `%` and two upper-case hexadecimal digits.
#[verifier::external_body]
fn encode_component(input: &str) -> (r: String)
    ensures
        r@ == percent_encoded(input.spec_bytes()),
{
    percent_encoding::percent_encode(input.as_bytes(), percent_encoding::NON_ALPHANUMERIC)
        .to_string()
}

/// A text in percent-encoding, fit for one component of an address.
pub fn percent_encode(input: &str) -> (r: String)
    ensures
        r@ == percent_encoded(vstd::utf8::encode_utf8(input@)),
{
    encode_component(input)
}

/// The scope that reading from a bucket asks for.
pub fn read_scope() -> (scope: &'static str)
    ensures
        scope@ == "https://www.googleapis.com/auth/devstorage.read_only"@,
{
    "https://www.googleapis.com/auth/devstorage.read_only"
}

/// The address that lists the objects of `bucket` under `prefix`, from the
/// page that `page_token` names.
pub fn gcs_list_url(bucket: &str, prefix: Option<&str>, page_token: Option<&str>) -> (url: String)
    ensures
        url@ == list_url(bucket@, opt_view(prefix), opt_view(page_token)),
{
    let mut url = String::from_str("https://storage.googleapis.com/storage/v1/b/");
    url.append(bucket);
    url.append("/o?fields=items(name),nextPageToken");
    let ghost head = url@;
    match prefix {
        Some(p) => {
            url.append("&prefix=");
            let encoded = percent_encode(p);
            url.append(encoded.as_str());
            assert(url@ =~= head + ("&prefix="@ + encoded@));
        },
        None => {
            assert(url@ =~= head + Seq::<char>::empty());
        },
    }
    let ghost middle = url@;
    match page_token {
        Some(t) => {
            url.append("&pageToken=");
            url.append(t);
            assert(url@ =~= middle + ("&pageToken="@ + t@));
        },
        None => {
            assert(url@ =~= middle + Seq::<char>::empty());
        },
    }
    url
}

/// The address that hands out the content of `object` in `bucket`.
pub fn gcs_object_url(bucket: &str, object: &str) -> (url: String)
    ensures
        url@ == object_url(bucket@, object@),
{
    let mut url = String::from_str("https://storage.googleapis.com/storage/v1/b/");
    url.append(bucket);
    url.append("/o/");
    let encoded = percent_encode(object);
    url.append(encoded.as_str());
    url.append("?alt=media");
    url
}

} // verus!
