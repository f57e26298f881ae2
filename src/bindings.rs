use vstd::prelude::*;

verus! {

/// The path of the URL that the text `url` parses to, in its serialized
/// form; `None` when the text does not parse as a URL.
pub uninterp spec fn url_path(url: Seq<char>) -> Option<Seq<char>>;

/// The lowercase hexadecimal BLAKE2s digest of `bytes`.
pub uninterp spec fn blake2s_hex(bytes: Seq<u8>) -> Seq<char>;

/// Relies on `reqwest::Url::parse` (the url crate's parser) to parse `url`,
/// and on `Url::path` for the serialized path of the result.
#[verifier::external_body]
pub(crate) fn parse_url_path(url: &str) -> (r: Option<String>)
    ensures
        match r {
            Some(p) => url_path(url@) == Some(p@),
            None => url_path(url@).is_none(),
        },
{
    match reqwest::Url::parse(url) {
        Ok(u) => Some(u.path().to_string()),
        Err(_) => None,
    }
}

/// Relies on `blake2s_simd::blake2s` and `Hash::to_hex`: the BLAKE2s digest
/// of `bytes` at the default length, as lowercase hexadecimal text.
#[verifier::external_body]
pub fn checksum(bytes: &[u8]) -> (r: String)
    ensures
        r@ == blake2s_hex(bytes@),
{
    blake2s_simd::blake2s(bytes).to_hex().to_string()
}

} // verus!
