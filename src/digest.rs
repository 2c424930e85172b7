//! The 128-bit keying hash: content hashes of page bodies and ids of search
//! documents.
use vstd::prelude::*;
use vstd::string::*;
use vstd::utf8::{encode_utf8, encode_utf8_decode_utf8};

verus! {

/// The MD5 digest of `b`, as 32 lowercase hex digits.
pub uninterp spec fn md5_hex_of(b: Seq<u8>) -> Seq<char>;

/// Relies on `md5::compute`, printed through the digest's `LowerHex`
/// (two digits per byte of the 16-byte digest).
#[verifier::external_body]
pub(crate) fn md5_hex(data: &[u8]) -> (r: String)
    ensures
        r@ == md5_hex_of(data@),
        r@.len() == 32,
{
    format!("{:x}", md5::compute(data))
}

/// Hash of a page body, over its UTF-8 bytes.
pub fn content_hash(body: &str) -> (r: String)
    ensures
        r@ == md5_hex_of(body.spec_bytes()),
        r@.len() == 32,
{
    md5_hex(body.as_bytes())
}

/// The text whose hash is the id of the search document for `url`: the
/// tenant id followed by the URL in multi-tenant mode, else the URL.
pub open spec fn document_key(tenant_id: Option<Seq<char>>, url: Seq<char>) -> Seq<char> {
    match tenant_id {
        Some(t) => t + url,
        None => url,
    }
}

/// Id of the search document for `url`.
pub fn document_id(tenant_id: &Option<String>, url: &str) -> (r: String)
    ensures
        r@ == md5_hex_of(
            encode_utf8(
                document_key(
                    match tenant_id {
                        Some(t) => Some(t@),
                        None => None,
                    },
                    url@,
                ),
            ),
        ),
{
    match tenant_id {
        Some(t) => {
            let joined = t.clone().concat(url);
            md5_hex(joined.as_str().as_bytes())
        },
        None => md5_hex(url.as_bytes()),
    }
}

/// Different tenants hash different bytes for the same URL, so their
/// document ids differ unless MD5 collides.
pub proof fn lemma_tenant_ids_hash_different_bytes(a: Seq<char>, b: Seq<char>, url: Seq<char>)
    requires
        a != b,
    ensures
        encode_utf8(document_key(Some(a), url)) != encode_utf8(document_key(Some(b), url)),
{
    let ka = document_key(Some(a), url);
    let kb = document_key(Some(b), url);
    assert(ka == a + url);
    assert(kb == b + url);
    if ka == kb {
        assert(ka.len() == a.len() + url.len());
        assert(kb.len() == b.len() + url.len());
        assert(a.len() == b.len());
        assert(a =~= ka.subrange(0, a.len() as int));
        assert(b =~= kb.subrange(0, b.len() as int));
    }
    if encode_utf8(ka) == encode_utf8(kb) {
        encode_utf8_decode_utf8(ka);
        encode_utf8_decode_utf8(kb);
    }
}

/// Equal bodies get equal content hashes. (The converse holds up to MD5
/// collisions, which nothing here can rule out.)
pub proof fn lemma_equal_bodies_equal_hashes(a: Seq<char>, b: Seq<char>)
    requires
        a == b,
    ensures
        md5_hex_of(encode_utf8(a)) == md5_hex_of(encode_utf8(b)),
{
}

} // verus!
