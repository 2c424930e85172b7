//! Page bodies in the object store: the compression choice, the object key
//! layout, and the encoding that reads back to the stored text.
use vstd::prelude::*;
use vstd::string::*;
use vstd::utf8::*;
use vstd::slice::slice_to_vec;
use std::io::Read;
use std::io::Write;

verus! {

/// Compression applied to a stored body.
#[derive(Debug, Clone, Copy, PartialEq, Eq, Structural)]
pub enum CompressionType {
    /// Stored as fetched.
    Plain,
    /// Stored gzip-compressed.
    Gzip,
}

impl CompressionType {
    pub open spec fn extension(self) -> Seq<char> {
        match self {
            CompressionType::Plain => "html"@,
            CompressionType::Gzip => "html.gz"@,
        }
    }

    pub open spec fn db_value(self) -> i8 {
        match self {
            CompressionType::Plain => 0,
            CompressionType::Gzip => 1,
        }
    }

    /// File extension of the object key.
    pub fn file_extension(&self) -> (r: &'static str)
        ensures
            r@ == self.extension(),
    {
        match self {
            CompressionType::Plain => "html",
            CompressionType::Gzip => "html.gz",
        }
    }

    /// Content-Type header of the stored object.
    pub fn content_type(&self) -> (r: &'static str)
        ensures
            r@ == match *self {
                CompressionType::Plain => "text/html"@,
                CompressionType::Gzip => "application/gzip"@,
            },
    {
        match self {
            CompressionType::Plain => "text/html",
            CompressionType::Gzip => "application/gzip",
        }
    }

    /// The tinyint stored in the page row.
    pub fn to_db_value(&self) -> (r: i8)
        ensures
            r == self.db_value(),
    {
        match self {
            CompressionType::Plain => 0,
            CompressionType::Gzip => 1,
        }
    }

    /// Reads the stored tinyint; anything but 1 (an old row, a null) is no
    /// compression.
    pub fn from_db_value(value: i8) -> (r: Self)
        ensures
            r == (if value == 1 {
                CompressionType::Gzip
            } else {
                CompressionType::Plain
            }),
    {
        if value == 1 {
            CompressionType::Gzip
        } else {
            CompressionType::Plain
        }
    }

    /// Reads the nullable column of a page row: a null (a row written before
    /// compression was recorded) is no compression.
    pub fn from_column(value: Option<i8>) -> (r: Self)
        ensures
            r == match value {
                Some(1) => CompressionType::Gzip,
                _ => CompressionType::Plain,
            },
    {
        match value {
            Some(v) => CompressionType::from_db_value(v),
            None => CompressionType::Plain,
        }
    }

    /// Display name of the compression.
    pub fn to_db_string(&self) -> (r: &'static str)
        ensures
            r@ == match *self {
                CompressionType::Plain => "none"@,
                CompressionType::Gzip => "gzip"@,
            },
    {
        match self {
            CompressionType::Plain => "none",
            CompressionType::Gzip => "gzip",
        }
    }

    pub fn to_string(&self) -> (r: String)
        ensures
            r@ == match *self {
                CompressionType::Plain => "none"@,
                CompressionType::Gzip => "gzip"@,
            },
    {
        String::from_str(self.to_db_string())
    }
}

/// The stored tinyint reads back as the compression it was written from.
pub proof fn lemma_db_value_round_trip(c: CompressionType)
    ensures
        (if c.db_value() == 1 {
            CompressionType::Gzip
        } else {
            CompressionType::Plain
        }) == c,
{
}

/// What gzip compression of `b` yields.
pub uninterp spec fn gzip_of(b: Seq<u8>) -> Seq<u8>;

/// What gzip decompression of `b` yields, `None` when `b` is no gzip stream.
pub uninterp spec fn gunzip_of(b: Seq<u8>) -> Option<Seq<u8>>;

/// Relies on `flate2::write::GzEncoder` over a `Vec` at the default level:
/// the output is the gzip stream of the input, which decompresses back to it.
#[verifier::external_body]
fn gzip(data: &[u8]) -> (r: Option<Vec<u8>>)
    ensures
        r matches Some(v) ==> v@ == gzip_of(data@) && gunzip_of(v@) == Some(data@),
{
    let mut encoder = flate2::write::GzEncoder::new(Vec::new(), flate2::Compression::default());
    encoder.write_all(data).ok()?;
    encoder.finish().ok()
}

/// Relies on `flate2::read::GzDecoder` read to the end.
#[verifier::external_body]
fn gunzip(data: &[u8]) -> (r: Option<Vec<u8>>)
    ensures
        match r {
            Some(v) => gunzip_of(data@) == Some(v@),
            None => gunzip_of(data@) is None,
        },
{
    let mut decoder = flate2::read::GzDecoder::new(data);
    let mut out = Vec::new();
    decoder.read_to_end(&mut out).ok()?;
    Some(out)
}

/// Relies on `String::from_utf8`: it succeeds exactly on valid UTF-8.
#[verifier::external_body]
fn utf8_string(bytes: Vec<u8>) -> (r: Option<String>)
    ensures
        r is Some <==> valid_utf8(bytes@),
        r matches Some(s) ==> s@ == decode_utf8(bytes@),
{
    String::from_utf8(bytes).ok()
}

/// Whether a body of `len` bytes is stored compressed.
pub open spec fn compresses(len: nat, enabled: bool, min_size: nat) -> bool {
    enabled && len > min_size
}

/// The text that stored bytes read back as, under their compression tag.
pub open spec fn read_back(data: Seq<u8>, c: CompressionType) -> Option<Seq<char>> {
    let raw = match c {
        CompressionType::Gzip => gunzip_of(data),
        CompressionType::Plain => Some(data),
    };
    match raw {
        Some(b) => if valid_utf8(b) {
            Some(decode_utf8(b))
        } else {
            None
        },
        None => None,
    }
}

/// The bytes to upload for `content` and their compression tag. Gzip is
/// chosen when compression is enabled and the body is longer than
/// `min_size` bytes. Whatever is stored reads back as `content`.
pub fn encode_body(content: &str, enabled: bool, min_size: usize) -> (r: Result<
    (Vec<u8>, CompressionType),
    String,
>)
    ensures
        match r {
            Ok((data, c)) => {
                &&& c == (if compresses(content.spec_bytes().len(), enabled, min_size as nat) {
                    CompressionType::Gzip
                } else {
                    CompressionType::Plain
                })
                &&& c == CompressionType::Plain ==> data@ == content.spec_bytes()
                &&& c == CompressionType::Gzip ==> data@ == gzip_of(content.spec_bytes())
                &&& read_back(data@, c) == Some(content@)
            },
            Err(_) => compresses(content.spec_bytes().len(), enabled, min_size as nat),
        },
{
    let bytes = content.as_bytes_vec();
    proof {
        encode_utf8_valid_utf8(content@);
        encode_utf8_decode_utf8(content@);
    }
    if enabled && bytes.len() > min_size {
        match gzip(bytes.as_slice()) {
            Some(data) => Ok((data, CompressionType::Gzip)),
            None => Err(String::from_str("Failed to compress")),
        }
    } else {
        Ok((bytes, CompressionType::Plain))
    }
}

/// Reads stored bytes back as text under their compression tag.
pub fn decode_body(data: &[u8], c: CompressionType) -> (r: Result<String, String>)
    ensures
        match r {
            Ok(s) => read_back(data@, c) == Some(s@),
            Err(_) => read_back(data@, c) is None,
        },
{
    let raw = match c {
        CompressionType::Gzip => gunzip(data),
        CompressionType::Plain => Some(slice_to_vec(data)),
    };
    match raw {
        Some(b) => match utf8_string(b) {
            Some(s) => Ok(s),
            None => Err(String::from_str("Invalid UTF-8 in content")),
        },
        None => Err(String::from_str("Failed to decompress")),
    }
}

/// Object key of a stored body: `{storage_id}.{ext}`.
pub fn object_key(storage_id: &str, c: CompressionType) -> (r: String)
    ensures
        r@ == storage_id@ + "."@ + c.extension(),
{
    let s = String::from_str(storage_id);
    let s = s.concat(".");
    s.concat(c.file_extension())
}

} // verus!
