use crate::headers::{
    fields, lemma_visible_is_ascii, map_get, static_value, value_bytes, value_to_str, visible,
};
use crate::text::{contains_text, lower, occurs, octets, same_text, spelled};
use axum::http::header::{HeaderMap, HeaderValue};
use vstd::prelude::*;
use vstd::string::*;

verus! {

/// The least size, in octets, of a response body that is worth compressing.
pub const MIN_ENCODING_SIZE: u16 = 128;

/// A content coding that a request or response body may carry.
#[derive(Clone, Copy, Debug, PartialEq, Eq, Structural)]
pub enum Encoding {
    Zstd,
    Gzip,
    Identity,
}

/// Why a body could not be encoded or decoded.
#[derive(Clone, Copy, Debug, PartialEq, Eq, Structural)]
pub enum CodecErrorKind {
    /// The coding transforms nothing and so cannot be asked to.
    Unsupported,
    /// The codec itself refused the data.
    Failed,
}

/// The failure of an encoding or a decoding.
#[derive(Clone, Debug, PartialEq, Eq)]
pub struct CodecError {
    pub kind: CodecErrorKind,
    pub message: String,
}

/// A `CodecError` with its message as a text.
pub ghost struct CodecFault {
    pub kind: CodecErrorKind,
    pub message: Seq<char>,
}

impl View for CodecError {
    type V = CodecFault;

    open spec fn view(&self) -> CodecFault {
        CodecFault { kind: self.kind, message: self.message@ }
    }
}

/// What `zstd::stream::decode_all` gives for a run of octets: the data of the frames
/// in it, or the message of the error it ends with.
pub uninterp spec fn zstd_decoded(data: Seq<u8>) -> Result<Seq<u8>, Seq<char>>;

/// What `zstd::stream::encode_all` gives for `data` at a compression level: the
/// frame, or the message of the error it ends with.
pub uninterp spec fn zstd_encoded(data: Seq<u8>, level: int) -> Result<Seq<u8>, Seq<char>>;

/// What a `libflate::gzip::Decoder` reads out of a run of octets up to its end: the
/// data of the first member, or the message of the error it ends with.
pub uninterp spec fn gzip_decoded(data: Seq<u8>) -> Result<Seq<u8>, Seq<char>>;

/// A decoding that went well and gave `data`.
pub open spec fn intact(data: Seq<u8>) -> Result<Seq<u8>, Seq<char>> {
    Ok(data)
}

/// What a codec handed back, the data as octets and the message as a text.
pub open spec fn outcome(r: Result<Vec<u8>, String>) -> Result<Seq<u8>, Seq<char>> {
    match r {
        Ok(out) => Ok(out@),
        Err(e) => Err(e@),
    }
}

/// A number below 2^32 as four octets, the lowest first.
pub open spec fn le32(n: nat) -> Seq<u8> {
    seq![
        (n % 256) as u8,
        (n / 256 % 256) as u8,
        (n / 65536 % 256) as u8,
        (n / 16777216 % 256) as u8,
    ]
}

/// Whether a run of octets starts as a gzip member starts: with the two octets of
/// the format and the octet of the deflate method, in a header of ten octets.
pub open spec fn gzip_start(out: Seq<u8>) -> bool {
    &&& out.len() >= 10
    &&& out[0] == 0x1f
    &&& out[1] == 0x8b
    &&& out[2] == 0x08
}

/// Whether `out` is a gzip member for `data`: after the header come the deflated
/// data and a trailer of eight octets, of which the last four are the length of
/// `data` modulo 2^32; and where `data` is not empty the decoder reads `data` out
/// of it again.
pub open spec fn gzip_member_of(data: Seq<u8>, out: Seq<u8>) -> bool {
    &&& gzip_start(out)
    &&& out.len() >= 18
    &&& out.subrange(out.len() - 4, out.len() as int) == le32(data.len() % 0x1_0000_0000)
    &&& data.len() > 0 ==> gzip_decoded(out) == intact(data)
}

/// Whether `out` is a zstd frame for `data`: it starts with the four octets of the
/// format, and where `data` is not empty the decoder reads `data` out of it again.
pub open spec fn zstd_frame_of(data: Seq<u8>, out: Seq<u8>) -> bool {
    &&& out.len() >= 4
    &&& out.subrange(0, 4) == seq![0x28u8, 0xb5u8, 0x2fu8, 0xfdu8]
    &&& data.len() > 0 ==> zstd_decoded(out) == intact(data)
}

/// `zstd::stream::encode_all` on a buffer, an error handed back as its message.
/// What it returns is fixed by the data and the level. A frame that it returns
/// starts with the magic number of the format, and one made from a buffer that is
/// not empty decodes to that buffer again.
#[verifier::external_body]
fn zstd_encode(data: &[u8], level: i32) -> (r: Result<Vec<u8>, String>)
    ensures
        outcome(r) == zstd_encoded(data@, level as int),
        r matches Ok(out) ==> zstd_frame_of(data@, out@),
{
    match zstd::stream::encode_all(data, level) {
        Ok(out) => Ok(out),
        Err(e) => Err(e.to_string()),
    }
}

/// `zstd::stream::decode_all` on a buffer, an error handed back as its message.
#[verifier::external_body]
fn zstd_decode(data: &[u8]) -> (r: Result<Vec<u8>, String>)
    ensures
        outcome(r) == zstd_decoded(data@),
{
    match zstd::stream::decode_all(data) {
        Ok(out) => Ok(out),
        Err(e) => Err(e.to_string()),
    }
}

/// A `libflate::gzip::Encoder` over an empty vector, fed the whole buffer and
/// finished. Every error of the encoder is one of its writer, and a vector as the
/// writer gives none, so the call succeeds. The header it writes carries the time
/// of the call, so the octets are not fixed by the data. What is fixed: the header
/// of ten octets starts with the format's two octets and the deflate method, the
/// trailer ends with the length of the data modulo 2^32, and a member made from a
/// buffer that is not empty decodes to that buffer again.
#[verifier::external_body]
fn gzip_encode(data: &[u8]) -> (r: Result<Vec<u8>, String>)
    ensures
        r is Ok,
        r matches Ok(out) ==> gzip_member_of(data@, out@),
{
    let mut encoder = match libflate::gzip::Encoder::new(Vec::new()) {
        Ok(encoder) => encoder,
        Err(e) => return Err(e.to_string()),
    };
    let mut source = data;
    if let Err(e) = std::io::copy(&mut source, &mut encoder) {
        return Err(e.to_string());
    }
    match encoder.finish().into_result() {
        Ok(out) => Ok(out),
        Err(e) => Err(e.to_string()),
    }
}

/// A `libflate::gzip::Decoder` over the buffer, read to its end, an error handed
/// back as its message. The decoder first reads a header of ten octets and refuses
/// one that does not start with the format's two octets and the deflate method.
#[verifier::external_body]
fn gzip_decode(data: &[u8]) -> (r: Result<Vec<u8>, String>)
    ensures
        outcome(r) == gzip_decoded(data@),
        r is Ok ==> gzip_start(data@),
{
    let mut decoder = match libflate::gzip::Decoder::new(data) {
        Ok(decoder) => decoder,
        Err(e) => return Err(e.to_string()),
    };
    let mut out = Vec::new();
    match std::io::Read::read_to_end(&mut decoder, &mut out) {
        Ok(_) => Ok(out),
        Err(e) => Err(e.to_string()),
    }
}

/// The coding that a `Content-Encoding` value names: the token itself and nothing
/// around it.
pub open spec fn declared_coding(value: Seq<u8>) -> Encoding {
    if visible(value) && spelled(value) == "zstd"@ {
        Encoding::Zstd
    } else if visible(value) && spelled(value) == "gzip"@ {
        Encoding::Gzip
    } else {
        Encoding::Identity
    }
}

/// The coding that an `Accept-Encoding` value asks for: zstd where its token stands
/// anywhere in the value, else gzip where that one does.
pub open spec fn accepted_coding(value: Seq<u8>) -> Encoding {
    if !visible(value) {
        Encoding::Identity
    } else if occurs("zstd"@, spelled(value)) {
        Encoding::Zstd
    } else if occurs("gzip"@, spelled(value)) {
        Encoding::Gzip
    } else {
        Encoding::Identity
    }
}

/// The coding that a set of header fields stands for: that of `Content-Encoding`
/// where the field is there, else that of `Accept-Encoding`, else none.
pub open spec fn negotiated(f: Map<Seq<char>, Seq<Seq<u8>>>) -> Encoding {
    if f.contains_key("content-encoding"@) {
        declared_coding(f["content-encoding"@][0])
    } else if f.contains_key("accept-encoding"@) {
        accepted_coding(f["accept-encoding"@][0])
    } else {
        Encoding::Identity
    }
}

/// The names of the two fields are written in lower case.
pub proof fn lemma_coding_field_names()
    ensures
        lower("content-encoding"@) == "content-encoding"@,
        lower("accept-encoding"@) == "accept-encoding"@,
{
    reveal_strlit("content-encoding");
    reveal_strlit("accept-encoding");
}

impl Encoding {
    /// The token that names this coding in a header.
    pub open spec fn token(self) -> Seq<char> {
        match self {
            Encoding::Zstd => "zstd"@,
            Encoding::Gzip => "gzip"@,
            Encoding::Identity => "identity"@,
        }
    }

    /// What decoding `data` under this coding gives.
    pub open spec fn decoded(self, data: Seq<u8>) -> Result<Seq<u8>, CodecFault> {
        match self {
            Encoding::Zstd => match zstd_decoded(data) {
                Ok(out) => Ok(out),
                Err(m) => Err(CodecFault { kind: CodecErrorKind::Failed, message: m }),
            },
            Encoding::Gzip => match gzip_decoded(data) {
                Ok(out) => Ok(out),
                Err(m) => Err(CodecFault { kind: CodecErrorKind::Failed, message: m }),
            },
            Encoding::Identity => Err(
                CodecFault {
                    kind: CodecErrorKind::Unsupported,
                    message: "identity decoding not supported"@,
                },
            ),
        }
    }

    /// The token of this coding as a text.
    pub fn to_string(&self) -> (r: String)
        ensures
            r@ == self.token(),
    {
        match self {
            Encoding::Zstd => "zstd".to_owned(),
            Encoding::Gzip => "gzip".to_owned(),
            Encoding::Identity => "identity".to_owned(),
        }
    }

    /// Whether this coding leaves the octets as they are.
    pub fn identity(&self) -> (r: bool)
        ensures
            r == (*self == Encoding::Identity),
    {
        match self {
            Encoding::Identity => true,
            _ => false,
        }
    }

    /// The coding that the header fields of a message stand for.
    pub fn from_header(hm: &HeaderMap) -> (r: Encoding)
        ensures
            r == negotiated(fields(*hm)),
    {
        proof {
            lemma_coding_field_names();
            reveal_strlit("zstd");
            reveal_strlit("gzip");
        }
        match map_get(hm, "content-encoding") {
            Some(v) => match value_to_str(v) {
                Some(s) => {
                    if same_text(s, "zstd") {
                        Encoding::Zstd
                    } else if same_text(s, "gzip") {
                        Encoding::Gzip
                    } else {
                        Encoding::Identity
                    }
                },
                None => Encoding::Identity,
            },
            None => match map_get(hm, "accept-encoding") {
                None => Encoding::Identity,
                Some(v) => match value_to_str(v) {
                    Some(s) => {
                        proof {
                            lemma_visible_is_ascii(value_bytes(*v));
                        }
                        if contains_text(s, "zstd") {
                            Encoding::Zstd
                        } else if contains_text(s, "gzip") {
                            Encoding::Gzip
                        } else {
                            Encoding::Identity
                        }
                    },
                    None => Encoding::Identity,
                },
            },
        }
    }

    /// The token of this coding as the value of a `Content-Encoding` field.
    pub fn header_value(&self) -> (r: HeaderValue)
        ensures
            value_bytes(r) == octets(self.token()),
    {
        proof {
            reveal_strlit("zstd");
            reveal_strlit("gzip");
            reveal_strlit("identity");
        }
        match self {
            Encoding::Zstd => static_value("zstd"),
            Encoding::Gzip => static_value("gzip"),
            Encoding::Identity => static_value("identity"),
        }
    }

    /// The whole of `data` compressed under this coding. Gzip always gives one gzip
    /// member. Zstd gives what the zstd encoder gives at level 9: a frame, or its
    /// error. The identity coding has nothing to do and refuses. What comes back for
    /// a buffer that is not empty decodes to that buffer again.
    pub fn encode_all(&self, data: &[u8]) -> (r: Result<Vec<u8>, CodecError>)
        ensures
            match *self {
                Encoding::Gzip => r matches Ok(out) && gzip_member_of(data@, out@),
                Encoding::Zstd => match zstd_encoded(data@, 9) {
                    Ok(frame) => r matches Ok(out) && out@ == frame && zstd_frame_of(data@, frame),
                    Err(message) => r matches Err(e) && e@ == (CodecFault {
                        kind: CodecErrorKind::Failed,
                        message,
                    }),
                },
                Encoding::Identity => r matches Err(e) && e@ == (CodecFault {
                    kind: CodecErrorKind::Unsupported,
                    message: "identity encoding not supported"@,
                }),
            },
            r matches Ok(out) ==> data@.len() > 0 ==> self.decoded(out@) == Ok::<
                Seq<u8>,
                CodecFault,
            >(data@),
    {
        match self {
            Encoding::Zstd => match zstd_encode(data, 9) {
                Ok(out) => Ok(out),
                Err(message) => Err(CodecError { kind: CodecErrorKind::Failed, message }),
            },
            Encoding::Gzip => match gzip_encode(data) {
                Ok(out) => Ok(out),
                Err(message) => Err(CodecError { kind: CodecErrorKind::Failed, message }),
            },
            Encoding::Identity => Err(
                CodecError {
                    kind: CodecErrorKind::Unsupported,
                    message: "identity encoding not supported".to_owned(),
                },
            ),
        }
    }

    /// The whole of `data` decompressed under this coding. The identity coding has
    /// nothing to do and refuses, and gzip refuses what does not start as a gzip
    /// member starts.
    pub fn decode_all(&self, data: &[u8]) -> (r: Result<Vec<u8>, CodecError>)
        ensures
            match r {
                Ok(out) => self.decoded(data@) == Ok::<Seq<u8>, CodecFault>(out@),
                Err(e) => self.decoded(data@) == Err::<Seq<u8>, CodecFault>(e@),
            },
            *self == Encoding::Gzip && !gzip_start(data@) ==> r is Err,
    {
        match self {
            Encoding::Zstd => match zstd_decode(data) {
                Ok(out) => Ok(out),
                Err(message) => Err(CodecError { kind: CodecErrorKind::Failed, message }),
            },
            Encoding::Gzip => match gzip_decode(data) {
                Ok(out) => Ok(out),
                Err(message) => Err(CodecError { kind: CodecErrorKind::Failed, message }),
            },
            Encoding::Identity => Err(
                CodecError {
                    kind: CodecErrorKind::Unsupported,
                    message: "identity decoding not supported".to_owned(),
                },
            ),
        }
    }
}

} // verus!
