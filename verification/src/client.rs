//! Client for the streaming recognizer connection: builds the signed
//! authorization header for the handshake and the frames that cross the
//! wire.

use vstd::prelude::*;
use vstd::string::*;

use crate::codec;
use crate::codec::{
    gzip_of, spec_decode, spec_frame, FLAGS_FINISH, MESSAGE_TYPE_AUDIO_ONLY,
    MESSAGE_TYPE_SERVER_FULL, MESSAGE_TYPE_SERVER_RESULT, SERIAL_JSON,
};
use crate::protocol::{asr_response_of, parse_asr_response, AsrResponse};
use vstd::utf8::encode_utf8;

use base64::engine::general_purpose::URL_SAFE_NO_PAD;
use base64::Engine;
use hmac::KeyInit;
use hmac::Mac;

verus! {

/// One recognition result as the wire session reports it: the text and
/// whether it is an interim ("prefetch") guess rather than a final form.
#[derive(Clone, Debug)]
pub struct AsrResult {
    pub text: String,
    pub is_prefetch: bool,
}

/// The HMAC-SHA256 digest of a message under a key.
pub uninterp spec fn hmac_sha256_of(key: Seq<u8>, msg: Seq<u8>) -> Seq<u8>;

/// The URL-safe, unpadded base64 rendering of a byte sequence.
pub uninterp spec fn b64url_of(b: Seq<u8>) -> Seq<char>;

/// Relies on hmac with sha2: the HMAC-SHA256 digest, a function of key
/// and message alone; SHA-256 digests are 32 bytes. HMAC accepts keys of
/// any length.
#[verifier::external_body]
fn hmac_sha256(key: &[u8], msg: &[u8]) -> (r: Vec<u8>)
    ensures
        r@ == hmac_sha256_of(key@, msg@),
        r@.len() == 32,
{
    let mut mac = hmac::Hmac::<sha2::Sha256>::new_from_slice(key)
        .expect("HMAC can take key of any size");
    mac.update(msg);
    mac.finalize().into_bytes().to_vec()
}

/// Relies on base64's `URL_SAFE_NO_PAD` engine: URL-safe alphabet,
/// no padding, a function of the input bytes alone.
#[verifier::external_body]
fn base64url_nopad(data: &[u8]) -> (r: String)
    ensures
        r@ == b64url_of(data@),
{
    URL_SAFE_NO_PAD.encode(data)
}

/// True of every character of a hyphenated lowercase UUID.
pub open spec fn is_uuid_char(c: char) -> bool {
    c == '-' || ('0' <= c && c <= '9') || ('a' <= c && c <= 'f')
}

/// Relies on uuid: a fresh random v4 UUID in the hyphenated form —
/// 36 characters of lowercase hex and hyphens. The value itself is
/// random, so nothing more is promised of it.
#[verifier::external_body]
pub fn new_uuid_string() -> (r: String)
    ensures
        r@.len() == 36,
        forall|i: int| 0 <= i < 36 ==> is_uuid_char(#[trigger] r@[i]),
{
    uuid::Uuid::new_v4().to_string()
}

/// The signature of a canonical string under a secret: HMAC-SHA256 of
/// its UTF-8 bytes, base64url-encoded without padding.
pub open spec fn spec_signature(secret: Seq<char>, msg: Seq<char>) -> Seq<char> {
    b64url_of(hmac_sha256_of(encode_utf8(secret), encode_utf8(msg)))
}

/// One line per signed header: `name: value\n`, in the given order.
pub open spec fn spec_header_lines(headers: Seq<(String, String)>) -> Seq<char>
    decreases headers.len(),
{
    if headers.len() == 0 {
        Seq::empty()
    } else {
        headers[0].0@ + (": ")@ + headers[0].1@ + ("\n")@ + spec_header_lines(headers.drop_first())
    }
}

/// The canonical string that is signed: the request line, then the
/// signed headers in order.
pub open spec fn spec_canonical(
    method: Seq<char>,
    path: Seq<char>,
    headers: Seq<(String, String)>,
) -> Seq<char> {
    method + (" ")@ + path + (" HTTP/1.1\n")@ + spec_header_lines(headers)
}

/// The signed header names joined with commas, in order.
pub open spec fn spec_joined_names(headers: Seq<(String, String)>) -> Seq<char>
    decreases headers.len(),
{
    if headers.len() == 0 {
        Seq::empty()
    } else if headers.len() == 1 {
        headers[0].0@
    } else {
        headers[0].0@ + (",")@ + spec_joined_names(headers.drop_first())
    }
}

/// The authorization value for a client with `token` and `secret`:
/// `Bearer; <token>` where no secret is configured, else the HMAC256
/// form naming the signed headers.
pub open spec fn spec_auth_header(
    token: Seq<char>,
    secret: Seq<char>,
    method: Seq<char>,
    path: Seq<char>,
    headers: Seq<(String, String)>,
) -> Seq<char> {
    if secret.len() == 0 {
        ("Bearer; ")@ + token
    } else {
        ("HMAC256; access_token=\"")@ + token + ("\"; mac=\"")@ + spec_signature(
            secret,
            spec_canonical(method, path, headers),
        ) + ("\"; h=\"")@ + spec_joined_names(headers) + ("\"")@
    }
}

proof fn lemma_header_lines_snoc(headers: Seq<(String, String)>, h: (String, String))
    ensures
        spec_header_lines(headers.push(h)) == spec_header_lines(headers) + h.0@ + (": ")@ + h.1@
            + ("\n")@,
    decreases headers.len(),
{
    if headers.len() == 0 {
        assert(headers.push(h).drop_first() =~= headers);
        assert(spec_header_lines(headers.push(h)) =~= spec_header_lines(headers) + h.0@ + (": ")@
            + h.1@ + ("\n")@);
    } else {
        assert(headers.push(h).drop_first() =~= headers.drop_first().push(h));
        lemma_header_lines_snoc(headers.drop_first(), h);
        assert(spec_header_lines(headers.push(h)) =~= spec_header_lines(headers) + h.0@ + (": ")@
            + h.1@ + ("\n")@);
    }
}

proof fn lemma_joined_names_snoc(headers: Seq<(String, String)>, h: (String, String))
    requires
        headers.len() > 0,
    ensures
        spec_joined_names(headers.push(h)) == spec_joined_names(headers) + (",")@ + h.0@,
    decreases headers.len(),
{
    if headers.len() == 1 {
        let pushed = headers.push(h);
        assert(pushed.drop_first() =~= Seq::empty().push(h));
        assert(pushed.drop_first()[0] == h);
        assert(spec_joined_names(pushed.drop_first()) == h.0@);
        assert(spec_joined_names(pushed) == pushed[0].0@ + (",")@ + spec_joined_names(
            pushed.drop_first(),
        ));
        assert(spec_joined_names(headers.push(h)) =~= spec_joined_names(headers) + (",")@ + h.0@);
    } else {
        assert(headers.push(h).drop_first() =~= headers.drop_first().push(h));
        lemma_joined_names_snoc(headers.drop_first(), h);
        assert(spec_joined_names(headers.push(h)) =~= spec_joined_names(headers) + (",")@ + h.0@);
    }
}

/// Credentials for one recognizer account. An empty secret key selects
/// the plain bearer form of the authorization header.
pub struct AsrClient {
    pub app_id: String,
    pub access_token: String,
    pub secret_key: String,
}

impl AsrClient {
    pub fn new(app_id: String, access_token: String, secret_key: String) -> (r: AsrClient)
        ensures
            r.app_id@ == app_id@,
            r.access_token@ == access_token@,
            r.secret_key@ == secret_key@,
    {
        AsrClient { app_id, access_token, secret_key }
    }

    /// Signs a canonical string with the configured secret key.
    pub fn generate_signature(&self, string_to_sign: &str) -> (r: String)
        ensures
            r@ == spec_signature(self.secret_key@, string_to_sign@),
    {
        let mac = hmac_sha256(self.secret_key.as_str().as_bytes(), string_to_sign.as_bytes());
        base64url_nopad(mac.as_slice())
    }

    /// The canonical string for a request: request line, then each
    /// signed header on its own line, in the order given.
    fn canonical_string(method: &str, path: &str, headers: &Vec<(String, String)>) -> (r: String)
        ensures
            r@ == spec_canonical(method@, path@, headers@),
    {
        let mut s = String::new();
        s.append(method);
        s.append(" ");
        s.append(path);
        s.append(" HTTP/1.1\n");
        let ghost head: Seq<char> = s@;
        let mut i: usize = 0;
        while i < headers.len()
            invariant
                i <= headers@.len(),
                s@ == head + spec_header_lines(headers@.take(i as int)),
            decreases headers@.len() - i,
        {
            let pair = &headers[i];
            s.append(pair.0.as_str());
            s.append(": ");
            s.append(pair.1.as_str());
            s.append("\n");
            proof {
                lemma_header_lines_snoc(headers@.take(i as int), headers@[i as int]);
                assert(headers@.take(i as int).push(headers@[i as int]) =~= headers@.take(
                    i as int + 1,
                ));
                assert(s@ =~= head + spec_header_lines(headers@.take(i as int + 1)));
            }
            i = i + 1;
        }
        proof {
            assert(headers@.take(headers@.len() as int) =~= headers@);
            assert(s@ =~= spec_canonical(method@, path@, headers@));
        }
        s
    }

    /// The signed header names joined with commas.
    fn joined_names(headers: &Vec<(String, String)>) -> (r: String)
        ensures
            r@ == spec_joined_names(headers@),
    {
        let mut s = String::new();
        if headers.len() == 0 {
            proof {
                assert(s@ =~= spec_joined_names(headers@));
            }
            return s;
        }
        s.append(headers[0].0.as_str());
        let mut i: usize = 1;
        while i < headers.len()
            invariant
                1 <= i <= headers@.len(),
                headers@.len() > 0,
                s@ == spec_joined_names(headers@.take(i as int)),
            decreases headers@.len() - i,
        {
            s.append(",");
            s.append(headers[i].0.as_str());
            proof {
                lemma_joined_names_snoc(headers@.take(i as int), headers@[i as int]);
                assert(headers@.take(i as int).push(headers@[i as int]) =~= headers@.take(
                    i as int + 1,
                ));
                assert(s@ =~= spec_joined_names(headers@.take(i as int + 1)));
            }
            i = i + 1;
        }
        proof {
            assert(headers@.take(headers@.len() as int) =~= headers@);
        }
        s
    }

    /// Builds the authorization value for a request. With an empty
    /// secret the result is always `Bearer; <token>`; with a non-empty
    /// secret it is the `HMAC256; ...` form whose `h=` list names
    /// exactly the headers that were signed, in order.
    pub fn build_auth_header(&self, method: &str, path: &str, headers: &Vec<(String, String)>) -> (r:
        String)
        ensures
            r@ == spec_auth_header(self.access_token@, self.secret_key@, method@, path@, headers@),
    {
        if !self.secret_key.as_str().is_empty() {
            let string_to_sign = Self::canonical_string(method, path, headers);
            let mac = self.generate_signature(string_to_sign.as_str());
            let h_list = Self::joined_names(headers);
            let mut s = String::new();
            s.append("HMAC256; access_token=\"");
            s.append(self.access_token.as_str());
            s.append("\"; mac=\"");
            s.append(mac.as_str());
            s.append("\"; h=\"");
            s.append(h_list.as_str());
            s.append("\"");
            proof {
                assert(s@ =~= spec_auth_header(
                    self.access_token@,
                    self.secret_key@,
                    method@,
                    path@,
                    headers@,
                ));
            }
            s
        } else {
            let mut s = String::new();
            s.append("Bearer; ");
            s.append(self.access_token.as_str());
            proof {
                assert(s@ =~= spec_auth_header(
                    self.access_token@,
                    self.secret_key@,
                    method@,
                    path@,
                    headers@,
                ));
            }
            s
        }
    }

    /// Builds a framed message, gzip-compressing the payload on request.
    /// `None` only where the compressed payload outgrows the 32-bit
    /// length field.
    pub fn build_seed_message(msg_type: u8, payload: &[u8], compress: bool) -> (r: Option<Vec<u8>>)
        requires
            msg_type < 16,
            payload@.len() <= u32::MAX,
        ensures
            !compress ==> r is Some,
            compress ==> (r is Some <==> gzip_of(payload@).len() <= u32::MAX),
            r is Some ==> spec_decode(r.unwrap()@) == Some((msg_type, 0u8, payload@)),
            r is Some ==> r.unwrap()@ == spec_frame(
                msg_type,
                0,
                SERIAL_JSON,
                if compress {
                    codec::COMPRESS_GZIP
                } else {
                    codec::COMPRESS_NONE
                },
                if compress {
                    gzip_of(payload@)
                } else {
                    payload@
                },
            ),
    {
        codec::encode_message(msg_type, payload, compress)
    }

    /// Frames one chunk of raw PCM as an audio-only message: type
    /// audio-only, flags 0, no compression, and the declared payload
    /// length exactly the chunk's length.
    pub fn build_audio_message(audio_data: &[u8]) -> (r: Vec<u8>)
        requires
            audio_data@.len() <= u32::MAX,
        ensures
            r@ == spec_frame(MESSAGE_TYPE_AUDIO_ONLY, 0, 0, 0, audio_data@),
            r@.len() == 8 + audio_data@.len(),
            spec_decode(r@) == Some((MESSAGE_TYPE_AUDIO_ONLY, 0u8, audio_data@)),
    {
        let r = codec::build_audio_frame(audio_data);
        r
    }

    /// The zero-payload frame that ends the audio stream: type
    /// audio-only with the finish flag set, payload length zero.
    pub fn build_finish_message() -> (r: Vec<u8>)
        ensures
            r@ == spec_frame(MESSAGE_TYPE_AUDIO_ONLY, FLAGS_FINISH, 0, 0, Seq::empty()),
            r@.len() == 8,
            spec_decode(r@) == Some((MESSAGE_TYPE_AUDIO_ONLY, FLAGS_FINISH, Seq::<u8>::empty())),
    {
        codec::build_finish_frame()
    }
}

/// A finish frame is told apart from every audio frame by its flag
/// nibble alone, and declares a zero-length payload.
pub proof fn lemma_finish_frame_distinct(audio: Seq<u8>)
    requires
        audio.len() <= u32::MAX,
    ensures
        spec_frame(MESSAGE_TYPE_AUDIO_ONLY, FLAGS_FINISH, 0, 0, Seq::empty())[1] != spec_frame(
            MESSAGE_TYPE_AUDIO_ONLY,
            0,
            0,
            0,
            audio,
        )[1],
        spec_decode(spec_frame(MESSAGE_TYPE_AUDIO_ONLY, FLAGS_FINISH, 0, 0, Seq::empty()))
            == Some((MESSAGE_TYPE_AUDIO_ONLY, FLAGS_FINISH, Seq::<u8>::empty())),
{
    assert(((0x02u8 << 4) | 0x02u8) != ((0x02u8 << 4) | 0x00u8)) by (bit_vector);
    assert(0x02u8 & 0x01 == 0u8) by (bit_vector);
    codec::lemma_decode_uncompressed_frame(MESSAGE_TYPE_AUDIO_ONLY, FLAGS_FINISH, 0, Seq::empty());
}


/// What a raw inbound frame yields: only the two result-bearing message
/// types are decoded; every other type, and every malformed or
/// unparseable frame, yields nothing rather than an error.
pub open spec fn spec_parse_response(data: Seq<u8>) -> Option<AsrResponse> {
    match spec_decode(data) {
        None => None,
        Some((msg_type, flags, payload)) => {
            if msg_type == MESSAGE_TYPE_SERVER_FULL || msg_type == MESSAGE_TYPE_SERVER_RESULT {
                asr_response_of(payload)
            } else {
                None
            }
        },
    }
}

impl AsrClient {
    /// Decodes an inbound frame and parses its payload as a recognizer
    /// response. Frames of other message types are silently ignored,
    /// and no malformed input is an error: the session stays alive.
    pub fn parse_response(data: &[u8]) -> (r: Option<AsrResponse>)
        ensures
            r == spec_parse_response(data@),
            data@.len() < 4 ==> r is None,
    {
        match codec::decode_message(data) {
            None => None,
            Some((msg_type, _flags, payload)) => {
                if msg_type == MESSAGE_TYPE_SERVER_FULL || msg_type == MESSAGE_TYPE_SERVER_RESULT {
                    parse_asr_response(payload.as_slice())
                } else {
                    None
                }
            },
        }
    }
}

} // verus!
