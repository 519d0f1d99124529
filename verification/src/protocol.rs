//! Wire-level request configuration and response model for the
//! streaming recognizer.
//!
//! The configuration frame carries a JSON object built here byte by
//! byte; inbound result payloads are JSON read through serde_json behind
//! one trusted parser.

use vstd::prelude::*;
use vstd::string::StringSliceAdditionalSpecFns;

use crate::client::{is_uuid_char, new_uuid_string};
use crate::codec::push_bytes;
use crate::text::{push_dec, spec_dec_bytes};
use vstd::utf8::encode_utf8;

verus! {

/// Per-session user identification sent in the configuration frame.
pub struct UserConfig {
    pub uid: String,
}

/// The audio format the session will stream: fixed 16 kHz, 16-bit,
/// mono PCM.
pub struct AudioConfig {
    pub format: String,
    pub codec: String,
    pub rate: u32,
    pub bits: u32,
    pub channel: u32,
}

/// Recognition options requested from the backend.
pub struct RequestConfig {
    pub model_name: String,
    pub enable_punc: bool,
    pub enable_itn: bool,
    pub result_type: String,
    pub show_utterances: bool,
}

/// The full configuration object sent in the first frame of a session.
pub struct AsrConfig {
    pub user: UserConfig,
    pub audio: AudioConfig,
    pub request: RequestConfig,
}

impl Default for AsrConfig {
    /// The configuration the session always opens with: a fresh random
    /// uid, 16 kHz/16-bit/mono PCM, and the big streaming model with
    /// punctuation and inverse text normalization on.
    fn default() -> (r: AsrConfig)
        ensures
            r.user.uid@.len() == 36,
            forall|i: int| 0 <= i < 36 ==> is_uuid_char(#[trigger] r.user.uid@[i]),
            r.audio.format@ == ("pcm")@,
            r.audio.codec@ == ("pcm")@,
            r.audio.rate == 16000,
            r.audio.bits == 16,
            r.audio.channel == 1,
            r.request.model_name@ == ("bigmodel")@,
            r.request.enable_punc,
            r.request.enable_itn,
            r.request.result_type@ == ("single")@,
            !r.request.show_utterances,
    {
        AsrConfig {
            user: UserConfig { uid: new_uuid_string() },
            audio: AudioConfig {
                format: String::from_str("pcm"),
                codec: String::from_str("pcm"),
                rate: 16000,
                bits: 16,
                channel: 1,
            },
            request: RequestConfig {
                model_name: String::from_str("bigmodel"),
                enable_punc: true,
                enable_itn: true,
                result_type: String::from_str("single"),
                show_utterances: false,
            },
        }
    }
}

/// The ASCII byte of a hexadecimal digit, lowercase.
pub open spec fn spec_hex_digit(d: nat) -> u8
    recommends
        d < 16,
{
    if d < 10 {
        (0x30 + d) as u8
    } else {
        (0x57 + d) as u8
    }
}

/// How one byte of a string appears inside a JSON string literal:
/// quote and backslash are escaped, control bytes become `\u00XX`,
/// everything else (including UTF-8 continuation bytes) passes through.
pub open spec fn spec_json_escaped_byte(b: u8) -> Seq<u8> {
    if b == 0x22 {
        seq![0x5cu8, 0x22u8]
    } else if b == 0x5c {
        seq![0x5cu8, 0x5cu8]
    } else if b < 0x20 {
        seq![0x5cu8, 0x75u8, 0x30u8, 0x30u8, spec_hex_digit((b / 16) as nat), spec_hex_digit(
            (b % 16) as nat,
        )]
    } else {
        seq![b]
    }
}

/// A byte sequence escaped for use inside a JSON string literal.
pub open spec fn spec_json_escaped(s: Seq<u8>) -> Seq<u8>
    decreases s.len(),
{
    if s.len() == 0 {
        Seq::empty()
    } else {
        spec_json_escaped_byte(s[0]) + spec_json_escaped(s.drop_first())
    }
}

/// A JSON string literal: the escaped bytes between double quotes.
pub open spec fn spec_json_string(s: Seq<u8>) -> Seq<u8> {
    seq![0x22u8] + spec_json_escaped(s) + seq![0x22u8]
}

/// A JSON boolean literal.
pub open spec fn spec_json_bool(b: bool) -> Seq<u8> {
    if b {
        ("true").spec_bytes()
    } else {
        ("false").spec_bytes()
    }
}

proof fn lemma_json_escaped_snoc(s: Seq<u8>, b: u8)
    ensures
        spec_json_escaped(s.push(b)) == spec_json_escaped(s) + spec_json_escaped_byte(b),
    decreases s.len(),
{
    if s.len() == 0 {
        assert(s.push(b).drop_first() =~= s);
        assert(spec_json_escaped(s.push(b)) =~= spec_json_escaped(s) + spec_json_escaped_byte(b));
    } else {
        assert(s.push(b).drop_first() =~= s.drop_first().push(b));
        lemma_json_escaped_snoc(s.drop_first(), b);
        assert(spec_json_escaped(s.push(b)) =~= spec_json_escaped(s) + spec_json_escaped_byte(b));
    }
}

/// Appends `s` to `out`, escaped for a JSON string literal.
fn push_json_escaped(out: &mut Vec<u8>, s: &[u8])
    ensures
        final(out)@ == old(out)@ + spec_json_escaped(s@),
{
    let mut i: usize = 0;
    while i < s.len()
        invariant
            i <= s@.len(),
            out@ == old(out)@ + spec_json_escaped(s@.take(i as int)),
        decreases s@.len() - i,
    {
        let b = s[i];
        if b == 0x22 {
            out.push(0x5c);
            out.push(0x22);
        } else if b == 0x5c {
            out.push(0x5c);
            out.push(0x5c);
        } else if b < 0x20 {
            out.push(0x5c);
            out.push(0x75);
            out.push(0x30);
            out.push(0x30);
            let hi = b / 16;
            let lo = b % 16;
            out.push(
                if hi < 10 {
                    0x30 + hi
                } else {
                    0x57 + hi
                },
            );
            out.push(
                if lo < 10 {
                    0x30 + lo
                } else {
                    0x57 + lo
                },
            );
        } else {
            out.push(b);
        }
        proof {
            lemma_json_escaped_snoc(s@.take(i as int), s@[i as int]);
            assert(s@.take(i as int).push(s@[i as int]) =~= s@.take(i as int + 1));
            assert(out@ =~= old(out)@ + spec_json_escaped(s@.take(i as int + 1)));
        }
        i = i + 1;
    }
    proof {
        assert(s@.take(s@.len() as int) =~= s@);
    }
}

/// Appends `s` as a JSON string literal to `out`.
fn push_json_string(out: &mut Vec<u8>, s: &str)
    ensures
        final(out)@ == old(out)@ + spec_json_string(s.spec_bytes()),
{
    out.push(0x22);
    push_json_escaped(out, s.as_bytes());
    out.push(0x22);
    proof {
        assert(out@ =~= old(out)@ + spec_json_string(s.spec_bytes()));
    }
}

/// Appends `true` or `false` to `out`.
fn push_json_bool(out: &mut Vec<u8>, b: bool)
    ensures
        final(out)@ == old(out)@ + spec_json_bool(b),
{
    if b {
        push_bytes(out, "true".as_bytes());
    } else {
        push_bytes(out, "false".as_bytes());
    }
}

/// The JSON object for a configuration, exactly as it is framed: the
/// user, audio and request sections in order, every member named, string
/// members escaped, numbers in decimal.
#[verifier::opaque]
pub open spec fn spec_config_json(c: AsrConfig) -> Seq<u8> {
    ("{\"user\":{\"uid\":").spec_bytes() + spec_json_string(encode_utf8(c.user.uid@)) + (
    "},\"audio\":{\"format\":").spec_bytes() + spec_json_string(encode_utf8(c.audio.format@)) + (
    ",\"codec\":").spec_bytes() + spec_json_string(encode_utf8(c.audio.codec@)) + (
    ",\"rate\":").spec_bytes() + spec_dec_bytes(c.audio.rate as nat) + (",\"bits\":").spec_bytes()
        + spec_dec_bytes(c.audio.bits as nat) + (",\"channel\":").spec_bytes() + spec_dec_bytes(
        c.audio.channel as nat,
    ) + ("},\"request\":{\"model_name\":").spec_bytes() + spec_json_string(
        encode_utf8(c.request.model_name@),
    ) + (",\"enable_punc\":").spec_bytes() + spec_json_bool(c.request.enable_punc) + (
    ",\"enable_itn\":").spec_bytes() + spec_json_bool(c.request.enable_itn) + (
    ",\"result_type\":").spec_bytes() + spec_json_string(encode_utf8(c.request.result_type@)) + (
    ",\"show_utterances\":").spec_bytes() + spec_json_bool(c.request.show_utterances) + (
    "}}").spec_bytes()
}

impl AsrConfig {
    /// Serializes the configuration as the JSON object the first frame
    /// of a session carries.
    pub fn to_json_bytes(&self) -> (r: Vec<u8>)
        ensures
            r@ == spec_config_json(*self),
    {
        let mut out: Vec<u8> = Vec::new();
        push_bytes(&mut out, "{\"user\":{\"uid\":".as_bytes());
        push_json_string(&mut out, self.user.uid.as_str());
        push_bytes(&mut out, "},\"audio\":{\"format\":".as_bytes());
        push_json_string(&mut out, self.audio.format.as_str());
        push_bytes(&mut out, ",\"codec\":".as_bytes());
        push_json_string(&mut out, self.audio.codec.as_str());
        push_bytes(&mut out, ",\"rate\":".as_bytes());
        push_dec(&mut out, self.audio.rate as u64);
        push_bytes(&mut out, ",\"bits\":".as_bytes());
        push_dec(&mut out, self.audio.bits as u64);
        push_bytes(&mut out, ",\"channel\":".as_bytes());
        push_dec(&mut out, self.audio.channel as u64);
        push_bytes(&mut out, "},\"request\":{\"model_name\":".as_bytes());
        push_json_string(&mut out, self.request.model_name.as_str());
        push_bytes(&mut out, ",\"enable_punc\":".as_bytes());
        push_json_bool(&mut out, self.request.enable_punc);
        push_bytes(&mut out, ",\"enable_itn\":".as_bytes());
        push_json_bool(&mut out, self.request.enable_itn);
        push_bytes(&mut out, ",\"result_type\":".as_bytes());
        push_json_string(&mut out, self.request.result_type.as_str());
        push_bytes(&mut out, ",\"show_utterances\":".as_bytes());
        push_json_bool(&mut out, self.request.show_utterances);
        push_bytes(&mut out, "}}".as_bytes());
        proof {
            reveal(spec_config_json);
            assert(out@ =~= spec_config_json(*self));
        }
        out
    }
}

/// A single recognition result object: its text.
pub struct AsrResult {
    pub text: String,
}

/// One utterance of a segmented result, with its time range. The
/// backend sends utterance detail only when `show_utterances` is
/// requested, which this client's configuration never does.
pub struct Utterance {
    pub text: String,
    pub start_time: u64,
    pub end_time: u64,
    pub definite: bool,
}

/// Audio statistics some responses carry alongside the result.
pub struct AudioInfo {
    pub duration: u64,
}

/// A result object with its interim flag.
pub struct AsrResultSingle {
    pub text: String,
    pub prefetch: bool,
}

/// The `result` member of a response: absent (or null), one object, or
/// an array of objects. The backend may send either shape.
pub enum AsrResultWrapper {
    Missing,
    Single(AsrResultSingle),
    Array(Vec<AsrResult>),
}

/// The fields of a recognizer response that the session reads.
pub struct AsrResponse {
    pub code: i64,
    pub result: AsrResultWrapper,
}

/// What the trusted JSON parser recovers from a result payload.
pub uninterp spec fn asr_response_of(b: Seq<u8>) -> Option<AsrResponse>;

/// serde_json's JSON value type, used only to hand parsed values
/// between the trusted readers below.
#[verifier::external_type_specification]
#[verifier::external_body]
pub struct ExValue(serde_json::Value);

/// Relies on serde_json's `Value::get` and `Value::as_str`: the `text`
/// member of a JSON object, or empty where absent or not a string.
#[verifier::external_body]
fn json_text_member(v: &serde_json::Value) -> String {
    v.get("text").and_then(|t| t.as_str()).unwrap_or("").to_string()
}

/// Relies on serde_json's `Value` accessors: an object yields `Single`
/// with its `text` and `prefetch` members (empty and false where
/// absent), an array yields `Array` with each element's `text`, and
/// anything else — absent, null, or another shape — yields `Missing`.
#[verifier::external_body]
fn json_result_member(v: Option<&serde_json::Value>) -> AsrResultWrapper {
    match v {
        Some(o @ serde_json::Value::Object(_)) => AsrResultWrapper::Single(AsrResultSingle {
            text: json_text_member(o),
            prefetch: o.get("prefetch").and_then(|p| p.as_bool()).unwrap_or(false),
        }),
        Some(serde_json::Value::Array(items)) => AsrResultWrapper::Array(
            items.iter().map(|o| AsrResult { text: json_text_member(o) }).collect(),
        ),
        _ => AsrResultWrapper::Missing,
    }
}

/// Relies on serde_json: parses the payload as JSON and reads its
/// `code` member (0 where absent or not an integer) and its `result`
/// member as the readers above do. `None` where the payload is not
/// well-formed JSON. The outcome depends on the payload bytes alone.
#[verifier::external_body]
pub fn parse_asr_response(data: &[u8]) -> (r: Option<AsrResponse>)
    ensures
        r == asr_response_of(data@),
{
    let v: serde_json::Value = match serde_json::from_slice(data) {
        Ok(v) => v,
        Err(_) => return None,
    };
    let code = v.get("code").and_then(|c| c.as_i64()).unwrap_or(0);
    Some(AsrResponse { code, result: json_result_member(v.get("result")) })
}

/// The text a response carries: the single object's text, or the first
/// array element's, or empty.
pub open spec fn spec_response_text(r: AsrResponse) -> Seq<char> {
    match r.result {
        AsrResultWrapper::Missing => Seq::empty(),
        AsrResultWrapper::Single(s) => s.text@,
        AsrResultWrapper::Array(rs) => {
            if rs@.len() > 0 {
                rs@[0].text@
            } else {
                Seq::empty()
            }
        },
    }
}

impl AsrResponse {
    /// A response counts as successful when it carries a result at all,
    /// or reports the dedicated success code.
    pub fn is_success(&self) -> (r: bool)
        ensures
            r == (!(self.result is Missing) || self.code == 1000),
    {
        match self.result {
            AsrResultWrapper::Missing => self.code == 1000,
            _ => true,
        }
    }

    /// The text of the result: a lone object's text, the first element's
    /// text of an array (later elements are dropped), empty otherwise.
    pub fn get_text(&self) -> (r: String)
        ensures
            r@ == spec_response_text(*self),
    {
        match &self.result {
            AsrResultWrapper::Single(s) => s.text.clone(),
            AsrResultWrapper::Array(rs) => {
                if rs.len() > 0 {
                    rs[0].text.clone()
                } else {
                    String::new()
                }
            },
            AsrResultWrapper::Missing => String::new(),
        }
    }

    /// Whether the result is an interim ("prefetch") guess: only a lone
    /// result object says so.
    pub fn is_prefetch(&self) -> (r: bool)
        ensures
            r == (self.result matches AsrResultWrapper::Single(s) && s.prefetch),
    {
        match &self.result {
            AsrResultWrapper::Single(s) => s.prefetch,
            _ => false,
        }
    }
}

} // verus!
