//! The page of a chapter: the packed script that it holds, the payload of
//! the script's dictionary, and the manifest that both unpack to.

use vstd::prelude::*;
use crate::error::{Error, StructuralFault};
use crate::manifest::{ChapterManifest, ManifestSpec};
use crate::patterns::{captures_of, group_of, group_text, regex_captures};
use crate::text::{chars_of, decimal_number, parse_decimal, split_on, split_spec};
use crate::unpack::{unpack_packed, unpack_spec};

verus! {

/// The call that ends a packed script, on one line: the frame in quotes, the
/// radix, the dictionary size, and the dictionary payload in quotes.
pub const PACKED_CALL: &'static str = ".*}\\('\\s*(.*?)',(\\d+),(\\d+),'([\\w+/=]+)'.*";

/// The arguments of the call that ends a packed script, as they are written.
#[derive(Debug, Clone, PartialEq, Eq)]
pub struct PackedCall {
    pub frame: String,
    pub radix: String,
    pub count: String,
    pub payload: String,
}

/// A [`PackedCall`] over sequences of characters.
pub struct PackedCallSpec {
    pub frame: Seq<char>,
    pub radix: Seq<char>,
    pub count: Seq<char>,
    pub payload: Seq<char>,
}

impl DeepView for PackedCall {
    type V = PackedCallSpec;

    open spec fn deep_view(&self) -> PackedCallSpec {
        PackedCallSpec {
            frame: self.frame@,
            radix: self.radix@,
            count: self.count@,
            payload: self.payload@,
        }
    }
}

/// The packed call that a match with these groups shows, if all four
/// arguments took part in it.
pub open spec fn call_of(groups: Seq<Option<Seq<char>>>) -> Option<PackedCallSpec> {
    match (
        group_text(groups, 1),
        group_text(groups, 2),
        group_text(groups, 3),
        group_text(groups, 4),
    ) {
        (Some(frame), Some(radix), Some(count), Some(payload)) => Some(
            PackedCallSpec { frame, radix, count, payload },
        ),
        _ => None,
    }
}

/// The packed call that `page` holds, if it holds one.
pub open spec fn packed_call_in(page: Seq<char>) -> Option<PackedCallSpec> {
    match captures_of(PACKED_CALL@, page) {
        Some(groups) => call_of(groups),
        None => None,
    }
}

/// Finds the call that ends the packed script of a chapter page.
pub fn find_packed_call(page: &str) -> (call: Option<PackedCall>)
    ensures
        call.deep_view() == packed_call_in(page@),
{
    let groups = match regex_captures(PACKED_CALL, page) {
        Some(groups) => groups,
        None => { return None; },
    };
    match (group_of(&groups, 1), group_of(&groups, 2), group_of(&groups, 3), group_of(&groups, 4)) {
        (Some(frame), Some(radix), Some(count), Some(payload)) => Some(
            PackedCall { frame, radix, count, payload },
        ),
        _ => None,
    }
}

/// Whether `c` is one of the sixteen last symbols of the payload alphabet:
/// `w` to `z`, a digit, `+` or `/`.
pub open spec fn is_high_symbol(c: char) -> bool {
    ('w' <= c <= 'z') || ('0' <= c <= '9') || c == '+' || c == '/'
}

/// Whether a payload opens with a reference to a phrase that came before,
/// which a payload cannot do: nothing came before its first symbol.
pub open spec fn opens_with_reference(payload: Seq<char>) -> bool {
    payload.len() > 0 && is_high_symbol(payload[0])
}

/// The text that the payload `payload` decompresses to, as
/// `lz_string::Decoder::decode_base64` computes it; `None` where the crate
/// reports an error.
pub uninterp spec fn decoded_of(payload: Seq<char>) -> Option<Seq<char>>;

/// Calls `lz_string::Decoder::new` and `lz_string::Decoder::decode_base64`.
/// The crate indexes into an empty phrase where the first symbol's two high
/// bits are set, so the contract leaves out the payloads that open so. It
/// claims only that the text handed back is what the crate decodes from
/// this payload.
#[verifier::external_body]
pub(crate) fn decode_payload(payload: &str) -> (text: Option<String>)
    requires
        !opens_with_reference(payload@),
    ensures
        text.deep_view() == decoded_of(payload@),
{
    lz_string::Decoder::new().decode_base64(payload).ok()
}

/// The text of a dictionary payload: what it decompresses to, unless it is
/// malformed from its first symbol on or the decoder rejects it.
pub open spec fn payload_text(payload: Seq<char>) -> Option<Seq<char>> {
    if opens_with_reference(payload) {
        None
    } else {
        decoded_of(payload)
    }
}

/// Decompresses a dictionary payload.
pub fn decompress(payload: &str) -> (result: Result<String, Error>)
    ensures
        match result {
            Ok(text) => payload_text(payload@) == Some(text@),
            Err(error) => error == Error::Decode && payload_text(payload@) is None,
        },
{
    let chars = chars_of(payload);
    if chars.len() > 0 {
        let c = chars[0];
        if ('w' <= c && c <= 'z') || ('0' <= c && c <= '9') || c == '+' || c == '/' {
            return Err(Error::Decode);
        }
    }
    match decode_payload(payload) {
        Some(text) => Ok(text),
        None => Err(Error::Decode),
    }
}

/// A packed script: a body whose words are keys in `radix` of the first
/// `dictionary_size` words of the payload.
#[derive(Debug, Clone, PartialEq, Eq)]
pub struct PackedScript {
    pub body: String,
    pub radix: usize,
    pub dictionary_size: usize,
    pub compressed_payload: String,
}

/// A [`PackedScript`] over sequences of characters.
pub struct ScriptSpec {
    pub body: Seq<char>,
    pub radix: usize,
    pub dictionary_size: usize,
    pub compressed_payload: Seq<char>,
}

impl View for PackedScript {
    type V = ScriptSpec;

    open spec fn view(&self) -> ScriptSpec {
        ScriptSpec {
            body: self.body@,
            radix: self.radix,
            dictionary_size: self.dictionary_size,
            compressed_payload: self.compressed_payload@,
        }
    }
}

/// The packed script that a call describes, if its radix and its dictionary
/// size are numbers that this machine can hold.
pub open spec fn script_of(call: PackedCallSpec) -> Option<ScriptSpec> {
    match (decimal_number(call.radix), decimal_number(call.count)) {
        (Some(radix), Some(dictionary_size)) => Some(
            ScriptSpec {
                body: call.frame,
                radix,
                dictionary_size,
                compressed_payload: call.payload,
            },
        ),
        _ => None,
    }
}

/// What a malformed script is reported as.
pub open spec fn reported(model: Result<ManifestSpec, StructuralFault>) -> Result<ManifestSpec, Error> {
    match model {
        Ok(manifest) => Ok(manifest),
        Err(fault) => Err(Error::Malformed(fault)),
    }
}

/// The manifest that a packed script unpacks to, or why it unpacks to none.
/// The payload is decompressed and cut at every `|` into the words of the
/// dictionary.
pub open spec fn script_manifest_spec(script: ScriptSpec) -> Result<ManifestSpec, Error> {
    match payload_text(script.compressed_payload) {
        Some(text) => reported(
            unpack_spec(script.body, script.radix, script.dictionary_size, split_spec(text, '|')),
        ),
        None => Err(Error::Decode),
    }
}

/// The manifest that a packed call unpacks to, or why it unpacks to none.
/// The numbers are read before the payload is touched.
pub open spec fn call_manifest(call: PackedCallSpec) -> Result<ManifestSpec, Error> {
    match script_of(call) {
        Some(script) => script_manifest_spec(script),
        None => Err(Error::Malformed(StructuralFault::NumberInvalid)),
    }
}

/// The manifest of the chapter whose page is `page`, or why the page yields
/// none.
pub open spec fn page_manifest(page: Seq<char>) -> Result<ManifestSpec, Error> {
    match packed_call_in(page) {
        Some(call) => call_manifest(call),
        None => Err(Error::Malformed(StructuralFault::ScriptMissing)),
    }
}

/// Whether `result` is `model` with each text taken by its characters.
pub open spec fn manifest_result_matches(
    result: Result<ChapterManifest, Error>,
    model: Result<ManifestSpec, Error>,
) -> bool {
    match result {
        Ok(manifest) => model == Ok::<ManifestSpec, Error>(manifest@),
        Err(error) => model == Err::<ManifestSpec, Error>(error),
    }
}

impl PackedScript {
    /// Reads the numbers of a packed call.
    pub fn from_call(call: &PackedCall) -> (result: Result<PackedScript, Error>)
        ensures
            match result {
                Ok(script) => script_of(call.deep_view()) == Some(script@),
                Err(error) => error == Error::Malformed(StructuralFault::NumberInvalid)
                    && script_of(call.deep_view()) is None,
            },
    {
        let radix = match parse_decimal(call.radix.as_str()) {
            Some(radix) => radix,
            None => { return Err(Error::Malformed(StructuralFault::NumberInvalid)); },
        };
        let dictionary_size = match parse_decimal(call.count.as_str()) {
            Some(count) => count,
            None => { return Err(Error::Malformed(StructuralFault::NumberInvalid)); },
        };
        Ok(
            PackedScript {
                body: call.frame.clone(),
                radix,
                dictionary_size,
                compressed_payload: call.payload.clone(),
            },
        )
    }

    /// Unpacks the manifest that the script carries.
    pub fn manifest(&self) -> (result: Result<ChapterManifest, Error>)
        ensures
            manifest_result_matches(result, script_manifest_spec(self@)),
    {
        let text = match decompress(self.compressed_payload.as_str()) {
            Ok(text) => text,
            Err(error) => { return Err(error); },
        };
        let words = split_on(text.as_str(), '|');
        unpack_packed(self.body.as_str(), self.radix, self.dictionary_size, words)
    }
}

/// Unpacks the manifest of a chapter from the arguments of its packed call.
pub fn manifest_from_call(call: &PackedCall) -> (result: Result<ChapterManifest, Error>)
    ensures
        manifest_result_matches(result, call_manifest(call.deep_view())),
{
    match PackedScript::from_call(call) {
        Ok(script) => script.manifest(),
        Err(error) => Err(error),
    }
}

/// Reads the manifest of a chapter from its page.
pub fn manifest_from_page(page: &str) -> (result: Result<ChapterManifest, Error>)
    ensures
        manifest_result_matches(result, page_manifest(page@)),
{
    match find_packed_call(page) {
        Some(call) => manifest_from_call(&call),
        None => Err(Error::Malformed(StructuralFault::ScriptMissing)),
    }
}

} // verus!
