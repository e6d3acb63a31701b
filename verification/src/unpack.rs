//! Unpacking a packed script: every word of the script is replaced by what
//! the dictionary holds for it, and the manifest is read from the object
//! that the result hands to a call.

use vstd::prelude::*;
use vstd::string::StringExecFns;
use crate::dictionary::{decode_fault, dictionary_spec, substitution, TokenDictionary};
use crate::error::{Error, StructuralFault};
use crate::keys::ALPHABET_SIZE;
use crate::manifest::{manifest_from_document, manifest_spec, ChapterManifest, ManifestSpec};
use crate::patterns::{
    captures_of,
    group_of,
    group_text,
    matches_of,
    pieces_of,
    regex_captures,
    regex_matches,
    regex_pieces,
    WORD,
};

verus! {

/// A line that holds `(`, an object in braces and `)`: the group is the
/// object that ends last, of those the one that begins last.
pub const OBJECT: &'static str = ".*\\((\\{.*\\})\\).*";

/// The word at `index`, or nothing where `words` has none there.
pub open spec fn word_at(words: Seq<Seq<char>>, index: int) -> Seq<char> {
    if 0 <= index < words.len() {
        words[index]
    } else {
        Seq::empty()
    }
}

/// The text made of `gaps` with one of `words` between each two of them, in
/// order: the first gap, the first word, the second gap, and so on up to the
/// last gap.
pub open spec fn weave(gaps: Seq<Seq<char>>, words: Seq<Seq<char>>) -> Seq<char>
    decreases gaps.len(),
{
    if gaps.len() == 0 {
        Seq::empty()
    } else if gaps.len() == 1 {
        gaps[0]
    } else {
        weave(gaps.drop_last(), words) + word_at(words, gaps.len() - 2) + gaps.last()
    }
}

/// Each of `words` as the dictionary substitutes it.
pub open spec fn substituted(dictionary: Map<Seq<char>, Seq<char>>, words: Seq<Seq<char>>) -> Seq<
    Seq<char>,
> {
    Seq::new(words.len(), |i: int| substitution(dictionary, words[i]))
}

/// Puts a text together again from the stretches between its words and the
/// words themselves, each word replaced by what the dictionary holds for it.
/// The stretches go into the result as they are.
pub fn weave_substituted(gaps: &Vec<String>, words: &Vec<String>, dictionary: &TokenDictionary) -> (out:
    String)
    ensures
        out@ == weave(gaps.deep_view(), substituted(dictionary@, words.deep_view())),
{
    let mut out = String::new();
    let ghost plain_gaps = gaps.deep_view();
    let ghost new_words = substituted(dictionary@, words.deep_view());
    let mut i: usize = 0;
    while i < gaps.len()
        invariant
            i <= gaps.len(),
            plain_gaps == gaps.deep_view(),
            new_words == substituted(dictionary@, words.deep_view()),
            out@ == weave(plain_gaps.take(i as int), new_words),
        decreases gaps.len() - i,
    {
        proof {
            assert(plain_gaps.take(i + 1).drop_last() == plain_gaps.take(i as int));
            assert(plain_gaps.take(i + 1).last() == gaps[i as int]@);
            assert(plain_gaps.take(1)[0] == gaps[0]@);
        }
        if i > 0 && i - 1 < words.len() {
            let word = dictionary.substitute(words[i - 1].as_str());
            assert(word@ == word_at(new_words, i - 1));
            out.append(word.as_str());
        }
        out.append(gaps[i].as_str());
        i = i + 1;
    }
    assert(plain_gaps.take(i as int) == plain_gaps);
    out
}

/// The script with every word replaced by what `dictionary` holds for it.
pub open spec fn unpacked_script(frame: Seq<char>, dictionary: Map<Seq<char>, Seq<char>>) -> Seq<
    char,
> {
    match (pieces_of(WORD@, frame), matches_of(WORD@, frame)) {
        (Some(gaps), Some(words)) => weave(gaps, substituted(dictionary, words)),
        _ => frame,
    }
}

/// Replaces every word of `frame` by what `dictionary` holds for it, and
/// leaves what stands between the words as it is.
pub fn substitute_words(frame: &str, dictionary: &TokenDictionary) -> (script: String)
    ensures
        script@ == unpacked_script(frame@, dictionary@),
{
    match (regex_pieces(WORD, frame), regex_matches(WORD, frame)) {
        (Some(gaps), Some(words)) => weave_substituted(&gaps, &words, dictionary),
        _ => frame.to_owned(),
    }
}

/// The object that `script` hands to a call, if it holds one.
pub open spec fn object_in(script: Seq<char>) -> Option<Seq<char>> {
    match captures_of(OBJECT@, script) {
        Some(groups) => group_text(groups, 1),
        None => None,
    }
}

/// Finds the object that `script` hands to a call.
pub fn extract_object(script: &str) -> (object: Option<String>)
    ensures
        object.deep_view() == object_in(script@),
{
    match regex_captures(OBJECT, script) {
        Some(groups) => group_of(&groups, 1),
        None => None,
    }
}

/// The manifest that an unpacked script carries, or what is wrong with the
/// script.
pub open spec fn script_manifest(script: Seq<char>) -> Result<ManifestSpec, StructuralFault> {
    match object_in(script) {
        Some(object) => manifest_spec(object),
        None => Err(StructuralFault::ObjectMissing),
    }
}

/// The manifest that a packed script carries, or what is wrong with the
/// script. The dictionary is checked first, so a script whose radix is out of
/// reach fails before anything is substituted.
pub open spec fn unpack_spec(frame: Seq<char>, radix: usize, count: usize, payload: Seq<Seq<char>>) -> Result<
    ManifestSpec,
    StructuralFault,
> {
    match decode_fault(radix, count, payload.len() as usize) {
        Some(fault) => Err(fault),
        None => script_manifest(
            unpacked_script(frame, dictionary_spec(radix as nat, count as nat, payload)),
        ),
    }
}

/// A script whose radix needs more symbols than the key alphabet has is
/// rejected for its radix, whatever its frame and its payload hold, as soon
/// as its dictionary has an entry.
pub proof fn large_radix_fails(frame: Seq<char>, radix: usize, count: usize, payload: Seq<Seq<char>>)
    requires
        radix > ALPHABET_SIZE,
        count >= 1,
    ensures
        unpack_spec(frame, radix, count, payload) == Err::<ManifestSpec, StructuralFault>(
            StructuralFault::RadixTooLarge { radix },
        ),
{
}

/// Whether `result` is `model` with each text taken by its characters and
/// each fault reported as a malformed script.
pub open spec fn unpacked_matches(
    result: Result<ChapterManifest, Error>,
    model: Result<ManifestSpec, StructuralFault>,
) -> bool {
    match result {
        Ok(manifest) => model == Ok::<ManifestSpec, StructuralFault>(manifest@),
        Err(error) => error is Malformed && model == Err::<ManifestSpec, StructuralFault>(
            error->Malformed_0,
        ),
    }
}

/// Unpacks the script `frame`, whose words are keys in `radix` of the first
/// `count` entries of `payload`, and reads the manifest that it carries.
pub fn unpack_packed(frame: &str, radix: usize, count: usize, payload: Vec<String>) -> (result:
    Result<ChapterManifest, Error>)
    ensures
        unpacked_matches(result, unpack_spec(frame@, radix, count, payload.deep_view())),
{
    let dictionary = match TokenDictionary::decode(radix, count, &payload) {
        Ok(dictionary) => dictionary,
        Err(fault) => { return Err(Error::Malformed(fault)); },
    };
    let script = substitute_words(frame, &dictionary);
    let object = match extract_object(script.as_str()) {
        Some(object) => object,
        None => { return Err(Error::Malformed(StructuralFault::ObjectMissing)); },
    };
    match manifest_from_document(object.as_str()) {
        Ok(manifest) => Ok(manifest),
        Err(fault) => Err(Error::Malformed(fault)),
    }
}

} // verus!
