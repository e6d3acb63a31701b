//! The manifest of a chapter: its credentials, the base path of its images
//! and its pages in reading order.

use vstd::prelude::*;
use vstd::string::StringExecFns;
use crate::document::{json_node, node_at, JsonNode, NodeSpec};
use crate::error::StructuralFault;
use crate::text::{decimal_digits, decimal_text};

verus! {

/// The first credential of a chapter, which the site writes as a string or
/// as a number.
#[derive(Debug, Clone, PartialEq, Eq)]
pub enum Credential {
    Text(String),
    /// A number, by its digits as they go into a request.
    Number(String),
}

/// A [`Credential`] over sequences of characters.
pub enum CredentialSpec {
    Text(Seq<char>),
    Number(Seq<char>),
}

impl View for Credential {
    type V = CredentialSpec;

    open spec fn view(&self) -> CredentialSpec {
        match self {
            Credential::Text(text) => CredentialSpec::Text(text@),
            Credential::Number(digits) => CredentialSpec::Number(digits@),
        }
    }
}

impl CredentialSpec {
    /// The credential as it goes into a request.
    pub open spec fn text(self) -> Seq<char> {
        match self {
            CredentialSpec::Text(text) => text,
            CredentialSpec::Number(digits) => digits,
        }
    }
}

impl Credential {
    /// The credential as it goes into a request.
    pub fn text(&self) -> (text: String)
        ensures
            text@ == self@.text(),
    {
        match self {
            Credential::Text(text) => text.clone(),
            Credential::Number(digits) => digits.clone(),
        }
    }
}

/// What a chapter page yields once unpacked. The order of `files` is the
/// order of the pages.
#[derive(Debug, Clone, PartialEq, Eq)]
pub struct ChapterManifest {
    pub auth_e: Credential,
    pub auth_m: String,
    pub image_base_path: String,
    pub files: Vec<String>,
}

/// A [`ChapterManifest`] over sequences of characters.
pub struct ManifestSpec {
    pub auth_e: CredentialSpec,
    pub auth_m: Seq<char>,
    pub image_base_path: Seq<char>,
    pub files: Seq<Seq<char>>,
}

impl View for ChapterManifest {
    type V = ManifestSpec;

    open spec fn view(&self) -> ManifestSpec {
        ManifestSpec {
            auth_e: self.auth_e@,
            auth_m: self.auth_m@,
            image_base_path: self.image_base_path@,
            files: self.files.deep_view(),
        }
    }
}

/// The pointer to page `index` of a document's file list.
pub open spec fn file_pointer(index: nat) -> Seq<char> {
    "/files/"@ + decimal_digits(index)
}

/// The name of page `index` in `document`, if the document has a string
/// there.
pub open spec fn file_at(document: Seq<char>, index: nat) -> Option<Seq<char>> {
    match node_at(document, file_pointer(index)) {
        NodeSpec::Text(name) => Some(name),
        _ => None,
    }
}

/// Whether each of the first `count` pages of `document` is a string.
pub open spec fn files_named(document: Seq<char>, count: nat) -> bool {
    forall|i: nat| i < count ==> (#[trigger] file_at(document, i)) is Some
}

/// The names of the first `count` pages of `document`.
pub open spec fn file_names(document: Seq<char>, count: nat) -> Seq<Seq<char>> {
    Seq::new(count, |i: int| file_at(document, i as nat).unwrap())
}

/// The manifest that the JSON text `document` holds, or what is wrong with
/// it. A document lacks the shape of a manifest unless it has a value at
/// `sl.e`, strings at `sl.m` and `path`, and a list of strings at `files`;
/// one that has it must still have a string or a number at `sl.e`.
pub open spec fn manifest_spec(document: Seq<char>) -> Result<ManifestSpec, StructuralFault> {
    let e = node_at(document, "/sl/e"@);
    let m = node_at(document, "/sl/m"@);
    let path = node_at(document, "/path"@);
    let files = node_at(document, "/files"@);
    if e is Invalid || e is Missing {
        Err(StructuralFault::DocumentInvalid)
    } else if !(m is Text) || !(path is Text) || !(files is List) {
        Err(StructuralFault::DocumentInvalid)
    } else if !files_named(document, files->List_0) {
        Err(StructuralFault::DocumentInvalid)
    } else {
        let rest = (m->Text_0, path->Text_0, file_names(document, files->List_0));
        match e {
            NodeSpec::Text(text) => Ok(
                ManifestSpec {
                    auth_e: CredentialSpec::Text(text),
                    auth_m: rest.0,
                    image_base_path: rest.1,
                    files: rest.2,
                },
            ),
            NodeSpec::Number(digits) => Ok(
                ManifestSpec {
                    auth_e: CredentialSpec::Number(digits),
                    auth_m: rest.0,
                    image_base_path: rest.1,
                    files: rest.2,
                },
            ),
            _ => Err(StructuralFault::CredentialKind),
        }
    }
}

/// Whether `result` is `model` with each text taken by its characters.
pub open spec fn manifest_matches(
    result: Result<ChapterManifest, StructuralFault>,
    model: Result<ManifestSpec, StructuralFault>,
) -> bool {
    match result {
        Ok(manifest) => model == Ok::<ManifestSpec, StructuralFault>(manifest@),
        Err(fault) => model == Err::<ManifestSpec, StructuralFault>(fault),
    }
}

/// Reads the manifest that the JSON text `document` holds.
#[verifier::loop_isolation(false)]
pub fn manifest_from_document(document: &str) -> (result: Result<ChapterManifest, StructuralFault>)
    ensures
        manifest_matches(result, manifest_spec(document@)),
{
    let e = json_node(document, "/sl/e");
    let m = json_node(document, "/sl/m");
    let path = json_node(document, "/path");
    let files = json_node(document, "/files");
    match e {
        JsonNode::Invalid | JsonNode::Missing => {
            return Err(StructuralFault::DocumentInvalid);
        },
        _ => {},
    }
    let auth_m = match m {
        JsonNode::Text(text) => text,
        _ => { return Err(StructuralFault::DocumentInvalid); },
    };
    let image_base_path = match path {
        JsonNode::Text(text) => text,
        _ => { return Err(StructuralFault::DocumentInvalid); },
    };
    let count = match files {
        JsonNode::List(length) => length,
        _ => { return Err(StructuralFault::DocumentInvalid); },
    };
    let mut names: Vec<String> = Vec::new();
    let mut i: usize = 0;
    while i < count
        invariant
            i <= count,
            names.len() == i,
            forall|k: nat| k < i ==> file_at(document@, k) == Some((#[trigger] names[k as int])@),
        decreases count - i,
    {
        let pointer = String::from_str("/files/").concat(decimal_text(i as u64).as_str());
        match json_node(document, pointer.as_str()) {
            JsonNode::Text(name) => {
                names.push(name);
            },
            _ => {
                assert(!(file_at(document@, i as nat) is Some));
                return Err(StructuralFault::DocumentInvalid);
            },
        }
        i = i + 1;
    }
    proof {
        assert forall|k: nat| k < count implies (#[trigger] file_at(document@, k)) is Some by {
            assert(file_at(document@, k) == Some(names[k as int]@));
        }
        assert(names.deep_view() =~= file_names(document@, count as nat)) by {
            assert forall|k: int| 0 <= k < count implies names.deep_view()[k] == file_names(
                document@,
                count as nat,
            )[k] by {
                assert(file_at(document@, k as nat) == Some(names[k]@));
            }
        }
    }
    let auth_e = match e {
        JsonNode::Text(text) => Credential::Text(text),
        JsonNode::Number(digits) => Credential::Number(digits),
        _ => { return Err(StructuralFault::CredentialKind); },
    };
    Ok(ChapterManifest { auth_e, auth_m, image_base_path, files: names })
}

} // verus!
