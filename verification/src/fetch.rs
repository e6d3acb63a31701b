//! The retrieval of the pages of a chapter, one after the other: what is
//! asked of the server for each page, where the page is stored, and what
//! follows from each answer.

use vstd::prelude::*;
use vstd::string::StringExecFns;
use crate::error::Error;
use crate::manifest::{ChapterManifest, ManifestSpec};
use crate::text::{decimal_digits, decimal_text};

verus! {

/// `count` zeros.
pub open spec fn zeros(count: nat) -> Seq<char> {
    Seq::new(count, |i: int| '0')
}

/// The numeral of `index`, with zeros before it up to the length of the
/// numeral of `total`.
pub open spec fn padded_index(index: nat, total: nat) -> Seq<char> {
    let digits = decimal_digits(index);
    let width = decimal_digits(total).len();
    if digits.len() < width {
        zeros((width - digits.len()) as nat) + digits
    } else {
        digits
    }
}

/// The name under which page `index` of `total` is stored: its padded
/// index, `_`, and the name of its file.
pub open spec fn page_name_spec(index: nat, total: nat, file: Seq<char>) -> Seq<char> {
    padded_index(index, total) + seq!['_'] + file
}

/// The name under which page `index` of a chapter of `total` pages is
/// stored. The index is padded with zeros to the width of `total`, so that
/// the names of a chapter sort by name as they sort by page.
pub fn page_name(index: usize, total: usize, file: &str) -> (name: String)
    ensures
        name@ == page_name_spec(index as nat, total as nat, file@),
{
    let digits = decimal_text(index as u64);
    let width = decimal_text(total as u64).as_str().unicode_len();
    let length = digits.as_str().unicode_len();
    let mut name = String::new();
    let mut written: usize = length;
    assert(name@ =~= zeros(0));
    while written < width
        invariant
            length <= written,
            written <= width || written == length,
            name@ == zeros((written - length) as nat),
        decreases width - written,
    {
        name.push('0');
        written = written + 1;
        assert(name@ =~= zeros((written - length) as nat));
    }
    if width <= length {
        assert(name@ + digits@ =~= digits@);
    }
    name.append(digits.as_str());
    name.push('_');
    name.append(file);
    assert(name@ =~= page_name_spec(index as nat, total as nat, file@));
    name
}

/// The name under which a page is stored while it is being written.
pub open spec fn part_name_spec(destination: Seq<char>) -> Seq<char> {
    destination + ".part"@
}

/// The name under which a page is stored while it is being written: a
/// sibling of its destination, which takes its place once the page is whole.
pub fn part_name(destination: &str) -> (name: String)
    ensures
        name@ == part_name_spec(destination@),
{
    destination.to_owned().concat(".part")
}

/// What is to be done for one page of a chapter.
#[derive(Debug, Clone, PartialEq, Eq)]
pub struct DownloadTask {
    /// Where the page is asked for.
    pub url: String,
    /// The name under which the page is stored.
    pub destination: String,
    /// Whether the page is there already, so that nothing is asked for.
    pub skip: bool,
}

/// A [`DownloadTask`] over sequences of characters.
pub struct TaskSpec {
    pub url: Seq<char>,
    pub destination: Seq<char>,
    pub skip: bool,
}

impl DeepView for DownloadTask {
    type V = TaskSpec;

    open spec fn deep_view(&self) -> TaskSpec {
        TaskSpec { url: self.url@, destination: self.destination@, skip: self.skip }
    }
}

/// The task of page `index` of `manifest`, fetched through `tunnel`; `None`
/// where the manifest has no such page.
pub open spec fn task_spec(tunnel: Seq<char>, manifest: ManifestSpec, index: nat, present: bool) -> Option<
    TaskSpec,
> {
    if index < manifest.files.len() {
        Some(
            TaskSpec {
                url: tunnel + manifest.image_base_path + manifest.files[index as int],
                destination: page_name_spec(
                    index,
                    manifest.files.len(),
                    manifest.files[index as int],
                ),
                skip: present,
            },
        )
    } else {
        None
    }
}

/// The task of page `index` of `manifest`, fetched through the host
/// `tunnel`. A page whose destination is `present` is skipped. Neither the
/// address nor the destination depends on what is present.
pub fn download_task(tunnel: &str, manifest: &ChapterManifest, index: usize, present: bool) -> (task:
    Option<DownloadTask>)
    ensures
        task.deep_view() == task_spec(tunnel@, manifest@, index as nat, present),
{
    if index >= manifest.files.len() {
        return None;
    }
    let file = manifest.files[index].as_str();
    assert(manifest@.files[index as int] == file@);
    let url = tunnel.to_owned().concat(manifest.image_base_path.as_str()).concat(file);
    let destination = page_name(index, manifest.files.len(), file);
    Some(DownloadTask { url, destination, skip: present })
}

/// What is asked for and where it is stored does not depend on what is
/// there already: a retrieval that is taken up again names every page as
/// the first attempt did, and differs only in what it skips.
pub proof fn task_ignores_presence(tunnel: Seq<char>, manifest: ManifestSpec, index: nat)
    requires
        index < manifest.files.len(),
    ensures
        task_spec(tunnel, manifest, index, true) is Some,
        task_spec(tunnel, manifest, index, false) is Some,
        task_spec(tunnel, manifest, index, true).unwrap().url == task_spec(
            tunnel,
            manifest,
            index,
            false,
        ).unwrap().url,
        task_spec(tunnel, manifest, index, true).unwrap().destination == task_spec(
            tunnel,
            manifest,
            index,
            false,
        ).unwrap().destination,
        task_spec(tunnel, manifest, index, true).unwrap().skip,
        !task_spec(tunnel, manifest, index, false).unwrap().skip,
{
}

/// A name and a value that go into the query of a request.
#[derive(Debug, Clone, PartialEq, Eq)]
pub struct QueryParameter {
    pub name: String,
    pub value: String,
}

/// A [`QueryParameter`] over sequences of characters.
pub struct ParameterSpec {
    pub name: Seq<char>,
    pub value: Seq<char>,
}

impl DeepView for QueryParameter {
    type V = ParameterSpec;

    open spec fn deep_view(&self) -> ParameterSpec {
        ParameterSpec { name: self.name@, value: self.value@ }
    }
}

/// The credentials of a chapter as they go into the request for each of its
/// pages: `e`, then `m`.
pub open spec fn query_spec(manifest: ManifestSpec) -> Seq<ParameterSpec> {
    seq![
        ParameterSpec { name: "e"@, value: manifest.auth_e.text() },
        ParameterSpec { name: "m"@, value: manifest.auth_m },
    ]
}

/// The credentials of a chapter as they go into the request for each of its
/// pages.
pub fn query_parameters(manifest: &ChapterManifest) -> (query: Vec<QueryParameter>)
    ensures
        query.deep_view() == query_spec(manifest@),
{
    let mut query: Vec<QueryParameter> = Vec::new();
    query.push(QueryParameter { name: String::from_str("e"), value: manifest.auth_e.text() });
    query.push(QueryParameter { name: String::from_str("m"), value: manifest.auth_m.clone() });
    assert(query.deep_view() =~= query_spec(manifest@));
    query
}

} // verus!
