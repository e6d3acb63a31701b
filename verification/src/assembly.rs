//! The course of one chapter, from the look at its archive to the removal
//! of the directory in which its pages were staged.
//!
//! The archive of a chapter marks the chapter as done: where it is there,
//! nothing is asked of the network. It is therefore written beside its place
//! and moved there only when all of it is written, so that an archive in its
//! place is always a whole one. The staged pages are removed only after the
//! archive is in its place, and a failure at any step ends this chapter and
//! no other.

use vstd::prelude::*;
use vstd::string::StringExecFns;
use crate::names::{archive_name, archive_name_spec, sanitize, sanitized};

verus! {

/// The names that a chapter has on disk, each below the one before it: the
/// directory of its title, and in it the archive, the file in which the
/// archive is written before it is moved to its place, and, while the
/// chapter is retrieved, the directory of its pages.
#[derive(Debug, Clone, PartialEq, Eq)]
pub struct ChapterLayout {
    pub title_directory: String,
    pub archive: String,
    pub archive_part: String,
    pub staging_directory: String,
}

/// A [`ChapterLayout`] over sequences of characters.
pub struct LayoutSpec {
    pub title_directory: Seq<char>,
    pub archive: Seq<char>,
    pub archive_part: Seq<char>,
    pub staging_directory: Seq<char>,
}

impl View for ChapterLayout {
    type V = LayoutSpec;

    open spec fn view(&self) -> LayoutSpec {
        LayoutSpec {
            title_directory: self.title_directory@,
            archive: self.archive@,
            archive_part: self.archive_part@,
            staging_directory: self.staging_directory@,
        }
    }
}

/// The names on disk of the chapter called `chapter` of the title `title`.
pub open spec fn layout_spec(title: Seq<char>, chapter: Seq<char>) -> LayoutSpec {
    LayoutSpec {
        title_directory: sanitized(title),
        archive: archive_name_spec(chapter),
        archive_part: archive_name_spec(chapter) + ".part"@,
        staging_directory: sanitized(chapter),
    }
}

/// The names on disk of the chapter called `chapter` of the title `title`,
/// each made safe for the file system.
pub fn chapter_layout(title: &str, chapter: &str) -> (layout: ChapterLayout)
    ensures
        layout@ == layout_spec(title@, chapter@),
{
    ChapterLayout {
        title_directory: sanitize(title),
        archive: archive_name(chapter),
        archive_part: archive_name(chapter).concat(".part"),
        staging_directory: sanitize(chapter),
    }
}

/// What the work on a chapter waits for.
#[derive(Debug, Clone, Copy, PartialEq, Eq, Structural)]
pub enum ChapterStage {
    /// Whether the archive is there already.
    Checking,
    /// The manifest of the chapter.
    Loading,
    /// The pages of the chapter.
    Retrieving,
    /// The archive, written beside its place from the staged pages.
    Packing,
    /// The archive, moved to its place.
    Publishing,
    /// The removal of the staged pages.
    Clearing,
    /// Nothing: the archive was there before.
    Skipped,
    /// Nothing: the archive is in its place and the staged pages are gone.
    Complete,
    /// Nothing: a step has failed.
    Failed,
}

/// What has happened since the last action.
#[derive(Debug, Clone, Copy, PartialEq, Eq, Structural)]
pub enum ChapterEvent {
    /// The place of the archive was looked at.
    Probed { present: bool },
    /// The step that was asked for is done.
    Done,
    /// The step that was asked for has failed.
    Broken,
}

/// What is to be done next for a chapter.
#[derive(Debug, Clone, Copy, PartialEq, Eq, Structural)]
pub enum ChapterAction {
    /// Look whether the archive is there.
    CheckArchive,
    /// Fetch the chapter page and unpack its manifest.
    LoadManifest,
    /// Retrieve the pages into the staging directory.
    RetrievePages,
    /// Write the archive from the staged pages, beside its place.
    WriteArchive,
    /// Move the written archive to its place.
    PublishArchive,
    /// Remove the staging directory and what is in it.
    RemoveStaging,
    /// Go on to the next chapter.
    Leave,
}

impl ChapterStage {
    /// The action that the stage asks for.
    pub open spec fn action_spec(self) -> ChapterAction {
        match self {
            ChapterStage::Checking => ChapterAction::CheckArchive,
            ChapterStage::Loading => ChapterAction::LoadManifest,
            ChapterStage::Retrieving => ChapterAction::RetrievePages,
            ChapterStage::Packing => ChapterAction::WriteArchive,
            ChapterStage::Publishing => ChapterAction::PublishArchive,
            ChapterStage::Clearing => ChapterAction::RemoveStaging,
            ChapterStage::Skipped => ChapterAction::Leave,
            ChapterStage::Complete => ChapterAction::Leave,
            ChapterStage::Failed => ChapterAction::Leave,
        }
    }

    /// Whether the stage waits for a step to be done.
    pub open spec fn is_working(self) -> bool {
        self is Loading || self is Retrieving || self is Packing || self is Publishing
            || self is Clearing
    }

    /// The stage that follows when `event` is reported in this stage. An
    /// event that the stage does not wait for changes nothing.
    pub open spec fn after(self, event: ChapterEvent) -> ChapterStage {
        match (self, event) {
            (ChapterStage::Checking, ChapterEvent::Probed { present }) => if present {
                ChapterStage::Skipped
            } else {
                ChapterStage::Loading
            },
            (ChapterStage::Checking, ChapterEvent::Broken) => ChapterStage::Failed,
            (ChapterStage::Loading, ChapterEvent::Done) => ChapterStage::Retrieving,
            (ChapterStage::Retrieving, ChapterEvent::Done) => ChapterStage::Packing,
            (ChapterStage::Packing, ChapterEvent::Done) => ChapterStage::Publishing,
            (ChapterStage::Publishing, ChapterEvent::Done) => ChapterStage::Clearing,
            (ChapterStage::Clearing, ChapterEvent::Done) => ChapterStage::Complete,
            (ChapterStage::Loading, ChapterEvent::Broken) => ChapterStage::Failed,
            (ChapterStage::Retrieving, ChapterEvent::Broken) => ChapterStage::Failed,
            (ChapterStage::Packing, ChapterEvent::Broken) => ChapterStage::Failed,
            (ChapterStage::Publishing, ChapterEvent::Broken) => ChapterStage::Failed,
            (ChapterStage::Clearing, ChapterEvent::Broken) => ChapterStage::Failed,
            _ => self,
        }
    }

    /// The stage in which the work on a chapter begins.
    pub fn begin() -> (stage: ChapterStage)
        ensures
            stage == ChapterStage::Checking,
    {
        ChapterStage::Checking
    }

    /// What is to be done in this stage.
    pub fn action(&self) -> (action: ChapterAction)
        ensures
            action == self.action_spec(),
    {
        match self {
            ChapterStage::Checking => ChapterAction::CheckArchive,
            ChapterStage::Loading => ChapterAction::LoadManifest,
            ChapterStage::Retrieving => ChapterAction::RetrievePages,
            ChapterStage::Packing => ChapterAction::WriteArchive,
            ChapterStage::Publishing => ChapterAction::PublishArchive,
            ChapterStage::Clearing => ChapterAction::RemoveStaging,
            ChapterStage::Skipped => ChapterAction::Leave,
            ChapterStage::Complete => ChapterAction::Leave,
            ChapterStage::Failed => ChapterAction::Leave,
        }
    }

    /// Takes note of `event` and says in which stage the chapter is then.
    pub fn advance(&self, event: ChapterEvent) -> (next: ChapterStage)
        ensures
            next == self.after(event),
    {
        match (*self, event) {
            (ChapterStage::Checking, ChapterEvent::Probed { present }) => {
                if present {
                    ChapterStage::Skipped
                } else {
                    ChapterStage::Loading
                }
            },
            (ChapterStage::Checking, ChapterEvent::Broken) => ChapterStage::Failed,
            (ChapterStage::Loading, ChapterEvent::Done) => ChapterStage::Retrieving,
            (ChapterStage::Retrieving, ChapterEvent::Done) => ChapterStage::Packing,
            (ChapterStage::Packing, ChapterEvent::Done) => ChapterStage::Publishing,
            (ChapterStage::Publishing, ChapterEvent::Done) => ChapterStage::Clearing,
            (ChapterStage::Clearing, ChapterEvent::Done) => ChapterStage::Complete,
            (ChapterStage::Loading, ChapterEvent::Broken) => ChapterStage::Failed,
            (ChapterStage::Retrieving, ChapterEvent::Broken) => ChapterStage::Failed,
            (ChapterStage::Packing, ChapterEvent::Broken) => ChapterStage::Failed,
            (ChapterStage::Publishing, ChapterEvent::Broken) => ChapterStage::Failed,
            (ChapterStage::Clearing, ChapterEvent::Broken) => ChapterStage::Failed,
            (stage, _) => stage,
        }
    }
}

/// A chapter whose archive is there is left at once: nothing is loaded,
/// retrieved, written or removed for it, whatever is reported afterwards.
pub proof fn archived_chapter_is_left(later: ChapterEvent)
    ensures
        ChapterStage::Checking.after(ChapterEvent::Probed { present: true }).action_spec()
            == ChapterAction::Leave,
        ChapterStage::Checking.after(ChapterEvent::Probed { present: true }).after(
            later,
        ).action_spec() == ChapterAction::Leave,
{
}

/// Nothing is asked of the network before the archive was looked for: the
/// manifest is loaded only after a look that found no archive.
pub proof fn loading_follows_the_check(stage: ChapterStage, event: ChapterEvent)
    requires
        !(stage is Loading),
        stage.after(event) is Loading,
    ensures
        stage is Checking,
        event == (ChapterEvent::Probed { present: false }),
{
}

/// The pages are retrieved only after the manifest was loaded.
pub proof fn retrieving_follows_loading(stage: ChapterStage, event: ChapterEvent)
    requires
        !(stage is Retrieving),
        stage.after(event) is Retrieving,
    ensures
        stage is Loading,
        event is Done,
{
}

/// An archive is moved to its place only after all of it was written: a
/// write that fails leaves the place of the archive empty, so that the
/// chapter is not taken for a finished one, and leaves the staged pages as
/// they are.
pub proof fn archive_is_placed_whole(stage: ChapterStage, event: ChapterEvent, later: ChapterEvent)
    ensures
        !(stage is Publishing) && stage.after(event) is Publishing ==> stage is Packing && event
            is Done,
        ChapterStage::Packing.after(ChapterEvent::Broken).action_spec() == ChapterAction::Leave,
        ChapterStage::Packing.after(ChapterEvent::Broken).after(later).action_spec()
            == ChapterAction::Leave,
{
}

/// The staged pages are removed only after the archive is in its place, and
/// the archive is written only after the pages were retrieved.
pub proof fn staging_outlives_the_archive(stage: ChapterStage, event: ChapterEvent)
    ensures
        !(stage is Clearing) && stage.after(event) is Clearing ==> stage is Publishing && event
            is Done,
        !(stage is Packing) && stage.after(event) is Packing ==> stage is Retrieving && event
            is Done,
        !(stage is Complete) && stage.after(event) is Complete ==> stage is Clearing && event
            is Done,
{
}

/// A step that fails ends the chapter: nothing more is done for it.
pub proof fn failure_ends_the_chapter(stage: ChapterStage, later: ChapterEvent)
    requires
        stage is Checking || stage.is_working(),
    ensures
        stage.after(ChapterEvent::Broken).action_spec() == ChapterAction::Leave,
        stage.after(ChapterEvent::Broken).after(later) is Failed,
{
}

} // verus!
