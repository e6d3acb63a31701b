use manhuagui::assembly::{chapter_layout, ChapterAction, ChapterEvent, ChapterStage};
use manhuagui::fetch::page_name;
use manhuagui::order::{archive_order, rank_of};

fn names(list: &[&str]) -> Vec<String> {
    list.iter().map(|name| name.to_string()).collect()
}

#[test]
fn test_compress_chapter() {
    let files = names(&["01_page.jpg", "02_page.jpg", "10_page.jpg", "09_page.jpg"]);

    let file_names = archive_order(&files);

    assert_eq!(file_names[0], "01_page.jpg");
    assert_eq!(file_names[1], "02_page.jpg");
    assert_eq!(file_names[2], "09_page.jpg");
    assert_eq!(file_names[3], "10_page.jpg");
    assert_eq!(file_names.len(), 4);
}

#[test]
fn members_sort_as_numbers_not_as_names() {
    assert_eq!(
        archive_order(&names(&["10_b.jpg", "9_a.jpg", "100_c.jpg", "1_d.jpg"])),
        names(&["1_d.jpg", "9_a.jpg", "10_b.jpg", "100_c.jpg"])
    );
    assert_eq!(archive_order(&names(&[])), names(&[]));
    assert_eq!(archive_order(&names(&["5_x"])), names(&["5_x"]));
}

#[test]
fn enumeration_order_does_not_matter() {
    let total = 12;
    let pages: Vec<String> = (0..total).map(|i| page_name(i, total, &format!("p{}.jpg", i))).collect();
    let mut shuffled = pages.clone();
    shuffled.reverse();
    assert_eq!(archive_order(&shuffled), pages);
    shuffled.rotate_left(5);
    assert_eq!(archive_order(&shuffled), pages);
    shuffled.swap(0, 7);
    shuffled.swap(3, 11);
    assert_eq!(archive_order(&shuffled), pages);
    assert_eq!(archive_order(&pages), pages);
}

#[test]
fn names_of_one_rank_keep_their_order() {
    assert_eq!(
        archive_order(&names(&["2_b", "stray", "02_a", "1_x", "notes.txt", "2_c"])),
        names(&["1_x", "2_b", "02_a", "2_c", "stray", "notes.txt"])
    );
}

#[test]
fn ranks_are_the_leading_numbers() {
    assert_eq!(rank_of("09_page.jpg"), 9);
    assert_eq!(rank_of("10_page.jpg"), 10);
    assert_eq!(rank_of("0_"), 0);
    assert_eq!(rank_of("000"), 0);
    assert_eq!(rank_of("12"), 12);
    assert_eq!(rank_of("12abc34"), 12);
    assert_eq!(rank_of("page"), u64::MAX);
    assert_eq!(rank_of(""), u64::MAX);
    assert_eq!(rank_of("_1"), u64::MAX);
    assert_eq!(rank_of("18446744073709551614_x"), u64::MAX - 1);
    assert_eq!(rank_of("18446744073709551615_x"), u64::MAX);
    assert_eq!(rank_of("18446744073709551616_x"), u64::MAX);
    assert_eq!(rank_of("99999999999999999999999999_x"), u64::MAX);
    for index in [0usize, 1, 9, 10, 99, 100, 12345] {
        assert_eq!(rank_of(&page_name(index, 20000, "7.jpg")), index as u64);
    }
}

#[test]
fn layouts_are_made_of_safe_names() {
    let layout = chapter_layout("Title: A/B", "Chapter 1?");
    assert_eq!(layout.title_directory, "Title_ A_B");
    assert_eq!(layout.archive, "Chapter 1_.zip");
    assert_eq!(layout.archive_part, "Chapter 1_.zip.part");
    assert_eq!(layout.staging_directory, "Chapter 1_");
}

#[test]
fn an_archived_chapter_is_skipped_before_anything_is_fetched() {
    let stage = ChapterStage::begin();
    assert_eq!(stage.action(), ChapterAction::CheckArchive);
    let skipped = stage.advance(ChapterEvent::Probed { present: true });
    assert_eq!(skipped, ChapterStage::Skipped);
    assert_eq!(skipped.action(), ChapterAction::Leave);
    assert_eq!(skipped.advance(ChapterEvent::Done), ChapterStage::Skipped);
}

#[test]
fn a_chapter_runs_through_its_steps() {
    let mut stage = ChapterStage::begin().advance(ChapterEvent::Probed { present: false });
    let mut actions = vec![stage.action()];
    while stage.action() != ChapterAction::Leave {
        stage = stage.advance(ChapterEvent::Done);
        actions.push(stage.action());
    }
    assert_eq!(
        actions,
        vec![
            ChapterAction::LoadManifest,
            ChapterAction::RetrievePages,
            ChapterAction::WriteArchive,
            ChapterAction::PublishArchive,
            ChapterAction::RemoveStaging,
            ChapterAction::Leave,
        ]
    );
    assert_eq!(stage, ChapterStage::Complete);
}

#[test]
fn a_broken_step_ends_the_chapter() {
    let loading = ChapterStage::begin().advance(ChapterEvent::Probed { present: false });
    let retrieving = loading.advance(ChapterEvent::Done);
    let packing = retrieving.advance(ChapterEvent::Done);
    let publishing = packing.advance(ChapterEvent::Done);
    let clearing = publishing.advance(ChapterEvent::Done);
    assert_eq!(publishing.action(), ChapterAction::PublishArchive);
    for stage in [ChapterStage::Checking, loading, retrieving, packing, publishing, clearing] {
        let failed = stage.advance(ChapterEvent::Broken);
        assert_eq!(failed, ChapterStage::Failed);
        assert_eq!(failed.action(), ChapterAction::Leave);
        assert_eq!(failed.advance(ChapterEvent::Done), ChapterStage::Failed);
    }
    assert_eq!(ChapterStage::Complete.advance(ChapterEvent::Broken), ChapterStage::Complete);
    assert_eq!(retrieving.advance(ChapterEvent::Probed { present: true }), retrieving);
}

#[test]
fn a_failed_write_leaves_no_archive_in_its_place() {
    let packing = ChapterStage::begin()
        .advance(ChapterEvent::Probed { present: false })
        .advance(ChapterEvent::Done)
        .advance(ChapterEvent::Done);
    assert_eq!(packing.action(), ChapterAction::WriteArchive);
    let failed = packing.advance(ChapterEvent::Broken);
    let mut stage = failed;
    for event in [ChapterEvent::Done, ChapterEvent::Broken, ChapterEvent::Probed { present: false }] {
        stage = stage.advance(event);
        assert_ne!(stage.action(), ChapterAction::PublishArchive);
        assert_ne!(stage.action(), ChapterAction::RemoveStaging);
        assert_eq!(stage.action(), ChapterAction::Leave);
    }
}
