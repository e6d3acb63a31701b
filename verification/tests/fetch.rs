use manhuagui::catalog::{chapter_url, ChapterReference};
use manhuagui::config::{request_headers, tunnel_host, SITE_HOST};
use manhuagui::error::Error;
use manhuagui::fetch::{download_task, page_name, part_name, query_parameters};
use manhuagui::manifest::{ChapterManifest, Credential};
use manhuagui::pace::{draw_rest, pause_after_chapter, rest_bounds};
use manhuagui::transfer::{check_transfer, Breakage, FetchAction, FetchEvent, FetchState, Stage};
use reqwest::header::{HeaderMap, HeaderName, HeaderValue};

fn manifest(e: Credential, m: &str, files: &[&str]) -> ChapterManifest {
    ChapterManifest {
        auth_e: e,
        auth_m: m.to_string(),
        image_base_path: "/ps1/x/".to_string(),
        files: files.iter().map(|file| file.to_string()).collect(),
    }
}

fn chapter(path: &str) -> ChapterReference {
    ChapterReference { display_name: "Chapter".to_string(), relative_path: path.to_string() }
}

#[test]
fn test_image_download_headers() {
    let chap = manifest(Credential::Text("12345".to_string()), "abc", &["01.jpg"]);
    let params = query_parameters(&chap);
    let e_param = params[0].value.clone();
    let m_param = params[1].value.clone();
    let referer = chapter_url(SITE_HOST, &chapter("/comic/123/456"));
    assert_eq!(referer, "https://tw.manhuagui.com/comic/123/456");

    assert!(!e_param.is_empty());
    assert!(!m_param.is_empty());
    assert!(referer.contains("/comic/"));

    let query = format!("{}={}&{}={}", params[0].name, e_param, params[1].name, m_param);
    assert_eq!(query, "e=12345&m=abc");
}

#[test]
fn test_referer_header_validation() {
    let chapter_url = chapter_url(SITE_HOST, &chapter("/comic/123/456789"));

    let expected_referer = "https://tw.manhuagui.com/comic/123/456789";

    assert_eq!(expected_referer, chapter_url);
    assert!(expected_referer.contains("/comic/"));
}

#[test]
fn test_content_length_validation() {
    let expected_size: u64 = 1024;
    let actual_size: u64 = 512;

    assert_ne!(expected_size, actual_size, "Should detect incomplete download");
    assert_eq!(
        check_transfer(Some(expected_size), actual_size),
        Err(Error::IncompleteTransfer { expected: 1024, written: 512 })
    );

    let expected_size: u64 = 1024;
    let actual_size: u64 = 1024;

    assert_eq!(expected_size, actual_size, "Should confirm complete download");
    assert_eq!(check_transfer(Some(expected_size), actual_size), Ok(()));
    assert_eq!(check_transfer(None, actual_size), Ok(()));
    assert_eq!(
        check_transfer(Some(512), 1024),
        Err(Error::IncompleteTransfer { expected: 512, written: 1024 })
    );
    assert_eq!(check_transfer(Some(0), 0), Ok(()));
}

#[test]
fn test_query_parameter_construction() {
    let chap = manifest(Credential::Number("12345".to_string()), "abc", &[]);
    let query_params = query_parameters(&chap);

    let query_string = query_params
        .iter()
        .map(|parameter| format!("{}={}", parameter.name, parameter.value))
        .collect::<Vec<_>>()
        .join("&");

    assert_eq!(query_string, "e=12345&m=abc");
}

#[test]
fn test_request_delay_randomization() {
    let base_delay = std::time::Duration::from_millis(1000);
    let min_delay = base_delay / 2;
    let max_delay = base_delay * 3 / 2;

    let random_delay = draw_rest(1000);

    assert!(random_delay >= min_delay.as_nanos());
    assert!(random_delay <= max_delay.as_nanos());
}

#[test]
fn rests_span_the_whole_range() {
    assert_eq!(rest_bounds(1000), (500_000_000, 1_500_000_000));
    assert_eq!(rest_bounds(1), (500_000, 1_500_000));
    assert_eq!(rest_bounds(3), (1_500_000, 4_500_000));
    assert_eq!(rest_bounds(0), (0, 0));
    assert_eq!(
        rest_bounds(u64::MAX),
        (u64::MAX as u128 * 500_000, u64::MAX as u128 * 1_500_000)
    );
    assert_eq!(draw_rest(0), 0);
    let mut low = false;
    let mut high = false;
    for _ in 0..2000 {
        let drawn = draw_rest(2);
        assert!((1_000_000..=3_000_000).contains(&drawn));
        low = low || drawn < 1_500_000;
        high = high || drawn > 2_500_000;
    }
    assert!(low && high);
}

#[test]
fn chapters_pause_between_not_after() {
    assert_eq!(pause_after_chapter(0, 3), Some(5));
    assert_eq!(pause_after_chapter(1, 3), Some(5));
    assert_eq!(pause_after_chapter(2, 3), None);
    assert_eq!(pause_after_chapter(0, 1), None);
    assert_eq!(pause_after_chapter(0, 0), None);
    assert_eq!(pause_after_chapter(usize::MAX, usize::MAX), None);
    assert_eq!(pause_after_chapter(usize::MAX - 1, usize::MAX), None);
    assert_eq!(pause_after_chapter(usize::MAX - 2, usize::MAX), Some(5));
}

#[test]
fn page_names_are_padded_to_the_width_of_the_count() {
    assert_eq!(page_name(0, 4, "a.jpg"), "0_a.jpg");
    assert_eq!(page_name(3, 9, "a.jpg"), "3_a.jpg");
    assert_eq!(page_name(0, 10, "a.jpg"), "00_a.jpg");
    assert_eq!(page_name(9, 10, "a.jpg"), "09_a.jpg");
    assert_eq!(page_name(9, 12, "page.jpg"), "09_page.jpg");
    assert_eq!(page_name(10, 12, "page.jpg"), "10_page.jpg");
    assert_eq!(page_name(7, 120, "p.webp"), "007_p.webp");
    assert_eq!(page_name(119, 120, "p.webp"), "119_p.webp");
    assert_eq!(page_name(120, 12, "p.webp"), "120_p.webp");
    assert_eq!(page_name(0, 0, ""), "0_");
    assert_eq!(part_name("09_page.jpg"), "09_page.jpg.part");
}

#[test]
fn tasks_name_address_and_destination() {
    let chap = manifest(Credential::Text("e".to_string()), "m", &["01.jpg", "02.jpg"]);
    let tunnel = tunnel_host(0);
    let task = download_task(&tunnel, &chap, 1, false).unwrap();
    assert_eq!(task.url, "https://i.hamreus.com/ps1/x/02.jpg");
    assert_eq!(task.destination, "1_02.jpg");
    assert!(!task.skip);
    let again = download_task(&tunnel, &chap, 1, true).unwrap();
    assert_eq!(again.url, task.url);
    assert_eq!(again.destination, task.destination);
    assert!(again.skip);
    assert_eq!(download_task(&tunnel, &chap, 2, false), None);
}

#[test]
fn tunnels_fall_back_on_the_first_line() {
    assert_eq!(tunnel_host(0), "https://i.hamreus.com");
    assert_eq!(tunnel_host(1), "https://eu.hamreus.com");
    assert_eq!(tunnel_host(2), "https://us.hamreus.com");
    assert_eq!(tunnel_host(3), "https://i.hamreus.com");
    assert_eq!(tunnel_host(usize::MAX), "https://i.hamreus.com");
}

#[test]
fn headers_are_the_fixed_ten() {
    let headers = request_headers();
    assert_eq!(headers.len(), 10);
    let find = |name: &str| headers.iter().find(|header| header.name == name).map(|header| header.value.as_str());
    assert_eq!(find("referer"), Some("https://www.manhuagui.com/"));
    assert_eq!(find("cache-control"), Some("no-cache"));
    assert_eq!(find("pragma"), Some("no-cache"));
    assert_eq!(find("accept"), Some("image/webp,image/apng,image/*,*/*;q=0.8"));
    assert!(find("user-agent").unwrap().starts_with("Mozilla/5.0"));
    assert_eq!(find("cookie"), None);
}

fn run(total: usize, present: &[bool], declared: Option<u64>, written: u64) -> (Vec<FetchAction>, FetchState) {
    let mut state = FetchState::begin(total);
    let mut actions = Vec::new();
    loop {
        let action = state.action();
        actions.push(action);
        let event = match action {
            FetchAction::Probe { page } => FetchEvent::Probed { present: present[page] },
            FetchAction::Request { .. } => FetchEvent::Answered { status: 200, declared },
            FetchAction::Store { .. } => FetchEvent::Stored { written },
            FetchAction::Promote { .. } => FetchEvent::Promoted,
            FetchAction::Rest => FetchEvent::Rested,
            FetchAction::Finish | FetchAction::Abort(_) => return (actions, state),
        };
        state = state.advance(event);
    }
}

#[test]
fn a_clean_run_fetches_every_page_in_order() {
    let (actions, state) = run(2, &[false, false], Some(7), 7);
    assert_eq!(
        actions,
        vec![
            FetchAction::Probe { page: 0 },
            FetchAction::Request { page: 0 },
            FetchAction::Store { page: 0 },
            FetchAction::Promote { page: 0 },
            FetchAction::Rest,
            FetchAction::Probe { page: 1 },
            FetchAction::Request { page: 1 },
            FetchAction::Store { page: 1 },
            FetchAction::Promote { page: 1 },
            FetchAction::Rest,
            FetchAction::Finish,
        ]
    );
    assert_eq!(state.stage, Stage::Finished);
}

#[test]
fn a_resumed_run_skips_exactly_what_is_present() {
    let present = [true, false, true, false, false];
    let (actions, state) = run(5, &present, None, 3);
    assert_eq!(state.stage, Stage::Finished);
    for page in 0..5 {
        let requested = actions.contains(&FetchAction::Request { page });
        let promoted = actions.contains(&FetchAction::Promote { page });
        assert!(actions.contains(&FetchAction::Probe { page }));
        assert_eq!(requested, !present[page]);
        assert_eq!(promoted, !present[page]);
    }
    assert_eq!(actions.iter().filter(|action| **action == FetchAction::Rest).count(), 5);

    let (all_there, done) = run(3, &[true, true, true], None, 0);
    assert_eq!(done.stage, Stage::Finished);
    assert!(all_there.iter().all(|action| !matches!(action, FetchAction::Request { .. })));
}

#[test]
fn an_empty_chapter_is_finished_at_once() {
    let state = FetchState::begin(0);
    assert_eq!(state.action(), FetchAction::Finish);
    assert_eq!(state.advance(FetchEvent::Rested).action(), FetchAction::Finish);
}

#[test]
fn a_short_body_aborts_and_is_not_promoted() {
    let (actions, state) = run(3, &[false, false, false], Some(1024), 512);
    let failure = Error::IncompleteTransfer { expected: 1024, written: 512 };
    assert_eq!(
        actions,
        vec![
            FetchAction::Probe { page: 0 },
            FetchAction::Request { page: 0 },
            FetchAction::Store { page: 0 },
            FetchAction::Abort(failure),
        ]
    );
    assert_eq!(state.stage, Stage::Failed(failure));
    assert_eq!(state.advance(FetchEvent::Promoted).action(), FetchAction::Abort(failure));
    assert_eq!(state.advance(FetchEvent::Rested).action(), FetchAction::Abort(failure));
}

#[test]
fn a_failure_status_aborts_the_chapter() {
    for status in [0u16, 199, 300, 301, 404, 500, 999] {
        let state = FetchState::begin(2)
            .advance(FetchEvent::Probed { present: false })
            .advance(FetchEvent::Answered { status, declared: None });
        assert_eq!(state.action(), FetchAction::Abort(Error::Network { status }));
    }
    for status in [200u16, 204, 206, 299] {
        let state = FetchState::begin(2)
            .advance(FetchEvent::Probed { present: false })
            .advance(FetchEvent::Answered { status, declared: Some(1) });
        assert_eq!(state.action(), FetchAction::Store { page: 0 });
        assert_eq!(state.stage, Stage::Storing { declared: Some(1) });
    }
}

#[test]
fn events_out_of_turn_change_nothing() {
    let state = FetchState::begin(2);
    assert_eq!(state.advance(FetchEvent::Promoted), state);
    assert_eq!(state.advance(FetchEvent::Rested), state);
    assert_eq!(state.advance(FetchEvent::Stored { written: 1 }), state);
    let requesting = state.advance(FetchEvent::Probed { present: false });
    assert_eq!(requesting.advance(FetchEvent::Probed { present: true }), requesting);
    assert_eq!(requesting.advance(FetchEvent::Stored { written: 1 }), requesting);
}

#[test]
fn test_http_error_handling() {
    let answer = |status: u16| {
        FetchState::begin(1)
            .advance(FetchEvent::Probed { present: false })
            .advance(FetchEvent::Answered { status, declared: None })
    };

    let not_found = answer(404);
    let server_error = answer(500);

    assert_eq!(not_found.action(), FetchAction::Abort(Error::Network { status: 404 }));
    assert_eq!(server_error.action(), FetchAction::Abort(Error::Network { status: 500 }));
    assert_eq!(not_found.advance(FetchEvent::Stored { written: 0 }), not_found);
}

#[test]
fn test_header_construction() {
    let mut headers = HeaderMap::new();
    headers.insert("user-agent", "Mozilla/5.0 (test)".parse().unwrap());
    headers.insert("referer", "https://www.manhuagui.com/".parse().unwrap());

    assert_eq!(
        headers.get("user-agent").map(|h| h.to_str().unwrap()),
        Some("Mozilla/5.0 (test)")
    );
    assert_eq!(
        headers.get("referer").map(|h| h.to_str().unwrap()),
        Some("https://www.manhuagui.com/")
    );

    let mut fixed = HeaderMap::new();
    for header in request_headers() {
        let name = HeaderName::from_bytes(header.name.as_bytes()).unwrap();
        fixed.insert(name, HeaderValue::from_str(&header.value).unwrap());
    }
    assert_eq!(fixed.len(), 10);
    assert_eq!(
        fixed.get("referer").map(|h| h.to_str().unwrap()),
        Some("https://www.manhuagui.com/")
    );
}

#[test]
fn a_broken_step_is_not_tried_again() {
    let probing = FetchState::begin(3);
    let requesting = probing.advance(FetchEvent::Probed { present: false });
    let storing = requesting.advance(FetchEvent::Answered { status: 200, declared: None });
    let promoting = storing.advance(FetchEvent::Stored { written: 9 });
    for (state, by, error) in [
        (probing, Breakage::Filesystem, Error::Filesystem),
        (requesting, Breakage::Transport, Error::Transport),
        (storing, Breakage::Transport, Error::Transport),
        (storing, Breakage::Filesystem, Error::Filesystem),
        (promoting, Breakage::Filesystem, Error::Filesystem),
    ] {
        let failed = state.advance(FetchEvent::Broken { by });
        assert_eq!(failed.action(), FetchAction::Abort(error));
        assert_eq!(failed.page, state.page);
        for later in [
            FetchEvent::Probed { present: false },
            FetchEvent::Answered { status: 200, declared: None },
            FetchEvent::Stored { written: 1 },
            FetchEvent::Promoted,
            FetchEvent::Rested,
            FetchEvent::Broken { by: Breakage::Transport },
        ] {
            assert_eq!(failed.advance(later), failed);
        }
    }
    let resting = promoting.advance(FetchEvent::Promoted);
    assert_eq!(resting.advance(FetchEvent::Broken { by: Breakage::Transport }), resting);
    assert_eq!(Error::Transport.message(), "Network request error: transport failed");
    assert_eq!(Error::Filesystem.message(), "I/O error");
}
