use rs_fanqie_downloader::api::{
    ChapterContent, ChapterContentResponse, ChapterInfo, ChapterInfoRaw, ChapterListData,
    ChapterListDataWrapper, ChapterListResponse, DirectoryData, DirectoryResponse,
};
use rs_fanqie_downloader::downloader::{
    chapter_count_from_list, chapter_from_response, chapters_from_directory, chapters_from_list,
    export_kind, fetch_pipeline, plan_windows, process_window, select_chapter_range,
    DownloadProgress, ExportKind,
    FetchOutcome,
};
use rs_fanqie_downloader::error::FanqieError;

fn chapter(id: &str, title: &str) -> ChapterInfo {
    ChapterInfo {
        chapter_id: id.to_string(),
        title: title.to_string(),
        word_count: None,
        is_vip: None,
    }
}

fn content(id: &str, title: &str) -> ChapterContent {
    ChapterContent {
        chapter_id: id.to_string(),
        title: title.to_string(),
        content: format!("body of {}", id),
    }
}

#[test]
fn windows_cover_25_in_3() {
    let w = plan_windows(25, 10);
    assert_eq!(w, vec![(0, 10), (10, 20), (20, 25)]);
    assert_eq!(plan_windows(0, 10), vec![]);
    assert_eq!(plan_windows(10, 10), vec![(0, 10)]);
    assert_eq!(plan_windows(3, 10), vec![(0, 3)]);
}

#[test]
fn single_failure_drops_exactly_that_chapter() {
    // 25 chapters in windows of 10; the chapter at global position 15 fails.
    let total = 25usize;
    let windows = plan_windows(total, 10);
    assert_eq!(windows.len(), 3);

    let mut results: Vec<ChapterContent> = Vec::new();
    let mut events: Vec<DownloadProgress> = Vec::new();
    events.push(DownloadProgress::Started { total });

    for &(start, end) in &windows {
        let mut outcomes: Vec<FetchOutcome> = Vec::new();
        for k in start..end {
            if k == 15 {
                outcomes.push(FetchOutcome::Failure {
                    chapter_id: format!("c{}", k),
                    reason: FanqieError::Timeout,
                });
            } else {
                outcomes.push(FetchOutcome::Success { content: content(&format!("c{}", k), &format!("t{}", k)) });
            }
        }
        process_window(outcomes, start, total, &mut results, &mut events);
    }

    assert_eq!(results.len(), 24);
    let expected_ids: Vec<String> =
        (0..25).filter(|k| *k != 15).map(|k| format!("c{}", k)).collect();
    let got_ids: Vec<String> = results.iter().map(|c| c.chapter_id.clone()).collect();
    assert_eq!(got_ids, expected_ids);

    // one Started event, then one event per chapter
    assert_eq!(events.len(), 26);
    assert_eq!(events[0], DownloadProgress::Started { total });
    assert_eq!(
        events[16],
        DownloadProgress::Error { message: "chapter download failed: request timed out".to_string() }
    );
    assert_eq!(
        events[17],
        DownloadProgress::Chapter { current: 17, total, title: "t16".to_string() }
    );
}

#[test]
fn whole_pipeline_keeps_order_across_windows() {
    let total = 25usize;
    let outcomes: Vec<FetchOutcome> = (0..total)
        .map(|k| {
            if k == 15 {
                FetchOutcome::Failure {
                    chapter_id: format!("c{}", k),
                    reason: FanqieError::Timeout,
                }
            } else {
                FetchOutcome::Success { content: content(&format!("c{}", k), &format!("t{}", k)) }
            }
        })
        .collect();
    let (results, events) = fetch_pipeline(outcomes, 10);
    assert_eq!(results.len(), 24);
    let got_ids: Vec<String> = results.iter().map(|c| c.chapter_id.clone()).collect();
    let expected_ids: Vec<String> =
        (0..25).filter(|k| *k != 15).map(|k| format!("c{}", k)).collect();
    assert_eq!(got_ids, expected_ids);
    assert_eq!(events.len(), 26);
    assert_eq!(events[0], DownloadProgress::Started { total });
    assert_eq!(
        events[1],
        DownloadProgress::Chapter { current: 1, total, title: "t0".to_string() }
    );
    assert_eq!(
        events[16],
        DownloadProgress::Error { message: "chapter download failed: request timed out".to_string() }
    );
}

#[test]
fn chapters_from_directory_needs_success_and_payload() {
    let lists = vec![chapter("1", "one")];
    let resp = DirectoryResponse { code: 200, data: Some(DirectoryData { lists: Some(lists.clone()) }) };
    assert_eq!(chapters_from_directory(resp), Some(lists));
    let resp = DirectoryResponse { code: 500, data: Some(DirectoryData { lists: Some(vec![]) }) };
    assert_eq!(chapters_from_directory(resp), None);
    let resp = DirectoryResponse { code: 200, data: None };
    assert_eq!(chapters_from_directory(resp), None);
}

fn raw(id: &str, title: &str) -> ChapterInfoRaw {
    ChapterInfoRaw { item_id: id.to_string(), title: title.to_string(), volume_name: None }
}

fn list_response(data: Option<ChapterListData>, code: i32) -> ChapterListResponse {
    ChapterListResponse { code, data: Some(ChapterListDataWrapper { code: Some(0), data }) }
}

#[test]
fn chapter_list_prefers_volumes_then_flat() {
    let volumes = vec![vec![raw("1", "one"), raw("2", "two")], vec![raw("3", "three")]];
    let resp = list_response(
        Some(ChapterListData {
            all_item_ids: None,
            chapter_list_with_volume: Some(volumes),
            data: Some(vec![chapter("9", "flat")]),
        }),
        200,
    );
    let got = chapters_from_list(resp).unwrap();
    assert_eq!(got, vec![chapter("1", "one"), chapter("2", "two"), chapter("3", "three")]);

    let resp = list_response(
        Some(ChapterListData {
            all_item_ids: None,
            chapter_list_with_volume: Some(vec![vec![]]),
            data: Some(vec![chapter("9", "flat")]),
        }),
        200,
    );
    assert_eq!(chapters_from_list(resp).unwrap(), vec![chapter("9", "flat")]);

    let resp = list_response(
        Some(ChapterListData { all_item_ids: None, chapter_list_with_volume: None, data: None }),
        200,
    );
    assert_eq!(
        chapters_from_list(resp),
        Err(FanqieError::ChapterFetch("empty chapter list".to_string()))
    );

    let resp = list_response(None, 404);
    assert_eq!(
        chapters_from_list(resp),
        Err(FanqieError::ChapterFetch("chapter list request returned code 404".to_string()))
    );
}

#[test]
fn chapter_count_follows_precedence() {
    let resp = list_response(
        Some(ChapterListData {
            all_item_ids: Some(vec!["a".to_string(), "b".to_string()]),
            chapter_list_with_volume: Some(vec![vec![raw("1", "x")]]),
            data: None,
        }),
        200,
    );
    assert_eq!(chapter_count_from_list(&resp), Some(2));

    let resp = list_response(
        Some(ChapterListData {
            all_item_ids: None,
            chapter_list_with_volume: Some(vec![vec![raw("1", "x")], vec![raw("2", "y"), raw("3", "z")]]),
            data: None,
        }),
        200,
    );
    assert_eq!(chapter_count_from_list(&resp), Some(3));

    let resp = list_response(
        Some(ChapterListData {
            all_item_ids: None,
            chapter_list_with_volume: None,
            data: Some(vec![chapter("1", "x")]),
        }),
        200,
    );
    assert_eq!(chapter_count_from_list(&resp), Some(1));

    let resp = list_response(
        Some(ChapterListData { all_item_ids: None, chapter_list_with_volume: None, data: None }),
        200,
    );
    assert_eq!(chapter_count_from_list(&resp), None);
}

#[test]
fn chapter_content_decision() {
    let c = content("c1", "t1");
    let resp = ChapterContentResponse { code: 200, data: Some(c.clone()) };
    assert_eq!(chapter_from_response(resp, "c1"), Ok(c));
    let resp = ChapterContentResponse { code: 403, data: None };
    assert_eq!(
        chapter_from_response(resp, "c1"),
        Err(FanqieError::ChapterFetch("chapter content request failed: c1".to_string()))
    );
    let resp = ChapterContentResponse { code: 200, data: None };
    assert_eq!(
        chapter_from_response(resp, "c1"),
        Err(FanqieError::ChapterFetch("empty chapter content: c1".to_string()))
    );
}

#[test]
fn chapter_range_selection() {
    let chapters: Vec<ChapterInfo> = (1..=10).map(|k| chapter(&k.to_string(), "t")).collect();
    let got = select_chapter_range(chapters.clone(), Some(3), Some(5)).unwrap();
    assert_eq!(got, chapters[2..5].to_vec());
    let got = select_chapter_range(chapters.clone(), None, None).unwrap();
    assert_eq!(got, chapters);
    let got = select_chapter_range(chapters.clone(), Some(0), Some(99)).unwrap();
    assert_eq!(got, chapters);
    assert_eq!(
        select_chapter_range(chapters.clone(), Some(11), None),
        Err(FanqieError::Download("start chapter out of range".to_string()))
    );
}

#[test]
fn export_kind_matches_lowercased_name() {
    assert_eq!(export_kind("epub"), ExportKind::Epub);
    assert_eq!(export_kind("EPUB"), ExportKind::Epub);
    assert_eq!(export_kind("txt"), ExportKind::Txt);
    assert_eq!(export_kind("anything"), ExportKind::Txt);
}
