use immich_fix::album::{
    album_id_and_size_from_reply, album_request, check_selection, get_album_id_and_size,
    get_asset_details, AlbumAssets, AlbumError, AlbumLookup, AlbumResponse, AssetSearch, Command,
    Reply,
};
use immich_fix::asset::{
    build_manifest, host_path, manifest_line, missing_file_notice, AssetDetail, AssetRecord,
    HostFile,
};
use immich_fix::client::{is_success, trim_base_url, Body, Client, Method, Request};
use immich_fix::datetime::DateTime;
use immich_fix::fix::{fix_asset, update_request, FixAction, FixRun};
use immich_fix::offset::Offset;

fn client() -> Client {
    Client::new(trim_base_url("http://photos/api//"), "secret".to_string())
}

fn asset(id: &str, path: &str) -> AssetDetail {
    AssetDetail {
        id: id.to_string(),
        original_path: path.to_string(),
        original_filename: format!("{}.jpg", id),
        tags: vec!["trip".to_string()],
    }
}

fn pairs(pairs: &[(&str, &str)]) -> Vec<(String, String)> {
    pairs.iter().map(|p| (p.0.to_string(), p.1.to_string())).collect()
}

fn album(id: &str, asset_count: u64) -> AlbumResponse {
    AlbumResponse {
        id: id.to_string(),
        name: "holiday".to_string(),
        asset_count,
    }
}

fn moment() -> DateTime {
    DateTime {
        year: 2026,
        month: 2,
        day: 3,
        hour: 4,
        minute: 5,
        second: 6,
        nanosecond: None,
        offset: None,
    }
}

fn update(id: &str, timestamp: &str) -> Request {
    Request {
        method: Method::Put,
        url: format!("http://photos/api/assets/{}", id),
        headers: pairs(&[
            ("x-api-key", "secret"),
            ("Content-Type", "application/json"),
            ("Accept", "application/json"),
        ]),
        query: vec![],
        body: Some(Body::DateTimeOriginal { timestamp: timestamp.to_string() }),
    }
}

#[test]
fn slashes_at_the_end_of_the_address_go() {
    assert_eq!(trim_base_url("http://photos/api///"), "http://photos/api");
    assert_eq!(trim_base_url("http://photos/api"), "http://photos/api");
    assert_eq!(trim_base_url(&trim_base_url("http://é/")), "http://é");
    assert_eq!(trim_base_url("//"), "");
    assert_eq!(trim_base_url(""), "");
}

#[test]
fn requests_without_a_body() {
    let request = client().get_query("albums", &[("name", "holiday"), ("x", "y")]);
    assert_eq!(
        request,
        Request {
            method: Method::Get,
            url: "http://photos/api/albums".to_string(),
            headers: pairs(&[("x-api-key", "secret"), ("Accept", "application/json")]),
            query: pairs(&[("name", "holiday"), ("x", "y")]),
            body: None,
        }
    );
    assert_eq!(client().get("albums"), client().get_query("albums", &[("name", "")]));
    assert_eq!(
        album_request(&client(), "holiday"),
        client().get_query("albums", &[("name", "holiday")])
    );
}

#[test]
fn requests_with_a_body() {
    let request = AssetSearch::new("a1", 12, true).request(&client());
    assert_eq!(
        request,
        Request {
            method: Method::Post,
            url: "http://photos/api/search/metadata".to_string(),
            headers: pairs(&[
                ("x-api-key", "secret"),
                ("Content-Type", "application/json"),
                ("Accept", "application/json"),
            ]),
            query: vec![],
            body: Some(Body::AlbumSearch { album_id: "a1".to_string(), page: 1, size: 12 }),
        }
    );
    assert_eq!(
        update_request(&client(), &asset("7", "/data/7.jpg"), "now".to_string()),
        update("7", "now")
    );
    assert_eq!(
        client().put("assets/7", Body::DateTimeOriginal { timestamp: "now".to_string() }),
        update("7", "now")
    );
}

#[test]
fn commands_need_an_album() {
    assert_eq!(
        check_selection(Command::List, None, None),
        Err("either album_id or album_name must be provided".to_string())
    );
    assert_eq!(
        check_selection(Command::Fix, None, None),
        Err("must provide either album_id or album_name".to_string())
    );
    assert_eq!(check_selection(Command::List, Some("a"), None), Ok(()));
    assert_eq!(check_selection(Command::Fix, None, Some("b")), Ok(()));
}

#[test]
fn id_goes_before_name() {
    assert_eq!(
        get_album_id_and_size(Some("a1"), Some("holiday")),
        Ok(AlbumLookup::Known { id: "a1".to_string(), size: 1000 })
    );
    assert_eq!(
        get_album_id_and_size(None, Some("holiday")),
        Ok(AlbumLookup::ByName { name: "holiday".to_string() })
    );
    let error = get_album_id_and_size(None, None).unwrap_err();
    assert_eq!(error, AlbumError::NotSelected);
    assert_eq!(error.message(), "must provide either album_id or album_name");
}

#[test]
fn exactly_one_album_must_have_the_name() {
    assert_eq!(
        album_id_and_size_from_reply(Reply::Success(vec![album("a1", 12)])),
        Ok(("a1".to_string(), 12))
    );
    let error = album_id_and_size_from_reply(Reply::Success(vec![])).unwrap_err();
    assert_eq!(error, AlbumError::NoAlbums);
    assert_eq!(error.message(), "no albums found");
    let albums = (0..10).map(|_| album("a1", 12)).collect();
    let error = album_id_and_size_from_reply(Reply::Success(albums)).unwrap_err();
    assert_eq!(error, AlbumError::MultipleAlbums { count: 10 });
    assert_eq!(error.message(), "multiple albums found: 10");
}

#[test]
fn refusals_are_reported() {
    let refused: Reply<Vec<AlbumResponse>> = Reply::Refused {
        status: "404 Not Found".to_string(),
        text: "gone".to_string(),
    };
    let error = album_id_and_size_from_reply(refused).unwrap_err();
    assert_eq!(error.message(), "failed to fetch album: 404 Not Found - gone");
    let refused: Reply<Vec<AssetDetail>> = Reply::Refused {
        status: "500 Internal Server Error".to_string(),
        text: "".to_string(),
    };
    let mut search = AssetSearch::new("a1", 3, false);
    search.take_page(Reply::Success(vec![asset("1", "/data/1.jpg")])).unwrap();
    let error = search.take_page(refused).unwrap_err();
    assert_eq!(error.message(), "failed to fetch album: 500 Internal Server Error - ");
    assert_eq!((search.page, search.items.len(), search.complete), (2, 1, false));
}

/// What a search finds on a server that gives so many assets at once, and the pages asked for.
fn search_on_server(
    all: usize,
    size: usize,
    size_is_count: bool,
    per_page: usize,
) -> (AlbumAssets, Vec<usize>) {
    let mut search = AssetSearch::new("a1", size, size_is_count);
    let mut pages = vec![];
    while !search.complete {
        let page = match search.request(&client()).body {
            Some(Body::AlbumSearch { album_id, page, size: asked }) => {
                assert_eq!((album_id.as_str(), asked), ("a1", size));
                page
            }
            body => panic!("{:?}", body),
        };
        pages.push(page);
        let found = (0..all)
            .skip((page - 1) * per_page)
            .take(per_page)
            .map(|i| asset(&i.to_string(), "/data/x.jpg"))
            .collect();
        search.take_page(Reply::Success(found)).unwrap();
    }
    (get_asset_details(search), pages)
}

#[test]
fn every_asset_is_found() {
    for (all, size, per_page) in
        [(0, 1000, 1000), (2, 2, 2), (1000, 1000, 1000), (1001, 1000, 1000), (2500, 2500, 1000)]
    {
        let (assets, pages) = search_on_server(all, size, size == all, per_page);
        let ids: Vec<String> = assets.items.iter().map(|item| item.id.clone()).collect();
        let expected: Vec<String> = (0..all).map(|i| i.to_string()).collect();
        assert_eq!(ids, expected);
        let asked: Vec<usize> = (1..=(all + per_page - 1) / per_page + 1).collect();
        assert_eq!(pages, asked);
        assert_eq!(build_manifest(assets.items).assets.len(), all);
    }
}

#[test]
fn number_of_assets_is_told() {
    let (assets, _) = search_on_server(2, 2, true, 2);
    assert_eq!(assets.found, "Album has 2 assets. Fetching details for each...");
    assert_eq!(assets.warning, None);
    let (assets, _) = search_on_server(2500, 2500, true, 1000);
    assert_eq!(assets.found, "Album has 2500 assets. Fetching details for each...");
    assert_eq!(assets.warning, None);
    let (assets, _) = search_on_server(0, 0, true, 1);
    assert_eq!(assets.found, "Album has 0 assets. Fetching details for each...");
    assert_eq!(assets.warning, None);
}

#[test]
fn unexpected_number_of_assets_is_told() {
    let warning = |all, size, size_is_count, per_page| {
        search_on_server(all, size, size_is_count, per_page).0.warning
    };
    assert_eq!(
        warning(2, 1000, false, 1000),
        Some("Warning: fetched 2 assets, expected 1000".to_string())
    );
    assert_eq!(
        warning(0, 1000, false, 1000),
        Some("Warning: fetched 0 assets, expected 1000".to_string())
    );
    assert_eq!(warning(1000, 1000, false, 1000), None);
    assert_eq!(warning(2500, 1000, false, 1000), None);
    assert_eq!(
        warning(2499, 2500, true, 1000),
        Some("Warning: fetched 2499 assets, expected 2500".to_string())
    );
}

#[test]
fn status_codes() {
    for (code, success) in [(199, false), (200, true), (299, true), (300, false), (404, false)] {
        assert_eq!(is_success(code), success);
    }
}

#[test]
fn manifest_has_one_record_per_asset() {
    let manifest = build_manifest(vec![asset("1", "/data/1.jpg"), asset("2", "/data/2.jpg")]);
    let record = |id: &str, path: &str| AssetRecord {
        id: id.to_string(),
        original_path: path.to_string(),
        tags: vec!["trip".to_string()],
    };
    assert_eq!(
        manifest.assets,
        vec![record("1", "/data/1.jpg"), record("2", "/data/2.jpg")]
    );
    assert_eq!(
        manifest_line(&manifest, "out/album.json"),
        "\nWrote 2 assets to out/album.json"
    );
}

#[test]
fn paths_are_mapped() {
    let photo = asset("1", "/data/été/data/1.jpg");
    assert_eq!(
        host_path("/data", "/mnt/photos", &photo),
        Some("/mnt/photos/été/data/1.jpg".to_string())
    );
    assert_eq!(host_path("/data/été", "", &photo), Some("/data/1.jpg".to_string()));
    assert_eq!(host_path("", "/mnt", &photo), Some("/mnt/data/été/data/1.jpg".to_string()));
    assert_eq!(host_path("/dato", "/mnt", &photo), None);
    assert_eq!(host_path("/data/été/data/1.jpg/more", "/mnt", &photo), None);
    let mapped = host_path("/data", "/mnt/photos", &photo).unwrap();
    assert_eq!(
        host_path("/mnt/photos", "/data", &asset("1", &mapped)),
        Some("/data/été/data/1.jpg".to_string())
    );
}

#[test]
fn missing_files_are_reported() {
    let photo = asset("1", "/data/1.jpg");
    assert_eq!(
        missing_file_notice("/data", "/mnt", &photo, &HostFile::Missing),
        Some(" !! No file found for 1.jpg, filepath: /mnt/1.jpg".to_string())
    );
    assert_eq!(missing_file_notice("/other", "/mnt", &photo, &HostFile::Missing), None);
    assert_eq!(missing_file_notice("/data", "/mnt", &photo, &HostFile::Unreadable), None);
    let contents = HostFile::Contents(vec![]);
    assert_eq!(missing_file_notice("/data", "/mnt", &photo, &contents), None);
}

#[test]
fn applied_run_updates_each_asset_with_a_timestamp() {
    let mut run = FixRun::new(true, 4);
    let zone = Some(Offset { hours: 5, minutes: 0, is_negative: false });
    let photo = asset("1", "/data/1.jpg");
    let first = run.step(&client(), &photo, Some((moment(), zone)));
    assert_eq!(first, FixAction::Update(update("1", "2026-02-03T04:05:06+05:00")));
    assert_eq!(run.take_answer(&photo, Reply::Success(())), None);
    let second = run.step(&client(), &asset("2", "/data/2.jpg"), None);
    assert_eq!(
        second,
        FixAction::Failed("Failed to get timestamp for 2.jpg - /data/2.jpg".to_string())
    );
    let photo = asset("3", "/data/3.jpg");
    let third = run.step(&client(), &photo, Some((moment(), None)));
    assert_eq!(third, FixAction::Update(update("3", "2026-02-03T04:05:06")));
    let refused = Reply::Refused {
        status: "400 Bad Request".to_string(),
        text: "no".to_string(),
    };
    assert_eq!(
        run.take_answer(&photo, refused),
        Some("Failed to update 3.jpg: 400 Bad Request - no".to_string())
    );
    let photo = asset("4", "/data/4.jpg");
    run.step(&client(), &photo, Some((moment(), None)));
    assert_eq!(run.take_answer(&photo, Reply::Success(())), None);
    assert!(!run.stopped && !run.awaiting);
    assert_eq!((run.seen, run.success), (4, 2));
    assert_eq!(run.summary(), "Successfully updated [2/4] assets");
}

#[test]
fn dry_run_stops_at_the_first_timestamp() {
    let mut run = FixRun::new(false, 3);
    let first = run.step(&client(), &asset("1", "/data/1.jpg"), None);
    assert_eq!(
        first,
        FixAction::Failed("Failed to get timestamp for 1.jpg - /data/1.jpg".to_string())
    );
    assert!(!run.stopped);
    let second = run.step(&client(), &asset("2", "/data/2.jpg"), Some((moment(), None)));
    assert_eq!(second, FixAction::Example(update("2", "2026-02-03T04:05:06")));
    assert!(run.stopped);
    assert_eq!((run.seen, run.success), (2, 0));
}

#[test]
fn dry_run_without_timestamps_ends_with_the_summary() {
    let mut run = FixRun::new(false, 2);
    run.step(&client(), &asset("1", "/data/1.jpg"), None);
    run.step(&client(), &asset("2", "/data/2.jpg"), None);
    assert!(!run.stopped);
    assert_eq!(run.summary(), "Successfully updated [0/2] assets");
}

#[test]
fn dry_run_after_a_success_tells_what_it_would_do() {
    let mut run = FixRun { apply: false, total: 9, seen: 4, success: 1, stopped: false, awaiting: false };
    let action = run.step(&client(), &asset("1", "/data/1.jpg"), Some((moment(), None)));
    assert_eq!(
        action,
        FixAction::WouldUpdate("Would update timestamp here to: 2026-02-03T04:05:06".to_string())
    );
    assert_eq!((run.seen, run.success, run.stopped, run.awaiting), (5, 2, false, false));
}

/// A TIFF file with a date and an offset.
fn photo(date: &[u8; 19], offset: &[u8; 6]) -> HostFile {
    let mut file = b"MM\0*\0\0\0\x08".to_vec();
    file.extend(b"\0\x01\x87\x69\0\x04\0\0\0\x01\0\0\0\x1a\0\0\0\0");
    file.extend(b"\0\x02");
    file.extend(b"\x90\x03\0\x02\0\0\0\x14\0\0\0\x38");
    file.extend(b"\x90\x11\0\x02\0\0\0\x07\0\0\0\x4c");
    file.extend(b"\0\0\0\0");
    file.extend(date);
    file.extend(b"\0");
    file.extend(offset);
    file.extend(b"\0");
    HostFile::Contents(file)
}

#[test]
fn file_of_an_asset_decides_its_update() {
    let mut run = FixRun::new(true, 3);
    let first = asset("1", "/data/1.tif");
    let file = photo(b"2026:02:03 04:05:06", b"+05:30");
    let step = fix_asset(&mut run, &client(), "/data", "/mnt", &first, &file).unwrap();
    assert_eq!(step.notice, None);
    assert_eq!(step.action, FixAction::Update(update("1", "2026-02-03T04:05:06+05:00")));
    assert_eq!(run.take_answer(&first, Reply::Success(())), None);
    let step = fix_asset(&mut run, &client(), "/data", "/mnt", &first, &HostFile::Missing).unwrap();
    assert_eq!(
        step.notice,
        Some(" !! No file found for 1.jpg, filepath: /mnt/1.tif".to_string())
    );
    assert_eq!(
        step.action,
        FixAction::Failed("Failed to get timestamp for 1.jpg - /data/1.tif".to_string())
    );
    let step = fix_asset(&mut run, &client(), "/other", "/mnt", &first, &file).unwrap();
    assert_eq!(step.notice, None);
    assert_eq!(
        step.action,
        FixAction::Failed("Failed to get timestamp for 1.jpg - /data/1.tif".to_string())
    );
    assert_eq!((run.seen, run.success), (3, 1));
}

#[test]
fn timestamp_without_a_text_leaves_the_run_as_it_is() {
    let mut run = FixRun::new(true, 1);
    let photo_asset = asset("1", "/data/1.tif");
    let file = photo(b"2026:02:30 04:05:06", b"+05:00");
    assert_eq!(fix_asset(&mut run, &client(), "/data", "/mnt", &photo_asset, &file), None);
    let file = photo(b"2026:02:03 04:05:06", b"+24:00");
    assert_eq!(fix_asset(&mut run, &client(), "/data", "/mnt", &photo_asset, &file), None);
    assert_eq!(run, FixRun::new(true, 1));
    let file = photo(b"2026:02:30 04:05:06", b"+00:30");
    let step = fix_asset(&mut run, &client(), "/data", "/mnt", &photo_asset, &file).unwrap();
    assert_eq!(step.action, FixAction::Update(update("1", "2026-02-30T04:05:06")));
}
