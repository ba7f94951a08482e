use artifact_mover::cli::{Cli, Commands};
use artifact_mover::codec::{compress, decompress};
use artifact_mover::error::{ErrorKind, TransferError};
use artifact_mover::transfer::{Action, Event, Phase, Transfer};
use std::io::Read;
use std::path::PathBuf;

fn cli() -> Cli {
    Cli {
        bucket: "builds".to_string(),
        name: "n".to_string(),
        path: PathBuf::from("out"),
        identifier: "abc123".to_string(),
        profile: Some("ci".to_string()),
        prefix_key: None,
        command: Commands::Download,
    }
}

fn tar_of(files: &[(&str, &[u8])]) -> Vec<u8> {
    let mut builder = tar::Builder::new(Vec::new());
    for (name, content) in files {
        let mut header = tar::Header::new_gnu();
        header.set_size(content.len() as u64);
        header.set_mode(0o644);
        header.set_cksum();
        builder.append_data(&mut header, name, *content).unwrap();
    }
    builder.into_inner().unwrap()
}

fn files_of(archive: &[u8]) -> Vec<(String, Vec<u8>)> {
    let mut files: Vec<(String, Vec<u8>)> = Vec::new();
    let mut reader = tar::Archive::new(archive);
    for entry in reader.entries().unwrap() {
        let mut entry = entry.unwrap();
        let name = entry.path().unwrap().to_string_lossy().into_owned();
        let mut content: Vec<u8> = Vec::new();
        entry.read_to_end(&mut content).unwrap();
        files.push((name, content));
    }
    files
}

fn get(key: &str) -> Action {
    Action::Get { bucket: "builds".to_string(), key: key.to_string() }
}

fn unpack(archive: &[u8]) -> Action {
    Action::Unpack { archive: archive.to_vec(), destination: PathBuf::from("out") }
}

#[test]
fn download_begins_by_listing_the_prefix() {
    let (transfer, action) = cli().execute();
    assert_eq!(
        action,
        Action::List { bucket: "builds".to_string(), prefix: "artifacts/abc123/n/".to_string() }
    );
    assert_eq!(transfer.phase(), Phase::Listing);
    assert_eq!(cli().object_prefix(), "artifacts/abc123/n/");
}

#[test]
fn download_under_a_chosen_prefix_key() {
    let mut chosen = cli();
    chosen.prefix_key = Some("nightly".to_string());
    let (_, action) = chosen.execute();
    assert_eq!(
        action,
        Action::List { bucket: "builds".to_string(), prefix: "nightly/abc123/n/".to_string() }
    );
}

#[test]
fn download_of_an_empty_listing() {
    let (mut transfer, _) = cli().execute();
    assert_eq!(transfer.step(Event::EndOfListing), Some(Action::Finish));
    assert_eq!(transfer.phase(), Phase::Finished);
}

#[test]
fn download_without_matching_keys() {
    let (mut transfer, _) = cli().execute();
    let page: Vec<Option<String>> = vec![
        Some("artifacts/abc123/n/readme.txt".to_string()),
        None,
        Some("artifacts/abc123/n/0f.tar.bz2".to_string()),
        Some("artifacts/abc123/n/0ftar.zstd".to_string()),
    ];
    assert_eq!(transfer.step(Event::Page { keys: page }), Some(Action::NextPage));
    assert_eq!(transfer.phase(), Phase::Listing);
    assert_eq!(transfer.step(Event::Page { keys: Vec::new() }), Some(Action::NextPage));
    assert_eq!(transfer.step(Event::EndOfListing), Some(Action::Finish));
    assert_eq!(transfer.phase(), Phase::Finished);
}

#[test]
fn download_passes_over_a_key_without_the_dot() {
    let mut cli = cli();
    cli.bucket = "b".to_string();
    cli.profile = None;
    let (mut transfer, _) = cli.execute();
    let page: Vec<Option<String>> = vec![Some("artifacts/abc123/n/xtar.zstd".to_string())];
    assert_eq!(transfer.step(Event::Page { keys: page }), Some(Action::NextPage));
    assert_eq!(transfer.phase(), Phase::Listing);
    assert_eq!(transfer.step(Event::EndOfListing), Some(Action::Finish));
    assert_eq!(transfer.phase(), Phase::Finished);
}

#[test]
fn download_is_the_same_with_and_without_other_keys() {
    let matching: Vec<Option<String>> = vec![
        Some("artifacts/abc123/n/aa.tar.zstd".to_string()),
        Some("artifacts/abc123/n/bb.tar.zstd".to_string()),
    ];
    let mixed: Vec<Option<String>> = vec![
        Some("artifacts/abc123/n/notes.txt".to_string()),
        Some("artifacts/abc123/n/aa.tar.zstd".to_string()),
        Some("artifacts/abc123/n/aatar.zstd".to_string()),
        Some("artifacts/abc123/n/aa.tar.bz2".to_string()),
        None,
        Some("artifacts/abc123/n/bb.tar.zstd".to_string()),
        Some("artifacts/abc123/n/bb".to_string()),
    ];
    let archive = tar_of(&[("a", b"1")]);
    let mut runs: Vec<Vec<Action>> = Vec::new();
    for page in [matching, mixed] {
        let (mut transfer, first) = cli().execute();
        let mut actions: Vec<Action> = vec![first];
        let mut action = transfer.step(Event::Page { keys: page }).unwrap();
        loop {
            actions.push(action.clone());
            let event = match action {
                Action::Get { .. } => Event::Fetched { body: compress(&archive).unwrap() },
                Action::Unpack { .. } => Event::Unpacked,
                Action::NextPage => Event::EndOfListing,
                Action::Finish => break,
                other => panic!("{:?}", other),
            };
            action = transfer.step(event).unwrap();
        }
        runs.push(actions);
    }
    assert_eq!(runs[0], runs[1]);
    assert_eq!(runs[0].len(), 7);
}

#[test]
fn download_of_one_object() {
    let archive = tar_of(&[("report.txt", b"quarterly numbers\n")]);
    let payload = compress(&archive).unwrap();
    let (mut transfer, _) = cli().execute();
    let page: Vec<Option<String>> = vec![Some("artifacts/abc123/n/0f.tar.zstd".to_string())];
    assert_eq!(transfer.step(Event::Page { keys: page }), Some(get("artifacts/abc123/n/0f.tar.zstd")));
    assert_eq!(transfer.phase(), Phase::Fetching);
    assert_eq!(transfer.step(Event::Fetched { body: payload }), Some(unpack(&archive)));
    assert_eq!(transfer.phase(), Phase::Unpacking);
    assert_eq!(transfer.step(Event::Unpacked), Some(Action::NextPage));
    assert_eq!(transfer.phase(), Phase::Listing);
    assert_eq!(transfer.step(Event::EndOfListing), Some(Action::Finish));
}

#[test]
fn download_fetches_only_matching_keys() {
    let archive = tar_of(&[("a", b"1")]);
    let payload = compress(&archive).unwrap();
    let (mut transfer, _) = cli().execute();
    let page: Vec<Option<String>> = vec![
        Some("artifacts/abc123/n/notes.md".to_string()),
        Some("artifacts/abc123/n/11.tar.zstd".to_string()),
        None,
        Some("artifacts/abc123/n/22.tar.gz".to_string()),
        Some("artifacts/abc123/n/33.tar.zstd".to_string()),
        Some("artifacts/abc123/n/33.tar.zstd.sig".to_string()),
    ];
    let mut fetched: Vec<String> = Vec::new();
    let mut action = transfer.step(Event::Page { keys: page }).unwrap();
    loop {
        match action {
            Action::Get { bucket, key } => {
                assert_eq!(bucket, "builds");
                fetched.push(key);
                assert_eq!(
                    transfer.step(Event::Fetched { body: payload.clone() }),
                    Some(unpack(&archive))
                );
                action = transfer.step(Event::Unpacked).unwrap();
            },
            Action::NextPage => break,
            other => panic!("{:?}", other),
        }
    }
    assert_eq!(
        fetched,
        vec![
            "artifacts/abc123/n/11.tar.zstd".to_string(),
            "artifacts/abc123/n/33.tar.zstd".to_string()
        ]
    );
    assert_eq!(transfer.step(Event::EndOfListing), Some(Action::Finish));
}

#[test]
fn download_of_two_pages() {
    let first = tar_of(&[("bin/tool", b"\x7fELF"), ("README", b"read me")]);
    let second = tar_of(&[("README", b"read me, again")]);
    let third = tar_of(&[]);
    let (mut transfer, _) = cli().execute();

    let page_one: Vec<Option<String>> = vec![
        Some("artifacts/abc123/n/aa.tar.zstd".to_string()),
        Some("artifacts/abc123/n/index.json".to_string()),
        Some("artifacts/abc123/n/bb.tar.zstd".to_string()),
        Some("artifacts/abc123/n/bbtar.zstd".to_string()),
    ];
    let page_two: Vec<Option<String>> = vec![
        Some("artifacts/abc123/n/xtar.zstd".to_string()),
        Some("artifacts/abc123/n/cc.tar.zstd".to_string()),
    ];

    assert_eq!(
        transfer.step(Event::Page { keys: page_one }),
        Some(get("artifacts/abc123/n/aa.tar.zstd"))
    );
    assert_eq!(
        transfer.step(Event::Fetched { body: compress(&first).unwrap() }),
        Some(unpack(&first))
    );
    assert_eq!(transfer.step(Event::Unpacked), Some(get("artifacts/abc123/n/bb.tar.zstd")));
    assert_eq!(
        transfer.step(Event::Fetched { body: compress(&second).unwrap() }),
        Some(unpack(&second))
    );
    assert_eq!(transfer.step(Event::Unpacked), Some(Action::NextPage));

    assert_eq!(
        transfer.step(Event::Page { keys: page_two }),
        Some(get("artifacts/abc123/n/cc.tar.zstd"))
    );
    assert_eq!(
        transfer.step(Event::Fetched { body: compress(&third).unwrap() }),
        Some(unpack(&third))
    );
    assert_eq!(transfer.step(Event::Unpacked), Some(Action::NextPage));
    assert_eq!(transfer.step(Event::EndOfListing), Some(Action::Finish));
    assert_eq!(transfer.phase(), Phase::Finished);
}

#[test]
fn archive_survives_the_codec() {
    let files: [(&str, &[u8]); 4] = [
        ("report.txt", b"quarterly numbers\n"),
        ("empty", b""),
        ("dir/nested/data.bin", &[0u8, 1, 2, 3, 255, 254, 0, 0, 0]),
        ("dir/other", b"xyz"),
    ];
    let archive = tar_of(&files);
    let restored = decompress(&compress(&archive).unwrap()).unwrap();
    assert_eq!(restored, archive);
    let unpacked = files_of(&restored);
    assert_eq!(unpacked.len(), 4);
    for (i, (name, content)) in files.iter().enumerate() {
        assert_eq!(unpacked[i].0, *name);
        assert_eq!(unpacked[i].1, *content);
    }
}

#[test]
fn what_an_upload_stores_a_download_unpacks() {
    let archive = tar_of(&[("report.txt", b"quarterly numbers\n")]);
    let mut upload = cli();
    upload.command = Commands::Upload;
    let (mut sender, _) = upload.execute();
    sender.step(Event::Inspected { is_file: true }).unwrap();
    let (key, body) = match sender.step(Event::Archived { archive: archive.clone() }).unwrap() {
        Action::Put { key, body, .. } => (key, body),
        other => panic!("{:?}", other),
    };

    let (mut receiver, first) = cli().execute();
    match first {
        Action::List { prefix, .. } => assert!(key.starts_with(&prefix)),
        other => panic!("{:?}", other),
    }
    assert_eq!(receiver.step(Event::Page { keys: vec![Some(key.clone())] }), Some(get(&key)));
    let action = receiver.step(Event::Fetched { body }).unwrap();
    assert_eq!(action, unpack(&archive));
    match action {
        Action::Unpack { archive, .. } => assert_eq!(
            files_of(&archive),
            vec![("report.txt".to_string(), b"quarterly numbers\n".to_vec())]
        ),
        other => panic!("{:?}", other),
    }
}

#[test]
fn download_fails_on_a_corrupt_object() {
    let (mut transfer, _) = cli().execute();
    let page: Vec<Option<String>> = vec![
        Some("artifacts/abc123/n/aa.tar.zstd".to_string()),
        Some("artifacts/abc123/n/bb.tar.zstd".to_string()),
    ];
    transfer.step(Event::Page { keys: page }).unwrap();
    match transfer.step(Event::Fetched { body: b"not a payload".to_vec() }) {
        Some(Action::Fail { error }) => {
            assert_eq!(error.kind, ErrorKind::Codec);
            assert!(error.message().starts_with("codec error: "));
        },
        other => panic!("{:?}", other),
    }
    assert_eq!(transfer.phase(), Phase::Failed);
    assert_eq!(transfer.step(Event::Unpacked), None);
    assert_eq!(transfer.step(Event::Fetched { body: compress(b"").unwrap() }), None);
    assert_eq!(transfer.step(Event::EndOfListing), None);
}

#[test]
fn download_stops_at_the_first_failure() {
    let archive = tar_of(&[("a", b"1")]);
    for (phase, kind) in [
        (Phase::Listing, ErrorKind::Store),
        (Phase::Fetching, ErrorKind::Store),
        (Phase::Unpacking, ErrorKind::Archive),
        (Phase::Unpacking, ErrorKind::Path),
    ] {
        let (mut transfer, _) = cli().execute();
        if phase != Phase::Listing {
            let page: Vec<Option<String>> = vec![
                Some("artifacts/abc123/n/aa.tar.zstd".to_string()),
                Some("artifacts/abc123/n/bb.tar.zstd".to_string()),
            ];
            transfer.step(Event::Page { keys: page }).unwrap();
        }
        if phase == Phase::Unpacking {
            transfer.step(Event::Fetched { body: compress(&archive).unwrap() }).unwrap();
        }
        assert_eq!(transfer.phase(), phase);
        let error = TransferError::new(kind, "it broke".to_string());
        assert_eq!(
            transfer.step(Event::Failed { error: error.clone() }),
            Some(Action::Fail { error })
        );
        assert_eq!(transfer.phase(), Phase::Failed);
        assert_eq!(transfer.step(Event::Unpacked), None);
        assert_eq!(transfer.step(Event::Page { keys: Vec::new() }), None);
    }
}

#[test]
fn download_refuses_events_out_of_turn() {
    let (mut transfer, _) = cli().execute();
    assert_eq!(transfer.step(Event::Unpacked), None);
    assert_eq!(transfer.step(Event::Fetched { body: Vec::new() }), None);
    assert_eq!(transfer.step(Event::Stored), None);
    assert_eq!(transfer.step(Event::Inspected { is_file: true }), None);
    assert_eq!(transfer.step(Event::Archived { archive: Vec::new() }), None);
    assert_eq!(transfer.phase(), Phase::Listing);

    let page: Vec<Option<String>> = vec![Some("artifacts/abc123/n/aa.tar.zstd".to_string())];
    transfer.step(Event::Page { keys: page.clone() }).unwrap();
    assert_eq!(transfer.step(Event::Page { keys: page }), None);
    assert_eq!(transfer.step(Event::EndOfListing), None);
    assert_eq!(transfer.step(Event::Unpacked), None);
    assert_eq!(transfer.phase(), Phase::Fetching);
    assert_eq!(
        transfer.step(Event::Fetched { body: compress(b"").unwrap() }),
        Some(unpack(b""))
    );
    assert_eq!(transfer.step(Event::Fetched { body: compress(b"").unwrap() }), None);
    assert_eq!(transfer.step(Event::Unpacked), Some(Action::NextPage));
}

#[test]
fn download_starts_from_its_parts() {
    let (transfer, action) = Transfer::download(
        "b".to_string(),
        "p/i/n/".to_string(),
        PathBuf::from("/tmp/out"),
    );
    assert_eq!(action, Action::List { bucket: "b".to_string(), prefix: "p/i/n/".to_string() });
    assert_eq!(transfer.phase(), Phase::Listing);
    assert!(!transfer.is_over());
}
