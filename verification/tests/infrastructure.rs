use tml::app_trait::jwt_manager::Claims;
use tml::app_trait::music_info_provider::MusicInfo;
use tml::app_trait::search_engine::MatchRange;
use tml::domain::job::JobType;
use tml::infrastructure::database_errors::{
    add_entry_error, create_music_list_error, create_user_error, rename_music_list_error, update_storage_error, SqlErr,
};
use tml::usecase::app::create_music_list::repository::Error as CreateListError;
use tml::usecase::mgmt::update_storage::repository::Error as StorageError;
use tml::infrastructure::job_handler::{
    plan_job, reindex_statement, search_document, search_documents, work_for, Error, JobAction, JobEvent, JobRun,
    JobWork, RepositoryError, Scan, ScanAction, ScanEvent,
};
use tml::infrastructure::jwt_manager::JwtManager;
use tml::infrastructure::music_info_provider::{AudioProperties, Error as TagReadError, MusicInfoProvider, TagError, TagValues};
use tml::infrastructure::search_engine::{is_complete, to_search_results, RawSearchHit, RawSearchResults};
use tml::usecase::app::add_music_info_to_music_list::repository::Error as AddError;
use tml::usecase::app::update_music_list::repository::Error as RenameError;
use tml::usecase::auth::register::repository::Error as RegisterError;

fn tags(artist: Option<&str>, album: Option<&str>, title: Option<&str>, track: Option<&str>) -> TagValues {
    TagValues {
        track_artist: artist.map(|s| s.to_string()),
        album_title: album.map(|s| s.to_string()),
        track_title: title.map(|s| s.to_string()),
        track_number: track.map(|s| s.to_string()),
    }
}

fn props(sample_rate: Option<u32>, bitrate: Option<u32>) -> AudioProperties {
    AudioProperties { sample_rate, channels: Some(2), bit_depth: Some(16), audio_bitrate: bitrate }
}

#[test]
fn only_flac_and_mp3_files_are_read() {
    let p = MusicInfoProvider;
    assert!(p.entry_outcome(false, Some("flac")).is_ok());
    assert!(p.entry_outcome(false, Some("mp3")).is_ok());
    assert!(matches!(p.entry_outcome(false, Some("ogg")), Err(TagReadError::Skiped)));
    assert!(matches!(p.entry_outcome(false, None), Err(TagReadError::Skiped)));
    assert!(matches!(p.entry_outcome(true, Some("flac")), Err(TagReadError::Skiped)));
}

#[test]
fn tags_become_a_record() {
    let p = MusicInfoProvider;
    let m = p
        .music_info_from_tags(
            Some(tags(Some("Simon & Garfunkel & Friends"), Some("Bookends"), Some("America"), Some("7"))),
            props(Some(44100), Some(320)),
        )
        .unwrap();
    assert_eq!(m.title, "America");
    assert_eq!(m.artists, vec!["Simon", "Garfunkel", "Friends"]);
    assert_eq!(m.album_title, "Bookends");
    assert_eq!(m.track_number, 7);
    assert_eq!(m.sample_rate, 44100);
    assert_eq!(m.audio_bitrate, 320);
    assert_eq!(m.channels, 2);
    assert_eq!(m.bit_depth, 16);
}

#[test]
fn missing_properties_count_as_zero() {
    let p = MusicInfoProvider;
    let m = p
        .music_info_from_tags(
            Some(tags(Some("A"), Some("B"), Some("C"), Some("-3"))),
            AudioProperties { sample_rate: None, channels: None, bit_depth: None, audio_bitrate: None },
        )
        .unwrap();
    assert_eq!((m.sample_rate, m.audio_bitrate, m.channels, m.bit_depth), (0, 0, 0, 0));
    assert_eq!(m.track_number, -3);
}

#[test]
fn each_missing_tag_is_reported_in_order() {
    let p = MusicInfoProvider;
    let e = |t: Option<TagValues>| p.music_info_from_tags(t, props(Some(1), Some(1))).unwrap_err();
    assert!(matches!(e(None), TagReadError::TagError(TagError::GetTag)));
    assert!(matches!(e(Some(tags(None, None, None, None))), TagReadError::TagError(TagError::TrackArtist)));
    assert!(matches!(e(Some(tags(Some("a"), None, Some("t"), Some("1")))), TagReadError::TagError(TagError::AlbumTitle)));
    assert!(matches!(e(Some(tags(Some("a"), Some("b"), None, Some("1")))), TagReadError::TagError(TagError::TrackTitle)));
    assert!(matches!(e(Some(tags(Some("a"), Some("b"), Some("t"), None))), TagReadError::TagError(TagError::TrackNumber)));
    assert!(matches!(e(Some(tags(Some("a"), Some("b"), Some("t"), Some("7/12")))), TagReadError::ParseIntError));
}

#[test]
fn rates_beyond_i32_are_refused() {
    let p = MusicInfoProvider;
    let t = || Some(tags(Some("a"), Some("b"), Some("t"), Some("+1")));
    assert!(matches!(p.music_info_from_tags(t(), props(Some(1), Some(u32::MAX))), Err(TagReadError::TryFromIntError)));
    assert!(matches!(p.music_info_from_tags(t(), props(Some(2147483648), Some(1))), Err(TagReadError::TryFromIntError)));
    assert!(p.music_info_from_tags(t(), props(Some(2147483647), Some(2147483647))).is_ok());
}

#[test]
fn track_numbers_parse_like_std() {
    let p = MusicInfoProvider;
    for s in ["0", "+12", "-2147483648", "2147483647", "2147483648", "", "-", "1 ", "٣"] {
        let r = p.music_info_from_tags(Some(tags(Some("a"), Some("b"), Some("t"), Some(s))), props(None, None));
        match s.parse::<i32>() {
            Ok(n) => assert_eq!(r.unwrap().track_number, n),
            Err(_) => assert!(matches!(r, Err(TagReadError::ParseIntError))),
        }
    }
}

#[test]
fn constraint_violations_become_repository_errors() {
    let e = add_entry_error(SqlErr::UniqueConstraintViolation("pk".into()), "dup".into());
    assert!(matches!(e, AddError::MusicInfoAlreadyInMusicList));
    let e = add_entry_error(
        SqlErr::ForeignKeyConstraintViolation("fk-music_info_music_list-music_list_id".into()),
        "fk".into(),
    );
    assert!(matches!(e, AddError::MusicListNotFound));
    let e = add_entry_error(
        SqlErr::ForeignKeyConstraintViolation("fk-music_info_music_list-music_info_id".into()),
        "fk".into(),
    );
    assert!(matches!(e, AddError::MusicInfoNotFound));
    let e = add_entry_error(SqlErr::Other, "boom".into());
    assert!(matches!(e, AddError::Unknown(m) if m == "boom"));

    let e = rename_music_list_error(SqlErr::UniqueConstraintViolation("music_list_name_key".into()), "x".into());
    assert!(matches!(e, RenameError::NameDuplication));
    let e = rename_music_list_error(SqlErr::UniqueConstraintViolation("other_key".into()), "x".into());
    assert!(matches!(e, RenameError::Unknown(m) if m == "x"));

    let e = create_user_error(SqlErr::UniqueConstraintViolation("user_username_key".into()), "x".into());
    assert!(matches!(e, RegisterError::UniqueIndex(d) if d == "user_username_key"));
    let e = create_user_error(SqlErr::Other, "y".into());
    assert!(matches!(e, RegisterError::Unknown(m) if m == "y"));
}

fn info(title: &str) -> MusicInfo {
    MusicInfo {
        title: title.to_string(),
        artists: vec!["X".to_string()],
        album_title: "Y".to_string(),
        track_number: 1,
        audio_bitrate: 1,
        sample_rate: 1,
        channels: 2,
        bit_depth: 16,
    }
}

#[test]
fn search_documents_use_the_lower_hex_id() {
    let id = vec![0x00u8, 0xab, 0x10, 0xff];
    let d = search_document(&id, &info("T"));
    assert_eq!(d.id, "00ab10ff");
    assert_eq!(d.title, "T");
    assert_eq!(d.artists, vec!["X"]);
    assert_eq!(d.album_title, "Y");
    let docs = search_documents(&vec![(vec![1u8], info("a")), (vec![2u8], info("b"))]);
    assert_eq!(docs.iter().map(|d| d.id.as_str()).collect::<Vec<_>>(), vec!["01", "02"]);
    assert_eq!(docs[1].title, "b");
}

#[test]
fn job_error_messages() {
    assert_eq!(Error::StorageIdNotFoundError.message(), "Storage id not found error");
    assert_eq!(Error::MeilisearchError("down".into()).message(), "Meilisearch error: down");
    assert_eq!(
        Error::RepositoryError(RepositoryError::DbErr("timeout".into())).message(),
        "Repository error: Db error: timeout"
    );
    assert_eq!(Error::RepositoryError(RepositoryError::StorageNotFound).message(), "Repository error: Storage not found");
    assert_eq!(RepositoryError::JobNotFound.message(), "Job not found");
    assert_eq!(reindex_statement("app.music_info_pkey"), "REINDEX INDEX CONCURRENTLY app.music_info_pkey");
}

fn args_with(key: &str, v: serde_json::Value) -> serde_json::Value {
    let mut m = serde_json::Map::new();
    m.insert(key.to_string(), v);
    serde_json::Value::Object(m)
}

#[test]
fn only_scans_do_work_and_need_a_storage_id() {
    assert_eq!(work_for(JobType::BuildIndex, None).unwrap(), JobWork::Nothing);
    assert_eq!(work_for(JobType::ScanIncremental, Some(5)).unwrap(), JobWork::ScanIncremental { storage_id: 5 });
    assert!(matches!(work_for(JobType::ScanIncremental, None), Err(Error::StorageIdNotFoundError)));

    let good = args_with("storage_id", serde_json::Value::from(5));
    assert_eq!(plan_job(JobType::ScanIncremental, &good).unwrap(), JobWork::ScanIncremental { storage_id: 5 });
    let wrong_type = args_with("storage_id", serde_json::Value::from("5"));
    assert!(matches!(plan_job(JobType::ScanIncremental, &wrong_type), Err(Error::StorageIdNotFoundError)));
    assert!(matches!(plan_job(JobType::ScanIncremental, &serde_json::Value::Null), Err(Error::StorageIdNotFoundError)));
    assert_eq!(plan_job(JobType::UpdateIndex, &serde_json::Value::Null).unwrap(), JobWork::Nothing);
}

#[test]
fn a_job_run_records_its_outcome() {
    let (_, a) = JobRun::start(1, JobType::BuildIndex, &serde_json::Value::Null);
    assert!(matches!(a, JobAction::FinishJob { job_id: 1, success: true, ref error_message } if error_message.is_empty()));

    let (_, a) = JobRun::start(2, JobType::ScanIncremental, &serde_json::Value::Null);
    assert!(matches!(a, JobAction::FinishJob { job_id: 2, success: false, ref error_message }
        if error_message == "Storage id not found error"));

    let (mut run, a) = JobRun::start(3, JobType::ScanIncremental, &args_with("storage_id", serde_json::Value::from(9)));
    assert!(matches!(a, JobAction::ScanIncremental { storage_id: 9 }));
    let a = run.on_event(JobEvent::ScanFinished(Err(Error::MeilisearchError("down".into()))));
    assert!(matches!(a, JobAction::FinishJob { job_id: 3, success: false, ref error_message }
        if error_message == "Meilisearch error: down"));
    assert!(matches!(run.on_event(JobEvent::JobFinished(Ok(()))), JobAction::Done(Ok(()))));
}

#[test]
fn a_scan_stores_then_indexes_each_chunk_then_reindexes() {
    let (mut scan, a) = Scan::start(4);
    assert!(matches!(a, ScanAction::GetStoragePath { storage_id: 4 }));
    let a = scan.on_event(ScanEvent::StoragePath(Ok("/music".into())));
    assert!(matches!(a, ScanAction::OpenChunkStream { ref path } if path == "/music"));
    for round in 0..2u8 {
        let chunk = vec![(vec![round, 1], info("a")), (vec![round, 2], info("b"))];
        match scan.on_event(ScanEvent::Chunk(Some(chunk))) {
            ScanAction::StoreChunk { storage_id, items } => {
                assert_eq!(storage_id, 4);
                assert_eq!(items.len(), 2);
            },
            _ => panic!("expected the chunk to be stored"),
        }
        assert!(!scan.accepts(&ScanEvent::DocumentsAdded(Ok(()))));
        match scan.on_event(ScanEvent::ChunkStored(Ok(()))) {
            ScanAction::AddDocuments { documents } => {
                assert_eq!(documents.len(), 2);
                assert_eq!(documents[0].id, format!("{:02x}01", round));
            },
            _ => panic!("expected documents to be indexed"),
        }
        assert!(matches!(scan.on_event(ScanEvent::DocumentsAdded(Ok(()))), ScanAction::NextChunk));
    }
    match scan.on_event(ScanEvent::Chunk(None)) {
        ScanAction::Reindex { statement } => {
            assert_eq!(statement, "REINDEX INDEX CONCURRENTLY app.music_info_pkey")
        },
        _ => panic!("expected a reindex"),
    }
    assert!(matches!(scan.on_event(ScanEvent::Reindexed(Ok(()))), ScanAction::Finish(Ok(()))));
}

#[test]
fn a_scan_stops_at_the_first_failure() {
    let (mut scan, _) = Scan::start(4);
    scan.on_event(ScanEvent::StoragePath(Ok("/music".into())));
    scan.on_event(ScanEvent::Chunk(Some(vec![(vec![1], info("a"))])));
    let a = scan.on_event(ScanEvent::ChunkStored(Err(RepositoryError::DbErr("x".into()))));
    assert!(matches!(a, ScanAction::Finish(Err(Error::RepositoryError(RepositoryError::DbErr(_))))));
    assert!(!scan.accepts(&ScanEvent::Chunk(None)));
}

#[test]
fn search_pages_keep_their_hits_and_counters() {
    let range = MatchRange { start: 0, length: 4, indices: None };
    let raw = RawSearchResults {
        hits: vec![
            RawSearchHit { result: "a", matches_position: Some(vec![("title".to_string(), vec![range.clone()])]) },
            RawSearchHit { result: "b", matches_position: Some(vec![]) },
        ],
        page: Some(2),
        total_hits: Some(12),
        total_pages: Some(3),
    };
    assert!(is_complete(&raw));
    let r = to_search_results(raw);
    assert_eq!((r.page, r.total_hits, r.total_pages), (2, 12, 3));
    assert_eq!(r.hits.len(), 2);
    assert_eq!(r.hits[0].result, "a");
    assert_eq!(r.hits[0].matches_position[0].0, "title");
    assert_eq!(r.hits[0].matches_position[0].1[0].length, 4);
    assert!(r.hits[1].matches_position.is_empty());

    let missing = RawSearchResults::<&str> {
        hits: vec![RawSearchHit { result: "a", matches_position: None }],
        page: Some(1),
        total_hits: Some(1),
        total_pages: Some(1),
    };
    assert!(!is_complete(&missing));
}

#[test]
fn tokens_expire_the_configured_seconds_later() {
    let jwt = JwtManager::new("s3cr3t".to_string(), 3600);
    assert_eq!(jwt.secret(), "s3cr3t");
    assert_eq!(jwt.exp_in_seconds(), 3600);
    assert_eq!(jwt.expiry_millis(1_000), 3_601_000);
    let c = jwt.claims_for_token(Claims { sub: 5, exp: 0, roles: vec!["admin".into()], security_stamp: 9 }, 10);
    assert_eq!(c.exp, 3_600_010);
    assert_eq!((c.sub, c.security_stamp), (5, 9));
    assert_eq!(c.roles, vec!["admin".to_string()]);
}

#[test]
fn list_and_storage_constraint_violations() {
    let e = create_music_list_error(SqlErr::UniqueConstraintViolation("music_list_name_key".into()), "x".into());
    assert!(matches!(e, CreateListError::NameDuplication));
    let e = create_music_list_error(SqlErr::ForeignKeyConstraintViolation("music_list_name_key".into()), "x".into());
    assert!(matches!(e, CreateListError::Unknown(m) if m == "x"));

    let e = update_storage_error(SqlErr::UniqueConstraintViolation("storage_name_key".into()), "m".into());
    assert!(matches!(e, StorageError::NameDuplication));
    let e = update_storage_error(SqlErr::UniqueConstraintViolation("storage_path_key".into()), "m".into());
    assert!(matches!(e, StorageError::PathDuplication));
    let e = update_storage_error(SqlErr::UniqueConstraintViolation("other".into()), "m".into());
    assert!(matches!(e, StorageError::Unknown(m) if m == "m"));
    let e = update_storage_error(SqlErr::Other, "n".into());
    assert!(matches!(e, StorageError::Unknown(m) if m == "n"));
}

#[test]
fn deleting_nothing_means_not_found() {
    assert!(tml::usecase::mgmt::delete_job::repository::deletion_outcome(1).is_ok());
    assert!(matches!(
        tml::usecase::mgmt::delete_job::repository::deletion_outcome(0),
        Err(tml::usecase::mgmt::delete_job::repository::Error::JobNotFound)
    ));
    assert!(tml::usecase::app::remove_music_info_from_music_list::repository::removal_outcome(3).is_ok());
    assert!(matches!(
        tml::usecase::app::remove_music_info_from_music_list::repository::removal_outcome(0),
        Err(tml::usecase::app::remove_music_info_from_music_list::repository::Error::MusicInfoNotInMusicList)
    ));
}

#[test]
fn the_storage_id_is_read_from_the_job_arguments() {
    let other_key = args_with("storage", serde_json::Value::from(5));
    assert!(matches!(plan_job(JobType::ScanIncremental, &other_key), Err(Error::StorageIdNotFoundError)));
    let too_big = args_with("storage_id", serde_json::Value::from(u64::MAX));
    assert!(matches!(plan_job(JobType::ScanIncremental, &too_big), Err(Error::StorageIdNotFoundError)));
    let negative = args_with("storage_id", serde_json::Value::from(-7));
    assert_eq!(plan_job(JobType::ScanIncremental, &negative).unwrap(), JobWork::ScanIncremental { storage_id: -7 });
    let (_, a) = JobRun::start(8, JobType::ScanIncremental, &args_with("storage_id", serde_json::Value::from(42)));
    assert!(matches!(a, JobAction::ScanIncremental { storage_id: 42 }));
}
