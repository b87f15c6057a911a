use tml::app_trait::search_engine::{Error as SearchError, SearchResults};
use tml::app_trait::tx_context::Error as TxError;
use tml::domain::job::{JobStatus, JobType, Model as Job};
use tml::domain::user;
use tml::time::Timestamp;
use tml::usecase::app::{
    delete_music_list, get_music_info_file_path, read_all_music_info_from_music_list as read_entries,
    remove_music_info_from_music_list as remove, search_music_info,
};
use tml::usecase::auth::read_user_info;
use tml::usecase::mgmt::{delete_storage, read_job};

#[test]
fn a_file_path_is_answered_as_read() {
    let (mut h, a) = get_music_info_file_path::Handler::start(get_music_info_file_path::Request { music_info_id: vec![1, 2] });
    assert!(matches!(a, get_music_info_file_path::Action::GetMusicInfoFilePath { ref music_info_id } if *music_info_id == vec![1, 2]));
    match h.on_event(get_music_info_file_path::Event::FilePath(Ok("/music/a.flac".into()))) {
        get_music_info_file_path::Action::Finish(Ok(resp)) => assert_eq!(resp.file_path, "/music/a.flac"),
        _ => panic!("expected the path"),
    }
    let (mut h, _) = get_music_info_file_path::Handler::start(get_music_info_file_path::Request { music_info_id: vec![] });
    assert!(matches!(
        h.on_event(get_music_info_file_path::Event::FilePath(Err(get_music_info_file_path::repository::Error::StorageNotFound))),
        get_music_info_file_path::Action::Finish(Err(get_music_info_file_path::Error::RepositoryError(
            get_music_info_file_path::repository::Error::StorageNotFound
        )))
    ));
}

#[test]
fn user_info_carries_the_account_and_its_roles() {
    let (mut h, a) = read_user_info::Handler::start(read_user_info::Request { user_id: 12 });
    assert!(matches!(a, read_user_info::Action::FindUserById { id: 12 }));
    let u = user::Model {
        id: 12,
        username: "dora".into(),
        password_hash: "x".into(),
        enabled: false,
        created_at: Timestamp { seconds: 99, nanos: 1 },
        security_stamp: 7,
    };
    match h.on_event(read_user_info::Event::UserFound(Ok((u, vec!["normal-user".into()])))) {
        read_user_info::Action::Finish(Ok(resp)) => {
            assert_eq!((resp.id, resp.username.as_str(), resp.enabled), (12, "dora", false));
            assert_eq!(resp.created_at, Timestamp { seconds: 99, nanos: 1 });
            assert_eq!(resp.roles, vec!["normal-user".to_string()]);
        },
        _ => panic!("expected the account"),
    }
}

#[test]
fn a_job_is_answered_as_stored() {
    let (mut h, a) = read_job::Handler::start(read_job::Request { id: 4 });
    assert!(matches!(a, read_job::Action::ReadJob { id: 4 }));
    let j = Job {
        id: 4,
        job_type: JobType::UpdateIndex,
        job_args: serde_json::Value::Bool(true),
        status: JobStatus::Running,
        description: "d".into(),
        error_message: "e".into(),
        success: false,
        created_by_id: 2,
        created_at: Timestamp { seconds: 3, nanos: 0 },
        completed_at: Some(Timestamp { seconds: 4, nanos: 0 }),
    };
    match h.on_event(read_job::Event::JobRead(Ok(j))) {
        read_job::Action::Finish(Ok(resp)) => {
            assert_eq!(resp.id, 4);
            assert_eq!(resp.job_type, JobType::UpdateIndex);
            assert_eq!(resp.status, JobStatus::Running);
            assert_eq!(resp.job_args, serde_json::Value::Bool(true));
            assert_eq!(resp.completed_at, Some(Timestamp { seconds: 4, nanos: 0 }));
        },
        _ => panic!("expected the job"),
    }
    let (mut h, _) = read_job::Handler::start(read_job::Request { id: 5 });
    assert!(matches!(
        h.on_event(read_job::Event::JobRead(Err(read_job::repository::Error::JobNotFound))),
        read_job::Action::Finish(Err(read_job::Error::RepositoryError(read_job::repository::Error::JobNotFound)))
    ));
}

#[test]
fn deleting_a_storage_location() {
    let (mut h, a) = delete_storage::Handler::start(delete_storage::Request { id: 8 });
    assert!(matches!(a, delete_storage::Action::DeleteStorage { id: 8 }));
    assert!(matches!(h.on_event(delete_storage::Event::Deleted(Ok(()))), delete_storage::Action::Finish(Ok(()))));
    let (mut h, _) = delete_storage::Handler::start(delete_storage::Request { id: 8 });
    assert!(matches!(
        h.on_event(delete_storage::Event::Deleted(Err(delete_storage::repository::Error::StorageNotFound))),
        delete_storage::Action::Finish(Err(delete_storage::Error::RepositoryError(_)))
    ));
}

#[test]
fn removing_an_entry_for_the_owner() {
    let id = [9u8; 16];
    let (mut h, _) = remove::Handler::start(remove::Request { music_list_id: 1, music_info_id: &id, user_id: 3 });
    match h.on_event(remove::Event::OwnerId(Ok(3))) {
        remove::Action::RemoveMusicInfoFromMusicList { music_list_id, music_info_id } => {
            assert_eq!(music_list_id, 1);
            assert_eq!(music_info_id, &id);
        },
        _ => panic!("expected a removal"),
    }
    assert!(matches!(
        h.on_event(remove::Event::Removed(Err(remove::repository::Error::MusicInfoNotInMusicList))),
        remove::Action::Finish(Err(remove::Error::RepositoryError(remove::repository::Error::MusicInfoNotInMusicList)))
    ));
    let (mut h, _) = remove::Handler::start(remove::Request { music_list_id: 1, music_info_id: &id, user_id: 3 });
    assert!(matches!(h.on_event(remove::Event::OwnerId(Ok(4))), remove::Action::Finish(Err(remove::Error::PermissionDenied))));
}

#[test]
fn transaction_failures_end_the_use_case() {
    let (mut h, _) = delete_music_list::Handler::start(delete_music_list::Request { id: 4, user_id: 8 });
    assert!(matches!(
        h.on_event(delete_music_list::Event::TxBegun(Err(TxError::Unknown("no connection".into())))),
        delete_music_list::Action::Finish(Err(delete_music_list::Error::TxError(_)))
    ));
    let (mut h, _) = delete_music_list::Handler::start(delete_music_list::Request { id: 4, user_id: 8 });
    h.on_event(delete_music_list::Event::TxBegun(Ok(())));
    h.on_event(delete_music_list::Event::OwnerId(Ok(8)));
    h.on_event(delete_music_list::Event::Deleted(Ok(())));
    assert!(matches!(
        h.on_event(delete_music_list::Event::Committed(Err(TxError::Unknown("serialization".into())))),
        delete_music_list::Action::Finish(Err(delete_music_list::Error::TxError(_)))
    ));
}

#[test]
fn reading_entries_with_a_bad_page_size_is_refused_after_the_owner_check() {
    let (mut h, _) = read_entries::Handler::start(read_entries::Request { music_list_id: 2, cursor: None, page_size: Some(0), user_id: 6 });
    assert!(matches!(
        h.on_event(read_entries::Event::OwnerId(Ok(6))),
        read_entries::Action::Finish(Err(read_entries::Error::PageSizeOutOfRange))
    ));
    let (mut h, _) = read_entries::Handler::start(read_entries::Request {
        music_list_id: 2,
        cursor: Some(vec![5, 128]),
        page_size: Some(1000),
        user_id: 6,
    });
    match h.on_event(read_entries::Event::OwnerId(Ok(6))) {
        read_entries::Action::ReadAllMusicInfoFromMusicList { page_size, cursor, .. } => {
            assert_eq!(page_size, 1000);
            assert_eq!(cursor, vec![5, 128]);
        },
        _ => panic!("expected a page read"),
    }
}

#[test]
fn search_results_and_failures_are_passed_on() {
    let (mut h, a) = search_music_info::Handler::start(search_music_info::Request { query: "x", hits_per_page: Some(3), page: Some(2) });
    assert!(matches!(a, search_music_info::Action::SearchMusicInfo { query: "x", hits_per_page: 3, page: 2 }));
    let results = SearchResults { hits: vec![], page: 2, total_hits: 0, total_pages: 0 };
    match h.on_event(search_music_info::Event::Searched(Ok(results))) {
        search_music_info::Action::Finish(Ok(resp)) => assert_eq!(resp.results.page, 2),
        _ => panic!("expected results"),
    }
    let (mut h, _) = search_music_info::Handler::start(search_music_info::Request { query: "x", hits_per_page: None, page: None });
    assert!(matches!(
        h.on_event(search_music_info::Event::Searched(Err(SearchError::Unknown("down".into())))),
        search_music_info::Action::Finish(Err(search_music_info::Error::SearchEngineError(_)))
    ));
}
