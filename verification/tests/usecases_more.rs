use tml::console_usecase::{init_admin, reset_password};
use tml::domain::job::{JobStatus, JobType, Model as Job};
use tml::domain::{music_info, music_info_music_list, music_list, user};
use tml::time::Timestamp;
use tml::usecase::app::{read_all_music_info_from_music_list as read_entries, read_all_music_list};
use tml::usecase::auth::register;
use tml::usecase::mgmt::{read_all_job, update_normal_user};

fn account() -> user::Model {
    user::Model {
        id: 1,
        username: "root".to_string(),
        password_hash: "h".to_string(),
        enabled: true,
        created_at: Timestamp { seconds: 5, nanos: 0 },
        security_stamp: 3,
    }
}

#[test]
fn the_first_admin_is_created_only_when_there_is_none() {
    assert!(init_admin::repository::no_admin_from_count(0));
    assert!(!init_admin::repository::no_admin_from_count(2));

    let (mut h, a) = init_admin::Handler::start(init_admin::Request { username: "root".into(), password: "pw123456".into() });
    assert!(matches!(a, init_admin::Action::IsNoAdmin));
    assert!(matches!(h.on_event(init_admin::Event::NoAdmin(Ok(true))), init_admin::Action::HashPassword { ref password } if password == "pw123456"));
    match h.on_event(init_admin::Event::PasswordHashed(Ok("hash".into()))) {
        init_admin::Action::CreateAdmin { username, password_hash } => {
            assert_eq!(username, "root");
            assert_eq!(password_hash, "hash");
        },
        _ => panic!("expected the admin to be created"),
    }
    assert!(matches!(h.on_event(init_admin::Event::AdminCreated(Ok(account()))), init_admin::Action::Finish(Ok(()))));

    let (mut h, _) = init_admin::Handler::start(init_admin::Request { username: "root".into(), password: "pw".into() });
    assert!(matches!(
        h.on_event(init_admin::Event::NoAdmin(Ok(false))),
        init_admin::Action::Finish(Err(init_admin::Error::HadAdminError))
    ));
}

#[test]
fn a_password_reset_hashes_then_stores() {
    let (mut h, a) = reset_password::Handler::start(reset_password::Request { username: "bob".into(), password: "new-pass".into() });
    assert!(matches!(a, reset_password::Action::HashPassword { ref password } if password == "new-pass"));
    match h.on_event(reset_password::Event::PasswordHashed(Ok("hh".into()))) {
        reset_password::Action::SetPasswordHash { username, password_hash } => {
            assert_eq!((username.as_str(), password_hash.as_str()), ("bob", "hh"));
        },
        _ => panic!("expected the hash to be stored"),
    }
    assert!(matches!(
        h.on_event(reset_password::Event::PasswordHashSet(Err(reset_password::repository::Error::UserNotFound))),
        reset_password::Action::Finish(Err(reset_password::Error::RepositoryError(reset_password::repository::Error::UserNotFound)))
    ));
}

#[test]
fn registering_reports_the_new_id() {
    let (mut h, _) = register::Handler::start(register::Request { username: "c".into(), password: "secret1".into() });
    assert!(matches!(h.on_event(register::Event::PasswordHashed(Ok("x".into()))), register::Action::CreateUser { .. }));
    let mut u = account();
    u.id = 31;
    match h.on_event(register::Event::UserCreated(Ok(u))) {
        register::Action::Finish(Ok(resp)) => {
            assert!(resp.success);
            assert_eq!(resp.message, None);
            assert_eq!(resp.id, 31);
        },
        _ => panic!("expected success"),
    }
}

#[test]
fn a_user_update_hashes_a_new_password_first() {
    let (mut h, a) = update_normal_user::Handler::start(update_normal_user::Request {
        id: 3,
        username: Some("carol"),
        password: Some("longenough"),
        enabled: None,
    });
    assert!(matches!(a, update_normal_user::Action::HashPassword { password: "longenough" }));
    match h.on_event(update_normal_user::Event::PasswordHashed(Ok("H".into()))) {
        update_normal_user::Action::UpdateNormalUser { id, username, password_hash, enabled } => {
            assert_eq!((id, username, password_hash.as_deref(), enabled), (3, Some("carol"), Some("H"), None));
        },
        _ => panic!("expected an update"),
    }

    let (_, a) = update_normal_user::Handler::start(update_normal_user::Request { id: 3, username: None, password: None, enabled: Some(true) });
    assert!(matches!(a, update_normal_user::Action::UpdateNormalUser { id: 3, username: None, password_hash: None, enabled: Some(true) }));

    let (_, a) = update_normal_user::Handler::start(update_normal_user::Request { id: 3, username: None, password: Some("123"), enabled: None });
    assert!(matches!(
        a,
        update_normal_user::Action::Finish(Err(update_normal_user::Error::ValidationError(
            update_normal_user::validation::Error::PasswordTooShort
        )))
    ));
}

#[test]
fn music_lists_page_from_the_newest_by_default() {
    let (_, a) = read_all_music_list::Handler::start(read_all_music_list::Request { cursor: None, page_size: None, user_id: 4 });
    assert!(matches!(a, read_all_music_list::Action::ReadAllMusicList { page_size: 10, cursor: i64::MAX, user_id: 4 }));
    let (_, a) = read_all_music_list::Handler::start(read_all_music_list::Request { cursor: Some(9), page_size: Some(0), user_id: 4 });
    assert!(matches!(a, read_all_music_list::Action::Finish(Err(read_all_music_list::Error::PageSizeOutOfRange))));

    let rows = vec![
        music_list::Model { id: 8, name: "b".into(), user_id: 4 },
        music_list::Model { id: 5, name: "a".into(), user_id: 4 },
    ];
    let resp = read_all_music_list::build_response(rows);
    assert_eq!(resp.items.iter().map(|i| i.id).collect::<Vec<_>>(), vec![8, 5]);
    assert_eq!(resp.items[1].name, "a");
    assert_eq!(resp.next_cursor, Some(5));
    assert_eq!(read_all_music_list::build_response(vec![]).next_cursor, None);
}

fn row(order: u8, title: &str) -> (music_info_music_list::Model, music_info::Model) {
    (
        music_info_music_list::Model { music_list_id: 2, music_info_id: vec![order], order: vec![order, 128] },
        music_info::Model {
            id: vec![order],
            artists: vec!["A".into()],
            album_title: "Al".into(),
            title: title.into(),
            track_number: 1,
            audio_bitrate: 320,
            sample_rate: 44100,
            channels: 2,
            bit_depth: 16,
            storage_id: 1,
            file_path: format!("{}.flac", title),
        },
    )
}

#[test]
fn list_entries_are_read_for_the_owner_a_page_at_a_time() {
    let (mut h, _) = read_entries::Handler::start(read_entries::Request { music_list_id: 2, cursor: None, page_size: Some(2), user_id: 6 });
    match h.on_event(read_entries::Event::OwnerId(Ok(6))) {
        read_entries::Action::ReadAllMusicInfoFromMusicList { music_list_id, page_size, cursor } => {
            assert_eq!((music_list_id, page_size), (2, 2));
            assert!(cursor.is_empty());
        },
        _ => panic!("expected a page read"),
    }
    match h.on_event(read_entries::Event::Page(Ok(vec![row(1, "x"), row(2, "y"), row(3, "z")]))) {
        read_entries::Action::Finish(Ok(resp)) => {
            assert_eq!(resp.items.len(), 2);
            assert_eq!(resp.items[1].title, "y");
            assert_eq!(resp.items[1].file_path, "y.flac");
            assert_eq!(resp.next_cursor, Some(vec![2, 128]));
        },
        _ => panic!("expected a page"),
    }

    let (mut h, _) = read_entries::Handler::start(read_entries::Request { music_list_id: 2, cursor: None, page_size: None, user_id: 6 });
    assert!(matches!(h.on_event(read_entries::Event::OwnerId(Ok(7))), read_entries::Action::Finish(Err(read_entries::Error::PermissionDenied))));
}

fn job(id: i64, at: i64) -> Job {
    Job {
        id,
        job_type: JobType::BuildIndex,
        job_args: serde_json::Value::Null,
        status: JobStatus::Completed,
        description: String::new(),
        error_message: String::new(),
        success: true,
        created_by_id: 1,
        created_at: Timestamp { seconds: at, nanos: 0 },
        completed_at: None,
    }
}

#[test]
fn jobs_are_read_inside_a_window_narrowed_by_the_cursor() {
    let (_, a) = read_all_job::Handler::start(read_all_job::Request { cursor: None, page_size: 20, created_after: None, created_before: None });
    match a {
        read_all_job::Action::ReadAllJob { page_size, created_after, created_before } => {
            assert_eq!(page_size, 20);
            assert_eq!(created_after, Timestamp { seconds: 0, nanos: 0 });
            assert_eq!(created_before, Timestamp { seconds: 253402300799, nanos: 0 });
        },
        _ => panic!("expected a page read"),
    }
    let cursor = Timestamp { seconds: 100, nanos: 0 };
    let (_, a) = read_all_job::Handler::start(read_all_job::Request {
        cursor: Some(cursor),
        page_size: 20,
        created_after: None,
        created_before: Some(Timestamp { seconds: 200, nanos: 0 }),
    });
    assert!(matches!(a, read_all_job::Action::ReadAllJob { created_before, .. } if created_before == cursor));

    let (_, a) = read_all_job::Handler::start(read_all_job::Request { cursor: None, page_size: 1001, created_after: None, created_before: None });
    assert!(matches!(a, read_all_job::Action::Finish(Err(read_all_job::Error::PageSizeOutOfRange))));
    let (_, a) = read_all_job::Handler::start(read_all_job::Request {
        cursor: Some(Timestamp { seconds: 10, nanos: 0 }),
        page_size: 5,
        created_after: Some(Timestamp { seconds: 10, nanos: 0 }),
        created_before: None,
    });
    assert!(matches!(a, read_all_job::Action::Finish(Err(read_all_job::Error::DateTimeOutOfRange))));

    let resp = read_all_job::build_response(vec![job(3, 50), job(2, 40)]);
    assert_eq!(resp.items.iter().map(|j| j.id).collect::<Vec<_>>(), vec![3, 2]);
    assert_eq!(resp.next_cursor, Some(Timestamp { seconds: 40, nanos: 0 }));
}
