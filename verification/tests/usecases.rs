use tml::app_trait::tx_context::IsolationLevel;
use tml::domain::{music_info_music_list, music_list, user};
use tml::time::Timestamp;
use tml::usecase::app::{
    add_music_info_to_music_list as add, change_music_info_order_in_music_list as reorder,
    delete_music_list, search_music_info, update_music_list,
};
use tml::usecase::auth::login;
use tml::usecase::mgmt::create_job;

fn account(enabled: bool) -> user::Model {
    user::Model {
        id: 42,
        username: "alice".to_string(),
        password_hash: "$argon2id$hash".to_string(),
        enabled,
        created_at: Timestamp { seconds: 1_700_000_000, nanos: 0 },
        security_stamp: 0xfeed,
    }
}

#[test]
fn add_appends_after_the_last_entry_for_the_owner() {
    let id = [7u8; 16];
    let (mut h, a) = add::Handler::start(add::Request { music_list_id: 3, music_info_id: &id, user_id: 9 });
    assert!(matches!(a, add::Action::GetMusicListOwnerId { music_list_id: 3 }));
    let ev = add::Event::OwnerId(Ok(9));
    assert!(h.accepts(&ev));
    assert!(matches!(h.on_event(ev), add::Action::GetLastOrder { music_list_id: 3 }));
    let a = h.on_event(add::Event::LastOrder(Ok(vec![128])));
    match a {
        add::Action::AddMusicInfoToMusicList { music_list_id, music_info_id, order } => {
            assert_eq!(music_list_id, 3);
            assert_eq!(music_info_id, &id);
            assert_eq!(order, vec![129, 128]);
        },
        _ => panic!("expected an insert"),
    }
    let entry = music_info_music_list::Model { music_list_id: 3, music_info_id: id.to_vec(), order: vec![129, 128] };
    match h.on_event(add::Event::Added(Ok(entry))) {
        add::Action::Finish(Ok(resp)) => assert_eq!(resp.order, vec![129, 128]),
        _ => panic!("expected success"),
    }
}

#[test]
fn add_to_an_empty_list_uses_the_initial_position() {
    let id = [1u8; 16];
    let (mut h, _) = add::Handler::start(add::Request { music_list_id: 3, music_info_id: &id, user_id: 9 });
    h.on_event(add::Event::OwnerId(Ok(9)));
    match h.on_event(add::Event::LastOrder(Ok(vec![]))) {
        add::Action::AddMusicInfoToMusicList { order, .. } => assert_eq!(order, vec![128]),
        _ => panic!("expected an insert"),
    }
}

#[test]
fn add_to_someone_elses_list_is_denied() {
    let id = [1u8; 16];
    let (mut h, _) = add::Handler::start(add::Request { music_list_id: 3, music_info_id: &id, user_id: 9 });
    assert!(matches!(h.on_event(add::Event::OwnerId(Ok(10))), add::Action::Finish(Err(add::Error::PermissionDenied))));
    assert!(!h.accepts(&add::Event::LastOrder(Ok(vec![]))));
}

#[test]
fn add_after_a_corrupt_last_position_reports_the_decoder_message() {
    let id = [1u8; 16];
    let (mut h, _) = add::Handler::start(add::Request { music_list_id: 3, music_info_id: &id, user_id: 9 });
    h.on_event(add::Event::OwnerId(Ok(9)));
    match h.on_event(add::Event::LastOrder(Ok(vec![5]))) {
        add::Action::Finish(Err(add::Error::DecodeError(m))) => {
            assert_eq!(m, "Attempted to decode a corrupt fractional index (missing terminator).")
        },
        _ => panic!("expected a decode error"),
    }
}

#[test]
fn add_passes_repository_errors_through() {
    let id = [1u8; 16];
    let (mut h, _) = add::Handler::start(add::Request { music_list_id: 3, music_info_id: &id, user_id: 9 });
    let a = h.on_event(add::Event::OwnerId(Err(add::repository::Error::MusicListNotFound)));
    assert!(matches!(
        a,
        add::Action::Finish(Err(add::Error::RepositoryError(add::repository::Error::MusicListNotFound)))
    ));
}

#[test]
fn reorder_moves_between_neighbours_inside_a_transaction() {
    let id = [2u8; 16];
    let prev = [3u8; 16];
    let (mut h, a) = reorder::Handler::start(reorder::Request {
        music_list_id: 5,
        music_info_id: &id,
        prev_music_info_id: Some(&prev),
        user_id: 1,
    });
    assert!(matches!(a, reorder::Action::BeginTx { isolation_level: Some(IsolationLevel::ReadCommitted), access_mode: None }));
    assert!(matches!(h.on_event(reorder::Event::TxBegun(Ok(()))), reorder::Action::GetMusicListOwnerId { music_list_id: 5 }));
    match h.on_event(reorder::Event::OwnerId(Ok(1))) {
        reorder::Action::GetPrevAndNextOrder { music_list_id, prev_music_info_id } => {
            assert_eq!(music_list_id, 5);
            assert_eq!(prev_music_info_id, Some(&prev[..]));
        },
        _ => panic!("expected a neighbour read"),
    }
    let ev = reorder::Event::PrevAndNextOrder(Ok((Some(vec![128]), Some(vec![129, 128]))));
    assert!(h.accepts(&ev));
    match h.on_event(ev) {
        reorder::Action::UpdateOrder { new_order, music_list_id, .. } => {
            assert_eq!(music_list_id, 5);
            assert_eq!(new_order, vec![129, 127, 128]);
        },
        _ => panic!("expected an update"),
    }
    assert!(matches!(h.on_event(reorder::Event::OrderUpdated(Ok(()))), reorder::Action::Commit));
    match h.on_event(reorder::Event::Committed(Ok(()))) {
        reorder::Action::Finish(Ok(resp)) => assert_eq!(resp.new_order, vec![129, 127, 128]),
        _ => panic!("expected success"),
    }
}

#[test]
fn reorder_between_equal_neighbours_is_invalid() {
    let id = [2u8; 16];
    let (mut h, _) = reorder::Handler::start(reorder::Request {
        music_list_id: 5,
        music_info_id: &id,
        prev_music_info_id: None,
        user_id: 1,
    });
    h.on_event(reorder::Event::TxBegun(Ok(())));
    h.on_event(reorder::Event::OwnerId(Ok(1)));
    let a = h.on_event(reorder::Event::PrevAndNextOrder(Ok((Some(vec![128]), Some(vec![128])))));
    assert!(matches!(a, reorder::Action::Finish(Err(reorder::Error::InvalidReorder))));
}

#[test]
fn reorder_refuses_neighbours_that_would_overflow() {
    let id = [2u8; 16];
    let (mut h, _) = reorder::Handler::start(reorder::Request {
        music_list_id: 5,
        music_info_id: &id,
        prev_music_info_id: None,
        user_id: 1,
    });
    h.on_event(reorder::Event::TxBegun(Ok(())));
    h.on_event(reorder::Event::OwnerId(Ok(1)));
    let ev = reorder::Event::PrevAndNextOrder(Ok((Some(vec![0, 5, 128]), Some(vec![0, 6, 128]))));
    assert!(!h.accepts(&ev));
}

#[test]
fn reorder_by_a_stranger_is_denied() {
    let id = [2u8; 16];
    let (mut h, _) = reorder::Handler::start(reorder::Request {
        music_list_id: 5,
        music_info_id: &id,
        prev_music_info_id: None,
        user_id: 1,
    });
    h.on_event(reorder::Event::TxBegun(Ok(())));
    assert!(matches!(h.on_event(reorder::Event::OwnerId(Ok(2))), reorder::Action::Finish(Err(reorder::Error::PermissionDenied))));
}

#[test]
fn login_issues_a_token_for_an_enabled_account() {
    let (mut h, a) = login::Handler::start(login::Request { username: "alice", password: "secret" });
    assert!(matches!(a, login::Action::FindUserByUsername { username: "alice" }));
    match h.on_event(login::Event::UserFound(Ok((account(true), vec!["admin".to_string()])))) {
        login::Action::VerifyPassword { password_input, stored_hash_string } => {
            assert_eq!(password_input, "secret");
            assert_eq!(stored_hash_string, "$argon2id$hash");
        },
        _ => panic!("expected a password check"),
    }
    match h.on_event(login::Event::PasswordVerified(Ok(()))) {
        login::Action::CreateToken { claims } => {
            assert_eq!(claims.sub, 42);
            assert_eq!(claims.roles, vec!["admin".to_string()]);
            assert_eq!(claims.security_stamp, 0xfeed);
        },
        _ => panic!("expected a token"),
    }
    match h.on_event(login::Event::TokenCreated(Ok("jwt".to_string()))) {
        login::Action::Finish(Ok(resp)) => assert_eq!(resp.token, Some("jwt".to_string())),
        _ => panic!("expected success"),
    }
}

#[test]
fn login_to_a_disabled_account_is_refused() {
    let (mut h, _) = login::Handler::start(login::Request { username: "alice", password: "secret" });
    let a = h.on_event(login::Event::UserFound(Ok((account(false), vec![]))));
    assert!(matches!(a, login::Action::Finish(Err(login::Error::UserDisabled))));
    assert!(!h.accepts(&login::Event::PasswordVerified(Ok(()))));
}

#[test]
fn login_with_a_wrong_password_is_refused() {
    let (mut h, _) = login::Handler::start(login::Request { username: "alice", password: "nope" });
    h.on_event(login::Event::UserFound(Ok((account(true), vec![]))));
    let a = h.on_event(login::Event::PasswordVerified(Err(tml::app_trait::password_hasher::Error::InvalidPassword)));
    assert!(matches!(a, login::Action::Finish(Err(login::Error::PasswordHasherError(_)))));
}

#[test]
fn delete_checks_ownership_then_commits() {
    let (mut h, _) = delete_music_list::Handler::start(delete_music_list::Request { id: 4, user_id: 8 });
    h.on_event(delete_music_list::Event::TxBegun(Ok(())));
    assert!(matches!(
        h.on_event(delete_music_list::Event::OwnerId(Ok(8))),
        delete_music_list::Action::DeleteMusicList { id: 4 }
    ));
    assert!(matches!(h.on_event(delete_music_list::Event::Deleted(Ok(()))), delete_music_list::Action::Commit));
    assert!(matches!(h.on_event(delete_music_list::Event::Committed(Ok(()))), delete_music_list::Action::Finish(Ok(()))));

    let (mut h, _) = delete_music_list::Handler::start(delete_music_list::Request { id: 4, user_id: 8 });
    h.on_event(delete_music_list::Event::TxBegun(Ok(())));
    assert!(matches!(
        h.on_event(delete_music_list::Event::OwnerId(Ok(9))),
        delete_music_list::Action::Finish(Err(delete_music_list::Error::PermissionDenied))
    ));
}

#[test]
fn renaming_validates_the_name_before_anything_else() {
    let (_, a) = update_music_list::Handler::start(update_music_list::Request { id: 1, name: "", user_id: 2 });
    assert!(matches!(
        a,
        update_music_list::Action::Finish(Err(update_music_list::Error::ValidationError(
            update_music_list::validation::Error::NameEmpty
        )))
    ));
    let (mut h, a) = update_music_list::Handler::start(update_music_list::Request { id: 1, name: "Road trip", user_id: 2 });
    assert!(matches!(a, update_music_list::Action::BeginTx { .. }));
    h.on_event(update_music_list::Event::TxBegun(Ok(())));
    match h.on_event(update_music_list::Event::OwnerId(Ok(2))) {
        update_music_list::Action::UpdateMusicList { id, name } => {
            assert_eq!(id, 1);
            assert_eq!(name, "Road trip");
        },
        _ => panic!("expected an update"),
    }
    let row = music_list::Model { id: 1, name: "Road trip".to_string(), user_id: 2 };
    assert!(matches!(h.on_event(update_music_list::Event::Updated(Ok(row))), update_music_list::Action::Commit));
}

#[test]
fn search_defaults_to_the_first_page_of_ten() {
    let (_, a) = search_music_info::Handler::start(search_music_info::Request { query: "bach", hits_per_page: None, page: None });
    match a {
        search_music_info::Action::SearchMusicInfo { query, hits_per_page, page } => {
            assert_eq!(query, "bach");
            assert_eq!(hits_per_page, 10);
            assert_eq!(page, 1);
        },
        _ => panic!("expected a search"),
    }
}

#[test]
fn creating_a_job_stores_it_then_spawns_it() {
    let mut fields = serde_json::Map::new();
    fields.insert("storage_id".to_string(), serde_json::Value::from(3));
    let args = serde_json::Value::Object(fields);
    let ty = tml::domain::job::JobType::ScanIncremental;
    let (mut h, a) = create_job::Handler::start(create_job::Request {
        job_type: &ty,
        job_args: &args,
        description: "scan",
        created_by_id: 1,
    });
    assert!(matches!(a, create_job::Action::CreateJob { description: "scan", created_by_id: 1, .. }));
    let job = tml::domain::job::Model {
        id: 77,
        job_type: ty,
        job_args: args.clone(),
        status: tml::domain::job::JobStatus::WaitingStart,
        description: "scan".to_string(),
        error_message: String::new(),
        success: false,
        created_by_id: 1,
        created_at: Timestamp { seconds: 0, nanos: 0 },
        completed_at: None,
    };
    assert!(matches!(
        h.on_event(create_job::Event::JobCreated(Ok(job))),
        create_job::Action::SpawnJob { kind: tml::domain::job::JobType::ScanIncremental }
    ));
    match h.on_event(create_job::Event::JobSpawned) {
        create_job::Action::Finish(Ok(resp)) => assert_eq!(resp.id, 77),
        _ => panic!("expected success"),
    }
}
