use tml::usecase::app::update_music_list;
use tml::usecase::mgmt::{create_job, update_normal_user};
use tml::usecase::pagination::checked_page_size;
use tml::usecase::app::update_music_list::validation::Error as NameError;
use tml::usecase::mgmt::update_normal_user::validation::Error as UserError;
use tml::usecase::mgmt::create_job::validation::Error as JobError;

fn rename(name: &str) -> Result<(), update_music_list::validation::Error> {
    update_music_list::validation::validate(&update_music_list::Request { id: 1, name, user_id: 2 })
}

#[test]
fn music_list_names_must_be_one_to_fifty_chars() {
    assert_eq!(rename(""), Err(NameError::NameEmpty));
    assert_eq!(rename("My list"), Ok(()));
    assert_eq!(rename(&"a".repeat(50)), Ok(()));
    assert_eq!(rename(&"a".repeat(51)), Err(NameError::NameTooLong));
    // Counted in characters, not bytes.
    assert_eq!(rename(&"é".repeat(50)), Ok(()));
}

fn update_user(
    username: Option<&str>,
    password: Option<&str>,
    enabled: Option<bool>,
) -> Result<(), update_normal_user::validation::Error> {
    update_normal_user::validation::validate(&update_normal_user::Request {
        id: 7,
        username,
        password,
        enabled,
    })
}

#[test]
fn user_updates_need_a_field_and_sane_values() {
    assert_eq!(update_user(None, None, None), Err(UserError::NoFieldsToUpdate));
    assert_eq!(update_user(None, None, Some(false)), Ok(()));
    assert_eq!(update_user(Some(""), None, None), Err(UserError::UsernameTooShort));
    assert_eq!(update_user(Some(&"u".repeat(51)), None, None), Err(UserError::UsernameTooLong));
    assert_eq!(update_user(Some("bob"), Some("12345"), None), Err(UserError::PasswordTooShort));
    assert_eq!(update_user(Some("bob"), Some("123456"), None), Ok(()));
    // The username is checked before the password.
    assert_eq!(update_user(Some(""), Some("1"), None), Err(UserError::UsernameTooShort));
}

#[test]
fn job_descriptions_are_at_most_two_hundred_chars() {
    let args = serde_json::Value::Null;
    let ok = "d".repeat(200);
    let long = "d".repeat(201);
    let ty = tml::domain::job::JobType::BuildIndex;
    let req = |description: &str| create_job::validation::validate(&create_job::Request {
        job_type: &ty,
        job_args: &args,
        description,
        created_by_id: 1,
    });
    assert_eq!(req(&ok), Ok(()));
    assert_eq!(req(""), Ok(()));
    assert_eq!(req(&long), Err(JobError::DescriptionTooLong));
}

#[test]
fn page_sizes_default_to_ten_and_stay_within_a_thousand() {
    assert_eq!(checked_page_size(None), Some(10));
    assert_eq!(checked_page_size(Some(1)), Some(1));
    assert_eq!(checked_page_size(Some(1000)), Some(1000));
    assert_eq!(checked_page_size(Some(0)), None);
    assert_eq!(checked_page_size(Some(1001)), None);
}
