use user_repo::repository::{user_repo_factory, ConcreteUserRepository, UserRepository};
use user_repo::service::RegisterUserApplicatioService;
use user_repo::user::{User, UserData};

fn user(email: &str, username: &str) -> User {
    User::new(String::from(email), String::from(username))
}

#[test]
fn new_keeps_both_fields() {
    let u = user("test1@mail.com", "test1");
    assert_eq!(u.email, "test1@mail.com");
    assert_eq!(u.username, "test1");
}

#[test]
fn new_accepts_empty_strings() {
    let u = user("", "");
    assert_eq!(u.email, "");
    assert_eq!(u.username, "");
}

#[test]
fn clone_is_equal_by_value() {
    let u = user("test1@mail.com", "test1");
    let c = u.clone();
    assert_eq!(c.email, u.email);
    assert_eq!(c.username, u.username);
}

#[test]
fn fresh_repository_is_empty() {
    let repo = ConcreteUserRepository::new();
    assert!(repo.get_all().is_empty());
    assert!(repo.find_by_email(String::from("test1@mail.com")).is_none());
}

#[test]
fn factory_repository_is_empty() {
    let repo = user_repo_factory();
    assert!(repo.get_all().is_empty());
}

#[test]
fn find_returns_saved_copy() {
    let mut repo = user_repo_factory();
    repo.save(user("test1@mail.com", "test1"));
    repo.save(user("test2@mail.com", "test2"));
    let found = repo.find_by_email(String::from("test2@mail.com")).unwrap();
    assert_eq!(found.email, "test2@mail.com");
    assert_eq!(found.username, "test2");
}

#[test]
fn find_unsaved_email_returns_none() {
    let mut repo = user_repo_factory();
    repo.save(user("test1@mail.com", "test1"));
    assert!(repo.find_by_email(String::from("absent@mail.com")).is_none());
}

#[test]
fn get_all_is_complete_and_in_insertion_order() {
    let mut repo = user_repo_factory();
    repo.save(user("test1@mail.com", "test1"));
    repo.save(user("test2@mail.com", "test2"));
    repo.save(user("test3@mail.com", "test3"));
    let all = repo.get_all();
    assert_eq!(all.len(), 3);
    assert_eq!(all[0].email, "test1@mail.com");
    assert_eq!(all[1].email, "test2@mail.com");
    assert_eq!(all[2].email, "test3@mail.com");
    assert_eq!(all[0].username, "test1");
    assert_eq!(all[1].username, "test2");
    assert_eq!(all[2].username, "test3");
}

#[test]
fn same_username_under_two_emails_is_allowed() {
    let mut repo = user_repo_factory();
    repo.save(user("test1@mail.com", "shared"));
    repo.save(user("test2@mail.com", "shared"));
    assert_eq!(repo.get_all().len(), 2);
}

#[test]
fn mutating_a_found_copy_leaves_the_store_unchanged() {
    let mut repo = user_repo_factory();
    repo.save(user("test1@mail.com", "test1"));
    let mut found = repo.find_by_email(String::from("test1@mail.com")).unwrap();
    found.username = String::from("changed");
    found.email = String::from("changed@mail.com");
    let again = repo.find_by_email(String::from("test1@mail.com")).unwrap();
    assert_eq!(again.email, "test1@mail.com");
    assert_eq!(again.username, "test1");
    assert!(repo.find_by_email(String::from("changed@mail.com")).is_none());
}

#[test]
fn mutating_a_listed_copy_leaves_the_store_unchanged() {
    let mut repo = user_repo_factory();
    repo.save(user("test1@mail.com", "test1"));
    let mut all = repo.get_all();
    all[0].username = String::from("changed");
    all.clear();
    let all_again = repo.get_all();
    assert_eq!(all_again.len(), 1);
    assert_eq!(all_again[0].username, "test1");
}

#[test]
fn service_rejects_a_duplicate_email_and_keeps_the_size() {
    let mut repo = user_repo_factory();
    repo.save(user("test1@mail.com", "test1"));
    let mut service = RegisterUserApplicatioService::new(repo);
    let r = service.execute(UserData {
        email: String::from("test1@mail.com"),
        username: String::from("another"),
    });
    assert_eq!(r, Err("User already exist"));
    let all = service.user_repo.get_all();
    assert_eq!(all.len(), 1);
    assert_eq!(all[0].username, "test1");
}

#[test]
fn service_registers_a_fourth_user_after_three_saves() {
    let mut repo = user_repo_factory();
    repo.save(user("test1@mail.com", "test1"));
    repo.save(user("test2@mail.com", "test2"));
    repo.save(user("test3@mail.com", "test3"));
    let mut service = RegisterUserApplicatioService::new(repo);
    let r = service.execute(UserData {
        email: String::from("test4@mail.com"),
        username: String::from("test4"),
    });
    assert_eq!(r, Ok(true));
    let all = service.user_repo.get_all();
    assert_eq!(all.len(), 4);
    for (i, u) in all.iter().enumerate() {
        assert_eq!(u.email, format!("test{}@mail.com", i + 1));
        assert_eq!(u.username, format!("test{}", i + 1));
    }
}

#[test]
fn service_registers_into_an_empty_repository() {
    let repo = user_repo_factory();
    let mut service = RegisterUserApplicatioService::new(repo);
    let r = service.execute(UserData {
        email: String::from("test1@mail.com"),
        username: String::from("test1"),
    });
    assert_eq!(r, Ok(true));
    let found = service
        .user_repo
        .find_by_email(String::from("test1@mail.com"))
        .unwrap();
    assert_eq!(found.username, "test1");
}
