use axum_todo::error::AppError;
use axum_todo::modules::category::dto::{CategoryCreateDto, CategoryItemResponse, CategoryUpdateDto};
use axum_todo::modules::category::entities::CategoryRecord;
use axum_todo::modules::category::repository::CategoryRepository;
use axum_todo::modules::category::service::CategoryService;
use axum_todo::modules::todo::dto::{TodoCreateDto, TodoItemResponse, TodoUpdateDto};
use axum_todo::modules::todo::entities::TodoRecord;
use axum_todo::modules::todo::repository::TodosRepository;
use axum_todo::modules::todo::service::TodosService;
use axum_todo::modules::user::dto::{UserCreateDto, UserItemResponse, UserItemWithPassword, UserUpdateDto};
use axum_todo::modules::user::entities::UserRecord;
use axum_todo::modules::user::password::verify_passwrod;
use axum_todo::modules::user::repository::UserRepository;
use axum_todo::modules::user::service::UserService;

fn s(x: &str) -> String {
    String::from(x)
}

const OWNER: u128 = 42;

fn todo(id: i32, title: &str, completed: bool) -> TodoRecord {
    TodoRecord {
        id,
        title: s(title),
        completed,
        user_id: OWNER,
        category_id: Some(7),
        created_at: s("2026-08-01 10:00:00"),
    }
}

#[test]
fn new_todo_belongs_to_the_caller_and_is_open_by_default() {
    let open = TodosRepository::create(OWNER, TodoCreateDto { title: s("Buy milk"), completed: None });
    assert_eq!((open.title.as_str(), open.completed, open.user_id), ("Buy milk", false, OWNER));
    let done = TodosRepository::create(OWNER, TodoCreateDto { title: s("Done"), completed: Some(true) });
    assert!(done.completed);
}

#[test]
fn todo_update_changes_only_given_fields() {
    let updated = TodosRepository::update(OWNER, Some(todo(1, "Buy milk", false)), TodoUpdateDto { title: None, completed: Some(true) });
    assert_eq!(updated, Ok(todo(1, "Buy milk", true)));
    let renamed = TodosRepository::update(OWNER, Some(todo(1, "Buy milk", false)), TodoUpdateDto { title: Some(s("Buy bread")), completed: None });
    assert_eq!(renamed, Ok(todo(1, "Buy bread", false)));
    let unchanged = TodosRepository::update(OWNER, Some(todo(1, "Buy milk", false)), TodoUpdateDto { title: None, completed: None });
    assert_eq!(unchanged, Ok(todo(1, "Buy milk", false)));
}

#[test]
fn todo_update_twice_is_update_once() {
    let dto = TodoUpdateDto { title: Some(s("X")), completed: Some(true) };
    let once = TodosRepository::update(OWNER, Some(todo(3, "A", false)), dto.clone()).unwrap();
    let twice = TodosRepository::update(OWNER, Some(once.clone()), dto).unwrap();
    assert_eq!(once, twice);
}

#[test]
fn missing_todo_is_not_found() {
    assert_eq!(
        TodosRepository::update(OWNER, None, TodoUpdateDto { title: None, completed: None }),
        Err(AppError::NotFound(s("User not found!")))
    );
    assert_eq!(TodosService::find_one(OWNER, None), Err(AppError::NotFound(s("Todo not found!"))));
}

#[test]
fn todo_answers_hide_owner_and_category() {
    let expected = TodoItemResponse { id: 1, title: s("Buy milk"), completed: false, created_at: s("2026-08-01 10:00:00") };
    assert_eq!(TodoItemResponse::from(todo(1, "Buy milk", false)), expected);
    assert_eq!(TodosService::find_one(OWNER, Some(todo(1, "Buy milk", false))), Ok(expected.clone()));
    assert_eq!(TodosService::create(todo(1, "Buy milk", false)), expected.clone());
    assert_eq!(TodosService::update(todo(1, "Buy milk", false)), expected.clone());
    let list = TodosService::find(OWNER, vec![todo(1, "Buy milk", false), todo(2, "Walk", true)]);
    assert_eq!(list.len(), 2);
    assert_eq!(list[0], expected);
    assert_eq!(list[1].title, "Walk");
    assert!(TodosService::find(OWNER, Vec::new()).is_empty());
}

fn user(id: u128, name: &str) -> UserRecord {
    UserRecord { id, name: s(name), email: s("ada@example.com"), password: s("$2b$12$hash") }
}

#[test]
fn user_answers_never_carry_the_hash() {
    let expected = UserItemResponse { id: 1, name: s("Ada"), email: s("ada@example.com") };
    assert_eq!(UserService::find_one(Some(user(1, "Ada"))), Ok(expected.clone()));
    assert_eq!(UserService::create(user(1, "Ada")), expected.clone());
    assert_eq!(UserService::update(user(1, "Ada")), expected.clone());
    assert_eq!(UserService::find(vec![user(1, "Ada"), user(2, "Bo")]).len(), 2);
    assert_eq!(UserService::find_one(None), Err(AppError::NotFound(s("User not found"))));
}

#[test]
fn login_lookup_keeps_the_hash() {
    assert_eq!(
        UserService::find_by_email_with_password(Some(user(1, "Ada"))),
        Ok(UserItemWithPassword { id: 1, name: s("Ada"), email: s("ada@example.com"), password: s("$2b$12$hash") })
    );
    assert_eq!(UserService::find_by_email_with_password(None), Err(AppError::NotFound(s("User not found"))));
}

#[test]
fn user_update_renames_or_is_not_found() {
    assert_eq!(UserRepository::update(Some(user(1, "Ada")), UserUpdateDto { name: Some(s("Bo")) }), Ok(user(1, "Bo")));
    assert_eq!(UserRepository::update(Some(user(1, "Ada")), UserUpdateDto { name: None }), Ok(user(1, "Ada")));
    assert_eq!(
        UserRepository::update(None, UserUpdateDto { name: Some(s("Bo")) }),
        Err(AppError::NotFound(s("User not found!")))
    );
}

#[test]
fn new_user_stores_a_hash() {
    let dto = UserCreateDto { name: s("Ada"), email: s("ada@example.com"), password: s("password1") };
    let new_user = UserRepository::create(dto).unwrap();
    assert_eq!((new_user.name.as_str(), new_user.email.as_str()), ("Ada", "ada@example.com"));
    assert!(verify_passwrod(&new_user.password, "password1"));
    assert!(!verify_passwrod(&new_user.password, "password2"));
}

#[test]
fn categories_round_trip() {
    let created = CategoryRepository::create(CategoryCreateDto { name: s("Work") });
    assert_eq!(created.name, "Work");
    let stored = CategoryRecord { id: 9, name: s("Work") };
    assert_eq!(
        CategoryRepository::update(Some(stored.clone()), CategoryUpdateDto { name: Some(s("Home")) }),
        Ok(CategoryRecord { id: 9, name: s("Home") })
    );
    assert_eq!(CategoryRepository::update(Some(stored.clone()), CategoryUpdateDto { name: None }), Ok(stored.clone()));
    assert_eq!(
        CategoryRepository::update(None, CategoryUpdateDto { name: None }),
        Err(AppError::NotFound(s("Category not found!")))
    );
    let answer = CategoryItemResponse { id: 9, name: s("Work") };
    assert_eq!(CategoryService::find_one(Some(stored.clone())), Ok(answer.clone()));
    assert_eq!(CategoryService::find_one(None), Err(AppError::NotFound(s("Category not found"))));
    assert_eq!(CategoryService::create(stored.clone()), answer.clone());
    assert_eq!(CategoryService::update(stored.clone()), answer.clone());
    assert_eq!(CategoryService::find(vec![stored]), vec![answer]);
}

#[test]
fn another_users_todo_is_answered_as_missing() {
    let mut foreign = todo(5, "Secret", false);
    foreign.user_id = OWNER + 1;
    assert_eq!(TodosService::find_one(OWNER, Some(foreign.clone())), TodosService::find_one(OWNER, None));
    assert_eq!(
        TodosRepository::update(OWNER, Some(foreign.clone()), TodoUpdateDto { title: Some(s("Mine")), completed: None }),
        Err(AppError::NotFound(s("User not found!")))
    );
    let list = TodosService::find(OWNER, vec![todo(1, "Buy milk", false), foreign, todo(2, "Walk", true)]);
    assert_eq!(list.iter().map(|t| t.id).collect::<Vec<i32>>(), vec![1, 2]);
}
