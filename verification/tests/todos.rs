use todo_backend::domains::todo::graphql::{TodoMutation, TodoQuery};
use todo_backend::domains::todo::models::{CreateTodo, CreateTodoFolder, FolderStatus, Todo, TodoStatus};
use todo_backend::domains::todo::service::TodoService;
use todo_backend::graphql::query::QueryRoot as HealthRoot;
use todo_backend::utils::authuser::AuthUser;

fn a_todo() -> Todo {
    Todo {
        id: 1,
        user_id: 2,
        folder_id: None,
        title: "run".to_string(),
        streak: 3,
        last_completed: Some(738_000),
        streak_required: 10,
        created_at: chrono::DateTime::from_timestamp(0, 0).unwrap().naive_utc(),
        status: TodoStatus::Open,
    }
}

#[test]
fn health_is_ok() {
    assert_eq!(HealthRoot.health(), "OK");
}

#[test]
fn my_todos_needs_a_user() {
    let q = TodoQuery;
    assert_eq!(q.my_todos_owner(Some(&AuthUser { id: 5 })).ok(), Some(5));
    assert_eq!(q.my_todos_owner(None).err().unwrap().message, "Unauthorized");
}

#[test]
fn create_todo_row() {
    let m = TodoMutation;
    let input = CreateTodo { title: "swim".to_string(), folder_id: Some(9), streak_required: 21 };
    let row = m.create_todo(Some(&AuthUser { id: 5 }), input).ok().unwrap();
    assert_eq!(row.user_id, 5);
    assert_eq!(row.title, "swim");
    assert_eq!(row.streak_required, 21);
    assert_eq!(row.streak, 0);
    assert_eq!(uuid::Uuid::from_u128(row.id).get_version_num(), 4);
}

#[test]
fn create_todo_needs_login() {
    let m = TodoMutation;
    let input = CreateTodo { title: "swim".to_string(), folder_id: None, streak_required: 21 };
    assert_eq!(m.create_todo(None, input).err().unwrap().message, "Unauthorized: Please log in");
}

#[test]
fn mark_completed_answers() {
    let m = TodoMutation;
    assert_eq!(m.acting_user(None).err().unwrap().message, "Unauthorized");
    assert_eq!(m.acting_user(Some(&AuthUser { id: 4 })).ok(), Some(4));
    assert_eq!(m.mark_completed(Some(a_todo())).ok().unwrap().title, "run");
    assert_eq!(m.mark_completed(None).err().unwrap().message, "Todo not found or authorized");
}

#[test]
fn delete_todo_answers() {
    let m = TodoMutation;
    assert_eq!(m.delete_todo(1).ok(), Some(true));
    assert_eq!(m.delete_todo(3).ok(), Some(true));
    assert_eq!(m.delete_todo(0).err().unwrap().message, "Todo not found or authorized");
}

#[test]
fn service_rows() {
    let f = TodoService::folder_row(3, CreateTodoFolder { name: "gym".to_string(), status: FolderStatus::Archived });
    assert_eq!((f.user_id, f.name.as_str()), (3, "gym"));
    let t = TodoService::todo_row(3, CreateTodo { title: "lift".to_string(), folder_id: Some(8), streak_required: 5 });
    assert_eq!((t.user_id, t.folder_id, t.title.as_str(), t.streak_required), (3, Some(8), "lift", 5));
}
