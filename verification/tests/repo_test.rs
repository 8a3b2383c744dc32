use todos::errors::Error;
use todos::repo::{NewTodo, QueryTodos, TodosRepo, UpdateTodo};

fn create_repo() -> TodosRepo {
    TodosRepo::new()
}

#[test]
fn should_insert_new_todo() {
    let mut todos_repo = create_repo();
    let new_todo = NewTodo { text: "foo".to_string() };
    let result = todos_repo.insert(new_todo);

    let todo = result.expect("insert must succeed");

    assert!(!todo.done);
    assert_eq!(todo.text, "foo".to_string());
}

#[test]
fn todos_repo_should_query_todos() {
    let mut todos_repo = create_repo();
    todos_repo.truncate().unwrap();

    todos_repo.insert(NewTodo { text: "foo".to_string() }).unwrap();
    todos_repo.insert(NewTodo { text: "bar".to_string() }).unwrap();

    let query = QueryTodos { next: None, limit: None, text: None };
    let todos = todos_repo.query(query).unwrap();

    assert!(todos.next.is_some());
    assert_eq!(todos.items.len(), 2);

    let text: Vec<_> = todos.items.iter().map(|it| it.text.as_str()).collect();
    assert_eq!(text, vec!["bar", "foo"]);
}

#[test]
fn todos_repo_should_update_todo() {
    let mut todos_repo = create_repo();
    let todo = todos_repo.insert(NewTodo { text: "foo".to_string() }).unwrap();

    assert!(!todo.done);

    {
        let update = UpdateTodo { id: todo.id, text: None, done: Some(true) };
        let todo = todos_repo.update(update).unwrap();
        assert!(todo.done);
        assert_eq!(todo.text, "foo".to_string());
    }

    {
        let update = UpdateTodo { id: todo.id, text: Some("bar".to_string()), done: None };
        let todo = todos_repo.update(update).unwrap();
        assert!(todo.done);
        assert_eq!(todo.text, "bar".to_string());
    }
}

#[test]
fn insert_stamps_creation_and_update_alike() {
    let mut repo = create_repo();
    let todo = repo.insert(NewTodo { text: "foo".to_string() }).unwrap();
    assert_eq!(todo.created_at, todo.updated_at);
    assert!(!todo.done);
    assert!(todo.id >= 1);
}

#[test]
fn update_refreshes_updated_at_only() {
    let mut repo = create_repo();
    let todo = repo.insert(NewTodo { text: "foo".to_string() }).unwrap();
    let updated = repo
        .update(UpdateTodo { id: todo.id, text: None, done: Some(true) })
        .unwrap();
    assert_eq!(updated.text, "foo");
    assert!(updated.done);
    assert_eq!(updated.created_at, todo.created_at);
    assert!(updated.updated_at >= todo.updated_at);
}

#[test]
fn update_of_missing_id_is_not_found() {
    let mut repo = create_repo();
    repo.insert(NewTodo { text: "foo".to_string() }).unwrap();
    match repo.update(UpdateTodo { id: 999, text: None, done: Some(true) }) {
        Err(Error::RecordNotFound) => {}
        _ => panic!("expected a record-not-found error"),
    }
}

#[test]
fn find_returns_the_row_or_not_found() {
    let mut repo = create_repo();
    let a = repo.insert(NewTodo { text: "foo".to_string() }).unwrap();
    let b = repo.insert(NewTodo { text: "bar".to_string() }).unwrap();
    assert_eq!(repo.find(a.id).unwrap().text, "foo");
    assert_eq!(repo.find(b.id).unwrap().text, "bar");
    match repo.find(12345) {
        Err(Error::RecordNotFound) => {}
        _ => panic!("expected a record-not-found error"),
    }
}

#[test]
fn query_filters_by_substring() {
    let mut repo = create_repo();
    repo.insert(NewTodo { text: "hello world".to_string() }).unwrap();
    repo.insert(NewTodo { text: "bye".to_string() }).unwrap();
    repo.insert(NewTodo { text: "the world is round".to_string() }).unwrap();

    let page = repo
        .query(QueryTodos { next: None, limit: None, text: Some("world".to_string()) })
        .unwrap();
    let texts: Vec<_> = page.items.iter().map(|it| it.text.as_str()).collect();
    assert_eq!(texts, vec!["the world is round", "hello world"]);

    let none = repo
        .query(QueryTodos { next: None, limit: None, text: Some("moon".to_string()) })
        .unwrap();
    assert!(none.items.is_empty());
    assert!(none.next.is_none());
}
