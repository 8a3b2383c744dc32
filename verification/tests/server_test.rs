use todos::http::{HttpResponse, Method, ResponseBody};
use todos::repo::{Todo, TodosRepo};
use todos::server::Server;

fn create_server() -> Server {
    Server::new(TodosRepo::new())
}

fn post(svc: &mut Server, path: &str, body: &str) -> HttpResponse {
    svc.handle(Method::Post, path, body)
}

fn get(svc: &mut Server, path: &str) -> HttpResponse {
    svc.handle(Method::Get, path, "")
}

fn item(resp: HttpResponse) -> Todo {
    match resp.body {
        ResponseBody::Item(todo) => todo,
        other => panic!("expected a todo body, got {:?}", other),
    }
}

#[test]
fn should_be_healthy() {
    let mut svc = create_server();
    let resp = get(&mut svc, "/health");

    assert_eq!(resp.status, 200);
    assert!(matches!(resp.body, ResponseBody::Health));
}

#[test]
fn should_handle_todos_create() {
    let mut svc = create_server();
    let resp = post(&mut svc, "/todos/create", r#"{"text": "foo"}"#);

    assert_eq!(resp.status, 200);

    let todo = item(resp);
    assert!(todo.id >= 1);
    assert_eq!(todo.text, "foo");
    assert!(!todo.done);
    assert!(todo.created_at >= 0);
    assert!(todo.updated_at >= 0);
}

#[test]
fn server_should_update_todo() {
    let mut svc = create_server();

    let resp = post(&mut svc, "/todos/create", r#"{"text": "foo"}"#);
    assert_eq!(resp.status, 200);

    let todo = item(resp);
    let id: i64 = todo.id;

    let resp = post(&mut svc, "/todos/update", &format!(r#"{{"id": {}, "done": true}}"#, id));
    assert_eq!(resp.status, 200);

    let todo = item(resp);
    assert_eq!(todo.id, id);
    assert_eq!(todo.text, "foo");
    assert!(todo.done);
    assert!(todo.created_at >= 0);
    assert!(todo.updated_at >= 0);
}

#[test]
fn server_should_query_todos() {
    let mut svc = create_server();

    let resp = post(&mut svc, "/todos/create", r#"{"text": "foo"}"#);
    assert_eq!(resp.status, 200);

    let resp = post(&mut svc, "/todos/query", "{}");
    assert_eq!(resp.status, 200);

    match resp.body {
        ResponseBody::Page(page) => {
            assert!(page.next.is_some());
            assert_eq!(page.items.len(), 1);
        }
        other => panic!("expected a page body, got {:?}", other),
    }
}

#[test]
fn should_handle_not_found_error() {
    let mut svc = create_server();

    let resp = post(&mut svc, "/not/found", "{}");
    assert_eq!(resp.status, 404);
    assert!(matches!(resp.body, ResponseBody::Empty));
}

#[test]
fn should_handle_json_error() {
    let mut svc = create_server();

    let resp = post(&mut svc, "/todos/create", "{}");
    assert_eq!(resp.status, 400);
    assert!(matches!(resp.body, ResponseBody::Failure { .. }));
}

#[test]
fn malformed_json_is_bad_request() {
    let mut svc = create_server();
    let resp = post(&mut svc, "/todos/create", "{not json");
    assert_eq!(resp.status, 400);
    assert!(matches!(resp.body, ResponseBody::Failure { .. }));
}

#[test]
fn invalid_text_is_precondition_failed_and_stores_nothing() {
    let mut svc = create_server();
    let resp = post(&mut svc, "/todos/create", r#"{"text": ""}"#);
    assert_eq!(resp.status, 412);
    let long = format!(r#"{{"text": "{}"}}"#, "x".repeat(256));
    let resp = post(&mut svc, "/todos/create", &long);
    assert_eq!(resp.status, 412);

    let resp = post(&mut svc, "/todos/query", "{}");
    match resp.body {
        ResponseBody::Page(page) => assert!(page.items.is_empty()),
        other => panic!("expected a page body, got {:?}", other),
    }
}

#[test]
fn nonpositive_update_id_is_precondition_failed() {
    let mut svc = create_server();
    let resp = post(&mut svc, "/todos/update", r#"{"id": 0, "done": true}"#);
    assert_eq!(resp.status, 412);
    let resp = post(&mut svc, "/todos/update", r#"{"id": -3, "done": true}"#);
    assert_eq!(resp.status, 412);
}

#[test]
fn updating_a_missing_row_is_not_found() {
    let mut svc = create_server();
    let resp = post(&mut svc, "/todos/update", r#"{"id": 42, "done": true}"#);
    assert_eq!(resp.status, 404);
    match resp.body {
        ResponseBody::Failure { error, description } => {
            assert_eq!(error, "Error::RecordNotFound");
            assert_eq!(description, "record not found in database");
        }
        other => panic!("expected an error body, got {:?}", other),
    }
}

#[test]
fn wrongly_typed_fields_are_bad_request() {
    let mut svc = create_server();
    assert_eq!(post(&mut svc, "/todos/create", r#"{"text": 5}"#).status, 400);
    assert_eq!(post(&mut svc, "/todos/update", r#"{"id": "x"}"#).status, 400);
    assert_eq!(post(&mut svc, "/todos/update", r#"{"id": 1.5}"#).status, 400);
    assert_eq!(post(&mut svc, "/todos/update", r#"{"id": 1, "done": "yes"}"#).status, 400);
    assert_eq!(post(&mut svc, "/todos/query", r#"{"limit": 300}"#).status, 400);
    assert_eq!(post(&mut svc, "/todos/query", r#"{"next": true}"#).status, 400);
    assert_eq!(post(&mut svc, "/todos/create", "[1, 2]").status, 400);
}

#[test]
fn null_optional_fields_read_as_absent() {
    let mut svc = create_server();
    let resp = post(&mut svc, "/todos/create", r#"{"text": "keep me"}"#);
    let id = item(resp).id;
    let body = format!(r#"{{"id": {}, "text": null, "done": null}}"#, id);
    let resp = post(&mut svc, "/todos/update", &body);
    assert_eq!(resp.status, 200);
    let todo = item(resp);
    assert_eq!(todo.text, "keep me");
    assert!(!todo.done);
}

#[test]
fn routes_are_method_sensitive() {
    let mut svc = create_server();
    assert_eq!(get(&mut svc, "/todos/create").status, 404);
    assert_eq!(post(&mut svc, "/health", "{}").status, 404);
    assert_eq!(svc.handle(Method::Other, "/health", "").status, 404);
}

#[test]
fn validation_failure_body_embeds_the_reason() {
    let mut svc = create_server();
    let resp = post(&mut svc, "/todos/create", r#"{"text": ""}"#);
    assert_eq!(resp.status, 412);
    match resp.body {
        ResponseBody::Failure { error, description } => {
            assert_eq!(error, "Error::Validation todo's text cannot be empty");
            assert_eq!(description, "input data validation error");
        }
        other => panic!("expected an error body, got {:?}", other),
    }
}
