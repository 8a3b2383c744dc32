use todos::errors::Error;
use todos::repo::{NewTodo, QueryTodos, UpdateTodo};
use todos::validators::Validator;

#[test]
fn should_validate_new_todo() {
    let subject = NewTodo { text: "text".to_string() };
    assert!(subject.validated().is_ok());

    let subject = NewTodo { text: "".to_string() };
    assert!(subject.validated().is_err());

    let subject = NewTodo { text: std::iter::repeat("x").take(256).collect::<String>() };
    assert!(subject.validated().is_err());
}

#[test]
fn should_validate_update_todo() {
    let subject = UpdateTodo { id: 1, text: Some("text".to_string()), done: Some(false) };
    {
        let subject = subject.clone();
        assert!(subject.validated().is_ok());
    }

    {
        let subject = UpdateTodo { id: -1, ..subject.clone() };
        assert!(subject.validated().is_err());
    }

    {
        let subject = UpdateTodo { text: Some("".to_string()), ..subject.clone() };
        assert!(subject.validated().is_err());
    }

    {
        let subject = UpdateTodo {
            text: Some(std::iter::repeat("x").take(256).collect::<String>()),
            ..subject
        };
        assert!(subject.validated().is_err());
    }
}

#[test]
fn should_validate_query_todo() {
    let subject = QueryTodos { next: None, limit: None, text: Some("text".to_string()) };
    {
        let subject = subject.clone();
        assert!(subject.validated().is_ok());
    }

    {
        let subject = QueryTodos { text: Some("".to_string()), ..subject.clone() };
        assert!(subject.validated().is_err());
    }

    {
        let subject = QueryTodos {
            text: Some(std::iter::repeat("x").take(256).collect::<String>()),
            ..subject
        };
        assert!(subject.validated().is_err());
    }
}

#[test]
fn overlong_text_message_names_the_length() {
    let subject = NewTodo { text: "x".repeat(256) };
    match subject.validated() {
        Err(Error::Validation(m)) => {
            assert_eq!(m, "todo's text must be less then 255, got 256");
        }
        _ => panic!("expected a validation error"),
    }
}

#[test]
fn empty_text_message_names_the_rule() {
    let subject = NewTodo { text: String::new() };
    match subject.validated() {
        Err(Error::Validation(m)) => {
            assert_eq!(m, "todo's text cannot be empty");
        }
        _ => panic!("expected a validation error"),
    }
}

#[test]
fn negative_id_message_names_the_value() {
    let subject = UpdateTodo { id: -1, text: None, done: None };
    match subject.validated() {
        Err(Error::Validation(m)) => {
            assert_eq!(m, "todo's id cannot be negative, got -1");
        }
        _ => panic!("expected a validation error"),
    }
}

#[test]
fn text_rule_runs_before_id_rule() {
    let subject = UpdateTodo { id: 0, text: Some(String::new()), done: None };
    match subject.validated() {
        Err(Error::Validation(m)) => {
            assert_eq!(m, "todo's text cannot be empty");
        }
        _ => panic!("expected a validation error"),
    }
}

#[test]
fn boundary_text_lengths_are_accepted() {
    assert!(NewTodo { text: "x".to_string() }.validated().is_ok());
    assert!(NewTodo { text: "x".repeat(255) }.validated().is_ok());
    assert!(NewTodo { text: "x".repeat(256) }.validated().is_err());
}
