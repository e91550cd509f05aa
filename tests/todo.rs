use todo_api::config::Config;
use todo_api::error::{ApiError, RepoError};
use todo_api::handlers::{prepare_create, prepare_update, validate_create, validate_update};
use todo_api::model::{CreateTodoRequest, Pagination, Todo, UpdateTodoRequest};
use todo_api::repo::{
    create_statement, delete_outcome, plan_insert, row_outcome, update_statement, Assignment,
};

fn create_req(title: &str) -> CreateTodoRequest {
    CreateTodoRequest { title: title.to_string(), description: None, completed: None }
}

fn bad_request_message(e: &ApiError) -> String {
    match e {
        ApiError::BadRequest(m) => m.clone(),
        other => panic!("expected a bad request, got {:?}", other),
    }
}

fn sample_todo() -> Todo {
    Todo {
        id: 42,
        title: "Buy milk".to_string(),
        description: Some("two litres".to_string()),
        completed: false,
        created_at: 1_700_000_000_000_000,
        updated_at: 1_700_000_000_000_000,
    }
}

#[test]
fn create_trims_title_and_defaults() {
    let p = prepare_create(create_req("  Buy milk  ")).unwrap();
    assert_eq!(p.title, "Buy milk");
    let st = create_statement(p);
    assert_eq!(st.title, "Buy milk");
    assert!(!st.completed);
    assert_eq!(st.description, None);
    assert_eq!((st.id >> 76) & 0xF, 4);
    assert_eq!((st.id >> 62) & 0x3, 2);
}

#[test]
fn empty_update_is_rejected() {
    let u = UpdateTodoRequest { title: None, description: None, completed: None };
    let e = prepare_update(u).unwrap_err();
    assert_eq!(e.into_response(), (400, "no fields to update".to_string()));
}

#[test]
fn empty_title_is_required() {
    let e = prepare_create(create_req("")).unwrap_err();
    assert_eq!(e.into_response(), (400, "title is required".to_string()));
}

#[test]
fn blank_title_is_required_after_trim() {
    let e = prepare_create(create_req("   \t ")).unwrap_err();
    assert_eq!(bad_request_message(&e), "title is required");
}

#[test]
fn unknown_id_is_not_found() {
    let e = ApiError::from(row_outcome(None).unwrap_err());
    assert_eq!(e.into_response(), (404, "not found".to_string()));
}

#[test]
fn found_row_is_returned() {
    let t = row_outcome(Some(sample_todo())).unwrap();
    assert_eq!(t.id, 42);
    assert_eq!(t.title, "Buy milk");
}

#[test]
fn title_length_counts_code_points() {
    let ok = "é".repeat(200);
    assert!(validate_create(&create_req(&ok)).is_ok());
    let long = "é".repeat(201);
    let e = validate_create(&create_req(&long)).unwrap_err();
    assert_eq!(bad_request_message(&e), "title must be <= 200 chars");
}

#[test]
fn update_title_must_not_be_empty() {
    let u = UpdateTodoRequest { title: Some("   ".to_string()), description: None, completed: None };
    let e = prepare_update(u).unwrap_err();
    assert_eq!(bad_request_message(&e), "title must not be empty");
}

#[test]
fn update_title_too_long() {
    let u = UpdateTodoRequest { title: Some("x".repeat(201)), description: None, completed: None };
    let e = validate_update(&u).unwrap_err();
    assert_eq!(bad_request_message(&e), "title must be <= 200 chars");
}

#[test]
fn update_trims_title() {
    let u = UpdateTodoRequest { title: Some("  Walk  ".to_string()), description: None, completed: Some(true) };
    let p = prepare_update(u).unwrap();
    assert_eq!(p.title.as_deref(), Some("Walk"));
    assert_eq!(p.completed, Some(true));
}

#[test]
fn error_mapping_table() {
    assert_eq!(
        ApiError::BadRequest("bad".to_string()).into_response(),
        (400, "bad".to_string())
    );
    assert_eq!(
        ApiError::Repo(RepoError::NoFieldsToUpdate).into_response(),
        (400, "no fields to update".to_string())
    );
    assert_eq!(
        ApiError::Repo(RepoError::StoreFailure("connection reset".to_string())).into_response(),
        (500, "internal server error".to_string())
    );
}

#[test]
fn pagination_defaults_and_clamps() {
    assert_eq!(Pagination { skip: None, limit: None }.window(), (0, 100));
    assert_eq!(Pagination { skip: Some(-3), limit: Some(0) }.window(), (0, 1));
    assert_eq!(Pagination { skip: Some(20), limit: Some(5000) }.window(), (20, 1000));
    assert_eq!(Pagination { skip: Some(5), limit: Some(25) }.window(), (5, 25));
    assert_eq!(
        Pagination { skip: None, limit: Some(0) }.window(),
        Pagination { skip: None, limit: Some(1) }.window()
    );
}

#[test]
fn update_statement_only_supplied_columns() {
    let u = UpdateTodoRequest { title: Some("New".to_string()), description: None, completed: Some(true) };
    let st = update_statement(9, u).unwrap();
    assert_eq!(
        st.sql,
        "UPDATE todos SET title = $1, completed = $2, updated_at = NOW() WHERE id = $3 RETURNING id, title, description, completed, created_at, updated_at"
    );
    assert_eq!(st.assignments.len(), 2);
    assert!(matches!(&st.assignments[0], Assignment::Title(t) if t == "New"));
    assert!(matches!(st.assignments[1], Assignment::Completed(true)));
    assert_eq!(st.id, 9);
}

#[test]
fn update_statement_explicit_null_description() {
    let u = UpdateTodoRequest { title: None, description: Some(None), completed: None };
    let st = update_statement(1, u).unwrap();
    assert_eq!(
        st.sql,
        "UPDATE todos SET description = $1, updated_at = NOW() WHERE id = $2 RETURNING id, title, description, completed, created_at, updated_at"
    );
    assert!(matches!(st.assignments[0], Assignment::Description(None)));
}

#[test]
fn update_statement_all_columns() {
    let u = UpdateTodoRequest {
        title: Some("T".to_string()),
        description: Some(Some("D".to_string())),
        completed: Some(false),
    };
    let st = update_statement(1, u).unwrap();
    assert_eq!(
        st.sql,
        "UPDATE todos SET title = $1, description = $2, completed = $3, updated_at = NOW() WHERE id = $4 RETURNING id, title, description, completed, created_at, updated_at"
    );
    assert_eq!(st.assignments.len(), 3);
}

#[test]
fn update_statement_without_fields() {
    let u = UpdateTodoRequest { title: None, description: None, completed: None };
    assert!(matches!(update_statement(1, u), Err(RepoError::NoFieldsToUpdate)));
}

#[test]
fn delete_outcomes() {
    assert!(delete_outcome(1).is_ok());
    assert!(matches!(delete_outcome(0), Err(RepoError::NotFound)));
    assert!(matches!(delete_outcome(0), Err(RepoError::NotFound)));
}

#[test]
fn insert_defaults_completed() {
    let st = plan_insert(5, CreateTodoRequest { title: "a".to_string(), description: Some("b".to_string()), completed: None });
    assert_eq!(st.id, 5);
    assert!(!st.completed);
    assert_eq!(st.description.as_deref(), Some("b"));
    let st = plan_insert(6, CreateTodoRequest { title: "a".to_string(), description: None, completed: Some(true) });
    assert!(st.completed);
}

#[test]
fn config_defaults() {
    let c = Config::from_values(None, None, "postgres://db".to_string(), None);
    assert_eq!(c.host, "0.0.0.0");
    assert_eq!(c.port, 3003);
    assert_eq!(c.database_url, "postgres://db");
    assert_eq!(c.service_name, "todo-api");
}

#[test]
fn config_values() {
    let c = Config::from_values(
        Some("127.0.0.1".to_string()),
        Some("8080".to_string()),
        "postgres://db".to_string(),
        Some("svc".to_string()),
    );
    assert_eq!(c.host, "127.0.0.1");
    assert_eq!(c.port, 8080);
    assert_eq!(c.service_name, "svc");
}

#[test]
fn config_bad_port_falls_back() {
    for p in ["", "+", "-1", "70000", " 80", "8o"] {
        let c = Config::from_values(None, Some(p.to_string()), String::new(), None);
        assert_eq!(c.port, 3003, "port text {:?}", p);
    }
    let c = Config::from_values(None, Some("+0080".to_string()), String::new(), None);
    assert_eq!(c.port, 80);
}
