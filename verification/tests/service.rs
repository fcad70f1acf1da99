use todo_service::handlers::add_todo;
use todo_service::handlers::clear_todos;
use todo_service::handlers::delete_todo;
use todo_service::handlers::get_todo;
use todo_service::handlers::list_todos;
use todo_service::handlers::update_todo;
use todo_service::handlers::ApiResponse;
use todo_service::store::Store;
use todo_service::store::StoreError;
use todo_service::NewTodo;
use todo_service::Todo;
use todo_service::UpdateTodo;

fn new_todo(title: &str) -> NewTodo {
    NewTodo { title: String::from(title) }
}

fn store_with(titles: &[&str]) -> Store {
    let mut store = Store::new();
    for title in titles {
        store.add(&new_todo(title));
    }
    store
}

fn listed(store: &Store) -> Vec<Todo> {
    match list_todos(store) {
        ApiResponse::OkItems(items) => items,
        _ => panic!("Response body error!"),
    }
}

fn fresh_id() -> u128 {
    uuid::Uuid::new_v4().as_u128()
}

#[test]
fn get_status_code() {
    let store = Store::new();
    let response = list_todos(&store);
    assert_eq!(response.status(), 200);
}

#[test]
fn get_empty_todos_json() {
    let store = Store::new();
    let body = listed(&store);
    assert_eq!(body, Vec::new());
}

#[test]
fn get_todos_json() {
    let store = store_with(&["test 1", "test 2", "test 3"]);
    let body = listed(&store);
    assert_eq!(body, store.list());
}

#[test]
fn delete_active_todo_items() {
    let mut store = store_with(&["test 1", "test 2", "test 3"]);
    let response = clear_todos(&mut store);
    assert_eq!(response.status(), 200);
    assert_eq!(store.list(), Vec::new());
}

#[test]
fn get_todo_not_found_status() {
    let store = Store::new();
    let response = get_todo(&store, fresh_id());
    assert_eq!(response.status(), 404);
}

#[test]
fn get_todo_status() {
    let store = store_with(&["test 1"]);
    let id = store.list()[0].id;
    let response = get_todo(&store, id);
    assert_eq!(response.status(), 200);
}

#[test]
fn get_todo_json() {
    let store = store_with(&["test 1"]);
    let id = store.list()[0].id;
    let body = match get_todo(&store, id) {
        ApiResponse::OkItem(todo) => todo,
        _ => panic!("Response body error!"),
    };
    assert_eq!(body, store.list()[0]);
}

#[test]
fn add_todo_status() {
    let mut store = Store::new();
    let response = add_todo(&mut store, &new_todo("Learn Rust"));
    assert_eq!(response.status(), 201);
}

#[test]
fn add_todo_json() {
    let mut store = Store::new();
    let body = match add_todo(&mut store, &new_todo("Learn Rust")) {
        ApiResponse::Created(id) => id,
        _ => panic!("Response body error!"),
    };
    let expected = Todo { id: body.id, title: String::from("Learn Rust"), completed: false };
    assert_eq!(body, todo_service::Id { id: expected.id });
    assert_eq!(expected, store.list()[0]);
}

#[test]
fn delete_todo_not_found_status() {
    let mut store = Store::new();
    let response = delete_todo(&mut store, fresh_id());
    assert_eq!(response.status(), 404);
}

#[test]
fn delete_todo_status() {
    let mut store = store_with(&["test 1", "test 2"]);
    let id = store.list()[0].id;
    let response = delete_todo(&mut store, id);
    assert_eq!(response.status(), 200);
}

#[test]
fn delete_todo_updated_state() {
    let mut store = store_with(&["test 1", "test 2"]);
    let id = store.list()[0].id;
    delete_todo(&mut store, id);
    assert_eq!(store.list().len(), 1);
    assert_ne!(store.list()[0].id, id);
}

#[test]
fn update_todo_not_found_status() {
    let mut store = Store::new();
    let upd = UpdateTodo { title: None, completed: Some(true) };
    let response = update_todo(&mut store, fresh_id(), &upd);
    assert_eq!(response.status(), 404);
}

#[test]
fn update_todo_updated_state() {
    let mut store = store_with(&["test 1", "test 2"]);
    let id = store.list()[0].id;
    let upd = UpdateTodo { title: Some(String::from("test 1 updated")), completed: Some(true) };
    update_todo(&mut store, id, &upd);
    assert_eq!(
        store.list()[0],
        Todo { id, title: String::from("test 1 updated"), completed: true }
    );
}

#[test]
fn update_todo_status() {
    let mut store = store_with(&["test 1", "test 2"]);
    let id = store.list()[0].id;
    let upd = UpdateTodo { title: Some(String::from("test 1 updated")), completed: Some(true) };
    let response = update_todo(&mut store, id, &upd);
    assert_eq!(response.status(), 200);
}

#[test]
fn crud_scenario() {
    let mut store = Store::new();
    let id_a = match add_todo(&mut store, &new_todo("a")) {
        ApiResponse::Created(id) => id.id,
        _ => panic!("Response body error!"),
    };
    let id_b = match add_todo(&mut store, &new_todo("b")) {
        ApiResponse::Created(id) => id.id,
        _ => panic!("Response body error!"),
    };
    let body = listed(&store);
    assert_eq!(
        body,
        vec![
            Todo { id: id_a, title: String::from("a"), completed: false },
            Todo { id: id_b, title: String::from("b"), completed: false },
        ]
    );
    let upd = UpdateTodo { title: None, completed: Some(true) };
    assert_eq!(update_todo(&mut store, id_a, &upd).status(), 200);
    let body = listed(&store);
    assert_eq!(
        body,
        vec![
            Todo { id: id_a, title: String::from("a"), completed: true },
            Todo { id: id_b, title: String::from("b"), completed: false },
        ]
    );
    assert_eq!(delete_todo(&mut store, id_b).status(), 200);
    let body = listed(&store);
    assert_eq!(body, vec![Todo { id: id_a, title: String::from("a"), completed: true }]);
    assert_eq!(delete_todo(&mut store, id_b).status(), 404);
}

#[test]
fn add_preserves_order_and_ids() {
    let mut store = Store::new();
    let a = store.add(&new_todo("first"));
    let b = store.add(&new_todo("second"));
    let c = store.add(&new_todo("third"));
    let items = store.list();
    assert_eq!(items.len(), 3);
    assert_eq!(items[0], a);
    assert_eq!(items[1], b);
    assert_eq!(items[2], c);
    assert_ne!(a.id, b.id);
    assert_ne!(a.id, c.id);
    assert_ne!(b.id, c.id);
}

#[test]
fn create_then_fetch() {
    let mut store = Store::new();
    let created = store.add(&new_todo("wash up"));
    let fetched = store.get(created.id).expect("created item must be found");
    assert_eq!(fetched.title, "wash up");
    assert!(!fetched.completed);
    assert_eq!(fetched.id, created.id);
}

#[test]
fn delete_leaves_others() {
    let mut store = store_with(&["one", "two", "three"]);
    let before = store.list();
    assert_eq!(store.delete(before[1].id), Ok(()));
    let after = store.list();
    assert_eq!(after.len(), 2);
    assert_eq!(after[0], before[0]);
    assert_eq!(after[1], before[2]);
}

#[test]
fn update_only_completed_keeps_title() {
    let mut store = store_with(&["keep me"]);
    let id = store.list()[0].id;
    let upd = UpdateTodo { title: None, completed: Some(true) };
    assert_eq!(store.update(id, &upd), Ok(()));
    let item = store.get(id).unwrap();
    assert_eq!(item.title, "keep me");
    assert!(item.completed);
}

#[test]
fn update_only_title_keeps_completed() {
    let mut store = store_with(&["old title"]);
    let id = store.list()[0].id;
    let done = UpdateTodo { title: None, completed: Some(true) };
    assert_eq!(store.update(id, &done), Ok(()));
    let retitle = UpdateTodo { title: Some(String::from("new title")), completed: None };
    assert_eq!(store.update(id, &retitle), Ok(()));
    let item = store.get(id).unwrap();
    assert_eq!(item.title, "new title");
    assert!(item.completed);
}

#[test]
fn unknown_id_leaves_store() {
    let mut store = store_with(&["a", "b"]);
    let before = store.list();
    let unknown = fresh_id();
    assert!(store.get(unknown).is_none());
    let upd = UpdateTodo { title: Some(String::from("x")), completed: Some(true) };
    assert_eq!(store.update(unknown, &upd), Err(StoreError::NotFound));
    assert_eq!(store.delete(unknown), Err(StoreError::NotFound));
    assert_eq!(store.list(), before);
}

#[test]
fn clear_then_list_empty() {
    let mut store = store_with(&["a", "b", "c"]);
    store.clear();
    assert!(store.list().is_empty());
    let mut empty = Store::new();
    empty.clear();
    assert!(empty.list().is_empty());
}
