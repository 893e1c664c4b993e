use inventory::product::{NewProduct, Product, UpdateError, UpdatedProduct};
use inventory::repository::{CustomResponse, ProgramState, RepositoryError};
use inventory::search::{rank_products, LevenshteinDistance};
use inventory::session::{LiveSession, SessionAction, SessionEvent};

fn cheese() -> Product {
    Product::new(String::from("Cheese"), 555, String::from("1111111111111"), String::new(), String::new(), 10, 20)
}

fn no_change() -> UpdatedProduct {
    UpdatedProduct {
        name: None,
        price: None,
        barcode: None,
        department: None,
        supplier: None,
        stock_level: None,
        max_stock: None,
        version: None,
    }
}

fn new_product(name: &str, stock_level: i64, max_stock: i64) -> NewProduct {
    NewProduct {
        name: String::from(name),
        price: 0,
        barcode: String::new(),
        department: String::new(),
        supplier: String::new(),
        stock_level,
        max_stock,
    }
}

fn catalog(names: &[&str]) -> ProgramState {
    let mut state = ProgramState::new();
    for name in names {
        state.add_product(new_product(name, 1, 2));
    }
    state
}

#[test]
pub fn product_stock_count() {
    let product: Product = Product::new(String::from("Cheese"), 555, String::from("1111111111111"), String::new(), String::new(), 10, 20);
    assert_eq!(product.stock_level, 10);
}

#[test]
pub fn product_set_name() {
    let product: Product = Product::new(String::from("Cheese"), 555, String::from("1111111111111"), String::new(), String::new(), 10, 20);
    assert_eq!(product.name, String::from("Cheese"));
}

#[test]
pub fn product_from_new_product() {
    let product: Product = Product::from_new_product(NewProduct {
        name: String::from("Cheese"),
        price: 5.55_f64 as i64,
        barcode: String::from("11111111111111"),
        department: String::new(),
        supplier: String::new(),
        stock_level: 5,
        max_stock: 10,
    });
    assert_eq!(product.name, String::from("Cheese"));
    assert!(product.id != String::new());
}

#[test]
fn created_product_starts_fresh() {
    let p = cheese();
    assert_eq!(p.version, 0);
    assert!(!p.deleted);
    assert_eq!(p.label_printed, Some(false));
    assert_eq!(p.created, p.updated);
    assert!(p.created > 0);
    assert_eq!(p.id.chars().count(), 36);
    assert_eq!(p.price, 555);
    assert_eq!(p.max_stock, 20);
}

#[test]
fn created_products_get_distinct_ids() {
    assert_ne!(cheese().id, cheese().id);
}

#[test]
fn creation_request_price_is_divided_by_hundred() {
    let mut np = new_product("Cheese", 1, 2);
    np.price = 555;
    assert_eq!(Product::from_new_product(np).price, 5);
    let mut np = new_product("Cheese", 1, 2);
    np.price = -555;
    assert_eq!(Product::from_new_product(np).price, -5);
    let mut np = new_product("Cheese", 1, 2);
    np.price = i64::MIN;
    assert_eq!(Product::from_new_product(np).price, -92233720368547758);
}

#[test]
fn update_overwrites_submitted_fields_only() {
    let mut p = cheese();
    let before = p.duplicate();
    let mut u = no_change();
    u.version = Some(0);
    u.name = Some(String::from("Cheddar"));
    u.price = Some(1299);
    u.stock_level = Some(3);
    let fields = p.update_product(u).unwrap();
    assert_eq!(fields, vec![String::from("name"), String::from("price"), String::from("stock_level")]);
    assert_eq!(p.version, 1);
    assert_eq!(p.name, "Cheddar");
    assert_eq!(p.price, 12);
    assert_eq!(p.stock_level, 3);
    assert_eq!(p.barcode, before.barcode);
    assert_eq!(p.max_stock, before.max_stock);
    assert_eq!(p.id, before.id);
}

#[test]
fn update_records_supplier_barcode_and_department() {
    let mut p = cheese();
    let mut u = no_change();
    u.version = Some(0);
    u.barcode = Some(String::from("22"));
    u.department = Some(String::from("Dairy"));
    u.supplier = Some(String::from("Farm"));
    u.max_stock = Some(50);
    let fields = p.update_product(u).unwrap();
    assert_eq!(fields, vec!["barcode", "department", "supplier", "max_stock"]);
    assert_eq!(p.supplier, "Farm");
    assert_eq!(p.department, "Dairy");
    assert_eq!(p.barcode, "22");
    assert_eq!(p.max_stock, 50);
}

#[test]
fn stale_version_conflicts_and_changes_nothing() {
    let mut p = cheese();
    let mut u = no_change();
    u.version = Some(3);
    u.name = Some(String::from("Brie"));
    assert_eq!(p.update_product(u), Err(UpdateError::VersionConflict));
    assert_eq!(p.name, "Cheese");
    assert_eq!(p.version, 0);
}

#[test]
fn deleted_product_refuses_update() {
    let mut p = cheese();
    p.delete();
    assert!(p.deleted);
    assert_eq!(p.version, 1);
    let mut u = no_change();
    u.version = Some(1);
    u.name = Some(String::from("Brie"));
    assert_eq!(p.update_product(u), Err(UpdateError::Deleted));
    let mut u = no_change();
    u.version = Some(7);
    assert_eq!(p.update_product(u), Err(UpdateError::Deleted));
    assert_eq!(p.version, 1);
}

#[test]
fn missing_version_and_empty_update_are_refused() {
    let mut p = cheese();
    let mut u = no_change();
    u.name = Some(String::from("Brie"));
    assert_eq!(p.update_product(u), Err(UpdateError::MissingVersion));
    let mut u = no_change();
    u.version = Some(0);
    assert_eq!(p.update_product(u), Err(UpdateError::NoChange));
    assert_eq!(p.version, 0);
}

#[test]
fn delete_bumps_version_every_time() {
    let mut p = cheese();
    p.delete();
    p.delete();
    assert!(p.deleted);
    assert_eq!(p.version, 2);
}

#[test]
fn adjust_stock_has_no_floor() {
    let mut p = cheese();
    p.adjust_stock(-15);
    assert_eq!(p.stock_level, -5);
    assert_eq!(p.version, 1);
}

#[test]
fn reasons_read_as_messages() {
    assert_eq!(UpdateError::Deleted.reason(), "Product deleted");
    assert_eq!(UpdateError::MissingVersion.reason(), "Version not specified");
    assert_eq!(UpdateError::VersionConflict.reason(), "Out of date");
    assert_eq!(UpdateError::NoChange.reason(), "No fields to update");
    assert_eq!(RepositoryError::NotFound.reason(), "Product not found");
    assert_eq!(RepositoryError::Rejected(UpdateError::NoChange).reason(), "No fields to update");
    assert_eq!(CustomResponse::new(String::from("x")).reason, "x");
}

#[test]
fn increment_then_decrement_restores_stock() {
    let mut state = catalog(&["Cheese", "Milk"]);
    let id = state.products[1].id.clone();
    let up = state.increment_product(&id).unwrap();
    assert_eq!(up.stock_level, 2);
    let down = state.decrement_product(&id).unwrap();
    assert_eq!(down.stock_level, 1);
    assert_eq!(down.version, 2);
    assert_eq!(state.products[1].stock_level, 1);
    assert_eq!(state.products[1].version, 2);
    assert_eq!(state.products[0].version, 0);
}

#[test]
fn unknown_id_is_not_found() {
    let mut state = catalog(&["Cheese"]);
    let id = String::from("nope");
    assert_eq!(state.increment_product(&id).err(), Some(RepositoryError::NotFound));
    assert_eq!(state.decrement_product(&id).err(), Some(RepositoryError::NotFound));
    assert_eq!(state.delete_product_by_id(&id).err(), Some(RepositoryError::NotFound));
    assert_eq!(state.update_product(&id, no_change()).err(), Some(RepositoryError::NotFound));
    assert!(state.find_product_by_id(&id).is_none());
    assert_eq!(state.products[0].version, 0);
}

#[test]
fn deleted_product_stays_findable_and_listed() {
    let mut state = catalog(&["Cheese", "Milk"]);
    let id = state.products[0].id.clone();
    let deleted = state.delete_product_by_id(&id).unwrap();
    assert!(deleted.deleted);
    let found = state.find_product_by_id(&id).unwrap();
    assert!(found.deleted);
    assert_eq!(found.version, 1);
    assert_eq!(state.list_products(0, 10).len(), 2);
    let mut u = no_change();
    u.version = Some(1);
    u.name = Some(String::from("Brie"));
    assert_eq!(state.update_product(&id, u).err(), Some(RepositoryError::Rejected(UpdateError::Deleted)));
}

#[test]
fn empty_catalog_lists_empty_page() {
    let state = ProgramState::new();
    assert!(state.list_products(0, 10).is_empty());
}

#[test]
fn pages_follow_insertion_order() {
    let names: Vec<String> = (0..25).map(|i| format!("item{}", i)).collect();
    let refs: Vec<&str> = names.iter().map(|s| s.as_str()).collect();
    let state = catalog(&refs);
    let page = state.list_products(2, 10);
    assert_eq!(page.len(), 5);
    assert_eq!(page[0].name, "item20");
    assert_eq!(page[4].name, "item24");
    let page = state.list_products(1, 10);
    assert_eq!(page.len(), 10);
    assert_eq!(page[0].name, "item10");
    assert!(state.list_products(3, 10).is_empty());
    assert!(state.list_products(usize::MAX, 2).is_empty());
    assert!(state.list_products(0, 0).is_empty());
}

#[test]
fn cheese_increment_update_and_conflict() {
    let mut state = ProgramState::new();
    let added = state.add_product(new_product("Cheese", 10, 20));
    let id = added.id.clone();
    let p = state.increment_product(&id).unwrap();
    assert_eq!(p.stock_level, 11);
    assert_eq!(p.version, 1);
    let mut u = no_change();
    u.version = Some(1);
    u.name = Some(String::from("Cheddar"));
    let p = state.update_product(&id, u).unwrap();
    assert_eq!(p.name, "Cheddar");
    assert_eq!(p.version, 2);
    let mut u = no_change();
    u.version = Some(1);
    u.name = Some(String::from("Brie"));
    assert_eq!(state.update_product(&id, u).err(), Some(RepositoryError::Rejected(UpdateError::VersionConflict)));
    assert_eq!(state.find_product_by_id(&id).unwrap().name, "Cheddar");
}

#[test]
fn search_ranks_cheese_above_cheddar() {
    let state = catalog(&["Cheese", "Cheddar", "Milk"]);
    let results = state.search_for_products(&String::from("chees"));
    let names: Vec<&str> = results.iter().map(|r| r.name.as_str()).collect();
    let distances: Vec<usize> = results.iter().map(|r| r.distance).collect();
    assert_eq!(names, vec!["Cheese", "Cheddar", "Milk"]);
    assert_eq!(distances, vec![0, 5, 9]);
    assert_eq!(results[0].id, state.products[0].id);
}

#[test]
fn search_exact_name_comes_first_in_any_case() {
    let state = catalog(&["Butter", "Milk", "Cheese"]);
    let results = state.search_for_products(&String::from("CHEESE"));
    assert_eq!(results[0].name, "Cheese");
    assert_eq!(results[0].distance, 0);
}

#[test]
fn search_keeps_ten_nearest_in_stable_order() {
    let names: Vec<String> = (0..12).map(|i| format!("ab{}", i)).collect();
    let mut refs: Vec<&str> = vec!["zzzzzzzzzzzzzzzzzzzz"];
    refs.extend(names.iter().map(|s| s.as_str()));
    let state = catalog(&refs);
    let results = state.search_for_products(&String::from("ab"));
    assert_eq!(results.len(), 10);
    assert_eq!(results[0].name, "ab0");
    assert_eq!(results[9].name, "ab9");
    assert!(results.iter().all(|r| r.distance == 0));
}

#[test]
fn rank_takes_lowered_names() {
    let state = catalog(&["Milk", "Cheese"]);
    let lowered = vec![String::from("milk"), String::from("cheese")];
    let results = rank_products(&state.products, &lowered, &String::from("cheese"));
    assert_eq!(results.len(), 2);
    assert_eq!(results[0].name, "Cheese");
    assert_eq!(results[0].distance, 0);
    assert_eq!(results[1].name, "Milk");
    assert_eq!(results[1].distance, 10);
    let none = rank_products(&state.products, &lowered, &String::from("qqqqqqqqqqqqqqqq"));
    assert!(none.is_empty());
}

#[test]
fn weighted_distance_values() {
    let d = |a: &str, b: &str| LevenshteinDistance::calculate(&String::from(a), &String::from(b));
    assert_eq!(d("abc", "abc"), 0);
    assert_eq!(d("chees", "cheddar"), 5);
    assert_eq!(d("chees", "milk"), 9);
    assert_eq!(d("kitten", "sitting"), 2);
    assert_eq!(d("abc", "abd"), 2);
    assert_eq!(d("", "abc"), 3);
    assert_eq!(d("abc", ""), 3);
    assert_eq!(d("é", "e"), 2);
}

#[test]
fn hit_record_holds_its_fields() {
    let hit = LevenshteinDistance::new(String::from("1"), String::from("Milk"), 4);
    assert_eq!(hit.id, "1");
    assert_eq!(hit.name, "Milk");
    assert_eq!(hit.distance, 4);
}

#[test]
fn heartbeat_keeps_session_alive() {
    let mut s = LiveSession::new(1_000);
    assert_eq!(s.handle(SessionEvent::Tick, 6_000), SessionAction::SendPing);
    assert_eq!(s.handle(SessionEvent::Pong, 7_000), SessionAction::SendSnapshot);
    assert_eq!(s.last_heartbeat, 7_000);
    assert_eq!(s.handle(SessionEvent::Ping, 9_000), SessionAction::SendPong);
    assert_eq!(s.last_heartbeat, 9_000);
    assert_eq!(s.handle(SessionEvent::Tick, 19_000), SessionAction::SendPing);
    assert!(!s.closed);
    assert_eq!(s.handle(SessionEvent::Text, 19_500), SessionAction::EchoText);
    assert_eq!(s.handle(SessionEvent::Binary, 19_500), SessionAction::EchoBinary);
}

#[test]
fn silent_client_times_out() {
    let mut s = LiveSession::new(0);
    assert_eq!(s.handle(SessionEvent::Tick, 10_001), SessionAction::Stop);
    assert!(s.closed);
    assert_eq!(s.handle(SessionEvent::Pong, 10_002), SessionAction::Ignore);
    assert_eq!(s.last_heartbeat, 0);
}

#[test]
fn close_and_failure_end_session() {
    let mut s = LiveSession::new(0);
    assert_eq!(s.handle(SessionEvent::Close, 1), SessionAction::Stop);
    assert!(s.closed);
    let mut s = LiveSession::new(0);
    assert_eq!(s.handle(SessionEvent::Failure, 1), SessionAction::Stop);
    assert!(s.closed);
    assert_eq!(s.handle(SessionEvent::Tick, 2), SessionAction::Ignore);
}
