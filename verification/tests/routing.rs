use customers::routes::{match_route, Method, Route, MAX_BODY_BYTES};

fn segments(parts: &[&str]) -> Vec<String> {
    parts.iter().map(|p| p.to_string()).collect()
}

#[test]
fn get_collection_lists() {
    let r = match_route(&Method::Get, &segments(&["customers"]));
    assert_eq!(r, Route::ListCustomers);
}

#[test]
fn post_collection_creates() {
    let r = match_route(&Method::Post, &segments(&["customers"]));
    assert_eq!(r, Route::CreateCustomer);
}

#[test]
fn get_one_reads_the_path_guid() {
    let r = match_route(&Method::Get, &segments(&["customers", "a1"]));
    assert_eq!(r, Route::GetCustomer("a1".to_string()));
}

#[test]
fn put_one_updates() {
    let r = match_route(&Method::Put, &segments(&["customers", "a1"]));
    assert_eq!(r, Route::UpdateCustomer("a1".to_string()));
}

#[test]
fn delete_one_deletes() {
    let r = match_route(&Method::Delete, &segments(&["customers", "a1"]));
    assert_eq!(r, Route::DeleteCustomer("a1".to_string()));
}

#[test]
fn wrong_method_on_collection_matches_nothing() {
    assert_eq!(match_route(&Method::Put, &segments(&["customers"])), Route::NoMatch);
    assert_eq!(match_route(&Method::Delete, &segments(&["customers"])), Route::NoMatch);
}

#[test]
fn wrong_method_on_one_record_matches_nothing() {
    assert_eq!(
        match_route(&Method::Post, &segments(&["customers", "a1"])),
        Route::NoMatch
    );
}

#[test]
fn other_paths_match_nothing() {
    assert_eq!(match_route(&Method::Get, &segments(&[])), Route::NoMatch);
    assert_eq!(match_route(&Method::Get, &segments(&["orders"])), Route::NoMatch);
    assert_eq!(match_route(&Method::Get, &segments(&["orders", "a1"])), Route::NoMatch);
    assert_eq!(
        match_route(&Method::Get, &segments(&["customers", "a1", "extra"])),
        Route::NoMatch
    );
}

#[test]
fn body_limit_is_sixteen_kibibytes() {
    assert_eq!(MAX_BODY_BYTES, 16384);
}
