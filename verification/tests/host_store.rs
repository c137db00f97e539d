use overlay_forge::host_store::{
    last_product, prepare_host_schema, remember_product, remember_product_statement, saved_product,
    REMEMBER_PRODUCT_SQL,
};
use overlay_forge::database::SqlParam;

#[test]
fn fresh_host_database_has_no_last_product() {
    let connection = rusqlite::Connection::open_in_memory().unwrap();
    prepare_host_schema(&connection).unwrap();
    assert_eq!(last_product(&connection).unwrap(), None);
}

#[test]
fn remembered_product_is_read_back_and_replaced() {
    let connection = rusqlite::Connection::open_in_memory().unwrap();
    prepare_host_schema(&connection).unwrap();
    remember_product(&connection, "gearblocks").unwrap();
    assert_eq!(last_product(&connection).unwrap(), Some("gearblocks".to_string()));
    remember_product(&connection, "media").unwrap();
    assert_eq!(last_product(&connection).unwrap(), Some("media".to_string()));
    prepare_host_schema(&connection).unwrap();
    assert_eq!(last_product(&connection).unwrap(), Some("media".to_string()));
}

#[test]
fn remember_statement_binds_the_key() {
    let statement = remember_product_statement("books");
    assert_eq!(statement.sql, REMEMBER_PRODUCT_SQL);
    assert_eq!(statement.params.len(), 1);
    assert!(matches!(&statement.params[0], SqlParam::Text(t) if t == "books"));
}

#[test]
fn missing_or_null_state_means_no_product() {
    assert_eq!(saved_product(None), None);
    assert_eq!(saved_product(Some(None)), None);
    assert_eq!(saved_product(Some(Some("x".to_string()))), Some("x".to_string()));
}
