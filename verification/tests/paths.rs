use sylphie_database::{InitDbEvent, DB_DIRECTORY, PERSISTENT_SUFFIX, TRANSIENT_SUFFIX};

#[test]
fn stores_lie_in_the_db_directory_under_the_bots_name() {
    let paths = InitDbEvent::new().db_paths("sylphie");
    assert_eq!(paths.directory, "db");
    assert_eq!(paths.persistent_file, "sylphie.db");
    assert_eq!(paths.transient_file, "sylphie.transient.db");
    assert_eq!(DB_DIRECTORY, "db");
    assert_eq!(PERSISTENT_SUFFIX, ".db");
    assert_eq!(TRANSIENT_SUFFIX, ".transient.db");
    let unnamed = InitDbEvent::new().db_paths("");
    assert_eq!(unnamed.persistent_file, ".db");
}
