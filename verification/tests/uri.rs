use delta_lake_connector::errors::TableError;
use delta_lake_connector::uri::parse_storage_location;

#[test]
fn well_formed_uri_with_host_is_accepted() {
    let loc = parse_storage_location("s3://bucket-a/tableX/").unwrap();
    assert_eq!(loc.scheme, "s3".to_string());
    assert_eq!(loc.host, "bucket-a".to_string());
}

#[test]
fn nested_path_keeps_only_the_host() {
    let loc = parse_storage_location("s3://my-bucket/some/deep/prefix/").unwrap();
    assert_eq!(loc.host, "my-bucket".to_string());
}

#[test]
fn not_a_uri_is_rejected() {
    let r = parse_storage_location("not-a-uri");
    assert_eq!(r.unwrap_err(), TableError::InvalidUri);
}

#[test]
fn uri_without_host_is_rejected() {
    let r = parse_storage_location("mailto:user@example.com");
    assert_eq!(r.unwrap_err(), TableError::InvalidUri);
}
