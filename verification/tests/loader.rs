use delta_lake_connector::credentials::CredentialMap;
use delta_lake_connector::errors::TableError;
use delta_lake_connector::loader::{plan_open, region_name, select_first_file};

fn test_credentials() -> CredentialMap {
    CredentialMap {
        access_key_id: "AKIDEXAMPLE".to_string(),
        secret_access_key: "wJalrXUt".to_string(),
        session_token: None,
    }
}

#[test]
fn region_is_the_fixed_deployment_region() {
    assert_eq!(region_name(), "eu-west-2".to_string());
}

#[test]
fn empty_table_yields_empty_table() {
    let files: Vec<String> = vec![];
    let r = select_first_file(&files);
    assert_eq!(r.unwrap_err(), TableError::EmptyTable);
}

#[test]
fn first_file_in_enumeration_order_is_selected() {
    let files = vec!["f1.parquet".to_string(), "f2.parquet".to_string()];
    assert_eq!(select_first_file(&files).unwrap(), "f1.parquet".to_string());
}

#[test]
fn mode_b_scenario_opens_first_file_of_bucket_a() {
    let binding = plan_open("s3://bucket-a/tableX/", &test_credentials()).unwrap();
    assert_eq!(binding.bucket, "bucket-a".to_string());
    assert_eq!(binding.region, "eu-west-2".to_string());
    let files = vec!["f1.parquet".to_string(), "f2.parquet".to_string()];
    assert_eq!(select_first_file(&files).unwrap(), "f1.parquet".to_string());
}

#[test]
fn plan_rejects_a_malformed_uri() {
    let r = plan_open("not-a-uri", &test_credentials());
    assert_eq!(r.unwrap_err(), TableError::InvalidUri);
}

#[test]
fn storage_options_carry_credentials_bucket_and_region() {
    let creds = CredentialMap {
        access_key_id: "AKIDEXAMPLE".to_string(),
        secret_access_key: "wJalrXUt".to_string(),
        session_token: Some("FwoGZXIvYXdzEBc".to_string()),
    };
    let binding = plan_open("s3://bucket-a/tableX/", &creds).unwrap();
    assert_eq!(
        binding.storage_options(),
        vec![
            ("AWS_ACCESS_KEY_ID".to_string(), "AKIDEXAMPLE".to_string()),
            ("AWS_SECRET_ACCESS_KEY".to_string(), "wJalrXUt".to_string()),
            ("AWS_SESSION_TOKEN".to_string(), "FwoGZXIvYXdzEBc".to_string()),
            ("bucket".to_string(), "bucket-a".to_string()),
            ("region".to_string(), "eu-west-2".to_string()),
        ]
    );
}

#[test]
fn repeated_open_plans_identically() {
    let creds = test_credentials();
    let uri = "s3://bucket-a/tableX/";
    let first = plan_open(uri, &creds).unwrap();
    let second = plan_open(uri, &creds).unwrap();
    assert_eq!(first.bucket, second.bucket);
    assert_eq!(first.region, second.region);
    assert_eq!(first.storage_options(), second.storage_options());
    let files = vec!["f1.parquet".to_string(), "f2.parquet".to_string()];
    assert_eq!(
        select_first_file(&files).unwrap(),
        select_first_file(&files).unwrap()
    );
}
