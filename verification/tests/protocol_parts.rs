//! Tests of the pieces around the core: endpoint mapping, URL joining,
//! authentication headers and the argument scanner.

use vaultapi::enums::{EndpointMapping, Method};
use vaultapi::parser::{parse_arguments, ArgConfig, ArgScan};
use vaultapi::request::{auth_headers, bearer_token, create_request_materials};
use vaultapi::util::urljoin;

fn arg_config(
    cipher: &str,
    table_name: &str,
    get_secret: &str,
    get_secrets: &str,
    get_table: &str,
) -> ArgConfig {
    ArgConfig {
        cipher: cipher.to_string(),
        table_name: table_name.to_string(),
        get_secret: get_secret.to_string(),
        get_secrets: get_secrets.to_string(),
        get_table: get_table.to_string(),
    }
}

#[test]
fn endpoints_map_to_their_paths() {
    assert_eq!(EndpointMapping::Health.as_str(), "/health");
    assert_eq!(EndpointMapping::GetTable.as_str(), "/get-table");
    assert_eq!(EndpointMapping::GetSecret.as_str(), "/get-secret");
    assert_eq!(EndpointMapping::PutSecret.as_str(), "/put-secret");
    assert_eq!(EndpointMapping::ListTables.as_str(), "/list-tables");
    assert_eq!(EndpointMapping::CreateTable.as_str(), "/create-table");
    assert_eq!(EndpointMapping::DeleteSecret.as_str(), "/delete-secret");
}

#[test]
fn methods_compare_by_variant() {
    assert_eq!(Method::Get, Method::Get);
    assert_ne!(Method::Get, Method::Put);
    assert_ne!(Method::Post, Method::Delete);
}

#[test]
fn urljoin_strips_and_joins_with_single_slashes() {
    assert_eq!(
        urljoin(&["http://localhost:8080/", "/get-secret"]),
        "http://localhost:8080/get-secret"
    );
    assert_eq!(urljoin(&["a//", "//b/"]), "a/b");
    assert_eq!(urljoin(&[]), "");
    assert_eq!(urljoin(&["///"]), "");
    assert_eq!(urljoin(&["a//", "", "b"]), "a//b");
}

#[test]
fn bearer_token_prefixes_the_key() {
    assert_eq!(bearer_token("abc123"), "Bearer abc123");
}

#[test]
fn auth_headers_hold_authorization_and_accept() {
    let headers = auth_headers(&"abc123".to_string());
    assert_eq!(headers.len(), 2);
    assert_eq!(headers.get("Authorization").unwrap(), "Bearer abc123");
    assert_eq!(headers.get("Accept").unwrap(), "application/json");
}

#[test]
fn request_plan_needs_a_table_name() {
    let cfg = arg_config("", "", "k1", "", "");
    assert!(create_request_materials(&cfg, "http://v/").is_none());
}

#[test]
fn request_plan_for_one_secret() {
    let cfg = arg_config("", "t1", "k1", "", "");
    let plan = create_request_materials(&cfg, "http://v/").unwrap();
    assert_eq!(plan.url, "http://v/get-secret");
    assert_eq!(
        plan.params,
        vec![
            ("table_name".to_string(), "t1".to_string()),
            ("key".to_string(), "k1".to_string()),
        ]
    );
}

#[test]
fn request_plan_for_many_secrets_takes_precedence() {
    let cfg = arg_config("", "t1", "k1", "k1,k2", "");
    let plan = create_request_materials(&cfg, "http://v/").unwrap();
    assert_eq!(plan.url, "http://v/get-secrets");
    assert_eq!(
        plan.params,
        vec![
            ("table_name".to_string(), "t1".to_string()),
            ("keys".to_string(), "k1,k2".to_string()),
        ]
    );
}

#[test]
fn request_plan_for_a_whole_table() {
    let cfg = arg_config("", "", "", "", "t2");
    let plan = create_request_materials(&cfg, "http://v/").unwrap();
    assert_eq!(plan.url, "http://v/get-table");
    assert_eq!(plan.params, vec![("table_name".to_string(), "t2".to_string())]);
}

#[test]
fn request_plan_with_only_a_table_name_has_no_url() {
    let cfg = arg_config("", "t1", "", "", "");
    let plan = create_request_materials(&cfg, "http://v/").unwrap();
    assert_eq!(plan.url, "");
    assert_eq!(plan.params, vec![("table_name".to_string(), "t1".to_string())]);
}

fn args(list: &[&str]) -> Vec<String> {
    list.iter().map(|s| s.to_string()).collect()
}

#[test]
fn scanner_collects_flag_values() {
    let scan = parse_arguments(&args(&["prog", "--cipher", "abc", "--table", "t1"]));
    match scan {
        ArgScan::Parsed(cfg, env_file) => {
            assert_eq!(cfg.cipher, "abc");
            assert_eq!(cfg.table_name, "t1");
            assert_eq!(cfg.get_secret, "");
            assert_eq!(cfg.get_secrets, "");
            assert_eq!(cfg.get_table, "");
            assert_eq!(env_file, "");
        }
        _ => panic!("expected a parsed configuration"),
    }
}

#[test]
fn scanner_collects_env_file_and_lookups() {
    let scan = parse_arguments(&args(&[
        "prog",
        "--env_file",
        "custom.env",
        "--get-secret",
        "k1",
        "--get-secrets",
        "k1,k2",
        "--get-table",
        "t2",
    ]));
    match scan {
        ArgScan::Parsed(cfg, env_file) => {
            assert_eq!(env_file, "custom.env");
            assert_eq!(cfg.get_secret, "k1");
            assert_eq!(cfg.get_secrets, "k1,k2");
            assert_eq!(cfg.get_table, "t2");
        }
        _ => panic!("expected a parsed configuration"),
    }
}

#[test]
fn scanner_reports_help_and_version() {
    assert!(matches!(parse_arguments(&args(&["prog", "-h"])), ArgScan::Help));
    assert!(matches!(parse_arguments(&args(&["prog", "--help"])), ArgScan::Help));
    assert!(matches!(parse_arguments(&args(&["prog", "-v"])), ArgScan::Version));
    assert!(matches!(parse_arguments(&args(&["prog", "-V"])), ArgScan::Version));
    assert!(matches!(parse_arguments(&args(&["prog", "--version"])), ArgScan::Version));
}

#[test]
fn scanner_reports_missing_values_and_unknown_flags() {
    match parse_arguments(&args(&["prog", "--cipher"])) {
        ArgScan::MissingValue(flag) => assert_eq!(flag, "--cipher"),
        _ => panic!("expected a missing value"),
    }
    match parse_arguments(&args(&["prog", "--bogus"])) {
        ArgScan::Unknown(arg) => assert_eq!(arg, "--bogus"),
        _ => panic!("expected an unknown argument"),
    }
}

#[test]
fn scanner_reports_later_errors_over_a_version_flag() {
    match parse_arguments(&args(&["prog", "-v", "--bogus"])) {
        ArgScan::Unknown(arg) => assert_eq!(arg, "--bogus"),
        _ => panic!("expected an unknown argument"),
    }
}
