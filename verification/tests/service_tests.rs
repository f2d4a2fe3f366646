use unlock_probe::service::{
    api_data, license_validation_outcome, proxy_command_outcome, proxy_status_data,
    service_needs_reinstall, service_running, service_version_of, ApiResponse, JsonResponse,
    ResponseBody, VersionJsonResponse, VersionResponse,
};

fn core_description() -> ResponseBody {
    ResponseBody {
        core_type: Some("mihomo".to_string()),
        bin_path: "/opt/core".to_string(),
        config_dir: "/etc/core".to_string(),
        log_file: "/var/log/core.log".to_string(),
    }
}

#[test]
fn service_running_needs_code_message_and_data() {
    let good = JsonResponse {
        code: 200,
        msg: "success".to_string(),
        data: Some(core_description()),
    };
    assert!(service_running(&good));
    let wrong_code = JsonResponse { code: 500, ..good_clone() };
    assert!(!service_running(&wrong_code));
    let wrong_msg = JsonResponse {
        msg: "failure".to_string(),
        ..good_clone()
    };
    assert!(!service_running(&wrong_msg));
    let no_data = JsonResponse { data: None, ..good_clone() };
    assert!(!service_running(&no_data));
}

fn good_clone() -> JsonResponse {
    JsonResponse {
        code: 200,
        msg: "success".to_string(),
        data: Some(core_description()),
    }
}

#[test]
fn version_extraction() {
    let with = VersionJsonResponse {
        code: 200,
        msg: "success".to_string(),
        data: Some(VersionResponse {
            service: "svc".to_string(),
            version: "1.0.2".to_string(),
        }),
    };
    assert_eq!(service_version_of(with).as_deref(), Some("1.0.2"));
    let without = VersionJsonResponse {
        code: 200,
        msg: "success".to_string(),
        data: None,
    };
    assert!(service_version_of(without).is_none());
}

#[test]
fn reinstall_needed_unless_required_version() {
    assert!(!service_needs_reinstall(&Some("1.0.2".to_string())));
    assert!(service_needs_reinstall(&Some("1.0.1".to_string())));
    assert!(service_needs_reinstall(&None));
}

#[test]
fn license_outcomes() {
    let ok = ApiResponse { code: 0, msg: String::new(), data: Some(true) };
    assert_eq!(license_validation_outcome(&ok), Ok(true));
    let missing = ApiResponse { code: 0, msg: String::new(), data: None };
    assert_eq!(license_validation_outcome(&missing), Ok(false));
    let bad = ApiResponse {
        code: 7,
        msg: "expired".to_string(),
        data: Some(true),
    };
    assert_eq!(
        license_validation_outcome(&bad),
        Err("License validation failed: expired".to_string())
    );
}

#[test]
fn api_data_extraction() {
    let resp: ApiResponse<u32> = ApiResponse { code: 0, msg: String::new(), data: Some(9) };
    assert_eq!(api_data(resp), Some(9));
    let empty: ApiResponse<u32> = ApiResponse { code: 0, msg: String::new(), data: None };
    assert_eq!(api_data(empty), None);
}

#[test]
fn proxy_command_outcomes() {
    let ok: ApiResponse<()> = ApiResponse { code: 0, msg: String::new(), data: None };
    assert!(proxy_command_outcome(&ok, "Failed to start proxy: ").is_ok());
    let bad: ApiResponse<()> = ApiResponse {
        code: 1,
        msg: "no servers".to_string(),
        data: None,
    };
    assert_eq!(
        proxy_command_outcome(&bad, "Failed to stop proxy: "),
        Err("Failed to stop proxy: no servers".to_string())
    );
}

#[test]
fn proxy_status_listing() {
    let with = ApiResponse {
        code: 0,
        msg: String::new(),
        data: Some(vec![(1080, true), (8080, false)]),
    };
    assert_eq!(proxy_status_data(with), vec![(1080, true), (8080, false)]);
    let without: ApiResponse<Vec<(i32, bool)>> = ApiResponse {
        code: 0,
        msg: String::new(),
        data: None,
    };
    assert!(proxy_status_data(without).is_empty());
}
