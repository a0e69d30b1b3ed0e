use tc_eo_ssl::error::ApiError;
use tc_eo_ssl::service::dispatch::first_rejected;
use tc_eo_ssl::service::dispatch::header;
use tc_eo_ssl::service::dispatch::Header;
use tc_eo_ssl::service::tc_request::TencentCloudRequest;

fn request_of(host: &str, region: &str, token: &str) -> TencentCloudRequest {
    TencentCloudRequest::new(
        "AKIDtest".to_string(),
        "testkey".to_string(),
        "ssl".to_string(),
        host.to_string(),
        region.to_string(),
        "UploadCertificate".to_string(),
        "2019-12-05".to_string(),
        "{}".to_string(),
        token.to_string(),
    )
}

fn pairs(headers: &[Header]) -> Vec<(String, String)> {
    headers.iter().map(|h| (h.name.clone(), h.value.clone())).collect()
}

fn pair(name: &str, value: &str) -> (String, String) {
    (name.to_string(), value.to_string())
}

#[test]
fn headers_without_a_token() {
    let request = request_of("ssl.tencentcloudapi.com", "", "");
    let headers = request.request_headers("auth", 1704067200);
    assert_eq!(
        pairs(&headers),
        vec![
            pair("Authorization", "auth"),
            pair("Content-Type", "application/json; charset=utf-8"),
            pair("Host", "ssl.tencentcloudapi.com"),
            pair("X-TC-Action", "UploadCertificate"),
            pair("X-TC-Timestamp", "1704067200"),
            pair("X-TC-Version", "2019-12-05"),
            pair("X-TC-Region", ""),
        ]
    );
    assert!(!headers.iter().any(|h| h.name == "X-TC-Token"));
}

#[test]
fn headers_with_a_token() {
    let request = request_of("ssl.tencentcloudapi.com", "ap-guangzhou", "session");
    let headers = request.request_headers("auth", 7);
    assert_eq!(headers.len(), 8);
    assert_eq!(headers[6], header("X-TC-Region", "ap-guangzhou"));
    assert_eq!(headers[7], header("X-TC-Token", "session"));
    assert_eq!(headers.iter().filter(|h| h.name == "X-TC-Token").count(), 1);
}

#[test]
fn action_header_keeps_its_case() {
    let request = request_of("ssl.tencentcloudapi.com", "", "");
    let headers = request.request_headers("auth", 7);
    assert_eq!(headers[3], header("X-TC-Action", "UploadCertificate"));
}

#[test]
fn outbound_request_goes_to_the_host_with_the_payload() {
    let request = request_of("ssl.tencentcloudapi.com", "", "");
    let out = request.outbound_request("auth", 1704067200).unwrap();
    assert_eq!(out.url, "https://ssl.tencentcloudapi.com/");
    assert_eq!(out.body, "{}");
    assert_eq!(out.headers, request.request_headers("auth", 1704067200));
}

#[test]
fn outbound_request_names_the_first_header_that_http_refuses() {
    let request = request_of("bad\nhost", "re\u{7f}gion", "");
    let r = request.outbound_request("auth", 1);
    assert_eq!(r, Err(ApiError::InvalidHeaderValue { name: "Host".to_string() }));
    let request = request_of("host", "region", "to\rken");
    let r = request.outbound_request("auth", 1);
    assert_eq!(r, Err(ApiError::InvalidHeaderValue { name: "X-TC-Token".to_string() }));
    let request = request_of("host", "region", "");
    let r = request.outbound_request("au\0th", 1);
    assert_eq!(r, Err(ApiError::InvalidHeaderValue { name: "Authorization".to_string() }));
}

#[test]
fn header_values_may_hold_tabs_and_bytes_beyond_ascii() {
    let request = request_of("h\tost", "région", "~ !");
    let out = request.outbound_request("auth", 1).unwrap();
    assert_eq!(out.headers.len(), 8);
    assert_eq!(first_rejected(&out.headers), None);
}

#[test]
fn first_rejected_finds_the_first_of_several() {
    let headers = vec![
        header("A", "fine"),
        header("B", "line\nbreak"),
        header("C", "\u{1}"),
    ];
    assert_eq!(first_rejected(&headers), Some(1));
    assert_eq!(first_rejected(&Vec::new()), None);
    assert_eq!(first_rejected(&vec![header("A", ""), header("B", "\u{7f}")]), Some(1));
    assert_eq!(first_rejected(&vec![header("A", "\u{1f}")]), Some(0));
    assert_eq!(first_rejected(&vec![header("A", " ")]), None);
}

#[test]
fn prepare_signs_for_the_utc_day_of_the_time() {
    let request = request_of("ssl.tencentcloudapi.com", "", "");
    let out = request.prepare(1704067200).unwrap();
    assert_eq!(out.url, "https://ssl.tencentcloudapi.com/");
    assert_eq!(out.body, "{}");
    assert_eq!(
        out.headers[0],
        header(
            "Authorization",
            "TC3-HMAC-SHA256 Credential=AKIDtest/2024-01-01/ssl/tc3_request, SignedHeaders=content-type;host;x-tc-action, Signature=a606500005f2a78c4bf30cc59946313f542e60fa0a350828a7d3fda867b26e6b"
        )
    );
    assert_eq!(out.headers[4], header("X-TC-Timestamp", "1704067200"));
}

#[test]
fn prepare_takes_the_day_before_midnight() {
    let request = request_of("ssl.tencentcloudapi.com", "", "");
    let out = request.prepare(1704067199).unwrap();
    assert_eq!(out.headers[0], header("Authorization", &request.sign("2023-12-31", 1704067199).unwrap()));
    let out = request.prepare(0).unwrap();
    assert_eq!(out.headers[0], header("Authorization", &request.sign("1970-01-01", 0).unwrap()));
    let out = request.prepare(-1).unwrap();
    assert_eq!(out.headers[0], header("Authorization", &request.sign("1969-12-31", -1).unwrap()));
}

#[test]
fn prepare_refuses_a_time_without_a_day() {
    let request = request_of("ssl.tencentcloudapi.com", "", "");
    assert_eq!(request.prepare(i64::MAX), Err(ApiError::SigningPrecondition));
    assert_eq!(request.prepare(i64::MIN), Err(ApiError::SigningPrecondition));
}

#[test]
fn prepare_now_signs_for_the_present() {
    let request = request_of("ssl.tencentcloudapi.com", "", "tok");
    let out = request.prepare_now().unwrap();
    assert_eq!(out.headers.len(), 8);
    let timestamp: i64 = out.headers[4].value.parse().unwrap();
    assert!(timestamp > 1704067200);
    assert_eq!(out, request.prepare(timestamp).unwrap());
}
