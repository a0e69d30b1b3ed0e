use tc_eo_ssl::error::ApiError;
use tc_eo_ssl::json::JsonMember;
use tc_eo_ssl::json::JsonValue;
use tc_eo_ssl::service::envelope::decode_result;
use tc_eo_ssl::service::tc_request::TencentCloudResponse;
use tc_eo_ssl::service::tc_request::TencentCloudResponseDeatil;
use tc_eo_ssl::service::tc_request::TencentCloudResponseError;
use tc_eo_ssl::DeployCertificateData;
use tc_eo_ssl::UploadCertificateData;

fn member(name: &str, value: JsonValue) -> JsonMember {
    JsonMember { name: name.to_string(), value }
}

fn text(value: &str) -> JsonValue {
    JsonValue::String(value.to_string())
}

#[test]
fn decoding_an_error_gives_the_code_and_the_message() {
    let body = "{\"Response\":{\"Error\":{\"Code\":\"AuthFailure.SignatureFailure\",\"Message\":\"bad sig\"},\"RequestId\":\"r1\"}}";
    let envelope = TencentCloudResponse::<UploadCertificateData>::decode(body).unwrap();
    assert_eq!(envelope.response.request_id, "r1");
    assert!(envelope.response.data.is_none());
    let error = envelope.response.error.as_ref().unwrap();
    assert_eq!(error.code, "AuthFailure.SignatureFailure");
    assert_eq!(error.message, "bad sig");
    assert_eq!(error.to_string(), "AuthFailure.SignatureFailure: bad sig");
    let r = decode_result::<UploadCertificateData>(body);
    match r {
        Err(error) => assert_eq!(
            error,
            ApiError::Application {
                code: "AuthFailure.SignatureFailure".to_string(),
                message: "bad sig".to_string(),
            }
        ),
        Ok(_) => panic!("an error response gave a result"),
    }
    let r = decode_result::<DeployCertificateData>(body);
    assert!(matches!(r, Err(ApiError::Application { .. })));
}

#[test]
fn decoding_an_upload_gives_the_certificate_id() {
    let body = "{\"Response\":{\"RequestId\":\"r1\",\"CertificateId\":\"cert-123\"}}";
    let envelope = TencentCloudResponse::<UploadCertificateData>::decode(body).unwrap();
    assert!(envelope.response.error.is_none());
    assert_eq!(envelope.response.request_id, "r1");
    assert_eq!(envelope.response.data.as_ref().unwrap().certificate_id, "cert-123");
    let data = decode_result::<UploadCertificateData>(body).unwrap();
    assert_eq!(data.certificate_id, "cert-123");
}

#[test]
fn decoding_a_deployment_gives_the_record_and_the_status() {
    let body = " { \"Response\" : { \"DeployStatus\": 1, \"DeployRecordId\": 9007199254740993, \"RequestId\": \"r2\", \"Other\": [1.5, null, true] } } ";
    let data = decode_result::<DeployCertificateData>(body).unwrap();
    assert_eq!(data.deploy_record_id, 9007199254740993);
    assert_eq!(data.deploy_status, 1);
    let body = "{\"Response\":{\"RequestId\":\"r\",\"DeployRecordId\":-1,\"DeployStatus\":-2147483648}}";
    let data = decode_result::<DeployCertificateData>(body).unwrap();
    assert_eq!(data.deploy_record_id, -1);
    assert_eq!(data.deploy_status, i32::MIN);
}

#[test]
fn a_body_that_is_no_json_is_a_parse_error() {
    for body in ["", "<html>502</html>", "{\"Response\":", "{} {}", "nul"] {
        assert_eq!(
            decode_result::<UploadCertificateData>(body).err(),
            Some(ApiError::Parse)
        );
        assert!(TencentCloudResponse::<UploadCertificateData>::decode(body).is_err());
    }
}

#[test]
fn json_that_is_no_envelope_is_a_parse_error() {
    for body in [
        "null",
        "[]",
        "\"Response\"",
        "{}",
        "{\"Response\":null}",
        "{\"Response\":[]}",
        "{\"response\":{\"RequestId\":\"r\",\"CertificateId\":\"c\"}}",
        "{\"Response\":{\"CertificateId\":\"c\"}}",
        "{\"Response\":{\"RequestId\":7,\"CertificateId\":\"c\"}}",
        "{\"Response\":{\"RequestId\":\"r\",\"Error\":\"oops\"}}",
        "{\"Response\":{\"RequestId\":\"r\",\"Error\":{\"Code\":\"c\"}}}",
        "{\"Response\":{\"RequestId\":\"r\",\"Error\":{\"Code\":1,\"Message\":\"m\"}}}",
    ] {
        assert_eq!(
            TencentCloudResponse::<UploadCertificateData>::decode(body).err(),
            Some(ApiError::Parse),
            "{}",
            body
        );
    }
}

#[test]
fn an_envelope_without_error_and_result_is_a_parse_error() {
    let body = "{\"Response\":{\"RequestId\":\"r1\"}}";
    let envelope = TencentCloudResponse::<UploadCertificateData>::decode(body).unwrap();
    assert!(envelope.response.error.is_none());
    assert!(envelope.response.data.is_none());
    assert_eq!(envelope.into_result().err(), Some(ApiError::Parse));
    for body in [
        "{\"Response\":{\"RequestId\":\"r1\",\"CertificateId\":5}}",
        "{\"Response\":{\"RequestId\":\"r1\",\"certificateid\":\"c\"}}",
    ] {
        assert_eq!(decode_result::<UploadCertificateData>(body).err(), Some(ApiError::Parse));
    }
    for body in [
        "{\"Response\":{\"RequestId\":\"r1\",\"DeployRecordId\":1}}",
        "{\"Response\":{\"RequestId\":\"r1\",\"DeployRecordId\":1,\"DeployStatus\":2147483648}}",
        "{\"Response\":{\"RequestId\":\"r1\",\"DeployRecordId\":1.0,\"DeployStatus\":0}}",
        "{\"Response\":{\"RequestId\":\"r1\",\"DeployRecordId\":9223372036854775808,\"DeployStatus\":0}}",
        "{\"Response\":{\"RequestId\":\"r1\",\"DeployRecordId\":\"1\",\"DeployStatus\":0}}",
    ] {
        assert_eq!(
            decode_result::<DeployCertificateData>(body).err(),
            Some(ApiError::Parse),
            "{}",
            body
        );
    }
}

#[test]
fn a_null_error_is_no_error() {
    let body = "{\"Response\":{\"Error\":null,\"RequestId\":\"r1\",\"CertificateId\":\"c\"}}";
    let data = decode_result::<UploadCertificateData>(body).unwrap();
    assert_eq!(data.certificate_id, "c");
}

#[test]
fn an_error_wins_over_a_result() {
    let body = "{\"Response\":{\"CertificateId\":\"c\",\"Error\":{\"Code\":\"E\",\"Message\":\"\",\"Extra\":1},\"RequestId\":\"\"}}";
    let envelope = TencentCloudResponse::<UploadCertificateData>::decode(body).unwrap();
    assert_eq!(envelope.response.data.as_ref().unwrap().certificate_id, "c");
    assert_eq!(
        envelope.into_result().err(),
        Some(ApiError::Application { code: "E".to_string(), message: "".to_string() })
    );
}

#[test]
fn strings_are_unescaped() {
    let body = "{\"Response\":{\"RequestId\":\"r\\n1\",\"CertificateId\":\"c\\u00e9\\\"\\\\\"}}";
    let envelope = TencentCloudResponse::<UploadCertificateData>::decode(body).unwrap();
    assert_eq!(envelope.response.request_id, "r\n1");
    assert_eq!(envelope.response.data.unwrap().certificate_id, "cé\"\\");
}

#[test]
fn from_json_reads_a_document() {
    let document = JsonValue::Object(vec![
        member("Other", JsonValue::Array(vec![JsonValue::Null, JsonValue::Bool(true)])),
        member(
            "Response",
            JsonValue::Object(vec![
                member("DeployStatus", JsonValue::Integer(3)),
                member("RequestId", text("r9")),
                member("DeployRecordId", JsonValue::Integer(77)),
                member("Fraction", JsonValue::Number("1.5".to_string())),
            ]),
        ),
    ]);
    let envelope = TencentCloudResponse::<DeployCertificateData>::from_json(&document).unwrap();
    assert_eq!(envelope.response.request_id, "r9");
    let data = envelope.into_result().unwrap();
    assert_eq!(data.deploy_record_id, 77);
    assert_eq!(data.deploy_status, 3);
    assert!(TencentCloudResponse::<DeployCertificateData>::from_json(&JsonValue::Null).is_none());
    assert!(TencentCloudResponse::<DeployCertificateData>::from_json(&text("x")).is_none());
}

#[test]
fn from_json_takes_the_first_member_of_a_name() {
    let document = JsonValue::Object(vec![member(
        "Response",
        JsonValue::Object(vec![
            member("RequestId", text("first")),
            member("RequestId", text("second")),
            member("CertificateId", text("c1")),
            member("CertificateId", JsonValue::Integer(2)),
        ]),
    )]);
    let envelope = TencentCloudResponse::<UploadCertificateData>::from_json(&document).unwrap();
    assert_eq!(envelope.response.request_id, "first");
    assert_eq!(envelope.response.data.unwrap().certificate_id, "c1");
}

#[test]
fn to_json_writes_the_envelope() {
    let envelope = TencentCloudResponse {
        response: TencentCloudResponseDeatil {
            error: Some(TencentCloudResponseError {
                code: "E".to_string(),
                message: "m".to_string(),
            }),
            request_id: "r".to_string(),
            data: Some(DeployCertificateData { deploy_record_id: 5, deploy_status: -1 }),
        },
    };
    assert_eq!(
        envelope.to_json(),
        JsonValue::Object(vec![member(
            "Response",
            JsonValue::Object(vec![
                member(
                    "Error",
                    JsonValue::Object(vec![member("Code", text("E")), member("Message", text("m"))])
                ),
                member("RequestId", text("r")),
                member("DeployRecordId", JsonValue::Integer(5)),
                member("DeployStatus", JsonValue::Integer(-1)),
            ]),
        )])
    );
}

#[test]
fn round_trip_without_an_error_gives_the_result() {
    let envelope = TencentCloudResponse {
        response: TencentCloudResponseDeatil {
            error: None,
            request_id: "req-1".to_string(),
            data: Some(UploadCertificateData { certificate_id: "cert-\"9\"".to_string() }),
        },
    };
    let read = TencentCloudResponse::<UploadCertificateData>::from_json(&envelope.to_json()).unwrap();
    assert!(read.response.error.is_none());
    assert_eq!(read.response.request_id, "req-1");
    assert_eq!(read.into_result().unwrap().certificate_id, "cert-\"9\"");

    let envelope = TencentCloudResponse {
        response: TencentCloudResponseDeatil {
            error: None,
            request_id: "".to_string(),
            data: Some(DeployCertificateData { deploy_record_id: i64::MIN, deploy_status: i32::MAX }),
        },
    };
    let read = TencentCloudResponse::<DeployCertificateData>::from_json(&envelope.to_json()).unwrap();
    let data = read.into_result().unwrap();
    assert_eq!(data.deploy_record_id, i64::MIN);
    assert_eq!(data.deploy_status, i32::MAX);
}

#[test]
fn round_trip_with_an_error_gives_the_error() {
    for data in [None, Some("cert")] {
        let envelope = TencentCloudResponse {
            response: TencentCloudResponseDeatil {
                error: Some(TencentCloudResponseError {
                    code: "FailedOperation".to_string(),
                    message: "no".to_string(),
                }),
                request_id: "req-2".to_string(),
                data: data.map(|id| UploadCertificateData { certificate_id: id.to_string() }),
            },
        };
        let read =
            TencentCloudResponse::<UploadCertificateData>::from_json(&envelope.to_json()).unwrap();
        assert_eq!(read.response.request_id, "req-2");
        assert_eq!(
            read.into_result().err(),
            Some(ApiError::Application {
                code: "FailedOperation".to_string(),
                message: "no".to_string(),
            })
        );
    }
}

#[test]
fn error_to_string_joins_code_and_message() {
    let error = TencentCloudResponseError { code: "".to_string(), message: "".to_string() };
    assert_eq!(error.to_string(), ": ");
    let error = TencentCloudResponseError {
        code: "InvalidParameter".to_string(),
        message: "证书无效: x".to_string(),
    };
    assert_eq!(error.to_string(), "InvalidParameter: 证书无效: x");
}
