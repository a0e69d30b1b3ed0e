//! Request signing for the Tencent Cloud API (TC3-HMAC-SHA256) and the
//! certificate upload and deployment calls built on it.

use vstd::prelude::*;
use vstd::string::StringExecFns;
use crate::json::find_member;
use crate::json::json_string;
use crate::json::lemma_member_skips;
use crate::json::member;
use crate::json::string_literal;
use crate::json::JsonMember;
use crate::json::JsonModel;
use crate::json::JsonValue;
use crate::json::MemberModel;
use crate::service::envelope::ResponseData;
use crate::service::tc_request::RequestView;
use crate::service::tc_request::TencentCloudRequest;

pub mod clock;
pub mod config;
pub mod digest;
pub mod encoding;
pub mod error;
pub mod json;
pub mod service;
pub mod text;
pub mod workflow;

verus! {

/// What a successful upload of a certificate returns.
#[derive(Debug)]
pub struct UploadCertificateData {
    pub certificate_id: String,
}

/// What a successful deployment of a certificate returns.
#[derive(Debug)]
pub struct DeployCertificateData {
    pub deploy_record_id: i64,
    pub deploy_status: i32,
}

/// The result of an upload as mathematics.
pub struct UploadView {
    pub certificate_id: Seq<char>,
}

impl View for UploadCertificateData {
    type V = UploadView;

    open spec fn view(&self) -> UploadView {
        UploadView { certificate_id: self.certificate_id@ }
    }
}

impl View for DeployCertificateData {
    type V = DeployCertificateData;

    open spec fn view(&self) -> DeployCertificateData {
        *self
    }
}

impl ResponseData for UploadCertificateData {
    open spec fn read(members: Seq<MemberModel>) -> Option<UploadView> {
        match member(members, "CertificateId"@) {
            Some(JsonModel::String(certificate_id)) => Some(UploadView { certificate_id }),
            _ => None,
        }
    }

    open spec fn written(data: UploadView) -> Seq<MemberModel> {
        seq![
            MemberModel { name: "CertificateId"@, value: JsonModel::String(data.certificate_id) },
        ]
    }

    fn from_members(members: &Vec<JsonMember>) -> (r: Option<Self>) {
        match find_member(members, "CertificateId") {
            Some(JsonValue::String(certificate_id)) => Some(
                UploadCertificateData { certificate_id: certificate_id.clone() },
            ),
            _ => None,
        }
    }

    fn to_members(&self) -> (members: Vec<JsonMember>) {
        let mut members: Vec<JsonMember> = Vec::new();
        members.push(
            JsonMember {
                name: String::from_str("CertificateId"),
                value: JsonValue::String(self.certificate_id.clone()),
            },
        );
        assert(crate::json::member_models(members@) =~= Self::written(self@));
        members
    }

    proof fn lemma_written_is_read(data: UploadView, before: Seq<MemberModel>) {
        reveal_strlit("CertificateId");
        reveal_strlit("Error");
        reveal_strlit("RequestId");
        assert("CertificateId"@.len() == 13 && "Error"@.len() == 5 && "RequestId"@.len() == 9);
        lemma_member_skips(before, Self::written(data), "CertificateId"@);
    }
}

impl ResponseData for DeployCertificateData {
    open spec fn read(members: Seq<MemberModel>) -> Option<DeployCertificateData> {
        match (member(members, "DeployRecordId"@), member(members, "DeployStatus"@)) {
            (Some(JsonModel::Integer(deploy_record_id)), Some(JsonModel::Integer(status))) => {
                if i32::MIN <= status <= i32::MAX {
                    Some(DeployCertificateData { deploy_record_id, deploy_status: status as i32 })
                } else {
                    None
                }
            },
            _ => None,
        }
    }

    open spec fn written(data: DeployCertificateData) -> Seq<MemberModel> {
        seq![
            MemberModel {
                name: "DeployRecordId"@,
                value: JsonModel::Integer(data.deploy_record_id),
            },
            MemberModel {
                name: "DeployStatus"@,
                value: JsonModel::Integer(data.deploy_status as i64),
            },
        ]
    }

    fn from_members(members: &Vec<JsonMember>) -> (r: Option<Self>) {
        match (find_member(members, "DeployRecordId"), find_member(members, "DeployStatus")) {
            (Some(JsonValue::Integer(deploy_record_id)), Some(JsonValue::Integer(status))) => {
                if -2147483648 <= *status && *status <= 2147483647 {
                    Some(
                        DeployCertificateData {
                            deploy_record_id: *deploy_record_id,
                            deploy_status: *status as i32,
                        },
                    )
                } else {
                    None
                }
            },
            _ => None,
        }
    }

    fn to_members(&self) -> (members: Vec<JsonMember>) {
        let mut members: Vec<JsonMember> = Vec::new();
        members.push(
            JsonMember {
                name: String::from_str("DeployRecordId"),
                value: JsonValue::Integer(self.deploy_record_id),
            },
        );
        members.push(
            JsonMember {
                name: String::from_str("DeployStatus"),
                value: JsonValue::Integer(self.deploy_status as i64),
            },
        );
        assert(crate::json::member_models(members@) =~= Self::written(self@));
        members
    }

    proof fn lemma_written_is_read(data: DeployCertificateData, before: Seq<MemberModel>) {
        reveal_strlit("DeployRecordId");
        reveal_strlit("DeployStatus");
        reveal_strlit("Error");
        reveal_strlit("RequestId");
        let written = Self::written(data);
        assert("DeployRecordId"@.len() == 14 && "DeployStatus"@.len() == 12 && "Error"@.len() == 5
            && "RequestId"@.len() == 9);
        lemma_member_skips(before, written, "DeployRecordId"@);
        lemma_member_skips(before, written, "DeployStatus"@);
        assert(member(written, "DeployStatus"@) == Some(
            JsonModel::Integer(data.deploy_status as i64),
        )) by {
            reveal_with_fuel(member, 3);
            assert(written.drop_first()[0] == written[1]);
        }
    }
}

/// The views of the texts of a list.
pub open spec fn texts(items: Seq<String>) -> Seq<Seq<char>> {
    items.map_values(|item: String| item@)
}

/// The JSON texts of the strings of a list, with commas between them.
pub open spec fn string_list(items: Seq<Seq<char>>) -> Seq<char>
    decreases items.len(),
{
    if items.len() == 0 {
        Seq::empty()
    } else if items.len() == 1 {
        json_string(items[0])
    } else {
        string_list(items.drop_last()) + ","@ + json_string(items.last())
    }
}

/// The payload of an upload: a JSON object of the private key, the
/// certificate and the use `teo`, its members in the order of their names.
pub open spec fn upload_payload(public_key: Seq<char>, private_key: Seq<char>) -> Seq<char> {
    "{\"CertificatePrivateKey\":"@ + json_string(private_key) + ",\"CertificatePublicKey\":"@
        + json_string(public_key) + ",\"CertificateUse\":\"teo\"}"@
}

/// The payload of a deployment: a JSON object of the certificate, the
/// instances and the resource type `teo`, its members in the order of
/// their names.
pub open spec fn deploy_payload(certificate_id: Seq<char>, instance_ids: Seq<Seq<char>>) -> Seq<
    char,
> {
    "{\"CertificateId\":"@ + json_string(certificate_id) + ",\"InstanceIdList\":["@ + string_list(
        instance_ids,
    ) + "],\"ResourceType\":\"teo\"}"@
}

/// A call of the certificate service: no region, no session token, the
/// version of that service.
pub open spec fn ssl_request(
    secret_id: Seq<char>,
    secret_key: Seq<char>,
    host: Seq<char>,
    action: Seq<char>,
    payload: Seq<char>,
) -> RequestView {
    RequestView {
        secret_id,
        secret_key,
        service: "ssl"@,
        host,
        region: Seq::empty(),
        action,
        version: "2019-12-05"@,
        payload,
        token: Seq::empty(),
    }
}

/// The payload of an upload of a certificate and its private key.
pub fn upload_payload_text(certificate_public_key: &str, certificate_private_key: &str) -> (payload:
    String)
    ensures
        payload@ == upload_payload(certificate_public_key@, certificate_private_key@),
{
    let mut payload = String::from_str("{\"CertificatePrivateKey\":");
    payload.append(string_literal(certificate_private_key).as_str());
    payload.append(",\"CertificatePublicKey\":");
    payload.append(string_literal(certificate_public_key).as_str());
    payload.append(",\"CertificateUse\":\"teo\"}");
    payload
}

/// The payload of a deployment of a certificate to instances.
pub fn deploy_payload_text(certificate_id: &str, instance_id_list: &Vec<String>) -> (payload: String)
    ensures
        payload@ == deploy_payload(certificate_id@, texts(instance_id_list@)),
{
    let ghost ids = texts(instance_id_list@);
    let mut list = String::new();
    let mut i: usize = 0;
    assert(ids.take(0) =~= Seq::<Seq<char>>::empty());
    while i < instance_id_list.len()
        invariant
            i <= instance_id_list@.len(),
            ids == texts(instance_id_list@),
            list@ == string_list(ids.take(i as int)),
        decreases instance_id_list@.len() - i,
    {
        if i > 0 {
            list.append(",");
        }
        list.append(string_literal(instance_id_list[i].as_str()).as_str());
        proof {
            let next = ids.take(i + 1);
            assert(next.drop_last() =~= ids.take(i as int));
            assert(next.last() == instance_id_list@[i as int]@);
            if i == 0 {
                assert(list@ =~= json_string(next[0]));
            }
        }
        i += 1;
    }
    assert(ids.take(i as int) =~= ids);
    let mut payload = String::from_str("{\"CertificateId\":");
    payload.append(string_literal(certificate_id).as_str());
    payload.append(",\"InstanceIdList\":[");
    payload.append(list.as_str());
    payload.append("],\"ResourceType\":\"teo\"}");
    payload
}

/// The request that uploads a certificate and its private key.
pub fn upload_certificate_request(
    secret_id: String,
    secret_key: String,
    certificate_public_key: String,
    certificate_private_key: String,
    host: String,
) -> (request: TencentCloudRequest)
    ensures
        request@ == ssl_request(
            secret_id@,
            secret_key@,
            host@,
            "UploadCertificate"@,
            upload_payload(certificate_public_key@, certificate_private_key@),
        ),
{
    let payload = upload_payload_text(
        certificate_public_key.as_str(),
        certificate_private_key.as_str(),
    );
    TencentCloudRequest::new(
        secret_id,
        secret_key,
        String::from_str("ssl"),
        host,
        String::new(),
        String::from_str("UploadCertificate"),
        String::from_str("2019-12-05"),
        payload,
        String::new(),
    )
}

/// The request that deploys an uploaded certificate to instances.
pub fn deploy_certificate_request(
    secret_id: String,
    secret_key: String,
    certificate_id: String,
    instance_id_list: Vec<String>,
    host: String,
) -> (request: TencentCloudRequest)
    ensures
        request@ == ssl_request(
            secret_id@,
            secret_key@,
            host@,
            "DeployCertificateInstance"@,
            deploy_payload(certificate_id@, texts(instance_id_list@)),
        ),
{
    let payload = deploy_payload_text(certificate_id.as_str(), &instance_id_list);
    TencentCloudRequest::new(
        secret_id,
        secret_key,
        String::from_str("ssl"),
        host,
        String::new(),
        String::from_str("DeployCertificateInstance"),
        String::from_str("2019-12-05"),
        payload,
        String::new(),
    )
}

} // verus!
