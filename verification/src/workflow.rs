//! The two calls of a run, one after the other: the certificate is
//! uploaded, and what the upload returns is deployed. The decisions are
//! taken here; sending is left to the caller.

use vstd::prelude::*;
use vstd::string::StringExecFns;
use crate::deploy_payload;
use crate::deploy_payload_text;
use crate::error::ApiError;
use crate::error::ApiErrorView;
use crate::service::envelope::decode_result;
use crate::service::envelope::response_outcome;
use crate::service::tc_request::RequestView;
use crate::service::tc_request::TencentCloudRequest;
use crate::ssl_request;
use crate::texts;
use crate::upload_payload;
use crate::upload_payload_text;
use crate::DeployCertificateData;
use crate::UploadCertificateData;

verus! {

/// What a run works with.
#[derive(Debug)]
pub struct CertificateJob {
    pub secret_id: String,
    pub secret_key: String,
    pub certificate_public_key: String,
    pub certificate_private_key: String,
    pub instance_id_list: Vec<String>,
    pub host: String,
}

/// The call whose answer a run waits for.
#[derive(Debug, Clone, Copy, PartialEq, Eq)]
pub enum Stage {
    Upload,
    Deploy,
}

/// What came back from the call that was sent.
#[derive(Debug)]
pub enum Event {
    /// The body of the response.
    Response(String),
    /// The call did not get through; the text is the cause.
    TransportFailure(String),
}

/// What a run does next.
#[derive(Debug)]
pub enum Step {
    /// Send the request and come back with what it brought.
    Send { stage: Stage, request: TencentCloudRequest },
    /// The certificate is deployed.
    Finished(DeployCertificateData),
    /// The run ends with an error. Nothing more is sent.
    Failed(ApiError),
}

impl CertificateJob {
    /// The request of the upload.
    pub open spec fn upload_request(&self) -> RequestView {
        ssl_request(
            self.secret_id@,
            self.secret_key@,
            self.host@,
            "UploadCertificate"@,
            upload_payload(self.certificate_public_key@, self.certificate_private_key@),
        )
    }

    /// The request of the deployment of the certificate `certificate_id`.
    pub open spec fn deploy_request(&self, certificate_id: Seq<char>) -> RequestView {
        ssl_request(
            self.secret_id@,
            self.secret_key@,
            self.host@,
            "DeployCertificateInstance"@,
            deploy_payload(certificate_id, texts(self.instance_id_list@)),
        )
    }

    /// Whether `step` is what follows `event` at `stage`: a call that did
    /// not get through, an answer that is no envelope and an error of the
    /// provider each end the run; the certificate that the upload returns
    /// is deployed; the deployment that succeeds ends the run well.
    pub open spec fn is_next(&self, stage: Stage, event: Event, step: Step) -> bool {
        match event {
            Event::TransportFailure(cause) => step matches Step::Failed(error) && error@
                == ApiErrorView::Transport(cause@),
            Event::Response(body) => match stage {
                Stage::Upload => match response_outcome::<UploadCertificateData>(body@) {
                    Ok(data) => step matches Step::Send { stage: next, request } && next
                        == Stage::Deploy && request@ == self.deploy_request(data.certificate_id),
                    Err(failure) => step matches Step::Failed(error) && error@ == failure,
                },
                Stage::Deploy => match response_outcome::<DeployCertificateData>(body@) {
                    Ok(data) => step matches Step::Finished(result) && result == data,
                    Err(failure) => step matches Step::Failed(error) && error@ == failure,
                },
            },
        }
    }

    /// The first step of a run: the upload is sent.
    pub fn start(&self) -> (step: Step)
        ensures
            step matches Step::Send { stage, request } && stage == Stage::Upload && request@
                == self.upload_request(),
    {
        let payload = upload_payload_text(
            self.certificate_public_key.as_str(),
            self.certificate_private_key.as_str(),
        );
        let request = TencentCloudRequest::new(
            self.secret_id.clone(),
            self.secret_key.clone(),
            String::from_str("ssl"),
            self.host.clone(),
            String::new(),
            String::from_str("UploadCertificate"),
            String::from_str("2019-12-05"),
            payload,
            String::new(),
        );
        Step::Send { stage: Stage::Upload, request }
    }

    /// The step that follows `event`, which is what the call of `stage`
    /// brought.
    pub fn advance(&self, stage: Stage, event: Event) -> (step: Step)
        ensures
            self.is_next(stage, event, step),
    {
        match event {
            Event::TransportFailure(cause) => Step::Failed(ApiError::Transport(cause)),
            Event::Response(body) => match stage {
                Stage::Upload => match decode_result::<UploadCertificateData>(body.as_str()) {
                    Ok(data) => {
                        let payload = deploy_payload_text(
                            data.certificate_id.as_str(),
                            &self.instance_id_list,
                        );
                        let request = TencentCloudRequest::new(
                            self.secret_id.clone(),
                            self.secret_key.clone(),
                            String::from_str("ssl"),
                            self.host.clone(),
                            String::new(),
                            String::from_str("DeployCertificateInstance"),
                            String::from_str("2019-12-05"),
                            payload,
                            String::new(),
                        );
                        Step::Send { stage: Stage::Deploy, request }
                    },
                    Err(error) => Step::Failed(error),
                },
                Stage::Deploy => match decode_result::<DeployCertificateData>(body.as_str()) {
                    Ok(data) => Step::Finished(data),
                    Err(error) => Step::Failed(error),
                },
            },
        }
    }
}

} // verus!
