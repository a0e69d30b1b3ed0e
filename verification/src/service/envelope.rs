//! The envelope of a response as JSON: how it is read from a document and
//! written as one, for any shape of result.

use vstd::prelude::*;
use vstd::string::StringExecFns;
use crate::error::ApiError;
use crate::error::ApiErrorView;
use crate::json::find_member;
use crate::json::json_document;
use crate::json::lemma_member_found_first;
use crate::json::lemma_member_skips;
use crate::json::lemma_object_view;
use crate::json::member;
use crate::json::member_models;
use crate::json::parse_document;
use crate::json::JsonMember;
use crate::json::JsonModel;
use crate::json::JsonValue;
use crate::json::MemberModel;
use crate::service::tc_request::DetailView;
use crate::service::tc_request::ErrorView;
use crate::service::tc_request::TencentCloudResponse;
use crate::service::tc_request::TencentCloudResponseDeatil;
use crate::service::tc_request::TencentCloudResponseError;

verus! {

/// Whether `name` is one of the two member names that belong to the
/// envelope itself.
pub open spec fn is_envelope_name(name: Seq<char>) -> bool {
    name == "Error"@ || name == "RequestId"@
}

/// The result of one operation, whose fields stand in the response object
/// beside those of the envelope.
pub trait ResponseData: Sized + View {
    /// The result that the members of a response object hold; `None` where
    /// they hold none.
    spec fn read(members: Seq<MemberModel>) -> Option<Self::V>;

    /// The members that hold a result.
    spec fn written(data: Self::V) -> Seq<MemberModel>;

    /// Reads the result from the members of a response object.
    fn from_members(members: &Vec<JsonMember>) -> (r: Option<Self>)
        ensures
            r is Some <==> Self::read(member_models(members@)) is Some,
            r matches Some(data) ==> Self::read(member_models(members@)) == Some(data@),
    ;

    /// The members that hold this result.
    fn to_members(&self) -> (members: Vec<JsonMember>)
        ensures
            member_models(members@) == Self::written(self@),
    ;

    /// What is written is read back, also after members of the envelope,
    /// and its names are none of the envelope's.
    proof fn lemma_written_is_read(data: Self::V, before: Seq<MemberModel>)
        requires
            forall|i: int| 0 <= i < before.len() ==> is_envelope_name((#[trigger] before[i]).name),
        ensures
            Self::read(before + Self::written(data)) == Some(data),
            forall|i: int|
                0 <= i < Self::written(data).len() ==> !is_envelope_name(
                    (#[trigger] Self::written(data)[i]).name,
                ),
    ;
}

/// The error that the value of an `Error` member holds.
pub open spec fn read_error(value: JsonModel) -> Option<ErrorView> {
    match value {
        JsonModel::Object(members) => match (member(members, "Code"@), member(members, "Message"@)) {
            (Some(JsonModel::String(code)), Some(JsonModel::String(message))) => Some(
                ErrorView { code, message },
            ),
            _ => None,
        },
        _ => None,
    }
}

/// The envelope that the members of a response object hold: the id of the
/// request is required, the error may be missing or null, and the result
/// is read where the members hold one.
pub open spec fn read_members<T: ResponseData>(members: Seq<MemberModel>) -> Option<
    DetailView<T::V>,
> {
    match member(members, "RequestId"@) {
        Some(JsonModel::String(request_id)) => match member(members, "Error"@) {
            None | Some(JsonModel::Null) => Some(
                DetailView { error: None, request_id, data: T::read(members) },
            ),
            Some(value) => match read_error(value) {
                Some(error) => Some(
                    DetailView { error: Some(error), request_id, data: T::read(members) },
                ),
                None => None,
            },
        },
        _ => None,
    }
}

/// The envelope that a JSON document holds: an object whose member
/// `Response` is the response object.
pub open spec fn read_envelope<T: ResponseData>(document: JsonModel) -> Option<DetailView<T::V>> {
    match document {
        JsonModel::Object(top) => match member(top, "Response"@) {
            Some(JsonModel::Object(members)) => read_members::<T>(members),
            _ => None,
        },
        _ => None,
    }
}

/// The envelope that the text of a response body holds.
pub open spec fn decoded<T: ResponseData>(body: Seq<char>) -> Option<DetailView<T::V>> {
    match json_document(body) {
        Some(document) => read_envelope::<T>(document),
        None => None,
    }
}

/// What an envelope means for the caller: the provider's error where there
/// is one, whatever else the envelope holds; else the result; and an
/// envelope with neither is malformed.
pub open spec fn outcome<V>(envelope: DetailView<V>) -> Result<V, ApiErrorView> {
    match envelope.error {
        Some(error) => Err(ApiErrorView::Application { code: error.code, message: error.message }),
        None => match envelope.data {
            Some(data) => Ok(data),
            None => Err(ApiErrorView::Parse),
        },
    }
}

/// What the text of a response body means for the caller.
pub open spec fn response_outcome<T: ResponseData>(body: Seq<char>) -> Result<T::V, ApiErrorView> {
    match decoded::<T>(body) {
        Some(envelope) => outcome(envelope),
        None => Err(ApiErrorView::Parse),
    }
}

/// The value of the `Error` member that holds an error.
pub open spec fn written_error(error: ErrorView) -> JsonModel {
    JsonModel::Object(
        seq![
            MemberModel { name: "Code"@, value: JsonModel::String(error.code) },
            MemberModel { name: "Message"@, value: JsonModel::String(error.message) },
        ],
    )
}

/// The members of the envelope itself: the error, where there is one, and
/// the id of the request.
pub open spec fn written_head(error: Option<ErrorView>, request_id: Seq<char>) -> Seq<MemberModel> {
    let id = MemberModel { name: "RequestId"@, value: JsonModel::String(request_id) };
    match error {
        Some(error) => seq![MemberModel { name: "Error"@, value: written_error(error) }, id],
        None => seq![id],
    }
}

/// The members of the response object of an envelope: those of the
/// envelope itself, then those of the result.
pub open spec fn written_members<T: ResponseData>(envelope: DetailView<T::V>) -> Seq<MemberModel> {
    match envelope.data {
        Some(data) => written_head(envelope.error, envelope.request_id) + T::written(data),
        None => written_head(envelope.error, envelope.request_id),
    }
}

/// The JSON document of an envelope.
pub open spec fn written_envelope<T: ResponseData>(envelope: DetailView<T::V>) -> JsonModel {
    JsonModel::Object(
        seq![
            MemberModel {
                name: "Response"@,
                value: JsonModel::Object(written_members::<T>(envelope)),
            },
        ],
    )
}

fn text_of(value: Option<&JsonValue>) -> (r: Option<String>)
    ensures
        match r {
            Some(text) => value matches Some(json) && json@ == JsonModel::String(text@),
            None => !(value matches Some(json) && json@ is String),
        },
{
    match value {
        Some(JsonValue::String(text)) => Some(text.clone()),
        _ => None,
    }
}

fn error_from_json(value: &JsonValue) -> (r: Option<TencentCloudResponseError>)
    ensures
        r is Some <==> read_error(value@) is Some,
        r matches Some(error) ==> read_error(value@) == Some(error@),
{
    match value {
        JsonValue::Object(members) => {
            proof {
                lemma_object_view(*members);
            }
            let code = text_of(find_member(members, "Code"));
            let message = text_of(find_member(members, "Message"));
            match (code, message) {
                (Some(code), Some(message)) => Some(TencentCloudResponseError { code, message }),
                _ => None,
            }
        },
        _ => None,
    }
}

fn detail_from_members<T: ResponseData>(members: &Vec<JsonMember>) -> (r: Option<
    TencentCloudResponseDeatil<T>,
>)
    ensures
        r is Some <==> read_members::<T>(member_models(members@)) is Some,
        r matches Some(detail) ==> read_members::<T>(member_models(members@)) == Some(detail@),
{
    let request_id = match text_of(find_member(members, "RequestId")) {
        Some(request_id) => request_id,
        None => {
            return None;
        },
    };
    let error = match find_member(members, "Error") {
        None => None,
        Some(JsonValue::Null) => None,
        Some(value) => match error_from_json(value) {
            Some(error) => Some(error),
            None => {
                return None;
            },
        },
    };
    let data = T::from_members(members);
    Some(TencentCloudResponseDeatil { error, request_id, data })
}

impl<T: ResponseData> TencentCloudResponse<T> {
    /// The envelope that a JSON document holds.
    pub fn from_json(document: &JsonValue) -> (r: Option<Self>)
        ensures
            r is Some <==> read_envelope::<T>(document@) is Some,
            r matches Some(envelope) ==> read_envelope::<T>(document@) == Some(envelope@),
    {
        match document {
            JsonValue::Object(top) => {
                proof {
                    lemma_object_view(*top);
                }
                match find_member(top, "Response") {
                    Some(JsonValue::Object(members)) => {
                        proof {
                            lemma_object_view(*members);
                        }
                        match detail_from_members::<T>(members) {
                            Some(response) => Some(TencentCloudResponse { response }),
                            None => None,
                        }
                    },
                    _ => None,
                }
            },
            _ => None,
        }
    }

    /// The JSON document of the envelope.
    pub fn to_json(&self) -> (document: JsonValue)
        ensures
            document@ == written_envelope::<T>(self@),
    {
        let mut members: Vec<JsonMember> = Vec::new();
        match &self.response.error {
            Some(error) => {
                let mut fields: Vec<JsonMember> = Vec::new();
                fields.push(
                    JsonMember {
                        name: String::from_str("Code"),
                        value: JsonValue::String(error.code.clone()),
                    },
                );
                fields.push(
                    JsonMember {
                        name: String::from_str("Message"),
                        value: JsonValue::String(error.message.clone()),
                    },
                );
                proof {
                    lemma_object_view(fields);
                    assert(member_models(fields@) =~= written_error(error@)->Object_0);
                }
                members.push(
                    JsonMember { name: String::from_str("Error"), value: JsonValue::Object(fields) },
                );
            },
            None => {},
        }
        members.push(
            JsonMember {
                name: String::from_str("RequestId"),
                value: JsonValue::String(self.response.request_id.clone()),
            },
        );
        assert(member_models(members@) =~= written_head(self@.error, self@.request_id));
        match &self.response.data {
            Some(data) => {
                let mut rest = data.to_members();
                let ghost head = members@;
                let ghost tail = rest@;
                members.append(&mut rest);
                assert(member_models(members@) =~= member_models(head) + member_models(tail));
            },
            None => {},
        }
        proof {
            lemma_object_view(members);
        }
        let mut top: Vec<JsonMember> = Vec::new();
        top.push(JsonMember { name: String::from_str("Response"), value: JsonValue::Object(members) });
        proof {
            lemma_object_view(top);
            assert(member_models(top@) =~= written_envelope::<T>(self@)->Object_0);
        }
        JsonValue::Object(top)
    }

    /// Reads the envelope from the text of a response body. A body that is
    /// no JSON document, or one that does not hold an envelope, is a parse
    /// error.
    pub fn decode(body: &str) -> (r: Result<Self, ApiError>)
        ensures
            match r {
                Ok(envelope) => decoded::<T>(body@) == Some(envelope@),
                Err(error) => error@ == ApiErrorView::Parse && decoded::<T>(body@) is None,
            },
    {
        match parse_document(body) {
            Some(document) => match Self::from_json(&document) {
                Some(envelope) => Ok(envelope),
                None => Err(ApiError::Parse),
            },
            None => Err(ApiError::Parse),
        }
    }

    /// What the envelope means for the caller: the result of the call, or
    /// the error that the call ends with.
    pub fn into_result(self) -> (r: Result<T, ApiError>)
        ensures
            match r {
                Ok(data) => outcome(self@) == Ok::<T::V, ApiErrorView>(data@),
                Err(error) => outcome(self@) == Err::<T::V, ApiErrorView>(error@),
            },
    {
        match self.response.error {
            Some(error) => Err(ApiError::Application { code: error.code, message: error.message }),
            None => match self.response.data {
                Some(data) => Ok(data),
                None => Err(ApiError::Parse),
            },
        }
    }
}

/// Reads the text of a response body and says what it means for the
/// caller: the result of the call, the provider's error, or a parse error.
pub fn decode_result<T: ResponseData>(body: &str) -> (r: Result<T, ApiError>)
    ensures
        match r {
            Ok(data) => response_outcome::<T>(body@) == Ok::<T::V, ApiErrorView>(data@),
            Err(error) => response_outcome::<T>(body@) == Err::<T::V, ApiErrorView>(error@),
        },
{
    match TencentCloudResponse::<T>::decode(body) {
        Ok(envelope) => envelope.into_result(),
        Err(error) => Err(error),
    }
}

/// A list without a member of the given name holds no value for it.
pub proof fn lemma_member_absent(members: Seq<MemberModel>, name: Seq<char>)
    requires
        forall|i: int| 0 <= i < members.len() ==> (#[trigger] members[i]).name != name,
    ensures
        member(members, name) is None,
{
    lemma_member_skips(members, Seq::empty(), name);
    assert(members + Seq::<MemberModel>::empty() =~= members);
}

/// Reading what was written for an envelope gives its error and the id of
/// its request again, and its result where it has one.
pub proof fn lemma_envelope_is_read<T: ResponseData>(envelope: DetailView<T::V>)
    ensures
        read_envelope::<T>(written_envelope::<T>(envelope)) matches Some(read) && read.error
            == envelope.error && read.request_id == envelope.request_id && (envelope.data is Some
            ==> read.data == envelope.data),
{
    reveal_strlit("Response");
    reveal_strlit("Error");
    reveal_strlit("RequestId");
    reveal_strlit("Code");
    reveal_strlit("Message");
    assert("Response"@.len() == 8 && "Error"@.len() == 5 && "RequestId"@.len() == 9 && "Code"@.len()
        == 4 && "Message"@.len() == 7);
    let head = written_head(envelope.error, envelope.request_id);
    let members = written_members::<T>(envelope);
    let top = written_envelope::<T>(envelope)->Object_0;
    assert(member(top, "Response"@) == Some(JsonModel::Object(members)));
    assert(head.len() > 0);
    // In the envelope's own members.
    assert(member(head, "RequestId"@) == Some(JsonModel::String(envelope.request_id))) by {
        reveal_with_fuel(member, 3);
        if envelope.error is Some {
            assert(head.drop_first()[0] == head[1]);
        }
    }
    match envelope.error {
        Some(error) => {
            assert(member(head, "Error"@) == Some(written_error(error)));
            let fields = written_error(error)->Object_0;
            assert(member(fields, "Code"@) == Some(JsonModel::String(error.code)));
            assert(member(fields, "Message"@) == Some(JsonModel::String(error.message))) by {
                reveal_with_fuel(member, 3);
                assert(fields.drop_first()[0] == fields[1]);
            }
            assert(read_error(written_error(error)) == Some(error));
        },
        None => {
            lemma_member_absent(head, "Error"@);
        },
    }
    // Behind them stand the members of the result.
    match envelope.data {
        Some(data) => {
            let tail = T::written(data);
            T::lemma_written_is_read(data, head);
            lemma_member_found_first(head, tail, "RequestId"@);
            if envelope.error is Some {
                lemma_member_found_first(head, tail, "Error"@);
            } else {
                lemma_member_skips(head, tail, "Error"@);
                lemma_member_absent(tail, "Error"@);
            }
        },
        None => {},
    }
}

/// An envelope without an error that is written and read again gives the
/// result that it held.
pub proof fn lemma_success_round_trip<T: ResponseData>(envelope: DetailView<T::V>)
    requires
        envelope.error is None,
        envelope.data is Some,
    ensures
        read_envelope::<T>(written_envelope::<T>(envelope)) == Some(envelope),
        outcome(read_envelope::<T>(written_envelope::<T>(envelope))->0) == Ok::<T::V, ApiErrorView>(
            envelope.data->0,
        ),
{
    lemma_envelope_is_read::<T>(envelope);
}

/// An envelope with an error that is written and read again gives that
/// error, whether or not it held a result as well.
pub proof fn lemma_error_round_trip<T: ResponseData>(envelope: DetailView<T::V>)
    requires
        envelope.error is Some,
    ensures
        read_envelope::<T>(written_envelope::<T>(envelope)) is Some,
        outcome(read_envelope::<T>(written_envelope::<T>(envelope))->0) == Err::<
            T::V,
            ApiErrorView,
        >(
            ApiErrorView::Application {
                code: envelope.error->0.code,
                message: envelope.error->0.message,
            },
        ),
{
    lemma_envelope_is_read::<T>(envelope);
}

} // verus!
