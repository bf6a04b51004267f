use crate::identifiers::{is_uuid_v4_text, new_uuid_text};
use crate::timestamps::{is_timestamp_text, local_timestamp};
use vstd::prelude::*;

verus! {

/// A consultation request as a visitor sends it.
pub struct ConsultationRequest {
    pub targeted_doctor: String,
    pub name: String,
    pub sur_name: String,
    pub email: String,
    pub phone_number: String,
    pub issue: String,
}

/// The answer to a consultation request: an error message, or the identifier
/// under which the consultation was stored.
pub struct ConsultationResponse {
    pub error: Option<String>,
    pub uuid: Option<String>,
}

/// A stored consultation.
pub struct Consultation {
    pub targeted_doctor: String,
    pub name: String,
    pub sur_name: String,
    pub email: String,
    pub phone_number: String,
    pub issue: String,
    pub time: String,
    pub uuid: String,
}

/// The answer to a request for all consultations.
pub struct GetConsultationsResponse {
    pub consultations: Option<Vec<Consultation>>,
}

/// A request for all consultations, made with an account token.
pub struct GetConsultationsRequest {
    pub token: String,
}

/// Reported when the targeted doctor is missing or too long.
pub const BAD_REQUEST_MESSAGE: &'static str = "Bad Request";

/// Reported when the name is empty or longer than 16 characters.
pub const NAME_MESSAGE: &'static str = "يجب ألا يكون اسمك فارغاً ويجب ألا يتجاوز 16 حرفاً!";

/// Reported when the family name is empty or longer than 16 characters.
pub const SUR_NAME_MESSAGE: &'static str = "يجب ألا يكون اسم العائلة فارغاً ويجب ألا يتجاوز 16 حرفاً!";

/// Reported when the e-mail address is empty or longer than 64 characters.
pub const EMAIL_MESSAGE: &'static str = "البريد الإلكتروني غير صالح، يجب أن يكون بريداً فعلياً وألا تكون خانة البريد فارغة ويجب ألا يتجاوز طول بريدك 64 حرفاً";

/// Reported when the phone number is empty or longer than 32 characters.
pub const PHONE_NUMBER_MESSAGE: &'static str = "يجب ألا يكون رقم الهاتف فارغاً ويجب ألا يتجاوز 32 حرفاً!";

/// Reported when the description of the issue is empty or longer than 1024
/// characters.
pub const ISSUE_MESSAGE: &'static str = "يجب ألا يكون وصف حالتك فارغاً ويجب ألا يتجاوز 1024 حرفاً!";

/// Reported when the server fails.
pub const SERVER_ERROR_MESSAGE: &'static str = "حدث خطأ بالخادم";

/// `field` is empty or longer than `max` characters.
pub open spec fn empty_or_longer(field: Seq<char>, max: nat) -> bool {
    field.len() == 0 || field.len() > max
}

/// The message for the first field of the request that is empty or too long,
/// in the order targeted doctor, name, family name, e-mail, phone, issue.
pub open spec fn consultation_problem(req: ConsultationRequest) -> Option<Seq<char>> {
    if empty_or_longer(req.targeted_doctor@, 64) {
        Some(BAD_REQUEST_MESSAGE@)
    } else if empty_or_longer(req.name@, 16) {
        Some(NAME_MESSAGE@)
    } else if empty_or_longer(req.sur_name@, 16) {
        Some(SUR_NAME_MESSAGE@)
    } else if empty_or_longer(req.email@, 64) {
        Some(EMAIL_MESSAGE@)
    } else if empty_or_longer(req.phone_number@, 32) {
        Some(PHONE_NUMBER_MESSAGE@)
    } else if empty_or_longer(req.issue@, 1024) {
        Some(ISSUE_MESSAGE@)
    } else {
        None
    }
}

/// Whether `field` is empty or longer than `max` characters.
fn is_empty_or_longer(field: &String, max: usize) -> (refused: bool)
    ensures
        refused == empty_or_longer(field@, max as nat),
{
    field.as_str().is_empty() || field.as_str().unicode_len() > max
}

/// Checks the fields of a consultation request.
pub fn validate_consultation(info: &ConsultationRequest) -> (outcome: Result<(), String>)
    ensures
        outcome is Ok <==> consultation_problem(*info) is None,
        outcome matches Err(message) ==> consultation_problem(*info) == Some(message@),
        outcome is Ok <==> (1 <= info.targeted_doctor@.len() <= 64 && 1 <= info.name@.len() <= 16
            && 1 <= info.sur_name@.len() <= 16 && 1 <= info.email@.len() <= 64 && 1
            <= info.phone_number@.len() <= 32 && 1 <= info.issue@.len() <= 1024),
{
    proof {
        lemma_consultation_length_rules(*info);
    }
    if is_empty_or_longer(&info.targeted_doctor, 64) {
        return Err(String::from_str(BAD_REQUEST_MESSAGE));
    }
    if is_empty_or_longer(&info.name, 16) {
        return Err(String::from_str(NAME_MESSAGE));
    }
    if is_empty_or_longer(&info.sur_name, 16) {
        return Err(String::from_str(SUR_NAME_MESSAGE));
    }
    if is_empty_or_longer(&info.email, 64) {
        return Err(String::from_str(EMAIL_MESSAGE));
    }
    if is_empty_or_longer(&info.phone_number, 32) {
        return Err(String::from_str(PHONE_NUMBER_MESSAGE));
    }
    if is_empty_or_longer(&info.issue, 1024) {
        return Err(String::from_str(ISSUE_MESSAGE));
    }
    Ok(())
}

/// `c` holds the fields of `info`, with `time` and `uuid`.
pub open spec fn consultation_of(c: Consultation, info: ConsultationRequest, time: Seq<char>, uuid: Seq<char>) -> bool {
    &&& c.targeted_doctor@ == info.targeted_doctor@
    &&& c.name@ == info.name@
    &&& c.sur_name@ == info.sur_name@
    &&& c.email@ == info.email@
    &&& c.phone_number@ == info.phone_number@
    &&& c.issue@ == info.issue@
    &&& c.time@ == time
    &&& c.uuid@ == uuid
}

/// The consultation to store for `info`, made at `time` under `uuid`.
pub fn build_consultation(info: &ConsultationRequest, time: String, uuid: String) -> (c: Consultation)
    ensures
        consultation_of(c, *info, time@, uuid@),
{
    Consultation {
        targeted_doctor: info.targeted_doctor.clone(),
        name: info.name.clone(),
        sur_name: info.sur_name.clone(),
        email: info.email.clone(),
        phone_number: info.phone_number.clone(),
        issue: info.issue.clone(),
        time,
        uuid,
    }
}

/// Checks a consultation request and, when it passes, makes the consultation
/// to store: stamped with the local time and a fresh random identifier.
pub fn new_consultation(info: &ConsultationRequest) -> (outcome: Result<Consultation, String>)
    ensures
        outcome is Ok <==> consultation_problem(*info) is None,
        outcome matches Err(message) ==> consultation_problem(*info) == Some(message@),
        outcome is Ok <==> (1 <= info.targeted_doctor@.len() <= 64 && 1 <= info.name@.len() <= 16
            && 1 <= info.sur_name@.len() <= 16 && 1 <= info.email@.len() <= 64 && 1
            <= info.phone_number@.len() <= 32 && 1 <= info.issue@.len() <= 1024),
        outcome matches Ok(c) ==> {
            &&& consultation_of(c, *info, c.time@, c.uuid@)
            &&& is_timestamp_text(c.time@)
            &&& is_uuid_v4_text(c.uuid@)
        },
{
    proof {
        lemma_consultation_length_rules(*info);
    }
    validate_consultation(info)?;
    let time = local_timestamp();
    let uuid = new_uuid_text();
    Ok(build_consultation(info, time, uuid))
}

/// The length rules of a consultation request, counted in characters: it is
/// accepted exactly when every field is non-empty and the doctor has at most
/// 64, the name and family name at most 16, the e-mail at most 64, the phone
/// number at most 32 and the issue at most 1024 characters. A field that
/// breaks its rule while every field before it keeps theirs is reported with
/// that field's message.
pub proof fn lemma_consultation_length_rules(req: ConsultationRequest)
    ensures
        consultation_problem(req) is None <==> (1 <= req.targeted_doctor@.len() <= 64 && 1
            <= req.name@.len() <= 16 && 1 <= req.sur_name@.len() <= 16 && 1 <= req.email@.len()
            <= 64 && 1 <= req.phone_number@.len() <= 32 && 1 <= req.issue@.len() <= 1024),
        (req.targeted_doctor@.len() == 0 || req.targeted_doctor@.len() > 64) ==> consultation_problem(
            req,
        ) == Some(BAD_REQUEST_MESSAGE@),
        1 <= req.targeted_doctor@.len() <= 64 && (req.name@.len() == 0 || req.name@.len() > 16)
            ==> consultation_problem(req) == Some(NAME_MESSAGE@),
        1 <= req.targeted_doctor@.len() <= 64 && 1 <= req.name@.len() <= 16 && (
        req.sur_name@.len() == 0 || req.sur_name@.len() > 16) ==> consultation_problem(req) == Some(
            SUR_NAME_MESSAGE@,
        ),
        1 <= req.targeted_doctor@.len() <= 64 && 1 <= req.name@.len() <= 16 && 1
            <= req.sur_name@.len() <= 16 && (req.email@.len() == 0 || req.email@.len() > 64)
            ==> consultation_problem(req) == Some(EMAIL_MESSAGE@),
        1 <= req.targeted_doctor@.len() <= 64 && 1 <= req.name@.len() <= 16 && 1
            <= req.sur_name@.len() <= 16 && 1 <= req.email@.len() <= 64 && (
        req.phone_number@.len() == 0 || req.phone_number@.len() > 32) ==> consultation_problem(req)
            == Some(PHONE_NUMBER_MESSAGE@),
        1 <= req.targeted_doctor@.len() <= 64 && 1 <= req.name@.len() <= 16 && 1
            <= req.sur_name@.len() <= 16 && 1 <= req.email@.len() <= 64 && 1
            <= req.phone_number@.len() <= 32 && (req.issue@.len() == 0 || req.issue@.len() > 1024)
            ==> consultation_problem(req) == Some(ISSUE_MESSAGE@),
{
}

impl ConsultationResponse {
    /// The answer for a stored consultation.
    pub fn accepted(uuid: String) -> (response: ConsultationResponse)
        ensures
            response.error is None,
            response.uuid == Some(uuid),
    {
        ConsultationResponse { error: None, uuid: Some(uuid) }
    }

    /// The answer for a refused consultation.
    pub fn refused(message: String) -> (response: ConsultationResponse)
        ensures
            response.error == Some(message),
            response.uuid is None,
    {
        ConsultationResponse { error: Some(message), uuid: None }
    }
}

} // verus!
