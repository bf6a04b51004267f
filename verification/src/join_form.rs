use crate::timestamps::{is_timestamp_text, local_timestamp};
use vstd::prelude::*;

verus! {

/// A request to join, as a visitor sends it.
pub struct JoinFormRequest {
    pub name: String,
    pub speciality: String,
    pub residence: String,
    pub phone_number: String,
    pub email: String,
    pub more: String,
}

/// The answer to a join request.
pub struct JoinFormResponse {
    pub success: bool,
    pub error: String,
}

/// The answer to a request for all join forms.
pub struct FormsResponse {
    pub forms: Option<Vec<Form>>,
}

/// A stored join form.
pub struct Form {
    pub name: String,
    pub speciality: String,
    pub residence: String,
    pub phone_number: String,
    pub email: String,
    pub more: String,
    pub time: String,
}

/// A request for all join forms, made with an account token.
pub struct GetFormsRequest {
    pub token: String,
}

/// Reported when the name is empty or longer than 32 characters.
pub const NAME_MESSAGE: &'static str = "يجب ألا يكون اسمك فارغاً ويجب ألا تتجاوز حروف اسمك 32 حرفاً!";

/// Reported when the speciality is empty or longer than 64 characters.
pub const SPECIALITY_MESSAGE: &'static str = "يجب ألا يكون تخصصك فارغاً ويجب ألا تتجاوز حروف تخصصك 64 حرفاً!";

/// Reported when the country of residence is empty or longer than 64
/// characters.
pub const RESIDENCE_MESSAGE: &'static str = "يجب ألا يكون البلد الذي تقيم فيه فارغاً ويجب ألا تتجاوز حروف البلد الذي تقيم فيه 64 حرفاً!";

/// Reported when the phone number is empty or longer than 64 characters.
pub const PHONE_NUMBER_MESSAGE: &'static str = "يجب ألا يكون رقم جوالك فارغاً ويجب ألا تتجاوز الأرقام المكونة لرقم جوالك 64 حرفاً!";

/// Reported when the e-mail address is empty or longer than 64 characters.
pub const EMAIL_MESSAGE: &'static str = "يجب ألا يكون بريدك الإلكتروني فارغاً ويجب ألا تتجاوز حروف بريدك الإلكتروني 64 حرفاً!";

/// Reported when the additional information is longer than 1000 characters.
pub const MORE_MESSAGE: &'static str = "يجب ألا تتجاوز حروف المعلومات الإضافية 1000 حرف!";

/// Reported when the server fails.
pub const SERVER_ERROR_MESSAGE: &'static str = "حدث خطأ بالخادم";

/// A field is refused when it is longer than `max_length` characters, or
/// empty while it is required.
pub open spec fn length_refused(field: Seq<char>, max_length: nat, neccesary: bool) -> bool {
    field.len() > max_length || (neccesary && field.len() == 0)
}

/// Checks the length of a field; on refusal, gives the failed answer with
/// `error_message`.
pub fn validate_length(field: &str, max_length: usize, neccesary: bool, error_message: &str) -> (refusal: Option<JoinFormResponse>)
    ensures
        refusal is Some <==> length_refused(field@, max_length as nat, neccesary),
        refusal matches Some(response) ==> !response.success && response.error@ == error_message@,
{
    let count = field.unicode_len();
    if count > max_length || (neccesary && count == 0) {
        return Some(JoinFormResponse { success: false, error: String::from_str(error_message) });
    }
    None
}

/// The message for the first refused field of the form, in the order name,
/// speciality, residence, phone, e-mail, additional information.
pub open spec fn join_form_problem(form: JoinFormRequest) -> Option<Seq<char>> {
    if length_refused(form.name@, 32, true) {
        Some(NAME_MESSAGE@)
    } else if length_refused(form.speciality@, 64, true) {
        Some(SPECIALITY_MESSAGE@)
    } else if length_refused(form.residence@, 64, true) {
        Some(RESIDENCE_MESSAGE@)
    } else if length_refused(form.phone_number@, 64, true) {
        Some(PHONE_NUMBER_MESSAGE@)
    } else if length_refused(form.email@, 64, true) {
        Some(EMAIL_MESSAGE@)
    } else if length_refused(form.more@, 1000, false) {
        Some(MORE_MESSAGE@)
    } else {
        None
    }
}

/// Checks every field of a join form, in order; gives the failed answer for
/// the first refused field.
pub fn validate_join_form(form: &JoinFormRequest) -> (refusal: Option<JoinFormResponse>)
    ensures
        refusal is Some <==> join_form_problem(*form) is Some,
        refusal matches Some(response) ==> {
            &&& !response.success
            &&& join_form_problem(*form) == Some(response.error@)
        },
        refusal is None <==> (1 <= form.name@.len() <= 32 && 1 <= form.speciality@.len() <= 64 && 1
            <= form.residence@.len() <= 64 && 1 <= form.phone_number@.len() <= 64 && 1
            <= form.email@.len() <= 64 && form.more@.len() <= 1000),
{
    proof {
        lemma_join_form_length_rules(*form);
    }
    if let Some(response) = validate_length(form.name.as_str(), 32, true, NAME_MESSAGE) {
        return Some(response);
    }
    if let Some(response) = validate_length(form.speciality.as_str(), 64, true, SPECIALITY_MESSAGE) {
        return Some(response);
    }
    if let Some(response) = validate_length(form.residence.as_str(), 64, true, RESIDENCE_MESSAGE) {
        return Some(response);
    }
    if let Some(response) = validate_length(form.phone_number.as_str(), 64, true, PHONE_NUMBER_MESSAGE) {
        return Some(response);
    }
    if let Some(response) = validate_length(form.email.as_str(), 64, true, EMAIL_MESSAGE) {
        return Some(response);
    }
    if let Some(response) = validate_length(form.more.as_str(), 1000, false, MORE_MESSAGE) {
        return Some(response);
    }
    None
}

/// `stored` holds the fields of `form`, with `time`.
pub open spec fn form_of(stored: Form, form: JoinFormRequest, time: Seq<char>) -> bool {
    &&& stored.name@ == form.name@
    &&& stored.speciality@ == form.speciality@
    &&& stored.residence@ == form.residence@
    &&& stored.phone_number@ == form.phone_number@
    &&& stored.email@ == form.email@
    &&& stored.more@ == form.more@
    &&& stored.time@ == time
}

/// The join form to store for `form`, made at `time`.
pub fn build_form(form: &JoinFormRequest, time: String) -> (stored: Form)
    ensures
        form_of(stored, *form, time@),
{
    Form {
        name: form.name.clone(),
        speciality: form.speciality.clone(),
        residence: form.residence.clone(),
        phone_number: form.phone_number.clone(),
        email: form.email.clone(),
        more: form.more.clone(),
        time,
    }
}

/// Checks a join form and, when it passes, makes the form to store, stamped
/// with the local time.
pub fn new_form(form: &JoinFormRequest) -> (outcome: Result<Form, JoinFormResponse>)
    ensures
        outcome is Ok <==> join_form_problem(*form) is None,
        outcome matches Err(response) ==> {
            &&& !response.success
            &&& join_form_problem(*form) == Some(response.error@)
        },
        outcome is Ok <==> (1 <= form.name@.len() <= 32 && 1 <= form.speciality@.len() <= 64 && 1
            <= form.residence@.len() <= 64 && 1 <= form.phone_number@.len() <= 64 && 1
            <= form.email@.len() <= 64 && form.more@.len() <= 1000),
        outcome matches Ok(stored) ==> form_of(stored, *form, stored.time@) && is_timestamp_text(
            stored.time@,
        ),
{
    proof {
        lemma_join_form_length_rules(*form);
    }
    if let Some(response) = validate_join_form(form) {
        return Err(response);
    }
    let time = local_timestamp();
    Ok(build_form(form, time))
}

/// The length rules of a join form, counted in characters: it is accepted
/// exactly when the name has 1 to 32 characters, the speciality, residence,
/// phone number and e-mail 1 to 64 each, and the additional information at
/// most 1000. A field that breaks its rule while every field before it keeps
/// theirs is reported with that field's message.
pub proof fn lemma_join_form_length_rules(form: JoinFormRequest)
    ensures
        join_form_problem(form) is None <==> (1 <= form.name@.len() <= 32 && 1
            <= form.speciality@.len() <= 64 && 1 <= form.residence@.len() <= 64 && 1
            <= form.phone_number@.len() <= 64 && 1 <= form.email@.len() <= 64 && form.more@.len()
            <= 1000),
        (form.name@.len() == 0 || form.name@.len() > 32) ==> join_form_problem(form) == Some(
            NAME_MESSAGE@,
        ),
        1 <= form.name@.len() <= 32 && (form.speciality@.len() == 0 || form.speciality@.len() > 64)
            ==> join_form_problem(form) == Some(SPECIALITY_MESSAGE@),
        1 <= form.name@.len() <= 32 && 1 <= form.speciality@.len() <= 64 && (
        form.residence@.len() == 0 || form.residence@.len() > 64) ==> join_form_problem(form)
            == Some(RESIDENCE_MESSAGE@),
        1 <= form.name@.len() <= 32 && 1 <= form.speciality@.len() <= 64 && 1
            <= form.residence@.len() <= 64 && (form.phone_number@.len() == 0
            || form.phone_number@.len() > 64) ==> join_form_problem(form) == Some(
            PHONE_NUMBER_MESSAGE@,
        ),
        1 <= form.name@.len() <= 32 && 1 <= form.speciality@.len() <= 64 && 1
            <= form.residence@.len() <= 64 && 1 <= form.phone_number@.len() <= 64 && (
        form.email@.len() == 0 || form.email@.len() > 64) ==> join_form_problem(form) == Some(
            EMAIL_MESSAGE@,
        ),
        1 <= form.name@.len() <= 32 && 1 <= form.speciality@.len() <= 64 && 1
            <= form.residence@.len() <= 64 && 1 <= form.phone_number@.len() <= 64 && 1
            <= form.email@.len() <= 64 && form.more@.len() > 1000 ==> join_form_problem(form)
            == Some(MORE_MESSAGE@),
{
}

impl JoinFormResponse {
    /// The answer for a stored form.
    pub fn stored() -> (response: JoinFormResponse)
        ensures
            response.success,
            response.error@ == Seq::<char>::empty(),
    {
        JoinFormResponse { success: true, error: String::new() }
    }

    /// The answer when the server fails to store the form.
    pub fn server_error() -> (response: JoinFormResponse)
        ensures
            !response.success,
            response.error@ == SERVER_ERROR_MESSAGE@,
    {
        JoinFormResponse { success: false, error: String::from_str(SERVER_ERROR_MESSAGE) }
    }
}

} // verus!
