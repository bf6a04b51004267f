use consult_portal::consultations::{
    build_consultation, new_consultation, validate_consultation, ConsultationRequest,
    ConsultationResponse,
};
use consult_portal::join_form::{
    build_form, new_form, validate_join_form, validate_length, JoinFormRequest, JoinFormResponse,
};

fn repeat(c: char, n: usize) -> String {
    std::iter::repeat(c).take(n).collect()
}

fn good_join_form() -> JoinFormRequest {
    JoinFormRequest {
        name: "Huda".to_string(),
        speciality: "Cardiology".to_string(),
        residence: "Jordan".to_string(),
        phone_number: "0790000000".to_string(),
        email: "huda@example.com".to_string(),
        more: String::new(),
    }
}

fn good_consultation() -> ConsultationRequest {
    ConsultationRequest {
        targeted_doctor: "dr-ali".to_string(),
        name: "Omar".to_string(),
        sur_name: "Khalil".to_string(),
        email: "omar@example.com".to_string(),
        phone_number: "0790000001".to_string(),
        issue: "Headache".to_string(),
    }
}

#[test]
fn validate_length_limits() {
    assert!(validate_length("", 5, false, "m").is_none());
    let refused = validate_length("", 5, true, "needed").unwrap();
    assert!(!refused.success);
    assert_eq!(refused.error, "needed");
    assert!(validate_length("abcde", 5, true, "m").is_none());
    assert!(validate_length("abcdef", 5, false, "long").is_some());
    // Characters are counted, not bytes.
    assert!(validate_length("سلام", 4, true, "m").is_none());
}

#[test]
fn join_form_accepts_a_good_form() {
    assert!(validate_join_form(&good_join_form()).is_none());
    let stored = new_form(&good_join_form()).ok().unwrap();
    assert_eq!(stored.name, "Huda");
    assert_eq!(stored.more, "");
    assert!(stored.time.ends_with(" AM") || stored.time.ends_with(" PM"));
    assert_eq!(stored.time.chars().nth(4), Some('/'));
}

#[test]
fn join_form_reports_the_first_refused_field() {
    let mut form = good_join_form();
    form.name = String::new();
    form.email = String::new();
    let refusal = validate_join_form(&form).unwrap();
    assert!(!refusal.success);
    assert_eq!(refusal.error, "يجب ألا يكون اسمك فارغاً ويجب ألا تتجاوز حروف اسمك 32 حرفاً!");

    let mut form = good_join_form();
    form.name = repeat('a', 33);
    assert_eq!(validate_join_form(&form).unwrap().error, "يجب ألا يكون اسمك فارغاً ويجب ألا تتجاوز حروف اسمك 32 حرفاً!");

    let mut form = good_join_form();
    form.speciality = repeat('a', 65);
    assert_eq!(validate_join_form(&form).unwrap().error, "يجب ألا يكون تخصصك فارغاً ويجب ألا تتجاوز حروف تخصصك 64 حرفاً!");

    let mut form = good_join_form();
    form.residence = String::new();
    assert_eq!(validate_join_form(&form).unwrap().error, "يجب ألا يكون البلد الذي تقيم فيه فارغاً ويجب ألا تتجاوز حروف البلد الذي تقيم فيه 64 حرفاً!");

    let mut form = good_join_form();
    form.phone_number = String::new();
    assert_eq!(validate_join_form(&form).unwrap().error, "يجب ألا يكون رقم جوالك فارغاً ويجب ألا تتجاوز الأرقام المكونة لرقم جوالك 64 حرفاً!");

    let mut form = good_join_form();
    form.email = repeat('e', 65);
    assert_eq!(validate_join_form(&form).unwrap().error, "يجب ألا يكون بريدك الإلكتروني فارغاً ويجب ألا تتجاوز حروف بريدك الإلكتروني 64 حرفاً!");

    let mut form = good_join_form();
    form.more = repeat('m', 1001);
    assert_eq!(validate_join_form(&form).unwrap().error, "يجب ألا تتجاوز حروف المعلومات الإضافية 1000 حرف!");
    assert!(new_form(&form).is_err());

    let mut form = good_join_form();
    form.more = repeat('m', 1000);
    assert!(validate_join_form(&form).is_none());
}

#[test]
fn join_form_answers() {
    let stored = JoinFormResponse::stored();
    assert!(stored.success);
    assert_eq!(stored.error, "");
    let failed = JoinFormResponse::server_error();
    assert!(!failed.success);
    assert_eq!(failed.error, "حدث خطأ بالخادم");
}

#[test]
fn build_form_keeps_fields_and_time() {
    let stored = build_form(&good_join_form(), "2024/05/06 07:08:09 AM".to_string());
    assert_eq!(stored.speciality, "Cardiology");
    assert_eq!(stored.time, "2024/05/06 07:08:09 AM");
}

#[test]
fn consultation_accepts_a_good_request() {
    assert!(validate_consultation(&good_consultation()).is_ok());
    let c = new_consultation(&good_consultation()).ok().unwrap();
    assert_eq!(c.targeted_doctor, "dr-ali");
    assert_eq!(c.issue, "Headache");
    assert_eq!(c.uuid.len(), 36);
    let chars: Vec<char> = c.uuid.chars().collect();
    assert_eq!(chars[8], '-');
    assert_eq!(chars[14], '4');
    assert!(matches!(chars[19], '8' | '9' | 'a' | 'b'));
    assert!(c.time.ends_with(" AM") || c.time.ends_with(" PM"));
    let other = new_consultation(&good_consultation()).ok().unwrap();
    assert_ne!(c.uuid, other.uuid);
}

#[test]
fn consultation_reports_the_first_refused_field() {
    let mut req = good_consultation();
    req.targeted_doctor = String::new();
    req.name = String::new();
    assert_eq!(validate_consultation(&req).unwrap_err(), "Bad Request");

    let mut req = good_consultation();
    req.targeted_doctor = repeat('d', 65);
    assert_eq!(validate_consultation(&req).unwrap_err(), "Bad Request");

    let mut req = good_consultation();
    req.name = repeat('n', 17);
    assert_eq!(validate_consultation(&req).unwrap_err(), "يجب ألا يكون اسمك فارغاً ويجب ألا يتجاوز 16 حرفاً!");

    let mut req = good_consultation();
    req.sur_name = String::new();
    assert_eq!(validate_consultation(&req).unwrap_err(), "يجب ألا يكون اسم العائلة فارغاً ويجب ألا يتجاوز 16 حرفاً!");

    let mut req = good_consultation();
    req.email = String::new();
    assert_eq!(validate_consultation(&req).unwrap_err(), "البريد الإلكتروني غير صالح، يجب أن يكون بريداً فعلياً وألا تكون خانة البريد فارغة ويجب ألا يتجاوز طول بريدك 64 حرفاً");

    let mut req = good_consultation();
    req.phone_number = repeat('1', 33);
    assert_eq!(validate_consultation(&req).unwrap_err(), "يجب ألا يكون رقم الهاتف فارغاً ويجب ألا يتجاوز 32 حرفاً!");

    let mut req = good_consultation();
    req.issue = repeat('i', 1025);
    assert_eq!(validate_consultation(&req).unwrap_err(), "يجب ألا يكون وصف حالتك فارغاً ويجب ألا يتجاوز 1024 حرفاً!");
    assert!(new_consultation(&req).is_err());

    let mut req = good_consultation();
    req.issue = repeat('i', 1024);
    req.name = repeat('ن', 16);
    assert!(validate_consultation(&req).is_ok());
}

#[test]
fn consultation_answers_and_build() {
    let c = build_consultation(&good_consultation(), "t".to_string(), "u".to_string());
    assert_eq!(c.time, "t");
    assert_eq!(c.uuid, "u");
    assert_eq!(c.sur_name, "Khalil");
    let accepted = ConsultationResponse::accepted("u".to_string());
    assert_eq!(accepted.error, None);
    assert_eq!(accepted.uuid, Some("u".to_string()));
    let refused = ConsultationResponse::refused("m".to_string());
    assert_eq!(refused.error, Some("m".to_string()));
    assert_eq!(refused.uuid, None);
}
