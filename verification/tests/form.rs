use fleet_backend::meter_ocr::form::{
    form_field, form_trouble, FormField, FormTrouble, ReadForm, MAX_IMAGE_BYTES,
};

fn text_fields() -> Vec<(FormField, &'static str)> {
    vec![
        (FormField::CompanyPrefix, "0_"),
        (FormField::CompanyUrl, "https://example.com"),
        (FormField::Site, "north"),
        (FormField::DeviceId, "d1"),
        (FormField::PumpId, "p1"),
        (FormField::NozzleId, "n1"),
        (FormField::ShiftEvent, "open"),
    ]
}

fn form_without(left_out: Option<FormField>, image: bool) -> ReadForm {
    let mut form = ReadForm::new();
    for (field, text) in text_fields() {
        if Some(field) != left_out {
            form = form.put_text(field, text.to_string());
        }
    }
    if image {
        form = form.put_image(None, vec![1, 2, 3]).unwrap();
    }
    form
}

#[test]
fn fields_are_known_by_name() {
    assert_eq!(form_field("image"), FormField::Image);
    assert_eq!(form_field("company_prefix"), FormField::CompanyPrefix);
    assert_eq!(form_field("company_url"), FormField::CompanyUrl);
    assert_eq!(form_field("site"), FormField::Site);
    assert_eq!(form_field("device_id"), FormField::DeviceId);
    assert_eq!(form_field("pump_id"), FormField::PumpId);
    assert_eq!(form_field("nozzle_id"), FormField::NozzleId);
    assert_eq!(form_field("shift_event"), FormField::ShiftEvent);
    assert_eq!(form_field("Image"), FormField::Unknown);
    assert_eq!(form_field(""), FormField::Unknown);
}

#[test]
fn a_complete_form_is_a_request() {
    let request = form_without(None, true).finish().unwrap();
    assert_eq!(request.company_prefix, "0_");
    assert_eq!(request.company_url, "https://example.com");
    assert_eq!(request.site, "north");
    assert_eq!(request.device_id, "d1");
    assert_eq!(request.pump_id, "p1");
    assert_eq!(request.nozzle_id, "n1");
    assert_eq!(request.shift_event, "open");
    assert_eq!(request.image_bytes, vec![1, 2, 3]);
    assert_eq!(request.image_media_type, "image/jpeg");
}

#[test]
fn what_is_missing_is_named() {
    let missing = |field| form_without(Some(field), true).finish();
    assert_eq!(missing(FormField::CompanyPrefix), Err("missing company_prefix".to_string()));
    assert_eq!(missing(FormField::CompanyUrl), Err("missing company_url".to_string()));
    assert_eq!(missing(FormField::PumpId), Err("missing pump_id".to_string()));
    assert_eq!(missing(FormField::NozzleId), Err("missing nozzle_id".to_string()));
    assert_eq!(missing(FormField::ShiftEvent), Err("missing shift_event".to_string()));
    assert_eq!(form_without(None, false).finish(), Err("missing image".to_string()));
    assert_eq!(ReadForm::new().finish(), Err("missing company_prefix".to_string()));
}

#[test]
fn a_site_and_a_device_may_be_missing() {
    assert_eq!(form_without(Some(FormField::Site), true).finish().unwrap().site, "");
    assert_eq!(form_without(Some(FormField::DeviceId), true).finish().unwrap().device_id, "");
}

#[test]
fn unknown_fields_are_passed_over() {
    let form = form_without(None, true).put_text(FormField::Unknown, "x".to_string());
    assert_eq!(form, form_without(None, true));
}

#[test]
fn a_field_that_comes_again_replaces_the_first() {
    let form = form_without(None, true)
        .put_text(FormField::PumpId, "p2".to_string())
        .put_text(FormField::PumpId, "p3".to_string());
    assert_eq!(form.pump_id, Some("p3".to_string()));
}

#[test]
fn the_order_of_fields_does_not_matter() {
    let one = ReadForm::new()
        .put_text(FormField::Site, "a".to_string())
        .put_text(FormField::PumpId, "b".to_string());
    let other = ReadForm::new()
        .put_text(FormField::PumpId, "b".to_string())
        .put_text(FormField::Site, "a".to_string());
    assert_eq!(one, other);
}

#[test]
fn the_media_type_is_kept_until_a_field_names_one() {
    let form = ReadForm::new().put_image(Some("image/png".to_string()), vec![7]).unwrap();
    assert_eq!(form.image_media_type, "image/png");
    let form = form.put_image(None, vec![8, 9]).unwrap();
    assert_eq!(form.image_media_type, "image/png");
    assert_eq!(form.image_bytes, Some(vec![8, 9]));
}

#[test]
fn photos_have_a_size() {
    assert_eq!(
        ReadForm::new().put_image(None, vec![]),
        Err("image field was empty".to_string())
    );
    assert!(ReadForm::new().put_image(None, vec![0; MAX_IMAGE_BYTES]).is_ok());
    assert_eq!(
        ReadForm::new().put_image(None, vec![0; MAX_IMAGE_BYTES + 1]),
        Err("image too large (max 8MB)".to_string())
    );
}

#[test]
fn trouble_is_told_with_its_detail() {
    assert_eq!(form_trouble(FormTrouble::Malformed, "x"), "malformed multipart body: x");
    assert_eq!(form_trouble(FormTrouble::UnreadableImage, "x"), "could not read image field: x");
    assert_eq!(form_trouble(FormTrouble::UnreadableField, ""), "could not read form field: ");
}
