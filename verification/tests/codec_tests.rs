use querycourse::encode::{decode_search_options, encode_search_options};
use querycourse::model::{Language, SearchOptions};
use querycourse::wire::RawValue;

#[test]
fn options_round_trip_preserves_every_filter() {
    let mut options = SearchOptions::new("1131", Language::En);
    options.course_no = "cs".to_string();
    options.course_teacher = "金台齡".to_string();
    options.foreign_language = true;
    options.only_ntust = true;
    options.only_node = true;

    let wire = encode_search_options(&options);
    let back = decode_search_options(&wire).expect("the encoder's own output must decode");

    assert_eq!(back, options);
}

#[test]
fn wire_form_uses_the_frozen_misspelled_field_name() {
    let mut options = SearchOptions::new("1131", Language::Zh);
    options.only_ntust = true;

    let wire = encode_search_options(&options);

    let ntust = wire
        .iter()
        .find(|f| f.name == "OnleyNTUST")
        .expect("the frozen misspelling must appear on the wire");
    assert_eq!(ntust.value, RawValue::Int(1));
    assert!(wire.iter().all(|f| f.name != "OnlyNTUST"));
}

#[test]
fn wire_form_serializes_toggles_as_integers_and_language_as_code() {
    let options = SearchOptions::new("1122", Language::En);

    let wire = encode_search_options(&options);

    assert_eq!(wire.len(), 13);
    assert_eq!(wire[0].name, "Semester");
    assert_eq!(wire[0].value, RawValue::Str("1122".to_string()));
    assert_eq!(wire[6].name, "ForeignLanguage");
    assert_eq!(wire[6].value, RawValue::Int(0));
    assert_eq!(wire[12].name, "Language");
    assert_eq!(wire[12].value, RawValue::Str("en".to_string()));
}

#[test]
fn decode_rejects_a_bad_toggle() {
    let options = SearchOptions::new("1131", Language::Zh);
    let mut wire = encode_search_options(&options);
    wire[7].value = RawValue::Int(2);

    assert!(decode_search_options(&wire).is_err());
}

#[test]
fn language_codes_are_fixed() {
    assert_eq!(Language::Zh.as_str(), "zh");
    assert_eq!(Language::En.as_str(), "en");
    assert_eq!(Language::from_str("zh"), Ok(Language::Zh));
    assert_eq!(Language::from_str("en"), Ok(Language::En));
    assert_eq!(Language::from_str("fr"), Err(()));
    assert_eq!(Language::from_str(""), Err(()));
}
