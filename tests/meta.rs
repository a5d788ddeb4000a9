use voicevox_core_binding::json::{find_field, JsonValue};
use voicevox_core_binding::meta::{metas_from_json, metas_text, MetasError};
use voicevox_core_binding::text::text_from_c_bytes;

fn text(s: &str) -> JsonValue {
    JsonValue::Str(s.to_string())
}

fn style(id: i128, name: &str) -> JsonValue {
    JsonValue::Object(vec![("id".to_string(), JsonValue::Int(id)), ("name".to_string(), text(name))])
}

fn speaker(name: &str, styles: Vec<JsonValue>, uuid: &str, version: &str) -> JsonValue {
    JsonValue::Object(vec![
        ("name".to_string(), text(name)),
        ("styles".to_string(), JsonValue::Array(styles)),
        ("speaker_uuid".to_string(), text(uuid)),
        ("version".to_string(), text(version)),
    ])
}

#[test]
fn single_speaker_fixture_is_read() {
    let doc = JsonValue::Array(vec![speaker("A", vec![style(0, "Normal")], "u1", "1.0")]);
    let metas = metas_from_json(&Some(doc)).unwrap();
    assert_eq!(metas.len(), 1);
    assert_eq!(metas[0].name(), "A");
    assert_eq!(metas[0].speaker_uuid(), "u1");
    assert_eq!(metas[0].version(), "1.0");
    assert_eq!(metas[0].styles().len(), 1);
    assert_eq!(metas[0].styles()[0].id(), 0);
    assert_eq!(metas[0].styles()[0].name(), "Normal");
}

#[test]
fn speakers_and_styles_keep_their_order() {
    let doc = JsonValue::Array(vec![
        speaker("B", vec![style(3, "Sweet"), style(1, "Normal"), style(-2, "Whisper")], "u2", "0.9"),
        speaker("A", Vec::new(), "u1", "1.0"),
    ]);
    let metas = metas_from_json(&Some(doc)).unwrap();
    assert_eq!(metas.len(), 2);
    assert_eq!(metas[0].name(), "B");
    assert_eq!(metas[1].name(), "A");
    let ids: Vec<isize> = metas[0].styles().iter().map(|s| s.id()).collect();
    assert_eq!(ids, vec![3, 1, -2]);
    assert_eq!(metas[0].styles()[2].name(), "Whisper");
    assert!(metas[1].styles().is_empty());
}

#[test]
fn members_in_any_order_and_extra_members_are_accepted() {
    let doc = JsonValue::Array(vec![JsonValue::Object(vec![
        ("version".to_string(), text("2.1")),
        ("extra".to_string(), JsonValue::Null),
        ("speaker_uuid".to_string(), text("u9")),
        ("styles".to_string(), JsonValue::Array(vec![style(7, "Calm")])),
        ("name".to_string(), text("C")),
    ])]);
    let metas = metas_from_json(&Some(doc)).unwrap();
    assert_eq!(metas[0].name(), "C");
    assert_eq!(metas[0].version(), "2.1");
    assert_eq!(metas[0].styles()[0].id(), 7);
}

#[test]
fn empty_array_gives_no_speakers() {
    assert_eq!(metas_from_json(&Some(JsonValue::Array(Vec::new()))).unwrap().len(), 0);
}

#[test]
fn missing_styles_is_malformed() {
    let doc = JsonValue::Array(vec![JsonValue::Object(vec![
        ("name".to_string(), text("A")),
        ("speaker_uuid".to_string(), text("u1")),
        ("version".to_string(), text("1.0")),
    ])]);
    assert_eq!(metas_from_json(&Some(doc)).unwrap_err(), MetasError::Malformed);
}

#[test]
fn non_json_text_is_malformed() {
    assert_eq!(metas_from_json(&None).unwrap_err(), MetasError::Malformed);
}

#[test]
fn wrong_shapes_are_malformed() {
    let object = speaker("A", vec![style(0, "Normal")], "u1", "1.0");
    assert_eq!(metas_from_json(&Some(object)).unwrap_err(), MetasError::Malformed);
    let bad_name = JsonValue::Array(vec![JsonValue::Object(vec![
        ("name".to_string(), JsonValue::Int(5)),
        ("styles".to_string(), JsonValue::Array(Vec::new())),
        ("speaker_uuid".to_string(), text("u1")),
        ("version".to_string(), text("1.0")),
    ])]);
    assert_eq!(metas_from_json(&Some(bad_name)).unwrap_err(), MetasError::Malformed);
    let fractional_id = JsonValue::Array(vec![speaker(
        "A",
        vec![JsonValue::Object(vec![("id".to_string(), JsonValue::OtherNumber), ("name".to_string(), text("N"))])],
        "u1",
        "1.0",
    )]);
    assert_eq!(metas_from_json(&Some(fractional_id)).unwrap_err(), MetasError::Malformed);
    let string_id = JsonValue::Array(vec![speaker(
        "A",
        vec![JsonValue::Object(vec![("id".to_string(), text("0")), ("name".to_string(), text("N"))])],
        "u1",
        "1.0",
    )]);
    assert_eq!(metas_from_json(&Some(string_id)).unwrap_err(), MetasError::Malformed);
}

#[test]
fn style_id_out_of_isize_range_is_malformed() {
    let too_big = (isize::MAX as i128) + 1;
    let doc = JsonValue::Array(vec![speaker("A", vec![style(too_big, "N")], "u1", "1.0")]);
    assert_eq!(metas_from_json(&Some(doc)).unwrap_err(), MetasError::Malformed);
    let doc = JsonValue::Array(vec![speaker("A", vec![style(isize::MIN as i128, "N")], "u1", "1.0")]);
    assert_eq!(metas_from_json(&Some(doc)).unwrap()[0].styles()[0].id(), isize::MIN);
}

#[test]
fn null_response_is_unavailable() {
    assert_eq!(metas_text(&None), Err(MetasError::Unavailable));
}

#[test]
fn empty_response_is_unavailable() {
    assert_eq!(metas_text(&Some(Vec::new())), Err(MetasError::Unavailable));
}

#[test]
fn non_utf8_response_is_malformed() {
    assert_eq!(metas_text(&Some(vec![b'[', 0xc3, 0x28, b']'])), Err(MetasError::Malformed));
}

#[test]
fn response_text_is_decoded() {
    let raw = "[{\"name\":\"\u{56db}\u{56fd}\"}]".as_bytes().to_vec();
    assert_eq!(metas_text(&Some(raw)), Ok("[{\"name\":\"\u{56db}\u{56fd}\"}]".to_string()));
}

#[test]
fn c_bytes_are_decoded_as_utf8() {
    assert_eq!(text_from_c_bytes(&vec![0xe3, 0x81, 0x82]), Some("\u{3042}".to_string()));
    assert_eq!(text_from_c_bytes(&vec![0xe3, 0x81]), None);
}

#[test]
fn first_member_with_a_name_is_found() {
    let entries = vec![
        ("a".to_string(), JsonValue::Null),
        ("b".to_string(), JsonValue::Bool(true)),
        ("b".to_string(), JsonValue::Bool(false)),
    ];
    assert_eq!(find_field(&entries, &"b".to_string()), Some(1));
    assert_eq!(find_field(&entries, &"c".to_string()), None);
}
