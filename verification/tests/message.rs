use obs_gpmdp::message::{Frame, Json};
use obs_gpmdp::playback::{Message, TrackInfo};

fn text(s: &str) -> Json {
    Json::Str(s.to_string())
}

fn object(members: Vec<(&str, Json)>) -> Json {
    Json::Object(members.into_iter().map(|(k, v)| (k.to_string(), v)).collect())
}

#[test]
fn play_state_message_is_decoded() {
    let message = Message::from_text("{\"channel\":\"playState\",\"payload\":true}");
    assert_eq!(message, Some(Message::PlayState(true)));
    let message = Message::from_text("{\"channel\":\"playState\",\"payload\":false}");
    assert_eq!(message, Some(Message::PlayState(false)));
}

#[test]
fn track_message_is_decoded() {
    let message = Message::from_text(
        "{\"channel\":\"track\",\"payload\":{\"title\":\"T\",\"artist\":\"A\",\"album\":\"L\",\"albumArt\":\"https://example.org/art.jpg\"}}",
    );
    assert_eq!(
        message,
        Some(Message::Track(TrackInfo {
            title: "T".to_string(),
            artist: "A".to_string(),
            album: "L".to_string(),
            album_art_url: Some("https://example.org/art.jpg".to_string()),
        }))
    );
}

#[test]
fn track_without_art_is_decoded() {
    let expected = Some(Message::Track(TrackInfo {
        title: "T".to_string(),
        artist: "A".to_string(),
        album: "L".to_string(),
        album_art_url: None,
    }));
    let with_null = Message::from_text(
        "{\"channel\":\"track\",\"payload\":{\"title\":\"T\",\"artist\":\"A\",\"album\":\"L\",\"albumArt\":null}}",
    );
    assert_eq!(with_null, expected);
    let without = Message::from_text(
        "{\"payload\":{\"album\":\"L\",\"artist\":\"A\",\"title\":\"T\"},\"channel\":\"track\"}",
    );
    assert_eq!(without, expected);
}

#[test]
fn escapes_in_json_strings_are_resolved() {
    let message = Message::from_text(
        "{\"channel\":\"track\",\"payload\":{\"title\":\"a\\\"b\\u00e9\",\"artist\":\"\",\"album\":\"x\\ny\",\"albumArt\":null}}",
    );
    assert_eq!(
        message,
        Some(Message::Track(TrackInfo {
            title: "a\"b\u{e9}".to_string(),
            artist: "".to_string(),
            album: "x\ny".to_string(),
            album_art_url: None,
        }))
    );
}

#[test]
fn malformed_text_is_dropped() {
    assert_eq!(Message::from_text(""), None);
    assert_eq!(Message::from_text("{\"channel\":\"playState\",\"payload\":true"), None);
    assert_eq!(Message::from_text("not json"), None);
    assert_eq!(Message::from_text("{\"channel\":\"playState\",\"payload\":true} trailing"), None);
}

#[test]
fn unknown_channel_is_dropped() {
    assert_eq!(Message::from_text("{\"channel\":\"time\",\"payload\":{\"current\":1,\"total\":2}}"), None);
    assert_eq!(Message::from_text("{\"channel\":\"PlayState\",\"payload\":true}"), None);
    assert_eq!(Message::from_text("{\"channel\":7,\"payload\":true}"), None);
}

#[test]
fn payload_of_the_wrong_kind_is_dropped() {
    assert_eq!(Message::from_text("{\"channel\":\"playState\",\"payload\":1}"), None);
    assert_eq!(Message::from_text("{\"channel\":\"playState\",\"payload\":\"true\"}"), None);
    assert_eq!(Message::from_text("{\"channel\":\"playState\"}"), None);
    assert_eq!(Message::from_text("{\"channel\":\"track\",\"payload\":true}"), None);
    assert_eq!(Message::from_text("[\"playState\", true]"), None);
    assert_eq!(Message::from_text("true"), None);
}

#[test]
fn track_with_a_missing_or_wrong_field_is_dropped() {
    assert_eq!(
        Message::from_text(
            "{\"channel\":\"track\",\"payload\":{\"title\":null,\"artist\":\"A\",\"album\":\"L\",\"albumArt\":null}}"
        ),
        None
    );
    assert_eq!(
        Message::from_text("{\"channel\":\"track\",\"payload\":{\"title\":\"T\",\"artist\":\"A\"}}"),
        None
    );
    assert_eq!(
        Message::from_text(
            "{\"channel\":\"track\",\"payload\":{\"title\":\"T\",\"artist\":\"A\",\"album\":\"L\",\"albumArt\":5}}"
        ),
        None
    );
}

#[test]
fn other_members_are_ignored() {
    let message = Message::from_text("{\"extra\":[1,2.5,{}],\"channel\":\"playState\",\"payload\":true,\"z\":null}");
    assert_eq!(message, Some(Message::PlayState(true)));
}

#[test]
fn only_text_frames_carry_messages() {
    let frame = Frame::Text("{\"channel\":\"playState\",\"payload\":true}".to_string());
    assert_eq!(Message::from_frame(&frame), Some(Message::PlayState(true)));
    assert_eq!(Message::from_frame(&Frame::Other), None);
    assert_eq!(Message::from_frame(&Frame::Text("garbage".to_string())), None);
}

#[test]
fn document_is_read_member_by_member() {
    let doc = object(vec![("channel", text("playState")), ("payload", Json::Bool(true))]);
    assert_eq!(Message::from_json(&doc), Some(Message::PlayState(true)));
    let doc = object(vec![("channel", text("playState")), ("payload", Json::Null)]);
    assert_eq!(Message::from_json(&doc), None);
    let doc = Json::Array(vec![text("playState"), Json::Bool(true)]);
    assert_eq!(Message::from_json(&doc), None);
    let doc = object(vec![("channel", text("track")), ("payload", Json::Number("1".to_string()))]);
    assert_eq!(Message::from_json(&doc), None);
}

#[test]
fn track_is_read_from_its_payload() {
    let payload = object(vec![
        ("title", text("T")),
        ("artist", text("A")),
        ("album", text("L")),
        ("albumArt", text("u")),
        ("more", Json::Bool(false)),
    ]);
    assert_eq!(
        TrackInfo::from_json(&payload),
        Some(TrackInfo {
            title: "T".to_string(),
            artist: "A".to_string(),
            album: "L".to_string(),
            album_art_url: Some("u".to_string()),
        })
    );
    assert_eq!(TrackInfo::from_json(&Json::Null), None);
    assert_eq!(TrackInfo::from_json(&object(vec![("title", text("T"))])), None);
}

#[test]
fn first_member_of_a_name_counts() {
    let doc = object(vec![
        ("channel", text("playState")),
        ("payload", Json::Bool(false)),
        ("payload", Json::Bool(true)),
    ]);
    assert_eq!(Message::from_json(&doc), Some(Message::PlayState(false)));
}
