//! The player's wire format: JSON text frames, each an object with a
//! `channel` that names the kind of message and a `payload` that carries it.

use crate::playback::{Message, TrackInfo, TrackModel, UpdateModel};
use vstd::prelude::*;

verus! {

/// A JSON document. A number keeps its text; an object keeps its members in
/// the order in which the parser hands them out.
#[derive(Debug, PartialEq, Eq)]
pub enum Json {
    Null,
    Bool(bool),
    Number(String),
    Str(String),
    Array(Vec<Json>),
    Object(Vec<(String, Json)>),
}

/// One frame of the connection to the player.
#[derive(Debug, PartialEq, Eq)]
pub enum Frame {
    /// A text frame and its text.
    Text(String),
    /// Any other frame: binary data, ping, pong, close.
    Other,
}

/// `serde_json::Value`: a parsed JSON document as the parser hands it out.
/// The library carries it from the parser to the conversion and looks at it
/// nowhere else.
#[verifier::external_type_specification]
#[verifier::external_body]
pub struct ExJsonValue(serde_json::Value);

/// What a `serde_json::Value` holds, as a [`Json`].
pub uninterp spec fn json_of(value: serde_json::Value) -> Json;

/// What `serde_json::from_str` makes of a text when it is asked for a
/// `serde_json::Value`: nothing where the text is not one JSON document, else
/// the document.
pub uninterp spec fn parsed_json(text: Seq<char>) -> Option<Json>;

/// Parses a text with `serde_json::from_str`, asking for a
/// `serde_json::Value`. The result is a function of the text alone; the
/// contract gives it the name [`parsed_json`] and claims nothing else of it.
#[verifier::external_body]
fn parse_value(text: &str) -> (parsed: Option<serde_json::Value>)
    ensures
        match parsed {
            Some(value) => parsed_json(text@) == Some(json_of(value)),
            None => parsed_json(text@).is_none(),
        },
{
    match serde_json::from_str::<serde_json::Value>(text) {
        Ok(value) => Some(value),
        Err(_) => None,
    }
}

/// Moves a `serde_json::Value` into a [`Json`], variant by variant and, for
/// arrays and objects, member by member. A number becomes the text that
/// `serde_json` prints for it; the members of an object come in the order of
/// `serde_json::Map`'s iterator. The contract names the result and claims
/// nothing else of it.
#[verifier::external_body]
fn json_of_value(value: serde_json::Value) -> (json: Json)
    ensures
        json == json_of(value),
{
    match value {
        serde_json::Value::Null => Json::Null,
        serde_json::Value::Bool(b) => Json::Bool(b),
        serde_json::Value::Number(n) => Json::Number(n.to_string()),
        serde_json::Value::String(s) => Json::Str(s),
        serde_json::Value::Array(a) => Json::Array(a.into_iter().map(json_of_value).collect()),
        serde_json::Value::Object(o) => Json::Object(
            o.into_iter().map(|(k, v)| (k, json_of_value(v))).collect(),
        ),
    }
}

/// The value of the first member of an object that has the given name.
pub open spec fn member(members: Seq<(String, Json)>, name: Seq<char>) -> Option<Json>
    decreases members.len(),
{
    if members.len() == 0 {
        None
    } else if members[0].0@ == name {
        Some(members[0].1)
    } else {
        member(members.drop_first(), name)
    }
}

/// The track that a `track` payload carries. The payload must be an object
/// whose `title`, `artist` and `album` are strings; its `albumArt` is a
/// string, `null` or absent. Other members are ignored.
pub open spec fn track_of_json(payload: Json) -> Option<TrackModel> {
    match payload {
        Json::Object(fields) => match (
            member(fields@, "title"@),
            member(fields@, "artist"@),
            member(fields@, "album"@),
        ) {
            (Some(Json::Str(title)), Some(Json::Str(artist)), Some(Json::Str(album))) => {
                match member(fields@, "albumArt"@) {
                    None | Some(Json::Null) => Some(
                        TrackModel {
                            title: title@,
                            artist: artist@,
                            album: album@,
                            album_art_url: None,
                        },
                    ),
                    Some(Json::Str(url)) => Some(
                        TrackModel {
                            title: title@,
                            artist: artist@,
                            album: album@,
                            album_art_url: Some(url@),
                        },
                    ),
                    _ => None,
                }
            },
            _ => None,
        },
        _ => None,
    }
}

/// The message that a document carries: a play state where the channel is
/// `playState` and the payload a boolean, a track where the channel is
/// `track` and the payload a track. Every other document carries none.
pub open spec fn message_of_json(doc: Json) -> Option<UpdateModel> {
    match doc {
        Json::Object(members) => match (
            member(members@, "channel"@),
            member(members@, "payload"@),
        ) {
            (Some(Json::Str(channel)), Some(payload)) => {
                if channel@ == "playState"@ {
                    match payload {
                        Json::Bool(playing) => Some(UpdateModel::PlayState(playing)),
                        _ => None,
                    }
                } else if channel@ == "track"@ {
                    match track_of_json(payload) {
                        Some(track) => Some(UpdateModel::Track(track)),
                        None => None,
                    }
                } else {
                    None
                }
            },
            _ => None,
        },
        _ => None,
    }
}

/// The message that a text carries: that of the document it parses to.
pub open spec fn message_of_text(text: Seq<char>) -> Option<UpdateModel> {
    match parsed_json(text) {
        Some(doc) => message_of_json(doc),
        None => None,
    }
}

/// The message that a frame carries. Only text frames carry any.
pub open spec fn message_of_frame(frame: Frame) -> Option<UpdateModel> {
    match frame {
        Frame::Text(text) => message_of_text(text@),
        Frame::Other => None,
    }
}

/// The value of an optional message.
pub open spec fn message_model(message: Option<Message>) -> Option<UpdateModel> {
    match message {
        Some(message) => Some(message@),
        None => None,
    }
}

/// Looks a member up by name.
fn find_member<'a>(members: &'a Vec<(String, Json)>, name: &str) -> (found: Option<&'a Json>)
    ensures
        match found {
            Some(value) => member(members@, name@) == Some(*value),
            None => member(members@, name@).is_none(),
        },
{
    let wanted = name.to_owned();
    let mut i: usize = 0;
    assert(members@.skip(0) == members@);
    while i < members.len()
        invariant
            i <= members.len(),
            wanted@ == name@,
            member(members@, name@) == member(members@.skip(i as int), name@),
        decreases members.len() - i,
    {
        let entry = &members[i];
        if entry.0 == wanted {
            assert(members@.skip(i as int)[0] == members@[i as int]);
            return Some(&entry.1);
        }
        assert(members@.skip(i as int).drop_first() == members@.skip(i + 1));
        i += 1;
    }
    None
}

/// The text of a member that must be a string.
fn string_member(members: &Vec<(String, Json)>, name: &str) -> (text: Option<String>)
    ensures
        match text {
            Some(text) => member(members@, name@) matches Some(Json::Str(s)) && s@ == text@,
            None => !(member(members@, name@) matches Some(Json::Str(_))),
        },
{
    match find_member(members, name) {
        Some(Json::Str(s)) => Some(s.clone()),
        _ => None,
    }
}

impl TrackInfo {
    /// Reads a track out of the payload of a `track` message.
    pub fn from_json(payload: &Json) -> (track: Option<TrackInfo>)
        ensures
            crate::playback::track_of(track) == track_of_json(*payload),
    {
        match payload {
            Json::Object(fields) => {
                let title = string_member(fields, "title");
                let artist = string_member(fields, "artist");
                let album = string_member(fields, "album");
                match (title, artist, album) {
                    (Some(title), Some(artist), Some(album)) => {
                        match find_member(fields, "albumArt") {
                            None | Some(Json::Null) => Some(
                                TrackInfo { title, artist, album, album_art_url: None },
                            ),
                            Some(Json::Str(url)) => Some(
                                TrackInfo { title, artist, album, album_art_url: Some(url.clone()) },
                            ),
                            _ => None,
                        }
                    },
                    _ => None,
                }
            },
            _ => None,
        }
    }
}

impl Message {
    /// Reads a message out of a document.
    pub fn from_json(doc: &Json) -> (message: Option<Message>)
        ensures
            message_model(message) == message_of_json(*doc),
    {
        match doc {
            Json::Object(members) => {
                let channel = string_member(members, "channel");
                let payload = find_member(members, "payload");
                match (channel, payload) {
                    (Some(channel), Some(payload)) => {
                        if channel == "playState".to_owned() {
                            match payload {
                                Json::Bool(playing) => Some(Message::PlayState(*playing)),
                                _ => None,
                            }
                        } else if channel == "track".to_owned() {
                            match TrackInfo::from_json(payload) {
                                Some(track) => Some(Message::Track(track)),
                                None => None,
                            }
                        } else {
                            None
                        }
                    },
                    _ => None,
                }
            },
            _ => None,
        }
    }

    /// Reads a message out of the text of a frame. A text that is no JSON
    /// document, or a document that is no message, gives none.
    pub fn from_text(text: &str) -> (message: Option<Message>)
        ensures
            message_model(message) == message_of_text(text@),
    {
        match parse_value(text) {
            Some(value) => Message::from_json(&json_of_value(value)),
            None => None,
        }
    }

    /// Reads a message out of a frame. A frame that is not text gives none.
    pub fn from_frame(frame: &Frame) -> (message: Option<Message>)
        ensures
            message_model(message) == message_of_frame(*frame),
    {
        match frame {
            Frame::Text(text) => Message::from_text(text.as_str()),
            Frame::Other => None,
        }
    }
}

} // verus!
