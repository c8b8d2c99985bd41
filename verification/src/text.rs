//! The now-playing text overlay: what it tells its text element when the
//! playback state or its own settings change.

use crate::data::{flag_at, text_at, with_value, Data, DataModel, ValueModel};
use crate::playback::{text_of, PlaybackModel, PlaybackState};
use vstd::prelude::*;
use vstd::string::StringExecFns;

verus! {

/// The text of a track's field, and the empty text where no track is known.
pub open spec fn field_or_empty(field: Option<Seq<char>>) -> Seq<char> {
    match field {
        Some(text) => text,
        None => Seq::empty(),
    }
}

/// The settings that an update of the playback state sends to the overlay:
/// the track's artist, album and title, each empty where no track is known,
/// and whether something plays.
pub open spec fn update_for(state: PlaybackModel) -> DataModel {
    let artist = field_or_empty(
        match state.track {
            Some(track) => Some(track.artist),
            None => None,
        },
    );
    let album = field_or_empty(
        match state.track {
            Some(track) => Some(track.album),
            None => None,
        },
    );
    let title = field_or_empty(
        match state.track {
            Some(track) => Some(track.title),
            None => None,
        },
    );
    with_value(
        with_value(
            with_value(
                with_value(crate::data::empty(), "artist"@, ValueModel::Text(artist)),
                "album"@,
                ValueModel::Text(album),
            ),
            "title"@,
            ValueModel::Text(title),
        ),
        "is_playing"@,
        ValueModel::Flag(state.is_playing),
    )
}

/// The settings of the text element: those of the overlay, with the text
/// to show, and with the element's reading from a file and its chat log
/// mode switched off.
pub open spec fn child_of(settings: DataModel, text: Seq<char>) -> DataModel {
    with_value(
        with_value(
            with_value(
                crate::data::overlaid(crate::data::empty(), settings),
                "text"@,
                ValueModel::Text(text),
            ),
            "read_from_file"@,
            ValueModel::Flag(false),
        ),
        "chatlog"@,
        ValueModel::Flag(false),
    )
}

/// The text that a rendering stands for: the rendered text, or the word
/// `error`, a colon, a blank and what the renderer said.
pub open spec fn text_of_rendering(rendering: Result<String, String>) -> Seq<char> {
    match rendering {
        Ok(text) => text@,
        Err(complaint) => "error: "@ + complaint@,
    }
}

/// What is handed to the template renderer: the template, the values of
/// the context under their names, in this order, and whether the renderer
/// is to escape what it fills in.
#[derive(Debug, PartialEq, Eq)]
pub struct Rendering {
    pub template: String,
    pub context: Vec<(String, Option<String>)>,
    pub autoescape: bool,
}

/// The mathematical value of a [`Rendering`].
pub struct RenderingModel {
    pub template: Seq<char>,
    pub context: Seq<(Seq<char>, Option<Seq<char>>)>,
    pub autoescape: bool,
}

impl View for Rendering {
    type V = RenderingModel;

    open spec fn view(&self) -> RenderingModel {
        RenderingModel {
            template: self.template@,
            context: Seq::new(
                self.context@.len(),
                |i: int| (self.context@[i].0@, text_of(self.context@[i].1)),
            ),
            autoescape: self.autoescape,
        }
    }
}

/// The rendering that the settings of the overlay ask for: their template
/// (the empty one where they hold none), over their artist, album and
/// title, each absent where the settings hold no text for it, and without
/// escaping.
pub open spec fn rendering_for(settings: DataModel) -> RenderingModel {
    RenderingModel {
        template: field_or_empty(text_at(settings, "text"@)),
        context: seq![
            ("artist"@, text_at(settings, "artist"@)),
            ("album"@, text_at(settings, "album"@)),
            ("title"@, text_at(settings, "title"@)),
        ],
        autoescape: false,
    }
}

/// The settings that an update of the playback state sends to the overlay.
pub fn now_playing_update(state: &PlaybackState) -> (data: Data)
    ensures
        data@ == update_for(state@),
{
    let mut data = Data::new();
    match &state.track {
        Some(track) => {
            data.set_string("artist", track.artist.as_str());
            data.set_string("album", track.album.as_str());
            data.set_string("title", track.title.as_str());
        },
        None => {
            proof {
                reveal_strlit("");
                assert(""@ =~= Seq::<char>::empty());
            }
            data.set_string("artist", "");
            data.set_string("album", "");
            data.set_string("title", "");
        },
    }
    data.set_bool("is_playing", state.is_playing);
    data
}

/// The defaults of the overlay's own settings: a template of two lines, and
/// a stand-in for each of the track's fields.
pub fn get_defaults(settings: &mut Data)
    ensures
        final(settings)@ == crate::data::with_default(
            crate::data::with_default(
                crate::data::with_default(
                    crate::data::with_default(
                        old(settings)@,
                        "text"@,
                        ValueModel::Text("{{title}}\n{{artist}} - {{album}}"@),
                    ),
                    "artist"@,
                    ValueModel::Text("[artist]"@),
                ),
                "album"@,
                ValueModel::Text("[album]"@),
            ),
            "title"@,
            ValueModel::Text("[title]"@),
        ),
{
    settings.set_default_string("text", "{{title}}\n{{artist}} - {{album}}");
    settings.set_default_string("artist", "[artist]");
    settings.set_default_string("album", "[album]");
    settings.set_default_string("title", "[title]");
}

/// The text that a rendering stands for.
pub fn rendered_text(rendering: Result<String, String>) -> (text: String)
    ensures
        text@ == text_of_rendering(rendering),
{
    match rendering {
        Ok(text) => text,
        Err(complaint) => String::from_str("error: ").concat(complaint.as_str()),
    }
}

/// The settings of the text element for a text that is already known.
pub fn child_settings_with(settings: &Data, text: &str) -> (child: Data)
    ensures
        child@ == child_of(settings@, text@),
{
    let mut child = Data::new();
    child.apply(settings);
    child.set_string("text", text);
    child.set_bool("read_from_file", false);
    child.set_bool("chatlog", false);
    child
}

/// What is to be rendered for the settings of the overlay: something
/// while something plays, and nothing while nothing plays.
pub fn template_inputs(settings: &Data) -> (inputs: Option<Rendering>)
    ensures
        inputs.is_some() == flag_at(settings@, "is_playing"@),
        inputs matches Some(rendering) ==> rendering@ == rendering_for(settings@),
{
    if !settings.get_bool("is_playing") {
        return None;
    }
    let template = match settings.get_string("text") {
        Some(template) => template,
        None => String::new(),
    };
    let mut context: Vec<(String, Option<String>)> = Vec::new();
    context.push((String::from_str("artist"), settings.get_string("artist")));
    context.push((String::from_str("album"), settings.get_string("album")));
    context.push((String::from_str("title"), settings.get_string("title")));
    let rendering = Rendering { template, context, autoescape: false };
    assert(rendering@.context =~= rendering_for(settings@).context);
    Some(rendering)
}

/// The settings of the text element. While something plays, the renderer
/// is called once, with exactly what [`template_inputs`] gives, and the
/// text is what it rendered, or its complaint; while nothing plays, the
/// renderer is not called and the text is empty.
pub fn create_child_settings<F>(settings: &Data, render: F) -> (child: Data) where
    F: FnOnce(&Rendering) -> Result<String, String>,

    requires
        forall|rendering: Rendering| call_requires(render, (&rendering,)),
    ensures
        !flag_at(settings@, "is_playing"@) ==> child@ == child_of(settings@, Seq::empty()),
        flag_at(settings@, "is_playing"@) ==> exists|
            rendering: Rendering,
            rendered: Result<String, String>,
        |
            rendering@ == rendering_for(settings@) && call_ensures(render, (&rendering,), rendered)
                && child@ == child_of(settings@, text_of_rendering(rendered)),
{
    match template_inputs(settings) {
        Some(rendering) => {
            let rendered = render(&rendering);
            let ghost witness = rendered;
            let text = rendered_text(rendered);
            let child = child_settings_with(settings, text.as_str());
            assert(rendering@ == rendering_for(settings@) && call_ensures(
                render,
                (&rendering,),
                witness,
            ) && child@ == child_of(settings@, text_of_rendering(witness)));
            child
        },
        None => {
            proof {
                reveal_strlit("");
                assert(""@ =~= Seq::<char>::empty());
            }
            child_settings_with(settings, "")
        },
    }
}

} // verus!
