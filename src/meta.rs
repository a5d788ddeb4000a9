//! Speaker metadata, and how it is read from the engine's JSON response.
//!
//! The response is an array of speakers; each speaker is an object with a
//! string `name`, an array `styles`, a string `speaker_uuid` and a string
//! `version`; each style is an object with an integral `id` and a string
//! `name`. Other members are ignored.
use vstd::prelude::*;
use crate::json::{field, find_field, text_field, JsonValue};
use vstd::utf8::{decode_utf8, valid_utf8};
use crate::text::text_from_c_bytes;

verus! {

/// A named voice variant of a speaker.
#[derive(Debug)]
pub struct VoicevoxCoreStyle {
    id: isize,
    name: String,
}

/// A speaker and its styles.
#[derive(Debug)]
pub struct VoicevoxCoreMeta {
    name: String,
    styles: Vec<VoicevoxCoreStyle>,
    speaker_uuid: String,
    version: String,
}

/// What a style holds.
pub struct StyleView {
    pub id: int,
    pub name: Seq<char>,
}

/// What a speaker holds.
pub struct MetaView {
    pub name: Seq<char>,
    pub styles: Seq<StyleView>,
    pub speaker_uuid: Seq<char>,
    pub version: Seq<char>,
}

impl View for VoicevoxCoreStyle {
    type V = StyleView;

    closed spec fn view(&self) -> StyleView {
        StyleView { id: self.id as int, name: self.name@ }
    }
}

impl View for VoicevoxCoreMeta {
    type V = MetaView;

    closed spec fn view(&self) -> MetaView {
        MetaView {
            name: self.name@,
            styles: self.styles@.map_values(|s: VoicevoxCoreStyle| s@),
            speaker_uuid: self.speaker_uuid@,
            version: self.version@,
        }
    }
}

/// Why the speaker metadata could not be had.
#[derive(Clone, Copy, PartialEq, Eq, Structural, Debug)]
pub enum MetasError {
    /// The engine returned no response, or an empty one.
    Unavailable,
    /// The response is not JSON text of the expected shape.
    Malformed,
}

/// Whether an integer fits in `isize`.
pub open spec fn fits_isize(v: int) -> bool {
    isize::MIN <= v <= isize::MAX
}

/// The style that a JSON value describes, if it has the shape of one.
pub open spec fn style_of(v: JsonValue) -> Option<StyleView> {
    match v {
        JsonValue::Object(entries) => match (field(entries@, "id"@), text_field(entries@, "name"@)) {
            (Some(JsonValue::Int(id)), Some(name)) => if fits_isize(id as int) {
                Some(StyleView { id: id as int, name })
            } else {
                None
            },
            _ => None,
        },
        _ => None,
    }
}

/// The styles that a sequence of JSON values describes, if each has the
/// shape of one.
pub open spec fn styles_of(items: Seq<JsonValue>) -> Option<Seq<StyleView>> {
    if forall|i: int| 0 <= i < items.len() ==> (#[trigger] style_of(items[i])) is Some {
        Some(items.map_values(|x: JsonValue| style_of(x)->0))
    } else {
        None
    }
}

/// The speaker that a JSON value describes, if it has the shape of one.
pub open spec fn meta_of(v: JsonValue) -> Option<MetaView> {
    match v {
        JsonValue::Object(entries) => {
            let name = text_field(entries@, "name"@);
            let uuid = text_field(entries@, "speaker_uuid"@);
            let version = text_field(entries@, "version"@);
            match field(entries@, "styles"@) {
                Some(JsonValue::Array(items)) => if name is Some && uuid is Some && version is Some
                    && styles_of(items@) is Some {
                    Some(
                        MetaView {
                            name: name->0,
                            styles: styles_of(items@)->0,
                            speaker_uuid: uuid->0,
                            version: version->0,
                        },
                    )
                } else {
                    None
                },
                _ => None,
            }
        },
        _ => None,
    }
}

/// The speakers that a JSON document describes, in document order, if it is
/// an array of speakers.
pub open spec fn metas_of(v: JsonValue) -> Option<Seq<MetaView>> {
    match v {
        JsonValue::Array(items) => if forall|i: int|
            0 <= i < items@.len() ==> (#[trigger] meta_of(items@[i])) is Some {
            Some(items@.map_values(|x: JsonValue| meta_of(x)->0))
        } else {
            None
        },
        _ => None,
    }
}

/// What reading a parsed response gives: the speakers it describes, or
/// `Malformed` where it is not JSON (`None`) or not of the expected shape.
pub open spec fn metas_outcome(parsed: Option<JsonValue>) -> Option<Seq<MetaView>> {
    match parsed {
        Some(v) => metas_of(v),
        None => None,
    }
}

impl VoicevoxCoreStyle {
    /// A style with the given id and name.
    pub fn new(id: isize, name: String) -> (r: VoicevoxCoreStyle)
        ensures
            r@ == (StyleView { id: id as int, name: name@ }),
    {
        VoicevoxCoreStyle { id, name }
    }

    /// The style's id.
    pub fn id(&self) -> (r: isize)
        ensures
            r as int == self@.id,
    {
        self.id
    }

    /// The style's name.
    pub fn name(&self) -> (r: &String)
        ensures
            r@ == self@.name,
    {
        &self.name
    }
}

impl VoicevoxCoreMeta {
    /// A speaker with the given name, styles, uuid and version.
    pub fn new(name: String, styles: Vec<VoicevoxCoreStyle>, speaker_uuid: String, version: String) -> (r:
        VoicevoxCoreMeta)
        ensures
            r@ == (MetaView {
                name: name@,
                styles: styles@.map_values(|s: VoicevoxCoreStyle| s@),
                speaker_uuid: speaker_uuid@,
                version: version@,
            }),
    {
        VoicevoxCoreMeta { name, styles, speaker_uuid, version }
    }

    /// The speaker's name.
    pub fn name(&self) -> (r: &String)
        ensures
            r@ == self@.name,
    {
        &self.name
    }

    /// The speaker's styles, in the order of the response.
    pub fn styles(&self) -> (r: &Vec<VoicevoxCoreStyle>)
        ensures
            r@.map_values(|s: VoicevoxCoreStyle| s@) == self@.styles,
    {
        &self.styles
    }

    /// The speaker's uuid.
    pub fn speaker_uuid(&self) -> (r: &String)
        ensures
            r@ == self@.speaker_uuid,
    {
        &self.speaker_uuid
    }

    /// The version of the speaker's model.
    pub fn version(&self) -> (r: &String)
        ensures
            r@ == self@.version,
    {
        &self.version
    }
}

fn text_member(entries: &Vec<(String, JsonValue)>, key: &String) -> (r: Option<String>)
    ensures
        match r {
            Some(s) => text_field(entries@, key@) == Some(s@),
            None => text_field(entries@, key@) is None,
        },
{
    match find_field(entries, key) {
        Some(i) => match &entries[i].1 {
            JsonValue::Str(s) => Some(s.clone()),
            _ => None,
        },
        None => None,
    }
}

fn style_from_json(v: &JsonValue) -> (r: Option<VoicevoxCoreStyle>)
    ensures
        match r {
            Some(s) => style_of(*v) == Some(s@),
            None => style_of(*v) is None,
        },
{
    match v {
        JsonValue::Object(entries) => {
            let id_key = String::from_str("id");
            let name_key = String::from_str("name");
            let name = text_member(entries, &name_key);
            match find_field(entries, &id_key) {
                Some(i) => match (&entries[i].1, name) {
                    (JsonValue::Int(id), Some(name)) => {
                        if *id >= isize::MIN as i128 && *id <= isize::MAX as i128 {
                            Some(VoicevoxCoreStyle { id: *id as isize, name })
                        } else {
                            None
                        }
                    },
                    _ => None,
                },
                None => None,
            }
        },
        _ => None,
    }
}

fn styles_from_json(items: &Vec<JsonValue>) -> (r: Option<Vec<VoicevoxCoreStyle>>)
    ensures
        match r {
            Some(styles) => styles_of(items@) == Some(
                styles@.map_values(|s: VoicevoxCoreStyle| s@),
            ),
            None => styles_of(items@) is None,
        },
{
    let mut out: Vec<VoicevoxCoreStyle> = Vec::new();
    let mut i: usize = 0;
    while i < items.len()
        invariant
            0 <= i <= items@.len(),
            out@.len() == i,
            forall|k: int| 0 <= k < i ==> (#[trigger] style_of(items@[k])) is Some,
            forall|k: int| 0 <= k < i ==> style_of(items@[k]) == Some(#[trigger] out@[k]@),
        decreases items@.len() - i,
    {
        match style_from_json(&items[i]) {
            Some(style) => out.push(style),
            None => return None,
        }
        i = i + 1;
    }
    assert(styles_of(items@) is Some);
    assert(items@.map_values(|x: JsonValue| style_of(x)->0) =~= out@.map_values(
        |s: VoicevoxCoreStyle| s@,
    ));
    Some(out)
}

fn meta_from_json(v: &JsonValue) -> (r: Option<VoicevoxCoreMeta>)
    ensures
        match r {
            Some(m) => meta_of(*v) == Some(m@),
            None => meta_of(*v) is None,
        },
{
    match v {
        JsonValue::Object(entries) => {
            let name = text_member(entries, &String::from_str("name"));
            let speaker_uuid = text_member(entries, &String::from_str("speaker_uuid"));
            let version = text_member(entries, &String::from_str("version"));
            let styles_key = String::from_str("styles");
            let styles = match find_field(entries, &styles_key) {
                Some(i) => match &entries[i].1 {
                    JsonValue::Array(items) => Some(styles_from_json(items)),
                    _ => None,
                },
                None => None,
            };
            match (name, styles, speaker_uuid, version) {
                (Some(name), Some(Some(styles)), Some(speaker_uuid), Some(version)) => Some(
                    VoicevoxCoreMeta { name, styles, speaker_uuid, version },
                ),
                _ => None,
            }
        },
        _ => None,
    }
}

/// Reads the speakers out of the engine's parsed response: `parsed` is
/// `None` where the response text is not JSON.
///
/// Succeeds exactly when the response is an array of speakers of the
/// expected shape, and then gives them all, in document order; otherwise
/// the error is `Malformed`.
pub fn metas_from_json(parsed: &Option<JsonValue>) -> (r: Result<Vec<VoicevoxCoreMeta>, MetasError>)
    ensures
        match r {
            Ok(metas) => metas_outcome(*parsed) == Some(
                metas@.map_values(|m: VoicevoxCoreMeta| m@),
            ),
            Err(e) => e == MetasError::Malformed && metas_outcome(*parsed) is None,
        },
{
    let items = match parsed {
        Some(JsonValue::Array(items)) => items,
        _ => return Err(MetasError::Malformed),
    };
    let mut out: Vec<VoicevoxCoreMeta> = Vec::new();
    let mut i: usize = 0;
    while i < items.len()
        invariant
            *parsed == Some(JsonValue::Array(*items)),
            0 <= i <= items@.len(),
            out@.len() == i,
            forall|k: int| 0 <= k < i ==> (#[trigger] meta_of(items@[k])) is Some,
            forall|k: int| 0 <= k < i ==> meta_of(items@[k]) == Some(#[trigger] out@[k]@),
        decreases items@.len() - i,
    {
        match meta_from_json(&items[i]) {
            Some(meta) => out.push(meta),
            None => {
                assert(meta_of(items@[i as int]) is None);
                return Err(MetasError::Malformed);
            },
        }
        i = i + 1;
    }
    assert(items@.map_values(|x: JsonValue| meta_of(x)->0) =~= out@.map_values(
        |m: VoicevoxCoreMeta| m@,
    ));
    Ok(out)
}

/// Reads the engine's metadata response as text: `raw` is `None` where the
/// engine returned a null pointer, and otherwise the bytes of its C string.
///
/// An absent or empty response is `Unavailable`; bytes that are not UTF-8
/// are `Malformed`; otherwise the text is what they encode.
pub fn metas_text(raw: &Option<Vec<u8>>) -> (r: Result<String, MetasError>)
    ensures
        match *raw {
            None => r == Err::<String, MetasError>(MetasError::Unavailable),
            Some(bytes) => if bytes@.len() == 0 {
                r == Err::<String, MetasError>(MetasError::Unavailable)
            } else if !valid_utf8(bytes@) {
                r == Err::<String, MetasError>(MetasError::Malformed)
            } else {
                r is Ok && r->Ok_0@ == decode_utf8(bytes@)
            },
        },
{
    match raw {
        None => Err(MetasError::Unavailable),
        Some(bytes) => {
            if bytes.len() == 0 {
                Err(MetasError::Unavailable)
            } else {
                match text_from_c_bytes(bytes) {
                    Some(text) => Ok(text),
                    None => Err(MetasError::Malformed),
                }
            }
        },
    }
}

} // verus!
