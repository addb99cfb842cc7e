//! The discovery document that registers an image entity with the hub.

use vstd::prelude::*;
use crate::config::AppConfig;
use crate::sensor::{image_topic, image_topic_of};

verus! {

/// Declares `serde_json::Error`, the error of `serde_json::to_string`, so that it
/// can be carried and mapped; nothing about its contents is assumed.
#[verifier::external_type_specification]
#[verifier::external_body]
pub struct ExJsonError(serde_json::Error);

/// Lowercase hexadecimal digits.
pub open spec fn hex_digits() -> Seq<char> {
    seq!['0', '1', '2', '3', '4', '5', '6', '7', '8', '9', 'a', 'b', 'c', 'd', 'e', 'f']
}

/// How one character is written inside a JSON string literal: `"`, `\` and the
/// control characters below 0x20 are escaped (the short forms `\b \t \n \f \r`
/// where they exist, else `\u00` and two lowercase hex digits); everything else
/// stands as it is.
pub open spec fn json_escape(c: char) -> Seq<char> {
    let u = c as u32;
    if c == '"' {
        seq!['\\', '"']
    } else if c == '\\' {
        seq!['\\', '\\']
    } else if u == 0x08 {
        seq!['\\', 'b']
    } else if u == 0x09 {
        seq!['\\', 't']
    } else if u == 0x0a {
        seq!['\\', 'n']
    } else if u == 0x0c {
        seq!['\\', 'f']
    } else if u == 0x0d {
        seq!['\\', 'r']
    } else if u < 0x20 {
        seq!['\\', 'u', '0', '0', hex_digits()[(u / 16) as int], hex_digits()[(u % 16) as int]]
    } else {
        seq![c]
    }
}

/// The characters of `s`, each escaped.
pub open spec fn json_escaped(s: Seq<char>) -> Seq<char>
    decreases s.len(),
{
    if s.len() == 0 {
        Seq::empty()
    } else {
        json_escaped(s.drop_last()) + json_escape(s.last())
    }
}

/// The JSON string literal of `s`: its escaped characters between quotes.
pub open spec fn json_string_of(s: Seq<char>) -> Seq<char> {
    seq!['"'] + json_escaped(s) + seq!['"']
}

/// Relies on `serde_json::to_string` on a `str`: it writes the string literal
/// into a `Vec<u8>`, which cannot fail, escaping by its fixed table.
#[verifier::external_body]
fn json_string(s: &str) -> (r: Result<String, serde_json::Error>)
    ensures
        r is Ok,
        r matches Ok(j) ==> j@ == json_string_of(s@),
{
    serde_json::to_string(s)
}

/// The device an entity belongs to.
pub struct Device {
    pub identifiers: Vec<String>,
    pub name: String,
}

/// The discovery document of one image entity.
pub struct ConfigMessage {
    pub name: String,
    pub unique_id: String,
    pub object_id: String,
    pub image_topic: String,
    pub device: Device,
}

/// The texts `items`, separated by commas.
pub open spec fn joined(items: Seq<Seq<char>>) -> Seq<char>
    decreases items.len(),
{
    if items.len() == 0 {
        Seq::empty()
    } else if items.len() == 1 {
        items[0]
    } else {
        joined(items.drop_last()) + ","@ + items.last()
    }
}

pub open spec fn texts(v: Seq<String>) -> Seq<Seq<char>> {
    v.map_values(|s: String| s@)
}

/// `{"name":N,"unique_id":U,"object_id":O,"image_topic":T,"device":{"identifiers":[I,...],"name":D}}`
/// from the JSON texts of its values: the fields in declaration order, without spaces.
pub open spec fn framed_config_json(
    name: Seq<char>,
    unique_id: Seq<char>,
    object_id: Seq<char>,
    image_topic: Seq<char>,
    identifiers: Seq<Seq<char>>,
    device_name: Seq<char>,
) -> Seq<char> {
    "{\"name\":"@ + name + ",\"unique_id\":"@ + unique_id + ",\"object_id\":"@ + object_id
        + ",\"image_topic\":"@ + image_topic + ",\"device\":{\"identifiers\":["@ + joined(
        identifiers,
    ) + "],\"name\":"@ + device_name + "}}"@
}

/// The JSON strings of `items`.
pub open spec fn json_strings(items: Seq<Seq<char>>) -> Seq<Seq<char>> {
    items.map_values(|t: Seq<char>| json_string_of(t))
}

/// A discovery message as JSON.
pub open spec fn config_json(m: ConfigMessage) -> Seq<char> {
    framed_config_json(
        json_string_of(m.name@),
        json_string_of(m.unique_id@),
        json_string_of(m.object_id@),
        json_string_of(m.image_topic@),
        json_strings(texts(m.device.identifiers@)),
        json_string_of(m.device.name@),
    )
}

/// The discovery message of camera `camera` for `config`'s integration: the camera
/// name as display name, unique id and object id, the integration's image topic,
/// and the integration as the device.
pub open spec fn discovery_message(m: ConfigMessage, camera: Seq<char>, config: AppConfig) -> bool {
    &&& m.name@ == camera
    &&& m.unique_id@ == camera
    &&& m.object_id@ == camera
    &&& m.image_topic@ == image_topic_of(config.integration_id@)
    &&& texts(m.device.identifiers@) == seq![config.integration_id@]
    &&& m.device.name@ == config.integration_name@
}

/// The discovery document of camera `camera` for `config`'s integration, as JSON.
pub open spec fn discovery_document(camera: Seq<char>, config: AppConfig) -> Seq<char> {
    framed_config_json(
        json_string_of(camera),
        json_string_of(camera),
        json_string_of(camera),
        json_string_of(image_topic_of(config.integration_id@)),
        seq![json_string_of(config.integration_id@)],
        json_string_of(config.integration_name@),
    )
}

/// The discovery document from the JSON texts of its values.
pub fn frame_config_json(
    name: &str,
    unique_id: &str,
    object_id: &str,
    image_topic: &str,
    identifiers: &Vec<String>,
    device_name: &str,
) -> (r: String)
    ensures
        r@ == framed_config_json(
            name@,
            unique_id@,
            object_id@,
            image_topic@,
            texts(identifiers@),
            device_name@,
        ),
{
    let mut out = String::from_str("{\"name\":");
    out.append(name);
    out.append(",\"unique_id\":");
    out.append(unique_id);
    out.append(",\"object_id\":");
    out.append(object_id);
    out.append(",\"image_topic\":");
    out.append(image_topic);
    out.append(",\"device\":{\"identifiers\":[");
    let ghost head = out@;
    let mut i: usize = 0;
    while i < identifiers.len()
        invariant
            i <= identifiers@.len(),
            out@ == head + joined(texts(identifiers@).take(i as int)),
        decreases identifiers@.len() - i,
    {
        if i > 0 {
            out.append(",");
        }
        out.append(identifiers[i].as_str());
        assert(texts(identifiers@).take(i + 1).drop_last() =~= texts(identifiers@).take(i as int));
        i = i + 1;
    }
    assert(texts(identifiers@).take(i as int) =~= texts(identifiers@));
    out.append("],\"name\":");
    out.append(device_name);
    out.append("}}");
    out
}

fn json_text(s: &str) -> (r: String)
    ensures
        r@ == json_string_of(s@),
{
    match json_string(s) {
        Ok(j) => j,
        Err(_) => {
            proof {
                assert(false);
            }
            String::new()
        },
    }
}

impl ConfigMessage {
    /// The discovery message that declares camera `camera_name`.
    pub fn for_camera(camera_name: &str, config: &AppConfig) -> (r: ConfigMessage)
        ensures
            discovery_message(r, camera_name@, *config),
    {
        let mut identifiers: Vec<String> = Vec::new();
        identifiers.push(config.integration_id.clone());
        assert(texts(identifiers@) =~= seq![config.integration_id@]);
        ConfigMessage {
            name: String::from_str(camera_name),
            unique_id: String::from_str(camera_name),
            object_id: String::from_str(camera_name),
            image_topic: image_topic(config.integration_id.as_str()),
            device: Device { identifiers, name: config.integration_name.clone() },
        }
    }

    /// The document as JSON text.
    pub fn to_json(&self) -> (r: String)
        ensures
            r@ == config_json(*self),
    {
        let name = json_text(self.name.as_str());
        let unique_id = json_text(self.unique_id.as_str());
        let object_id = json_text(self.object_id.as_str());
        let image_topic = json_text(self.image_topic.as_str());
        let ids = &self.device.identifiers;
        let mut identifiers: Vec<String> = Vec::new();
        let mut i: usize = 0;
        while i < ids.len()
            invariant
                i <= ids@.len(),
                identifiers@.len() == i,
                forall|k: int| 0 <= k < i ==> #[trigger] identifiers@[k]@ == json_string_of(ids@[k]@),
            decreases ids@.len() - i,
        {
            let quoted = json_text(ids[i].as_str());
            identifiers.push(quoted);
            i = i + 1;
        }
        assert(texts(identifiers@) =~= json_strings(texts(ids@)));
        let device_name = json_text(self.device.name.as_str());
        frame_config_json(
            name.as_str(),
            unique_id.as_str(),
            object_id.as_str(),
            image_topic.as_str(),
            &identifiers,
            device_name.as_str(),
        )
    }
}

/// The discovery document of a camera is the discovery message's JSON: its
/// display name, unique id and object id are all the camera name.
pub proof fn lemma_discovery_document(m: ConfigMessage, camera: Seq<char>, config: AppConfig)
    requires
        discovery_message(m, camera, config),
    ensures
        config_json(m) == discovery_document(camera, config),
{
    assert(json_strings(texts(m.device.identifiers@)) =~= seq![
        json_string_of(config.integration_id@),
    ]);
}

} // verus!
