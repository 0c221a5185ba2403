//! Device records and their projection onto named values.

use crate::named::NamedValues;
use crate::value::{Uri, Urn, Value, ValueView};
use vstd::prelude::*;

verus! {

/// What a discovered device reports of itself. Each attribute is present or
/// absent.
#[derive(Debug, Clone, PartialEq, Eq)]
pub struct Device {
    pub friendly_name: Option<String>,
    pub manufacturer: Option<String>,
    pub model_name: Option<String>,
    pub udn: Option<String>,
    pub upc: Option<String>,
    pub serial_number: Option<String>,
    pub manufacturer_url: Option<String>,
    pub model_description: Option<String>,
    pub model_url: Option<String>,
    pub model_number: Option<String>,
    pub url: Option<Uri>,
    pub device_type: Option<Urn>,
}

/// The named value of a textual attribute.
pub open spec fn text_value(attribute: Option<String>) -> ValueView {
    match attribute {
        None => ValueView::Empty,
        Some(text) => ValueView::String(text@),
    }
}

/// The named value of an attribute that holds a URI.
pub open spec fn uri_value(attribute: Option<Uri>) -> ValueView {
    match attribute {
        None => ValueView::Empty,
        Some(uri) => ValueView::Uri(uri@),
    }
}

/// The named value of an attribute that holds a URN.
pub open spec fn urn_value(attribute: Option<Urn>) -> ValueView {
    match attribute {
        None => ValueView::Empty,
        Some(urn) => ValueView::Urn(urn@),
    }
}

/// The names that a format string may refer to.
pub open spec fn field_names() -> Set<Seq<char>> {
    set![
        "name"@,
        "manufacturer"@,
        "model_name"@,
        "udn"@,
        "upc"@,
        "serial"@,
        "manufacturer_url"@,
        "model_description"@,
        "model_url"@,
        "model_number"@,
        "url"@,
        "device_type"@,
    ]
}

/// The borrowed text of a textual attribute.
fn text_of(attribute: &Option<String>) -> (value: Value<'_>)
    ensures
        value@ == text_value(*attribute),
{
    match attribute {
        None => Value::Empty,
        Some(text) => Value::from(text.as_str()),
    }
}

impl Device {
    /// The mapping from field names to values that this record stands for.
    pub open spec fn named_values(&self) -> Map<Seq<char>, ValueView> {
        Map::<Seq<char>, ValueView>::empty().insert("name"@, text_value(self.friendly_name)).insert(
            "manufacturer"@,
            text_value(self.manufacturer),
        ).insert("model_name"@, text_value(self.model_name)).insert(
            "udn"@,
            text_value(self.udn),
        ).insert("upc"@, text_value(self.upc)).insert(
            "serial"@,
            text_value(self.serial_number),
        ).insert("manufacturer_url"@, text_value(self.manufacturer_url)).insert(
            "model_description"@,
            text_value(self.model_description),
        ).insert("model_url"@, text_value(self.model_url)).insert(
            "model_number"@,
            text_value(self.model_number),
        ).insert("url"@, uri_value(self.url)).insert("device_type"@, urn_value(self.device_type))
    }

    /// Projects the record onto its twelve named values. An absent attribute
    /// becomes [`Value::Empty`]; a present one is wrapped as it is.
    pub fn to_named_args(&self) -> (named: NamedValues<'_>)
        ensures
            named@ == self.named_values(),
    {
        let mut named = NamedValues::new();
        named.insert("name", text_of(&self.friendly_name));
        named.insert("manufacturer", text_of(&self.manufacturer));
        named.insert("model_name", text_of(&self.model_name));
        named.insert("udn", text_of(&self.udn));
        named.insert("upc", text_of(&self.upc));
        named.insert("serial", text_of(&self.serial_number));
        named.insert("manufacturer_url", text_of(&self.manufacturer_url));
        named.insert("model_description", text_of(&self.model_description));
        named.insert("model_url", text_of(&self.model_url));
        named.insert("model_number", text_of(&self.model_number));
        named.insert(
            "url",
            match &self.url {
                None => Value::Empty,
                Some(uri) => Value::from(uri),
            },
        );
        named.insert(
            "device_type",
            match &self.device_type {
                None => Value::Empty,
                Some(urn) => Value::from(urn),
            },
        );
        named
    }
}

/// How the twelve field names differ: by their lengths, and those of equal
/// length by their second character.
proof fn lemma_names_differ()
    ensures
        "name"@.len() == 4,
        "manufacturer"@.len() == 12,
        "model_name"@.len() == 10,
        "udn"@.len() == 3,
        "upc"@.len() == 3,
        "serial"@.len() == 6,
        "manufacturer_url"@.len() == 16,
        "model_description"@.len() == 17,
        "model_url"@.len() == 9,
        "model_number"@.len() == 12,
        "url"@.len() == 3,
        "device_type"@.len() == 11,
        "udn"@[1] == 'd',
        "upc"@[1] == 'p',
        "url"@[1] == 'r',
        "manufacturer"@[1] == 'a',
        "model_number"@[1] == 'o',
{
    reveal_strlit("name");
    reveal_strlit("manufacturer");
    reveal_strlit("model_name");
    reveal_strlit("udn");
    reveal_strlit("upc");
    reveal_strlit("serial");
    reveal_strlit("manufacturer_url");
    reveal_strlit("model_description");
    reveal_strlit("model_url");
    reveal_strlit("model_number");
    reveal_strlit("url");
    reveal_strlit("device_type");
}

/// There are twelve field names: no two of them are the same.
pub proof fn lemma_field_names_distinct()
    ensures
        field_names().finite(),
        field_names().len() == 12,
{
    lemma_names_differ();
    let s0 = Set::<Seq<char>>::empty();
    let s1 = s0.insert("name"@);
    assert(s1.finite() && s1.len() == 1);
    let s2 = s1.insert("manufacturer"@);
    assert(s2.finite() && s2.len() == 2);
    let s3 = s2.insert("model_name"@);
    assert(s3.finite() && s3.len() == 3);
    let s4 = s3.insert("udn"@);
    assert(s4.finite() && s4.len() == 4);
    let s5 = s4.insert("upc"@);
    assert(s5.finite() && s5.len() == 5);
    let s6 = s5.insert("serial"@);
    assert(s6.finite() && s6.len() == 6);
    let s7 = s6.insert("manufacturer_url"@);
    assert(s7.finite() && s7.len() == 7);
    let s8 = s7.insert("model_description"@);
    assert(s8.finite() && s8.len() == 8);
    let s9 = s8.insert("model_url"@);
    assert(s9.finite() && s9.len() == 9);
    let s10 = s9.insert("model_number"@);
    assert(s10.finite() && s10.len() == 10);
    let s11 = s10.insert("url"@);
    assert(s11.finite() && s11.len() == 11);
    let s12 = s11.insert("device_type"@);
    assert(s12.finite() && s12.len() == 12);
    assert(s12 =~= field_names());
}

/// The mapping of a record has exactly the twelve field names as its keys,
/// and holds under each the value of the attribute as it is: the text, URI or
/// URN where the attribute is present, and the empty value, whose text is
/// empty, where it is absent.
pub proof fn lemma_named_values(device: Device)
    ensures
        device.named_values().dom() == field_names(),
        device.named_values()["name"@] == text_value(device.friendly_name),
        device.named_values()["manufacturer"@] == text_value(device.manufacturer),
        device.named_values()["model_name"@] == text_value(device.model_name),
        device.named_values()["udn"@] == text_value(device.udn),
        device.named_values()["upc"@] == text_value(device.upc),
        device.named_values()["serial"@] == text_value(device.serial_number),
        device.named_values()["manufacturer_url"@] == text_value(device.manufacturer_url),
        device.named_values()["model_description"@] == text_value(device.model_description),
        device.named_values()["model_url"@] == text_value(device.model_url),
        device.named_values()["model_number"@] == text_value(device.model_number),
        device.named_values()["url"@] == uri_value(device.url),
        device.named_values()["device_type"@] == urn_value(device.device_type),
        text_value(None).text() == Seq::<char>::empty(),
        uri_value(None).text() == Seq::<char>::empty(),
        urn_value(None).text() == Seq::<char>::empty(),
        forall|text: String| (#[trigger] text_value(Some(text))).text() == text@,
        forall|uri: Uri| (#[trigger] uri_value(Some(uri))).text() == uri@,
{
    lemma_names_differ();
    assert(device.named_values().dom() =~= field_names());
}

} // verus!
