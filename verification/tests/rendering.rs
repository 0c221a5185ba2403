use rt_format::argument::ArgumentFormatter;
use rt_format::{Align, Format, FormatArgument, Pad, Precision, Repr, Sign, Specifier, Width};
use rupnpc::named::NamedValues;
use rupnpc::template::{
    format_value, render, render_outcome, render_segments, FormatError, Segment,
};
use rupnpc::value::{Uri, Urn, UrnKind, Value};
use std::fmt;

/// Prints whether a formatting method of a value wrote or refused.
struct Outcome<'a>(Value<'a>, fn(&Value<'a>, &mut fmt::Formatter) -> fmt::Result);

impl<'a> fmt::Display for Outcome<'a> {
    fn fmt(&self, f: &mut fmt::Formatter) -> fmt::Result {
        match (self.1)(&self.0, f) {
            Ok(()) => f.write_str("|written"),
            Err(fmt::Error) => f.write_str("|refused"),
        }
    }
}

fn speaker<'a>() -> NamedValues<'a> {
    let mut named = NamedValues::new();
    named.insert("name", Value::String("Living Room Speaker"));
    named
}

fn zone_player() -> Urn {
    Urn {
        kind: UrnKind::Device,
        domain: "schemas-upnp-org".to_string(),
        typ: "ZonePlayer".to_string(),
        version: 1,
    }
}

fn specifier(format: Format) -> Specifier {
    Specifier {
        align: Align::None,
        sign: Sign::Default,
        repr: Repr::Default,
        pad: Pad::Space,
        width: Width::Auto,
        precision: Precision::Auto,
        format,
    }
}

#[test]
fn literal_text_is_returned_unchanged() {
    let named = speaker();
    assert_eq!(render("hello, world", &named), Ok("hello, world".to_string()));
    assert_eq!(render("no placeholders: 100%", &NamedValues::new()), Ok("no placeholders: 100%".to_string()));
    assert_eq!(render("gr\u{fc}\u{df}e \u{2603}", &named), Ok("gr\u{fc}\u{df}e \u{2603}".to_string()));
}

#[test]
fn empty_template_renders_as_empty_text() {
    assert_eq!(render("", &speaker()), Ok(String::new()));
}

#[test]
fn name_placeholder_is_replaced_by_the_text() {
    assert_eq!(render("{name}", &speaker()), Ok("Living Room Speaker".to_string()));
}

#[test]
fn placeholder_between_literal_text() {
    assert_eq!(render("<{name}>", &speaker()), Ok("<Living Room Speaker>".to_string()));
    assert_eq!(
        render("{name} and {name}", &speaker()),
        Ok("Living Room Speaker and Living Room Speaker".to_string())
    );
}

#[test]
fn unknown_placeholder_fails_at_its_offset() {
    assert_eq!(render("{bogus}", &speaker()), Err(FormatError::Invalid { position: 0 }));
    assert_eq!(render("{bogus}", &NamedValues::new()), Err(FormatError::Invalid { position: 0 }));
    assert_eq!(render("name: {bogus}", &speaker()), Err(FormatError::Invalid { position: 6 }));
    assert_eq!(render("{name} {bogus}", &speaker()), Err(FormatError::Invalid { position: 7 }));
}

#[test]
fn offset_counts_bytes() {
    assert_eq!(render("\u{fc}{bogus}", &speaker()), Err(FormatError::Invalid { position: 2 }));
}

#[test]
fn malformed_braces_fail() {
    assert_eq!(render("{name", &speaker()), Err(FormatError::Invalid { position: 0 }));
    assert_eq!(render("{", &speaker()), Err(FormatError::Invalid { position: 0 }));
    assert_eq!(render("}", &speaker()), Err(FormatError::Invalid { position: 0 }));
    assert_eq!(render("a}b", &speaker()), Err(FormatError::Invalid { position: 1 }));
    assert_eq!(render("{name}}", &speaker()), Err(FormatError::Invalid { position: 6 }));
}

#[test]
fn doubled_braces_stand_for_one() {
    assert_eq!(render("{{name}}", &speaker()), Ok("{name}".to_string()));
    assert_eq!(render("{{{name}}}", &speaker()), Ok("{Living Room Speaker}".to_string()));
}

#[test]
fn positional_placeholders_fail() {
    assert_eq!(render("{}", &speaker()), Err(FormatError::Invalid { position: 0 }));
    assert_eq!(render("{0}", &speaker()), Err(FormatError::Invalid { position: 0 }));
}

#[test]
fn numeric_styles_fail_in_a_template() {
    let uri = Uri::new("http://10.0.0.5:1400/desc.xml".to_string());
    let urn = zone_player();
    let mut named = speaker();
    named.insert("nothing", Value::Empty);
    named.insert("url", Value::Uri(&uri));
    named.insert("device_type", Value::Urn(&urn));
    for name in ["name", "nothing", "url", "device_type"] {
        for style in ["o", "x", "X", "b", "e", "E"] {
            let template = format!("ab{{{}:{}}}", name, style);
            assert_eq!(render(&template, &named), Err(FormatError::Invalid { position: 2 }));
        }
    }
}

#[test]
fn numeric_styles_fail_for_every_value() {
    let uri = Uri::new("http://10.0.0.5:1400/desc.xml".to_string());
    let urn = zone_player();
    let values = [Value::Empty, Value::String("12"), Value::Uri(&uri), Value::Urn(&urn)];
    let styles = [
        Format::Octal,
        Format::LowerHex,
        Format::UpperHex,
        Format::Binary,
        Format::LowerExp,
        Format::UpperExp,
    ];
    for value in values.iter() {
        for style in styles.iter() {
            assert_eq!(format_value(&specifier(*style), value), Err(FormatError::NotSupported));
        }
    }
}

#[test]
fn values_support_display_and_debug_only() {
    let value = Value::String("12");
    assert!(value.supports_format(&specifier(Format::Display)));
    assert!(value.supports_format(&specifier(Format::Debug)));
    assert!(!value.supports_format(&specifier(Format::Octal)));
    assert!(!value.supports_format(&specifier(Format::LowerHex)));
    assert!(!value.supports_format(&specifier(Format::UpperHex)));
    assert!(!value.supports_format(&specifier(Format::Binary)));
    assert!(!value.supports_format(&specifier(Format::LowerExp)));
    assert!(!value.supports_format(&specifier(Format::UpperExp)));
    assert!(Value::Empty.supports_format(&specifier(Format::Display)));
    assert!(!Value::Empty.supports_format(&specifier(Format::LowerHex)));
}

#[test]
fn empty_value_renders_as_empty_text() {
    let mut named = NamedValues::new();
    named.insert("upc", Value::Empty);
    assert_eq!(render("{upc}", &named), Ok(String::new()));
    assert_eq!(render("upc: {upc}.", &named), Ok("upc: .".to_string()));
    assert_eq!(format_value(&specifier(Format::Display), &Value::Empty), Ok(String::new()));
    assert_eq!(Value::Empty.display_text(), "");
}

#[test]
fn display_text_of_each_variant() {
    let uri = Uri::new("http://10.0.0.5:1400/desc.xml".to_string());
    let urn = zone_player();
    assert_eq!(Value::String("abc").display_text(), "abc");
    assert_eq!(Value::Uri(&uri).display_text(), "http://10.0.0.5:1400/desc.xml");
    assert_eq!(Value::Urn(&urn).display_text(), "urn:schemas-upnp-org:device:ZonePlayer:1");
    let service = Urn {
        kind: UrnKind::Service,
        domain: "schemas-sonos-com".to_string(),
        typ: "Queue".to_string(),
        version: 4294967295,
    };
    assert_eq!(Value::Urn(&service).display_text(), "urn:schemas-sonos-com:service:Queue:4294967295");
    let zero = Urn { kind: UrnKind::Device, domain: String::new(), typ: String::new(), version: 0 };
    assert_eq!(Value::Urn(&zero).display_text(), "urn::device::0");
}

#[test]
fn structured_values_render_as_their_text() {
    let uri = Uri::new("http://10.0.0.5:1400/desc.xml".to_string());
    let urn = zone_player();
    let mut named = NamedValues::new();
    named.insert("url", Value::Uri(&uri));
    named.insert("device_type", Value::Urn(&urn));
    assert_eq!(
        render("{url} {device_type}", &named),
        Ok("http://10.0.0.5:1400/desc.xml urn:schemas-upnp-org:device:ZonePlayer:1".to_string())
    );
}

#[test]
fn debug_style_of_each_variant() {
    let uri = Uri::new("http://10.0.0.5:1400/desc.xml".to_string());
    let urn = zone_player();
    let mut named = speaker();
    named.insert("nothing", Value::Empty);
    named.insert("url", Value::Uri(&uri));
    named.insert("device_type", Value::Urn(&urn));
    assert_eq!(render("{name:?}", &named), Ok("\"Living Room Speaker\"".to_string()));
    assert_eq!(render("{nothing:?}", &named), Ok("\"\"".to_string()));
    assert_eq!(render("{url:?}", &named), Ok("http://10.0.0.5:1400/desc.xml".to_string()));
    assert_eq!(
        render("{device_type:?}", &named),
        Ok("Device(\"schemas-upnp-org\", \"ZonePlayer\", 1)".to_string())
    );
}

#[test]
fn width_and_precision_apply_to_plain_text() {
    let mut named = NamedValues::new();
    named.insert("name", Value::String("abcdef"));
    named.insert("nothing", Value::Empty);
    assert_eq!(render("[{name:>8}]", &named), Ok("[  abcdef]".to_string()));
    assert_eq!(render("[{name:<8}]", &named), Ok("[abcdef  ]".to_string()));
    assert_eq!(render("[{name:^8}]", &named), Ok("[ abcdef ]".to_string()));
    assert_eq!(render("[{name:.3}]", &named), Ok("[abc]".to_string()));
    assert_eq!(render("[{nothing:3}]", &named), Ok("[   ]".to_string()));
}

#[test]
fn width_does_not_pad_structured_values() {
    let uri = Uri::new("http://a/".to_string());
    let urn = zone_player();
    let mut named = NamedValues::new();
    named.insert("url", Value::Uri(&uri));
    named.insert("device_type", Value::Urn(&urn));
    assert_eq!(render("[{url:>12}]", &named), Ok("[http://a/]".to_string()));
    assert_eq!(
        render("[{device_type:>50}]", &named),
        Ok("[urn:schemas-upnp-org:device:ZonePlayer:1]".to_string())
    );
}

#[test]
fn oversized_width_or_precision_is_not_supported() {
    let named = speaker();
    assert_eq!(render("{name:65536}", &named), Err(FormatError::NotSupported));
    assert_eq!(render("{name:.65536}", &named), Err(FormatError::NotSupported));
    assert_eq!(render("x{name:1}{name:70000}", &named), Err(FormatError::NotSupported));
    let mut wide = specifier(Format::Display);
    wide.width = Width::AtLeast { width: 65536 };
    assert_eq!(format_value(&wide, &Value::String("a")), Err(FormatError::NotSupported));
    let mut exact = specifier(Format::Debug);
    exact.precision = Precision::Exactly { precision: usize::MAX };
    assert_eq!(format_value(&exact, &Value::String("a")), Err(FormatError::NotSupported));
}

#[test]
fn largest_width_is_rendered() {
    let mut named = NamedValues::new();
    named.insert("name", Value::String("a"));
    let rendered = render("{name:65535}", &named).unwrap();
    assert_eq!(rendered.len(), 65535);
    assert!(rendered.starts_with("a "));
}

#[test]
fn width_taken_from_a_value_fails() {
    let mut named = speaker();
    named.insert("width", Value::String("8"));
    assert_eq!(render("{name:width$}", &named), Err(FormatError::Invalid { position: 0 }));
}

#[test]
fn format_value_renders_a_single_value() {
    assert_eq!(format_value(&specifier(Format::Display), &Value::String("abc")), Ok("abc".to_string()));
    assert_eq!(format_value(&specifier(Format::Debug), &Value::String("a\"b")), Ok("\"a\\\"b\"".to_string()));
    let mut padded = specifier(Format::Display);
    padded.width = Width::AtLeast { width: 5 };
    padded.align = Align::Right;
    assert_eq!(format_value(&padded, &Value::String("abc")), Ok("  abc".to_string()));
}

#[test]
fn render_segments_joins_the_pieces() {
    let segments = vec![
        Segment::Text("name: "),
        Segment::Substitution(specifier(Format::Display), Value::String("X")),
        Segment::Text("!"),
    ];
    assert_eq!(render_segments(&segments), Ok("name: X!".to_string()));
    assert_eq!(render_segments(&Vec::new()), Ok(String::new()));
}

#[test]
fn render_segments_stops_at_an_unsupported_style() {
    let segments = vec![
        Segment::Text("name: "),
        Segment::Substitution(specifier(Format::LowerHex), Value::String("X")),
        Segment::Text("!"),
    ];
    assert_eq!(render_segments(&segments), Err(FormatError::NotSupported));
}

#[test]
fn format_error_messages() {
    assert_eq!(
        FormatError::Invalid { position: 12 }.message(),
        "Invalid format string at position 12"
    );
    assert_eq!(
        FormatError::Invalid { position: 0 }.message(),
        "Invalid format string at position 0"
    );
    assert_eq!(FormatError::NotSupported.message(), "Format not supported");
}

#[test]
fn numeric_formatting_methods_refuse() {
    let uri = Uri::new("http://10.0.0.5:1400/desc.xml".to_string());
    let urn = zone_player();
    let values = [Value::Empty, Value::String("12"), Value::Uri(&uri), Value::Urn(&urn)];
    for value in values {
        assert_eq!(format!("{}", Outcome(value, Value::fmt_octal)), "|refused");
        assert_eq!(format!("{}", Outcome(value, Value::fmt_lower_hex)), "|refused");
        assert_eq!(format!("{}", Outcome(value, Value::fmt_upper_hex)), "|refused");
        assert_eq!(format!("{}", Outcome(value, Value::fmt_binary)), "|refused");
        assert_eq!(format!("{}", Outcome(value, Value::fmt_lower_exp)), "|refused");
        assert_eq!(format!("{}", Outcome(value, Value::fmt_upper_exp)), "|refused");
    }
}

#[test]
fn textual_formatting_methods_write() {
    let uri = Uri::new("http://10.0.0.5:1400/desc.xml".to_string());
    let urn = zone_player();
    assert_eq!(format!("{}", Outcome(Value::Empty, Value::fmt_display)), "|written");
    assert_eq!(format!("{}", Outcome(Value::String("a b"), Value::fmt_display)), "a b|written");
    assert_eq!(format!("{}", Outcome(Value::String("a b"), Value::fmt_debug)), "\"a b\"|written");
    assert_eq!(format!("{}", Outcome(Value::Empty, Value::fmt_debug)), "\"\"|written");
    assert_eq!(
        format!("{}", Outcome(Value::Uri(&uri), Value::fmt_display)),
        "http://10.0.0.5:1400/desc.xml|written"
    );
    assert_eq!(
        format!("{}", Outcome(Value::Uri(&uri), Value::fmt_debug)),
        "http://10.0.0.5:1400/desc.xml|written"
    );
    assert_eq!(
        format!("{}", Outcome(Value::Urn(&urn), Value::fmt_display)),
        "urn:schemas-upnp-org:device:ZonePlayer:1|written"
    );
    assert_eq!(
        format!("{}", Outcome(Value::Urn(&urn), Value::fmt_debug)),
        "Device(\"schemas-upnp-org\", \"ZonePlayer\", 1)|written"
    );
}

#[test]
fn formatter_adapter_prints_the_text() {
    let value = Value::String("abc");
    assert_eq!(format!("{}", ArgumentFormatter(&value)), "abc");
    assert_eq!(format!("{:>5}", ArgumentFormatter(&value)), "  abc");
    assert_eq!(format!("{:?}", ArgumentFormatter(&value)), "\"abc\"");
}

#[test]
fn render_outcome_maps_the_offset_to_an_error() {
    assert_eq!(render_outcome(Err(17)), Err(FormatError::Invalid { position: 17 }));
    assert_eq!(render_outcome(Ok(vec![Segment::Text("a"), Segment::Text("b")])), Ok("ab".to_string()));
    assert_eq!(render_outcome(Ok(Vec::new())), Ok(String::new()));
}

#[test]
fn formatting_methods_write_behind_what_was_written() {
    let uri = Uri::new("http://a/".to_string());
    let urn = zone_player();
    let text = Value::String("abc");
    assert_eq!(format!("<{}>", ArgumentFormatter(&text)), "<abc>");
    assert_eq!(format!("<{}>", ArgumentFormatter(&Value::Empty)), "<>");
    assert_eq!(format!("<{}>", ArgumentFormatter(&Value::Uri(&uri))), "<http://a/>");
    assert_eq!(
        format!("<{}>", ArgumentFormatter(&Value::Urn(&urn))),
        "<urn:schemas-upnp-org:device:ZonePlayer:1>"
    );
    assert_eq!(format!("<{:?}>", ArgumentFormatter(&Value::Uri(&uri))), "<http://a/>");
    assert_eq!(format!("<{:.2}>", ArgumentFormatter(&text)), "<ab>");
    assert_eq!(format!("<{:4}>", ArgumentFormatter(&Value::Empty)), "<    >");
}
