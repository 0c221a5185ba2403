//! Named values: the renderable content of one device attribute.
//!
//! A [`Value`] is absent, a plain string, a URI or a URN. Every variant has a
//! textual form ([`ValueView::text`]), which is what the default `{}` style
//! prints. Only the `{}` and `{:?}` styles are supported; every numeric style
//! is refused.

use rt_format::{Format, FormatArgument, Specifier};
use rupnp::ssdp::URN;
use std::borrow::Cow;
use vstd::prelude::*;
use vstd::std_specs::convert::FromSpecImpl;

verus! {

/// Whether a URN names a device type or a service type.
#[derive(Debug, Clone, Copy, PartialEq, Eq)]
pub enum UrnKind {
    Device,
    Service,
}

/// A uniform resource name such as `urn:schemas-upnp-org:device:ZonePlayer:1`,
/// held as the parts that `ssdp_client::URN` is made of.
#[derive(Debug, Clone, PartialEq, Eq)]
pub struct Urn {
    pub kind: UrnKind,
    pub domain: String,
    pub typ: String,
    pub version: u32,
}

/// The mathematical value of a [`Urn`].
pub struct UrnView {
    pub kind: UrnKind,
    pub domain: Seq<char>,
    pub typ: Seq<char>,
    pub version: u32,
}

impl View for Urn {
    type V = UrnView;

    open spec fn view(&self) -> UrnView {
        UrnView { kind: self.kind, domain: self.domain@, typ: self.typ@, version: self.version }
    }
}

/// A URI, held as the text that `http::Uri` prints for it.
#[derive(Debug, Clone, PartialEq, Eq)]
pub struct Uri {
    text: String,
}

impl View for Uri {
    type V = Seq<char>;

    closed spec fn view(&self) -> Seq<char> {
        self.text@
    }
}

impl Uri {
    /// Wraps the printed form of a URI.
    pub fn new(text: String) -> (uri: Uri)
        ensures
            uri@ == text@,
    {
        Uri { text }
    }

    /// The printed form of the URI.
    pub fn as_str(&self) -> (text: &str)
        ensures
            text@ == self@,
    {
        self.text.as_str()
    }
}

/// The content of one named attribute of a device.
#[derive(Debug, Clone, Copy, PartialEq, Eq)]
pub enum Value<'a> {
    /// The device reported nothing for this attribute.
    Empty,
    /// Plain text.
    String(&'a str),
    /// The address of a resource.
    Uri(&'a Uri),
    /// The name of a device type or a service type.
    Urn(&'a Urn),
}

/// The mathematical value of a [`Value`].
pub enum ValueView {
    Empty,
    String(Seq<char>),
    Uri(Seq<char>),
    Urn(UrnView),
}

impl<'a> View for Value<'a> {
    type V = ValueView;

    open spec fn view(&self) -> ValueView {
        match *self {
            Value::Empty => ValueView::Empty,
            Value::String(text) => ValueView::String(text@),
            Value::Uri(uri) => ValueView::Uri(uri@),
            Value::Urn(urn) => ValueView::Urn(urn@),
        }
    }
}

/// The decimal digit `d`, for `d < 10`.
pub open spec fn digit(d: nat) -> char {
    ((48 + d) as u8) as char
}

/// The decimal numeral of `n`, without sign or leading zeros.
pub open spec fn decimal(n: nat) -> Seq<char>
    decreases n,
{
    if n < 10 {
        seq![digit(n)]
    } else {
        decimal(n / 10).push(digit(n % 10))
    }
}

/// The word that stands for the kind inside a URN's text.
pub open spec fn kind_text(kind: UrnKind) -> Seq<char> {
    match kind {
        UrnKind::Device => seq!['d', 'e', 'v', 'i', 'c', 'e'],
        UrnKind::Service => seq!['s', 'e', 'r', 'v', 'i', 'c', 'e'],
    }
}

/// The text of a URN: `urn:<domain>:<kind>:<type>:<version>`.
pub open spec fn urn_text(urn: UrnView) -> Seq<char> {
    seq!['u', 'r', 'n', ':'] + urn.domain + seq![':'] + kind_text(urn.kind) + seq![':'] + urn.typ
        + seq![':'] + decimal(urn.version as nat)
}

impl ValueView {
    /// The textual form of the value: what the default style prints.
    pub open spec fn text(self) -> Seq<char> {
        match self {
            ValueView::Empty => Seq::empty(),
            ValueView::String(text) => text,
            ValueView::Uri(text) => text,
            ValueView::Urn(urn) => urn_text(urn),
        }
    }
}

/// Whether a format is one of the two that every value supports.
pub open spec fn is_textual(format: Format) -> bool {
    format is Display || format is Debug
}

/// Whether a format is one of the numeric styles: octal, hexadecimal,
/// binary or exponential.
pub open spec fn is_numeric(format: Format) -> bool {
    format is Octal || format is LowerHex || format is UpperHex || format is Binary
        || format is LowerExp || format is UpperExp
}

/// Every format is textual or numeric, and none is both.
pub proof fn lemma_textual_or_numeric(format: Format)
    ensures
        is_numeric(format) <==> !is_textual(format),
{
}

#[verifier::external_type_specification]
pub struct ExSpecifier(Specifier);

#[verifier::external_type_specification]
pub struct ExAlign(rt_format::Align);

#[verifier::external_type_specification]
pub struct ExSign(rt_format::Sign);

#[verifier::external_type_specification]
pub struct ExRepr(rt_format::Repr);

#[verifier::external_type_specification]
pub struct ExPad(rt_format::Pad);

#[verifier::external_type_specification]
pub struct ExWidth(rt_format::Width);

#[verifier::external_type_specification]
pub struct ExPrecision(rt_format::Precision);

#[verifier::external_type_specification]
pub struct ExFormat(Format);

#[verifier::external_type_specification]
#[verifier::external_body]
pub struct ExFormatter<'a>(core::fmt::Formatter<'a>);

#[verifier::external_type_specification]
#[verifier::external_body]
pub struct ExFmtError(core::fmt::Error);

/// The text that has been written to a formatter so far.
pub uninterp spec fn written(f: core::fmt::Formatter) -> Seq<char>;

/// The least width that a formatter was made to fill, if any.
pub uninterp spec fn width_of(f: core::fmt::Formatter) -> Option<usize>;

/// The precision that a formatter was made to keep to, if any.
pub uninterp spec fn precision_of(f: core::fmt::Formatter) -> Option<usize>;

/// What the standard library writes to a formatter to display a text:
/// the text, padded or cut as the formatter asks.
pub uninterp spec fn str_displayed(text: Seq<char>, f: core::fmt::Formatter) -> Seq<char>;

/// What the standard library writes to a formatter to debug a text: the
/// text, quoted and escaped.
pub uninterp spec fn str_debugged(text: Seq<char>, f: core::fmt::Formatter) -> Seq<char>;

/// What `ssdp_client` writes to a formatter to debug a URN.
pub uninterp spec fn urn_debugged(urn: UrnView, f: core::fmt::Formatter) -> Seq<char>;

/// Whether a formatter was made with neither a width nor a precision.
pub open spec fn is_plain_formatter(f: core::fmt::Formatter) -> bool {
    width_of(f) is None && precision_of(f) is None
}

/// What displaying a value writes to a formatter: plain text as the
/// formatter pads or cuts it, a URI or a URN as its text.
pub open spec fn display_written(value: ValueView, f: core::fmt::Formatter) -> Seq<char> {
    match value {
        ValueView::Empty => str_displayed(Seq::empty(), f),
        ValueView::String(text) => str_displayed(text, f),
        ValueView::Uri(text) => text,
        ValueView::Urn(urn) => urn_text(urn),
    }
}

/// What debugging a value writes to a formatter: plain text quoted and
/// escaped, a URI as its text, a URN as `ssdp_client` shows its parts.
pub open spec fn debug_written(value: ValueView, f: core::fmt::Formatter) -> Seq<char> {
    match value {
        ValueView::Empty => str_debugged(Seq::empty(), f),
        ValueView::String(text) => str_debugged(text, f),
        ValueView::Uri(text) => text,
        ValueView::Urn(urn) => urn_debugged(urn, f),
    }
}

/// `<URN as Display>::fmt` of `ssdp_client`, through `to_string`: it prints
/// `urn:`, the domain, the kind, the type and the version in decimal, with a
/// colon between each two.
#[verifier::external_body]
fn urn_to_string(urn: &Urn) -> (text: String)
    ensures
        text@ == urn_text(urn@),
{
    let (domain, typ) = (Cow::Owned(urn.domain.clone()), Cow::Owned(urn.typ.clone()));
    match urn.kind {
        UrnKind::Device => URN::Device(domain, typ, urn.version),
        UrnKind::Service => URN::Service(domain, typ, urn.version),
    }.to_string()
}

/// `<URN as Debug>::fmt` of `ssdp_client`, the derived impl. Where it
/// succeeds, what it wrote stands behind what the formatter held, and
/// depends on the URN and the formatter alone.
#[verifier::external_body]
fn debug_urn(urn: &Urn, f: &mut core::fmt::Formatter<'_>) -> (result: core::fmt::Result)
    ensures
        result is Ok ==> written(*final(f)) == written(*old(f)) + urn_debugged(urn@, *old(f)),
{
    let (domain, typ) = (Cow::Owned(urn.domain.clone()), Cow::Owned(urn.typ.clone()));
    let outside = match urn.kind {
        UrnKind::Device => URN::Device(domain, typ, urn.version),
        UrnKind::Service => URN::Service(domain, typ, urn.version),
    };
    core::fmt::Debug::fmt(&outside, f)
}

/// `<str as Display>::fmt`: writes the text, padded or cut as the
/// formatter's width and precision ask. Where it succeeds, what it wrote
/// stands behind what the formatter held; with neither a width nor a
/// precision, that is the text as it is.
#[verifier::external_body]
fn display_str(text: &str, f: &mut core::fmt::Formatter<'_>) -> (result: core::fmt::Result)
    ensures
        result is Ok ==> written(*final(f)) == written(*old(f)) + str_displayed(text@, *old(f)),
        width_of(*old(f)) is None && precision_of(*old(f)) is None ==> str_displayed(
            text@,
            *old(f),
        ) == text@,
{
    core::fmt::Display::fmt(text, f)
}

/// `<str as Debug>::fmt`: writes the text quoted and escaped. Where it
/// succeeds, what it wrote stands behind what the formatter held, and
/// depends on the text and the formatter alone.
#[verifier::external_body]
fn debug_str(text: &str, f: &mut core::fmt::Formatter<'_>) -> (result: core::fmt::Result)
    ensures
        result is Ok ==> written(*final(f)) == written(*old(f)) + str_debugged(text@, *old(f)),
{
    core::fmt::Debug::fmt(text, f)
}

/// `Formatter::write_str`: writes the text as it is. Where it succeeds, the
/// text stands behind what the formatter held.
#[verifier::external_body]
fn write_str(text: &str, f: &mut core::fmt::Formatter<'_>) -> (result: core::fmt::Result)
    ensures
        result is Ok ==> written(*final(f)) == written(*old(f)) + text@,
{
    f.write_str(text)
}

/// The value `Err(core::fmt::Error)`.
#[verifier::external_body]
fn not_supported() -> (result: core::fmt::Result)
    ensures
        result is Err,
{
    Err(core::fmt::Error)
}

impl<'a> Value<'a> {
    /// The textual form of the value, as the default style prints it.
    pub fn display_text(&self) -> (text: String)
        ensures
            text@ == self@.text(),
    {
        match *self {
            Value::Empty => String::new(),
            Value::String(text) => text.to_owned(),
            Value::Uri(uri) => uri.as_str().to_owned(),
            Value::Urn(urn) => urn_to_string(urn),
        }
    }
}

impl<'a> From<&'a str> for Value<'a> {
    fn from(value: &'a str) -> (result: Self) {
        Value::String(value)
    }
}

impl<'a> FromSpecImpl<&'a str> for Value<'a> {
    open spec fn obeys_from_spec() -> bool {
        true
    }

    open spec fn from_spec(value: &'a str) -> Self {
        Value::String(value)
    }
}

impl<'a> From<Option<&'a str>> for Value<'a> {
    fn from(value: Option<&'a str>) -> (result: Self) {
        match value {
            None => Value::Empty,
            Some(value) => Value::String(value),
        }
    }
}

impl<'a> FromSpecImpl<Option<&'a str>> for Value<'a> {
    open spec fn obeys_from_spec() -> bool {
        true
    }

    open spec fn from_spec(value: Option<&'a str>) -> Self {
        match value {
            None => Value::Empty,
            Some(value) => Value::String(value),
        }
    }
}

impl<'a> From<&'a Uri> for Value<'a> {
    fn from(uri: &'a Uri) -> (result: Self) {
        Value::Uri(uri)
    }
}

impl<'a> FromSpecImpl<&'a Uri> for Value<'a> {
    open spec fn obeys_from_spec() -> bool {
        true
    }

    open spec fn from_spec(uri: &'a Uri) -> Self {
        Value::Uri(uri)
    }
}

impl<'a> From<&'a Urn> for Value<'a> {
    fn from(urn: &'a Urn) -> (result: Self) {
        Value::Urn(urn)
    }
}

impl<'a> FromSpecImpl<&'a Urn> for Value<'a> {
    open spec fn obeys_from_spec() -> bool {
        true
    }

    open spec fn from_spec(urn: &'a Urn) -> Self {
        Value::Urn(urn)
    }
}

impl<'a> FormatArgument for Value<'a> {
    /// Every value supports the `{}` and `{:?}` styles and no other.
    fn supports_format(&self, specifier: &Specifier) -> (supported: bool)
        ensures
            supported == is_textual(specifier.format),
    {
        matches!(specifier.format, Format::Display | Format::Debug)
    }

    /// Writes the value in the default style. Plain text is padded or cut
    /// as the formatter asks; a URI or a URN is written as its text. Under
    /// a formatter with neither a width nor a precision, what is written is
    /// the text of the value: nothing, where the value is empty.
    fn fmt_display(&self, f: &mut core::fmt::Formatter) -> (result: core::fmt::Result)
        ensures
            result is Ok ==> written(*final(f)) == written(*old(f)) + display_written(
                self@,
                *old(f),
            ),
            is_plain_formatter(*old(f)) ==> display_written(self@, *old(f)) == self@.text(),
    {
        proof {
            reveal_strlit("");
            assert(""@ =~= Seq::<char>::empty());
        }
        match *self {
            Value::Empty => display_str("", f),
            Value::String(value) => display_str(value, f),
            Value::Uri(value) => write_str(value.as_str(), f),
            Value::Urn(value) => {
                let text = urn_to_string(value);
                write_str(text.as_str(), f)
            },
        }
    }

    /// Writes the value in the debug style: plain text quoted and escaped,
    /// a URI as its text, a URN as `ssdp_client` shows its parts.
    fn fmt_debug(&self, f: &mut core::fmt::Formatter) -> (result: core::fmt::Result)
        ensures
            result is Ok ==> written(*final(f)) == written(*old(f)) + debug_written(
                self@,
                *old(f),
            ),
    {
        proof {
            reveal_strlit("");
            assert(""@ =~= Seq::<char>::empty());
        }
        match *self {
            Value::Empty => debug_str("", f),
            Value::String(value) => debug_str(value, f),
            Value::Uri(value) => write_str(value.as_str(), f),
            Value::Urn(value) => debug_urn(value, f),
        }
    }

    /// Refuses the octal style: fails, and writes nothing.
    fn fmt_octal(&self, f: &mut core::fmt::Formatter) -> (result: core::fmt::Result)
        ensures
            result is Err,
            *final(f) == *old(f),
    {
        not_supported()
    }

    /// Refuses the lower-case hexadecimal style: fails, and writes nothing.
    fn fmt_lower_hex(&self, f: &mut core::fmt::Formatter) -> (result: core::fmt::Result)
        ensures
            result is Err,
            *final(f) == *old(f),
    {
        not_supported()
    }

    /// Refuses the upper-case hexadecimal style: fails, and writes nothing.
    fn fmt_upper_hex(&self, f: &mut core::fmt::Formatter) -> (result: core::fmt::Result)
        ensures
            result is Err,
            *final(f) == *old(f),
    {
        not_supported()
    }

    /// Refuses the binary style: fails, and writes nothing.
    fn fmt_binary(&self, f: &mut core::fmt::Formatter) -> (result: core::fmt::Result)
        ensures
            result is Err,
            *final(f) == *old(f),
    {
        not_supported()
    }

    /// Refuses the lower-case exponential style: fails, and writes nothing.
    fn fmt_lower_exp(&self, f: &mut core::fmt::Formatter) -> (result: core::fmt::Result)
        ensures
            result is Err,
            *final(f) == *old(f),
    {
        not_supported()
    }

    /// Refuses the upper-case exponential style: fails, and writes nothing.
    fn fmt_upper_exp(&self, f: &mut core::fmt::Formatter) -> (result: core::fmt::Result)
        ensures
            result is Err,
            *final(f) == *old(f),
    {
        not_supported()
    }
}

} // verus!
