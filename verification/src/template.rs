//! Rendering a format string against named values.
//!
//! A format string is literal text with placeholders such as `{name}`. It is
//! cut into segments by `rt_format`, which also looks each placeholder up and
//! asks the value whether it supports the requested style. The segments are
//! then rendered one after the other: text as it is, a placeholder as the
//! value that it stands for.

use crate::named::NamedValues;
use crate::value::{decimal, is_numeric, is_textual, Value, ValueView};
use rt_format::parser::Segment as ParsedSegment;
use rt_format::{NoPositionalArguments, ParsedFormat, Precision, Specifier, Substitution, Width};
use vstd::prelude::*;
use vstd::string::StringExecFns;

verus! {

/// The largest width or precision that the formatting machinery of the
/// standard library accepts.
pub const MAX_FIELD_SIZE: usize = 65535;

/// Why a format string could not be rendered.
#[derive(Debug, Clone, Copy, PartialEq, Eq)]
pub enum FormatError {
    /// The format string is malformed at this byte offset: broken brace
    /// syntax, an unknown name, or a style that the value does not support.
    Invalid { position: usize },
    /// A placeholder asks for a style, a width or a precision that cannot be
    /// rendered.
    NotSupported,
}

/// One piece of a format string.
#[derive(Debug, Clone, Copy, PartialEq)]
pub enum Segment<'a> {
    /// Literal text.
    Text(&'a str),
    /// A placeholder: how to format, and the value that it stands for.
    Substitution(Specifier, Value<'a>),
}

/// The mathematical value of a [`Segment`].
pub enum SegmentView {
    Text(Seq<char>),
    Substitution(Specifier, ValueView),
}

impl<'a> View for Segment<'a> {
    type V = SegmentView;

    open spec fn view(&self) -> SegmentView {
        match *self {
            Segment::Text(text) => SegmentView::Text(text@),
            Segment::Substitution(specifier, value) => SegmentView::Substitution(specifier, value@),
        }
    }
}

/// The views of a sequence of segments.
pub open spec fn segment_views(segments: Seq<Segment>) -> Seq<SegmentView> {
    segments.map_values(|segment: Segment| segment@)
}

/// The segments that `rt_format` cuts a format string into, given the named
/// values that its placeholders may refer to, or the byte offset at which it
/// gives up.
pub uninterp spec fn parsed_template(
    template: Seq<char>,
    named: Map<Seq<char>, ValueView>,
) -> Result<Seq<SegmentView>, usize>;

/// What the standard library's formatting machinery prints for a value under
/// a specifier.
pub uninterp spec fn formatted_value(specifier: Specifier, value: ValueView) -> Seq<char>;

/// Whether the text holds neither `{` nor `}`.
pub open spec fn brace_free(text: Seq<char>) -> bool {
    forall|i: int| 0 <= i < text.len() ==> text[i] != '{' && text[i] != '}'
}

/// The segments of a text without braces: the text itself, unless it is
/// empty.
pub open spec fn literal_segments(text: Seq<char>) -> Seq<SegmentView> {
    if text.len() == 0 {
        Seq::empty()
    } else {
        seq![SegmentView::Text(text)]
    }
}

/// The outcome of parsing a text without braces.
pub open spec fn literal_outcome(text: Seq<char>) -> Result<Seq<SegmentView>, usize> {
    Ok(literal_segments(text))
}

/// Whether every placeholder among the segments asks for a style that its
/// value supports.
pub open spec fn styles_supported(segments: Seq<SegmentView>) -> bool {
    forall|i: int|
        0 <= i < segments.len() ==> (#[trigger] segments[i] matches SegmentView::Substitution(
            specifier,
            _,
        ) ==> is_textual(specifier.format))
}

/// Whether every placeholder among the segments stands for a value of the
/// mapping.
pub open spec fn values_present(
    segments: Seq<SegmentView>,
    named: Map<Seq<char>, ValueView>,
) -> bool {
    forall|i: int|
        0 <= i < segments.len() ==> (#[trigger] segments[i] matches SegmentView::Substitution(
            _,
            value,
        ) ==> named.contains_value(value))
}

/// The view of the outcome of parsing a format string.
pub open spec fn outcome_view(outcome: Result<Vec<Segment>, usize>) -> Result<
    Seq<SegmentView>,
    usize,
> {
    match outcome {
        Ok(segments) => Ok(segment_views(segments@)),
        Err(position) => Err(position),
    }
}

/// Whether the width and the precision of a specifier are within what the
/// standard library accepts.
pub open spec fn sizes_fit(specifier: Specifier) -> bool {
    &&& specifier.width matches Width::AtLeast { width } ==> width <= MAX_FIELD_SIZE
    &&& specifier.precision matches Precision::Exactly { precision } ==> precision
        <= MAX_FIELD_SIZE
}

/// Whether a value can be rendered under a specifier.
pub open spec fn renderable(specifier: Specifier) -> bool {
    is_textual(specifier.format) && sizes_fit(specifier)
}

/// Whether a specifier asks for the default style with no width and no
/// precision.
pub open spec fn is_plain(specifier: Specifier) -> bool {
    specifier.format is Display && specifier.width is Auto && specifier.precision is Auto
}

/// What a placeholder is replaced with: the text of its value under the
/// plain default style, and whatever the formatting machinery prints under
/// any other.
pub open spec fn substitution_text(specifier: Specifier, value: ValueView) -> Seq<char> {
    if is_plain(specifier) {
        value.text()
    } else {
        formatted_value(specifier, value)
    }
}

/// What one value is rendered as under a specifier.
pub open spec fn value_rendered(specifier: Specifier, value: ValueView) -> Result<
    Seq<char>,
    FormatError,
> {
    if renderable(specifier) {
        Ok(substitution_text(specifier, value))
    } else {
        Err(FormatError::NotSupported)
    }
}

/// What one segment is rendered as.
pub open spec fn segment_rendered(segment: SegmentView) -> Result<Seq<char>, FormatError> {
    match segment {
        SegmentView::Text(text) => Ok(text),
        SegmentView::Substitution(specifier, value) => value_rendered(specifier, value),
    }
}

/// What a sequence of segments is rendered as: the renderings of the
/// segments one after the other, or the first failure among them.
pub open spec fn segments_rendered(segments: Seq<SegmentView>) -> Result<Seq<char>, FormatError>
    decreases segments.len(),
{
    if segments.len() == 0 {
        Ok(Seq::empty())
    } else {
        match segments_rendered(segments.drop_last()) {
            Err(error) => Err(error),
            Ok(text) => match segment_rendered(segments.last()) {
                Err(error) => Err(error),
                Ok(more) => Ok(text + more),
            },
        }
    }
}

/// What a format string is rendered as, given the outcome of parsing it.
pub open spec fn template_rendered(outcome: Result<Seq<SegmentView>, usize>) -> Result<
    Seq<char>,
    FormatError,
> {
    match outcome {
        Err(position) => Err(FormatError::Invalid { position }),
        Ok(segments) => segments_rendered(segments),
    }
}

/// The view of a rendering.
pub open spec fn rendering_view(rendering: Result<String, FormatError>) -> Result<
    Seq<char>,
    FormatError,
> {
    match rendering {
        Ok(text) => Ok(text@),
        Err(error) => Err(error),
    }
}

/// `ParsedFormat::parse` of `rt_format`, with no positional arguments. The
/// result depends on the format string and the named values alone. A format
/// string without braces is one text segment, or none if it is empty. Every
/// placeholder of a successful parse stands for a value of the mapping and
/// asks for a style that the value supports.
#[verifier::external_body]
fn parse_template<'a>(
    template: &'a str,
    named: &'a NamedValues<'a>,
) -> (outcome: Result<Vec<Segment<'a>>, usize>)
    ensures
        outcome_view(outcome) == parsed_template(template@, named@),
        brace_free(template@) ==> outcome_view(outcome) == literal_outcome(template@),
        outcome matches Ok(segments) ==> styles_supported(segment_views(segments@)),
        outcome matches Ok(segments) ==> values_present(segment_views(segments@), named@),
{
    let parsed = ParsedFormat::parse(template, &NoPositionalArguments, named)?;
    Ok(
        parsed.segments.iter().map(
            |segment| match segment {
                ParsedSegment::Text(text) => Segment::Text(*text),
                ParsedSegment::Substitution(found) => Segment::Substitution(
                    *found.specifier(),
                    *found.value(),
                ),
            },
        ).collect(),
    )
}

/// `<Substitution as Display>::fmt` of `rt_format`, through `to_string`: it
/// hands the value to the standard library's formatting machinery under the
/// specifier. With the default style and neither width nor precision, what
/// comes out is the text of the value. The standard library refuses a width
/// or a precision above 65535.
#[verifier::external_body]
fn substitute(specifier: &Specifier, value: &Value) -> (text: String)
    requires
        renderable(*specifier),
    ensures
        text@ == formatted_value(*specifier, value@),
        is_plain(*specifier) ==> text@ == value@.text(),
{
    match Substitution::new(*specifier, value) {
        Ok(substitution) => substitution.to_string(),
        Err(()) => String::new(),
    }
}

/// `<usize as ToString>::to_string`: the decimal numeral of the number.
#[verifier::external_body]
fn usize_to_string(number: usize) -> (text: String)
    ensures
        text@ == decimal(number as nat),
{
    number.to_string()
}

impl FormatError {
    /// The text of the error message.
    pub open spec fn message_text(self) -> Seq<char> {
        match self {
            FormatError::Invalid { position } => "Invalid format string at position "@ + decimal(
                position as nat,
            ),
            FormatError::NotSupported => "Format not supported"@,
        }
    }

    /// The message that tells a user of the error.
    pub fn message(&self) -> (text: String)
        ensures
            text@ == self.message_text(),
    {
        match *self {
            FormatError::Invalid { position } => {
                let mut text = "Invalid format string at position ".to_owned();
                let number = usize_to_string(position);
                text.append(number.as_str());
                text
            },
            FormatError::NotSupported => "Format not supported".to_owned(),
        }
    }
}

/// Whether the width and the precision of a specifier are within what the
/// standard library accepts.
fn check_sizes(specifier: &Specifier) -> (fit: bool)
    ensures
        fit == sizes_fit(*specifier),
{
    let width_fits = match specifier.width {
        Width::Auto => true,
        Width::AtLeast { width } => width <= MAX_FIELD_SIZE,
    };
    let precision_fits = match specifier.precision {
        Precision::Auto => true,
        Precision::Exactly { precision } => precision <= MAX_FIELD_SIZE,
    };
    width_fits && precision_fits
}

/// Renders one value under a specifier. A numeric style is refused, for
/// every value, and so is a width or a precision above [`MAX_FIELD_SIZE`].
pub fn format_value(specifier: &Specifier, value: &Value) -> (rendering: Result<
    String,
    FormatError,
>)
    ensures
        rendering_view(rendering) == value_rendered(*specifier, value@),
{
    if rt_format::FormatArgument::supports_format(value, specifier) && check_sizes(specifier) {
        Ok(substitute(specifier, value))
    } else {
        Err(FormatError::NotSupported)
    }
}

/// A numeric style is refused for every value, whatever else the specifier
/// holds: rendering the value fails, and nothing is printed in its place.
pub proof fn lemma_numeric_style_refused(specifier: Specifier, value: ValueView)
    requires
        is_numeric(specifier.format),
    ensures
        !is_textual(specifier.format),
        value_rendered(specifier, value) == Err::<Seq<char>, FormatError>(
            FormatError::NotSupported,
        ),
{
}

/// Under the default style, with neither width nor precision, a value is
/// rendered as its text, and so the empty value as the empty text.
pub proof fn lemma_plain_style_renders_text(specifier: Specifier, value: ValueView)
    requires
        is_plain(specifier),
    ensures
        value_rendered(specifier, value) == Ok::<Seq<char>, FormatError>(value.text()),
        value is Empty ==> value_rendered(specifier, value) == Ok::<Seq<char>, FormatError>(
            Seq::empty(),
        ),
{
}

/// Text without braces is rendered as itself.
pub proof fn lemma_literal_renders_unchanged(text: Seq<char>)
    ensures
        template_rendered(literal_outcome(text)) == Ok::<Seq<char>, FormatError>(text),
{
    let views = literal_segments(text);
    if text.len() > 0 {
        assert(views.drop_last() =~= Seq::<SegmentView>::empty());
        assert(segments_rendered(views.drop_last()) == Ok::<Seq<char>, FormatError>(
            Seq::empty(),
        ));
        assert(Seq::<char>::empty() + text =~= text);
    } else {
        assert(text =~= Seq::<char>::empty());
    }
}

/// A failure among the first segments is the failure of the whole.
proof fn lemma_failure_stays(segments: Seq<SegmentView>, count: int)
    requires
        0 <= count <= segments.len(),
        segments_rendered(segments.take(count)) is Err,
    ensures
        segments_rendered(segments) == segments_rendered(segments.take(count)),
    decreases segments.len() - count,
{
    if count < segments.len() {
        assert(segments.take(count + 1).drop_last() =~= segments.take(count));
        lemma_failure_stays(segments, count + 1);
    } else {
        assert(segments.take(count) =~= segments);
    }
}

/// A placeholder that cannot be rendered makes the rendering of the whole
/// fail.
pub proof fn lemma_unsupported_segment_fails(segments: Seq<SegmentView>, index: int)
    requires
        0 <= index < segments.len(),
        segment_rendered(segments[index]) is Err,
    ensures
        segments_rendered(segments) == Err::<Seq<char>, FormatError>(FormatError::NotSupported),
{
    assert(segments.take(index + 1).drop_last() =~= segments.take(index));
    assert(segments.take(index + 1).last() == segments[index]);
    lemma_failure_is_not_supported(segments.take(index));
    lemma_failure_stays(segments, index + 1);
}

/// The only failure of rendering segments is a style that is not supported.
proof fn lemma_failure_is_not_supported(segments: Seq<SegmentView>)
    ensures
        segments_rendered(segments) matches Err(error) ==> error == FormatError::NotSupported,
    decreases segments.len(),
{
    if segments.len() > 0 {
        lemma_failure_is_not_supported(segments.drop_last());
    }
}

/// Renders segments one after the other: text as it is, a placeholder as
/// [`format_value`] renders its value.
pub fn render_segments(segments: &Vec<Segment>) -> (rendering: Result<String, FormatError>)
    ensures
        rendering_view(rendering) == segments_rendered(segment_views(segments@)),
{
    let ghost views = segment_views(segments@);
    let mut text = String::new();
    let mut index: usize = 0;
    while index < segments.len()
        invariant
            index <= segments.len(),
            views == segment_views(segments@),
            segments_rendered(views.take(index as int)) == Ok::<Seq<char>, FormatError>(text@),
        decreases segments.len() - index,
    {
        proof {
            assert(views.take(index + 1).drop_last() =~= views.take(index as int));
            assert(views.take(index + 1).last() == segments@[index as int]@);
        }
        match segments[index] {
            Segment::Text(literal) => {
                text.append(literal);
            },
            Segment::Substitution(specifier, value) => {
                match format_value(&specifier, &value) {
                    Ok(more) => {
                        text.append(more.as_str());
                    },
                    Err(error) => {
                        proof {
                            lemma_failure_stays(views, index + 1);
                        }
                        return Err(error);
                    },
                }
            },
        }
        index += 1;
    }
    proof {
        assert(views.take(index as int) =~= views);
    }
    Ok(text)
}

/// What follows parsing a format string: the segments are rendered, or the
/// offset at which parsing gave up becomes the error.
pub fn render_outcome(outcome: Result<Vec<Segment>, usize>) -> (rendering: Result<
    String,
    FormatError,
>)
    ensures
        rendering_view(rendering) == template_rendered(outcome_view(outcome)),
{
    match outcome {
        Ok(segments) => render_segments(&segments),
        Err(position) => Err(FormatError::Invalid { position }),
    }
}

/// Renders a format string against named values: literal text is copied,
/// and each placeholder is replaced by the value that it names. Fails with
/// the byte offset at which the format string is malformed, names a value
/// that is not there, or asks for a style that the value does not support.
/// A format string without braces is always rendered, as itself.
pub fn render(template: &str, named: &NamedValues) -> (rendering: Result<String, FormatError>)
    ensures
        rendering_view(rendering) == template_rendered(parsed_template(template@, named@)),
        brace_free(template@) ==> rendering_view(rendering) == Ok::<Seq<char>, FormatError>(
            template@,
        ),
{
    let outcome = parse_template(template, named);
    proof {
        lemma_literal_renders_unchanged(template@);
    }
    render_outcome(outcome)
}

} // verus!
