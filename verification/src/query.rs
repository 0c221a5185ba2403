//! From command-line options to a discovery query.

use crate::value::{Urn, UrnKind, UrnView};
use rupnp::ssdp::SearchTarget as OutsideTarget;
use rupnp::ssdp::URN;
use std::borrow::Cow;
use vstd::prelude::*;
use vstd::string::StringExecFns;

verus! {

/// The format that a line is rendered with where the options give none.
pub const DEFAULT_FORMAT: &'static str =
    "name: {name}, manufacturer: {manufacturer}, model_name: {model_name}, udn: {udn}, url: {url}";

/// The options of a run.
#[derive(Debug, Clone, PartialEq, Eq)]
pub struct Args {
    /// What to search for; everything where it is absent.
    pub search_target: Option<String>,
    /// Scan duration in seconds.
    pub duration: u8,
    /// The output format.
    pub format: Option<String>,
}

/// What a discovery searches for, held as the parts that
/// `ssdp_client::SearchTarget` is made of.
#[derive(Debug, Clone, PartialEq, Eq)]
pub enum SearchTarget {
    /// All devices and services.
    All,
    /// Root devices only.
    RootDevice,
    /// The device with this unique identifier.
    Uuid(String),
    /// Devices or services of this type.
    Urn(Urn),
    /// A key and a value of a vendor's own.
    Custom(String, String),
}

/// The mathematical value of a [`SearchTarget`].
pub enum SearchTargetView {
    All,
    RootDevice,
    Uuid(Seq<char>),
    Urn(UrnView),
    Custom(Seq<char>, Seq<char>),
}

impl View for SearchTarget {
    type V = SearchTargetView;

    open spec fn view(&self) -> SearchTargetView {
        match *self {
            SearchTarget::All => SearchTargetView::All,
            SearchTarget::RootDevice => SearchTargetView::RootDevice,
            SearchTarget::Uuid(uuid) => SearchTargetView::Uuid(uuid@),
            SearchTarget::Urn(urn) => SearchTargetView::Urn(urn@),
            SearchTarget::Custom(key, value) => SearchTargetView::Custom(key@, value@),
        }
    }
}

/// A search target that could not be understood.
#[derive(Debug, Clone, PartialEq, Eq)]
pub struct SearchTargetError {
    /// What the options gave as the search target.
    pub input: String,
    /// What the parser said of it.
    pub cause: String,
}

/// The mathematical value of a [`SearchTargetError`].
pub struct SearchTargetErrorView {
    pub input: Seq<char>,
    pub cause: Seq<char>,
}

impl View for SearchTargetError {
    type V = SearchTargetErrorView;

    open spec fn view(&self) -> SearchTargetErrorView {
        SearchTargetErrorView { input: self.input@, cause: self.cause@ }
    }
}

/// What `ssdp_client` reads a text as: a search target, or the words in
/// which it refuses the text.
pub uninterp spec fn parsed_search_target(text: Seq<char>) -> Result<SearchTargetView, Seq<char>>;

/// The view of the outcome of reading a search target.
pub open spec fn parsed_view(parsed: Result<SearchTarget, String>) -> Result<
    SearchTargetView,
    Seq<char>,
> {
    match parsed {
        Ok(target) => Ok(target@),
        Err(cause) => Err(cause@),
    }
}

/// `<SearchTarget as FromStr>::from_str` of `ssdp_client`. The result
/// depends on the text alone; an error is handed on as the words that it
/// prints.
#[verifier::external_body]
fn parse_search_target(text: &str) -> (parsed: Result<SearchTarget, String>)
    ensures
        parsed_view(parsed) == parsed_search_target(text@),
{
    let urn = |kind, domain: Cow<str>, typ: Cow<str>, version| {
        SearchTarget::Urn(Urn { kind, domain: domain.into_owned(), typ: typ.into_owned(), version })
    };
    Ok(match text.parse::<OutsideTarget>().map_err(|error| error.to_string())? {
        OutsideTarget::All => SearchTarget::All,
        OutsideTarget::RootDevice => SearchTarget::RootDevice,
        OutsideTarget::UUID(uuid) => SearchTarget::Uuid(uuid),
        OutsideTarget::URN(URN::Device(d, t, version)) => urn(UrnKind::Device, d, t, version),
        OutsideTarget::URN(URN::Service(d, t, version)) => urn(UrnKind::Service, d, t, version),
        OutsideTarget::Custom(key, value) => SearchTarget::Custom(key, value),
    })
}

/// What the options ask to search for.
pub open spec fn wanted_target(search_target: Option<String>) -> Result<
    SearchTargetView,
    SearchTargetErrorView,
> {
    match search_target {
        None => Ok(SearchTargetView::All),
        Some(text) => match parsed_search_target(text@) {
            Ok(target) => Ok(target),
            Err(cause) => Err(SearchTargetErrorView { input: text@, cause }),
        },
    }
}

/// The view of the outcome of a conversion.
pub open spec fn conversion_view(converted: Result<SearchTarget, SearchTargetError>) -> Result<
    SearchTargetView,
    SearchTargetErrorView,
> {
    match converted {
        Ok(target) => Ok(target@),
        Err(error) => Err(error@),
    }
}

/// What follows reading the text of a search target: the target as it was
/// read, or the error that names the text and the cause.
pub fn target_or_error(text: &str, parsed: Result<SearchTarget, String>) -> (converted: Result<
    SearchTarget,
    SearchTargetError,
>)
    ensures
        conversion_view(converted) == match parsed {
            Ok(target) => Ok(target@),
            Err(cause) => Err(SearchTargetErrorView { input: text@, cause: cause@ }),
        },
{
    match parsed {
        Ok(target) => Ok(target),
        Err(cause) => Err(SearchTargetError { input: text.to_owned(), cause }),
    }
}

impl SearchTarget {
    /// The search target that the options ask for: everything where they
    /// name none, and else what the text that they give reads as.
    pub fn try_from(arguments: &Args) -> (converted: Result<SearchTarget, SearchTargetError>)
        ensures
            conversion_view(converted) == wanted_target(arguments.search_target),
            arguments.search_target is None ==> converted is Ok,
    {
        match &arguments.search_target {
            None => Ok(SearchTarget::All),
            Some(value) => {
                let parsed = parse_search_target(value.as_str());
                target_or_error(value.as_str(), parsed)
            },
        }
    }
}

impl SearchTargetError {
    /// The text of the error message.
    pub open spec fn message_text(self) -> Seq<char> {
        "Unable to convert '"@ + self.input@ + "' to an URN."@
    }

    /// The message that tells a user of the error.
    pub fn message(&self) -> (text: String)
        ensures
            text@ == self.message_text(),
    {
        let mut text = "Unable to convert '".to_owned();
        text.append(self.input.as_str());
        text.append("' to an URN.");
        text
    }
}

impl Args {
    /// The scan duration in seconds.
    pub fn timeout_secs(&self) -> (seconds: u64)
        ensures
            seconds == self.duration,
    {
        self.duration as u64
    }

    /// The output format: the one given, or [`DEFAULT_FORMAT`].
    pub fn output_format(&self) -> (format: &str)
        ensures
            format@ == match self.format {
                Some(given) => given@,
                None => DEFAULT_FORMAT@,
            },
    {
        match &self.format {
            Some(given) => given.as_str(),
            None => DEFAULT_FORMAT,
        }
    }
}

} // verus!
