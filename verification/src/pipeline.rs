//! What to do with each thing that the discovery hands over.
//!
//! The caller pulls from the discovery, one item at a time, and asks
//! [`step`] what to do with it. A record is rendered into one line. The first
//! record that cannot be rendered ends the output, for the same format string
//! would fail on every later record too.

use crate::device::Device;
use crate::template::{
    parsed_template, render, rendering_view, template_rendered, FormatError,
};
use vstd::prelude::*;

verus! {

/// What the discovery handed over.
#[derive(Debug, Clone, Copy)]
pub enum Event<'a> {
    /// A device was discovered.
    Discovered(&'a Device),
    /// The discovery has no more devices, or its time is up.
    Exhausted,
    /// The discovery failed.
    Failed,
}

/// What to do next.
#[derive(Debug, Clone, PartialEq, Eq)]
pub enum Action {
    /// Print the line and go on with the next device.
    Print(String),
    /// Report the error and stop; the run has not failed.
    Report(FormatError),
    /// Stop: the run is complete.
    Finish,
    /// Stop: the run has failed.
    Abort,
}

/// The mathematical value of an [`Action`].
pub enum ActionView {
    Print(Seq<char>),
    Report(FormatError),
    Finish,
    Abort,
}

impl View for Action {
    type V = ActionView;

    open spec fn view(&self) -> ActionView {
        match *self {
            Action::Print(line) => ActionView::Print(line@),
            Action::Report(error) => ActionView::Report(error),
            Action::Finish => ActionView::Finish,
            Action::Abort => ActionView::Abort,
        }
    }
}

/// The line that a record is rendered as under a format.
pub open spec fn line_rendered(format: Seq<char>, device: Device) -> Result<
    Seq<char>,
    FormatError,
> {
    template_rendered(parsed_template(format, device.named_values()))
}

/// The action that answers a rendering.
pub open spec fn action_for(rendering: Result<Seq<char>, FormatError>) -> ActionView {
    match rendering {
        Ok(line) => ActionView::Print(line),
        Err(error) => ActionView::Report(error),
    }
}

/// Renders one record as one line of output.
pub fn render_device(format: &str, device: &Device) -> (rendering: Result<String, FormatError>)
    ensures
        rendering_view(rendering) == line_rendered(format@, *device),
{
    let named = device.to_named_args();
    render(format, &named)
}

/// Decides what to do with what the discovery handed over.
pub fn step(format: &str, event: Event) -> (action: Action)
    ensures
        action@ == match event {
            Event::Discovered(device) => action_for(line_rendered(format@, *device)),
            Event::Exhausted => ActionView::Finish,
            Event::Failed => ActionView::Abort,
        },
{
    match event {
        Event::Discovered(device) => match render_device(format, device) {
            Ok(line) => Action::Print(line),
            Err(error) => Action::Report(error),
        },
        Event::Exhausted => Action::Finish,
        Event::Failed => Action::Abort,
    }
}

/// Whether the caller goes on pulling from the discovery after an action.
pub fn goes_on(action: &Action) -> (more: bool)
    ensures
        more == (action is Print),
{
    match action {
        Action::Print(_) => true,
        _ => false,
    }
}

} // verus!
