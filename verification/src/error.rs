//! The ways a reconciliation fails.

use crate::request::{copy_tags, tag_views, Tag};
use vstd::prelude::*;

verus! {

/// What a [`ProvisionError`] holds.
pub enum ProvisionErrorView {
    InvalidRequest,
    UpstreamFetchFailed(Seq<char>),
    NoMatchingInstances(Seq<(Seq<char>, Seq<char>)>),
    Timeout,
    MissingAddress,
}

/// Why no running instance was handed back. Every kind ends the
/// reconciliation; none is retried.
#[derive(Debug)]
pub enum ProvisionError {
    /// The request named no tag.
    InvalidRequest,
    /// The provider failed to list the instances or to start one; the text is
    /// the provider's.
    UpstreamFetchFailed(String),
    /// No instance with an identifier and a status carries every one of
    /// these required tags.
    NoMatchingInstances(Vec<Tag>),
    /// The time budget ran out before a matching instance was running.
    Timeout,
    /// A matching instance is running but has no public address.
    MissingAddress,
}

impl View for ProvisionError {
    type V = ProvisionErrorView;

    open spec fn view(&self) -> ProvisionErrorView {
        match self {
            ProvisionError::InvalidRequest => ProvisionErrorView::InvalidRequest,
            ProvisionError::UpstreamFetchFailed(text) => ProvisionErrorView::UpstreamFetchFailed(
                text@,
            ),
            ProvisionError::NoMatchingInstances(tags) => ProvisionErrorView::NoMatchingInstances(
                tag_views(tags@),
            ),
            ProvisionError::Timeout => ProvisionErrorView::Timeout,
            ProvisionError::MissingAddress => ProvisionErrorView::MissingAddress,
        }
    }
}

/// The text that the standard library's `Debug` formatting gives for a
/// vector of tags with these keys and values.
pub uninterp spec fn debug_text(tags: Seq<(Seq<char>, Seq<char>)>) -> Seq<char>;

/// Formats the tags with the standard library's `{:?}`, through the `Debug`
/// impls of `Vec` and `str` and the one derived for [`Tag`]. Trusted: the
/// text is a function of the tags' keys and values alone, and the contract
/// gives it the name [`debug_text`] without saying more of it.
#[verifier::external_body]
fn format_tags(tags: &Vec<Tag>) -> (text: String)
    ensures
        text@ == debug_text(tag_views(tags@)),
{
    format!("{:?}", tags)
}

/// The message of each kind of error.
pub open spec fn message_text(error: ProvisionErrorView) -> Seq<char> {
    match error {
        ProvisionErrorView::InvalidRequest => "No tags provided"@,
        ProvisionErrorView::UpstreamFetchFailed(text) => text,
        ProvisionErrorView::NoMatchingInstances(tags) => "No instances found with tags: "@
            + debug_text(tags) + " []"@,
        ProvisionErrorView::Timeout => "Timeout"@,
        ProvisionErrorView::MissingAddress => "No IP address found"@,
    }
}

impl ProvisionError {
    /// The message that describes the error to the caller. For a request
    /// that nothing matched it shows the required tags, and the empty list
    /// of instances found.
    pub fn message(&self) -> (text: String)
        ensures
            text@ == message_text(self@),
    {
        match self {
            ProvisionError::InvalidRequest => String::from_str("No tags provided"),
            ProvisionError::UpstreamFetchFailed(text) => text.clone(),
            ProvisionError::NoMatchingInstances(tags) => {
                let shown = format_tags(tags);
                String::from_str("No instances found with tags: ").concat(shown.as_str()).concat(
                    " []",
                )
            },
            ProvisionError::Timeout => String::from_str("Timeout"),
            ProvisionError::MissingAddress => String::from_str("No IP address found"),
        }
    }
}

impl Clone for ProvisionError {
    fn clone(&self) -> (copy: Self)
        ensures
            copy@ == self@,
    {
        match self {
            ProvisionError::InvalidRequest => ProvisionError::InvalidRequest,
            ProvisionError::UpstreamFetchFailed(text) => ProvisionError::UpstreamFetchFailed(
                text.clone(),
            ),
            ProvisionError::NoMatchingInstances(tags) => ProvisionError::NoMatchingInstances(
                copy_tags(tags),
            ),
            ProvisionError::Timeout => ProvisionError::Timeout,
            ProvisionError::MissingAddress => ProvisionError::MissingAddress,
        }
    }
}

} // verus!
