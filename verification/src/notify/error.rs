//! What can go wrong between a notifier's configuration and a delivered
//! message.

use vstd::prelude::*;
use crate::model::error::ModelError;

verus! {

/// A template that failed to compile, as `handlebars` reports it.
#[verifier::external_type_specification]
#[verifier::external_body]
pub struct ExTemplateError(handlebars::TemplateError);

/// A template that failed to render, as `handlebars` reports it.
#[verifier::external_type_specification]
#[verifier::external_body]
pub struct ExRenderError(handlebars::RenderError);

pub type Result<T> = std::result::Result<T, Error>;

#[derive(Debug)]
pub enum Error {
    /// The provider is none of those the registry knows; holds the name
    /// that was given.
    UnknownProvider(String),
    /// No transport could be made from the credentials; holds the
    /// provider's complaint.
    CredentialsInvalid(String),
    /// The message template does not compile.
    TemplateErr(handlebars::TemplateError),
    /// The message template calls another template, which no template may.
    TemplateCall,
    /// The message template could not be rendered.
    FormatterErr(handlebars::RenderError),
    /// The transport failed to deliver a message; holds its complaint.
    DispatchErr(String),
    /// The notifiers could not be read from the store.
    ModelErr(ModelError),
}

} // verus!
