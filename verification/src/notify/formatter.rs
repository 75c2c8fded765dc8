//! The template store: message templates by key, compiled and rendered by
//! `handlebars` in strict mode.

use vstd::prelude::*;
use crate::model::server_log::ServerLogLine;
use crate::notify::context::{line_context, line_members};
use crate::notify::error::Error;
use crate::notify::json::{json_members, Json};
use crate::notify::template::{calls_template, has_template_call};

verus! {

/// The template registry of `handlebars`.
#[verifier::external_type_specification]
#[verifier::external_body]
pub struct ExRegistry<'reg>(handlebars::Handlebars<'reg>);

/// A registry that owns its templates.
pub type Registry = handlebars::Handlebars<'static>;

/// The templates a registry holds: for each name the source it was last
/// registered with.
pub uninterp spec fn registered_templates(registry: Registry) -> Map<
    Seq<char>,
    Seq<char>,
>;

/// Whether `handlebars` accepts `source` as the template called `name`.
pub uninterp spec fn template_accepted(name: Seq<char>, source: Seq<char>) -> bool;

/// Whether a registry is in strict mode, in which a reference to a field
/// that the data does not have is an error.
pub uninterp spec fn registry_strict(registry: Registry) -> bool;

/// What `handlebars` makes of the template called `name` among `templates`
/// when it is rendered, in strict mode or not, against an object with the
/// given members; `None` where it reports an error.
pub uninterp spec fn rendered_text(
    templates: Map<Seq<char>, Seq<char>>,
    strict: bool,
    name: Seq<char>,
    data: Map<Seq<char>, Json>,
) -> Option<Seq<char>>;

/// `Handlebars::new`: a registry without templates, not in strict mode.
#[verifier::external_body]
fn new_registry() -> (registry: Registry)
    ensures
        registered_templates(registry) =~= Map::empty(),
        !registry_strict(registry),
{
    handlebars::Handlebars::new()
}

/// `Handlebars::set_strict_mode`: switches strict mode on or off and leaves
/// the templates as they are.
#[verifier::external_body]
fn set_strict_mode(registry: &mut Registry, enabled: bool)
    ensures
        registry_strict(*final(registry)) == enabled,
        registered_templates(*final(registry)) == registered_templates(*old(registry)),
{
    registry.set_strict_mode(enabled)
}

/// `Handlebars::register_template_string`: compiles `source` and, where it
/// compiles, stores it under `name` in place of what was there; where it does
/// not, the registry stays as it was and the error is returned.
#[verifier::external_body]
fn register_template(registry: &mut Registry, name: &str, source: &str) -> (outcome:
    core::result::Result<(), handlebars::TemplateError>)
    ensures
        outcome is Ok == template_accepted(name@, source@),
        registered_templates(*final(registry)) == if template_accepted(name@, source@) {
            registered_templates(*old(registry)).insert(name@, source@)
        } else {
            registered_templates(*old(registry))
        },
        registry_strict(*final(registry)) == registry_strict(*old(registry)),
{
    registry.register_template_string(name, source)
}

/// No template among these calls another template.
pub open spec fn plain(templates: Map<Seq<char>, Seq<char>>) -> bool {
    forall|name: Seq<char>| #[trigger]
        templates.contains_key(name) ==> !calls_template(templates[name])
}

/// `Handlebars::render` on a JSON object: the text of the template called
/// `name`, or the error of `handlebars`. A name without a template is an
/// error. Templates that call each other can do so without end, so the
/// registry may hold none that calls another.
#[verifier::external_body]
fn render_template(
    registry: &Registry,
    name: &str,
    data: &serde_json::Map<String, serde_json::Value>,
) -> (outcome: core::result::Result<String, handlebars::RenderError>)
    requires
        plain(registered_templates(*registry)),
    ensures
        match outcome {
            Ok(text) => rendered_text(
                registered_templates(*registry),
                registry_strict(*registry),
                name@,
                json_members(*data),
            ) == Some(text@),
            Err(_) => rendered_text(
                registered_templates(*registry),
                registry_strict(*registry),
                name@,
                json_members(*data),
            ) is None,
        },
        !registered_templates(*registry).contains_key(name@) ==> outcome is Err,
{
    registry.render(name, data)
}

/// Something that can turn a log line into a message.
pub trait NotifierFormatter {
    fn format(&self, line: &ServerLogLine) -> String;
}

/// A keyed store of message templates, rendered in strict mode.
pub struct HJSFormatter {
    inner: Registry,
}

/// What a store with the given templates makes of the template under `key`
/// for a log line: the text, or `None` where the key is unknown or the
/// template refers to something a log line does not have.
pub open spec fn formatted(
    templates: Map<Seq<char>, Seq<char>>,
    key: Seq<char>,
    line: ServerLogLine,
) -> Option<Seq<char>> {
    rendered_text(templates, true, key, line_members(line))
}

/// Whether a store takes `source` as the template under `key`: it calls no
/// other template, and `handlebars` compiles it.
pub open spec fn loadable(key: Seq<char>, source: Seq<char>) -> bool {
    !calls_template(source) && template_accepted(key, source)
}

impl HJSFormatter {
    /// The templates in the store: for each key the source it was last
    /// loaded with.
    pub closed spec fn templates(&self) -> Map<Seq<char>, Seq<char>> {
        registered_templates(self.inner)
    }

    /// The store renders in strict mode, and none of its templates calls
    /// another. Every store made by `new` is so, and stays so.
    pub closed spec fn wf(&self) -> bool {
        registry_strict(self.inner) && plain(registered_templates(self.inner))
    }

    /// A store without templates.
    pub fn new() -> (formatter: Self)
        ensures
            formatter.wf(),
            formatter.templates() == Map::<Seq<char>, Seq<char>>::empty(),
    {
        let mut inner = new_registry();
        set_strict_mode(&mut inner, true);
        HJSFormatter { inner }
    }

    /// Loads `format` under `key`, in place of what was there. A template
    /// that calls another template or does not compile is refused and leaves
    /// the store as it was.
    pub fn load_format(&mut self, key: &str, format: &str) -> (outcome: Result<(), Error>)
        requires
            old(self).wf(),
        ensures
            final(self).wf(),
            outcome is Ok == loadable(key@, format@),
            match outcome {
                Ok(()) => true,
                Err(Error::TemplateCall) => calls_template(format@),
                Err(Error::TemplateErr(_)) => !calls_template(format@),
                Err(_) => false,
            },
            final(self).templates() == if loadable(key@, format@) {
                old(self).templates().insert(key@, format@)
            } else {
                old(self).templates()
            },
    {
        if has_template_call(format) {
            return Err(Error::TemplateCall);
        }
        match register_template(&mut self.inner, key, format) {
            Ok(()) => Ok(()),
            Err(e) => Err(Error::TemplateErr(e)),
        }
    }

    /// Renders the template under `key` against the log line. Fails where no
    /// template is stored under `key` and where the template refers to
    /// something the data does not have.
    pub fn format(&self, key: &str, line: &ServerLogLine) -> (outcome: Result<String, Error>)
        requires
            self.wf(),
        ensures
            match outcome {
                Ok(text) => formatted(self.templates(), key@, *line) == Some(text@),
                Err(e) => e is FormatterErr && formatted(self.templates(), key@, *line) is None,
            },
            !self.templates().contains_key(key@) ==> outcome is Err,
    {
        let data = line_context(line);
        match render_template(&self.inner, key, &data) {
            Ok(text) => Ok(text),
            Err(e) => Err(Error::FormatterErr(e)),
        }
    }
}

} // verus!
