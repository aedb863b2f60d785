//! The handlebars registry of the front end.

use vstd::prelude::*;

verus! {

#[verifier::external_type_specification]
#[verifier::external_body]
pub struct ExHandlebars<'reg>(rocket_dyn_templates::handlebars::Handlebars<'reg>);

#[verifier::external_type_specification]
#[verifier::external_body]
pub struct ExTemplateError(rocket_dyn_templates::handlebars::TemplateError);

/// The templates that a registry holds: for each name, the text that the
/// template stored under it was compiled from.
pub uninterp spec fn registered_templates(hbs: rocket_dyn_templates::handlebars::Handlebars<'_>) -> Map<Seq<char>, Seq<char>>;

/// Whether handlebars compiles a template text (`Template::compile2`, whose
/// outcome depends on the text alone).
pub uninterp spec fn template_compiles(template: Seq<char>) -> bool;

/// Calls `Handlebars::register_template_string`: the template is compiled,
/// and only when that succeeds the template compiled from `template` is
/// stored under `name`, in place of any template of that name; nothing else
/// changes. Which texts compile is only named.
#[verifier::external_body]
fn register_template_string(
    hbs: &mut rocket_dyn_templates::handlebars::Handlebars<'_>,
    name: &str,
    template: &str,
) -> (r: Result<(), rocket_dyn_templates::handlebars::TemplateError>)
    ensures
        r is Ok <==> template_compiles(template@),
        r is Ok ==> registered_templates(*final(hbs)) == registered_templates(*old(hbs)).insert(name@, template@),
        r is Err ==> registered_templates(*final(hbs)) == registered_templates(*old(hbs)),
{
    hbs.register_template_string(name, template)
}

/// A template that handlebars refused.
#[derive(Clone, Copy, Debug, PartialEq, Eq, Structural)]
pub enum TemplateRegistrationError {
    InvalidTemplate,
}

/// The name of the "about" page.
pub const ABOUT_TEMPLATE_NAME: &'static str = "hbs/about.html";

/// The "about" page: an inline `page` partial inside the layout.
pub const ABOUT_TEMPLATE: &'static str = "
        {{#*inline \"page\"}}
        <section id=\"about\">
        <h1>About - Here's another page!</h1>
        </section>
        {{/inline}}
        {{> hbs/layout}}
    ";

pub open spec fn about_template_name() -> Seq<char> {
    ABOUT_TEMPLATE_NAME@
}

/// What registering the "about" page makes of a registry's templates: the
/// about text under its name when handlebars compiles it, all else as it was.
pub open spec fn customized(templates: Map<Seq<char>, Seq<char>>) -> Map<Seq<char>, Seq<char>> {
    if template_compiles(ABOUT_TEMPLATE@) {
        templates.insert(about_template_name(), ABOUT_TEMPLATE@)
    } else {
        templates
    }
}

/// Registers the "about" page, a page of the layout template.
pub fn customize(hbs: &mut rocket_dyn_templates::handlebars::Handlebars<'_>) -> (r: Result<(), TemplateRegistrationError>)
    ensures
        r is Ok <==> template_compiles(ABOUT_TEMPLATE@),
        registered_templates(*final(hbs)) == customized(registered_templates(*old(hbs))),
        r is Ok ==> registered_templates(*final(hbs))[about_template_name()] == ABOUT_TEMPLATE@,
{
    let registered = register_template_string(hbs, ABOUT_TEMPLATE_NAME, ABOUT_TEMPLATE);
    match registered {
        Ok(()) => Ok(()),
        Err(_) => Err(TemplateRegistrationError::InvalidTemplate),
    }
}

/// Registering the "about" page twice leaves the same templates as once, and
/// registries that held the same templates hold the same templates after it.
pub proof fn lemma_customize_idempotent(first: Map<Seq<char>, Seq<char>>, second: Map<Seq<char>, Seq<char>>)
    requires
        first == second,
    ensures
        customized(customized(first)) == customized(second),
{
    if template_compiles(ABOUT_TEMPLATE@) {
        assert(customized(customized(first)) =~= customized(second));
    }
}

} // verus!
