use vstd::prelude::*;
use crate::context::VariableContext;
use crate::engine::create_liquid_engine;

verus! {

/// The template environment of minijinja: its syntax settings and the
/// filters registered with it.
#[verifier::external_type_specification]
#[verifier::external_body]
pub struct ExEnvironment<'source>(minijinja::Environment<'source>);

/// The syntax error that minijinja reports for a template text, or `None`
/// where the text parses.
pub uninterp spec fn template_syntax_error(template: Seq<char>) -> Option<Seq<char>>;

/// The view of an optional string.
pub open spec fn opt_text(o: Option<String>) -> Option<Seq<char>> {
    match o {
        Some(s) => Some(s@),
        None => None,
    }
}

/// Relies on minijinja's `Environment::template_from_str`, which parses a
/// template without rendering it, and on the `Display` of its error.
#[verifier::external_body]
fn syntax_error(template: &str) -> (r: Option<String>)
    ensures
        opt_text(r) == template_syntax_error(template@),
{
    minijinja::Environment::new().template_from_str(template).err().map(|e| e.to_string())
}

/// Relies on minijinja's `Environment::render_str`, with the variables read
/// by serde_json from their JSON text: the rendered text, or `None` where
/// rendering fails. Filters may run scripts, so nothing is promised of the text.
#[verifier::external_body]
fn render_template(
    env: &minijinja::Environment<'static>,
    template: &str,
    variables_json: &str,
) -> (r: Option<String>) {
    let variables: serde_json::Value = serde_json::from_str(variables_json).ok()?;
    env.render_str(template, variables).ok()
}

/// How a rendering failure is handled.
#[derive(PartialEq, Eq, Structural, Clone, Copy, Debug)]
pub enum RenderMode {
    /// A syntax error is reported to the caller (whole-file content).
    CollectErrors,
    /// Any failure gives the input back unchanged (file names).
    FallbackSilently,
}

/// A template whose syntax does not parse, with minijinja's message.
#[derive(Debug)]
pub struct TemplateSyntaxError {
    pub message: String,
}

/// The text that a render gives: what was rendered, or where rendering failed,
/// the input unchanged.
pub fn settle_render(content: &str, rendered: Option<String>) -> (r: String)
    ensures
        match rendered {
            Some(out) => r@ == out@,
            None => r@ == content@,
        },
{
    match rendered {
        Some(out) => out,
        None => String::from_str(content),
    }
}

/// Renders a template against the variables. A template that does not parse
/// fails with its syntax error in `CollectErrors` mode and gives the input
/// unchanged in `FallbackSilently` mode; any other failure (an undefined
/// variable, a failing filter) gives the input unchanged in either mode.
/// Each render builds a fresh environment, with a fresh filter table, from
/// `preserve_whitespace` and `script_filter` (see `create_liquid_engine`).
pub fn render_string_gracefully<F: Fn(String) -> String + Send + Sync + Clone + 'static>(
    context: &VariableContext,
    content: &str,
    preserve_whitespace: bool,
    script_filter: &F,
    mode: RenderMode,
) -> (r: Result<String, TemplateSyntaxError>)
    ensures
        r is Err <==> mode == RenderMode::CollectErrors && template_syntax_error(content@) is Some,
        r is Err ==> Some(r->Err_0.message@) == template_syntax_error(content@),
        r is Ok && template_syntax_error(content@) is Some ==> r->Ok_0@ == content@,
{
    match syntax_error(content) {
        Some(message) => {
            if mode == RenderMode::CollectErrors {
                Err(TemplateSyntaxError { message })
            } else {
                Ok(String::from_str(content))
            }
        },
        None => {
            let parser = create_liquid_engine(preserve_whitespace, script_filter.clone());
            let variables = context.to_json();
            Ok(settle_render(content, render_template(&parser, content, variables.as_str())))
        },
    }
}

/// Renders a path: the rendered path, or where rendering fails for any
/// reason, the path unchanged. Renaming never stops the walk.
pub fn substitute_filename<F: Fn(String) -> String + Send + Sync + Clone + 'static>(
    context: &VariableContext,
    path: &str,
    preserve_whitespace: bool,
    script_filter: &F,
) -> (r: String)
    ensures
        template_syntax_error(path@) is Some ==> r@ == path@,
{
    match render_string_gracefully(context, path, preserve_whitespace, script_filter, RenderMode::FallbackSilently) {
        Ok(s) => s,
        Err(_) => String::from_str(path),
    }
}

} // verus!
