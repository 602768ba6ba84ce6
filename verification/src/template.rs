//! The template engine: compiles the SVG template text once and renders it
//! into concrete markup for one request, escaping every caller-supplied value
//! before substitution.
//!
//! Compilation and substitution are done by the `liquid` crate behind trusted
//! wrappers; both are deterministic functions of the template text and the
//! variable values, which the names [`template_compiles`] and [`rendered_of`]
//! stand for.

use vstd::prelude::*;
use vstd::string::*;

use crate::escape::escape_markup;
use crate::escape::escape_spec;

verus! {

/// Whether the liquid parser accepts a template text. Deterministic in the
/// text alone.
pub uninterp spec fn template_compiles(text: Seq<char>) -> bool;

/// What rendering a compiled template produces for a given value of the
/// `text` variable: the rendered markup, or nothing when rendering fails.
/// Deterministic in the template text and the variable value alone.
pub uninterp spec fn rendered_of(template: Seq<char>, text_var: Seq<char>) -> Option<Seq<char>>;

#[verifier::external_type_specification]
#[verifier::external_body]
pub struct ExLiquidTemplate(liquid::Template);

/// An immutable compiled template: the source text it was compiled from,
/// and the liquid representation used for rendering. Compiled once at
/// startup, never mutated.
pub struct CompiledTemplate {
    source: String,
    compiled: liquid::Template,
}

/// The template text was not well formed in the templating syntax. This is a
/// request-independent, process-fatal condition checked at startup.
#[derive(Debug)]
pub struct CompileError {
    pub reason: String,
}

/// A variable could not be substituted while rendering.
#[derive(Debug)]
pub struct RenderError {
    pub reason: String,
}

/// The per-request variable mapping. The one placeholder this template shape
/// uses is `text`; an absent value degrades to the empty string, so a
/// template with a declared default falls back instead of failing.
pub struct RenderVars {
    pub text: Option<String>,
}

/// The value the `text` placeholder is given before escaping: the caller's
/// string, or the empty string when the caller supplied none.
pub open spec fn text_or_empty(vars: RenderVars) -> Seq<char> {
    match vars.text {
        Some(s) => s@,
        None => Seq::empty(),
    }
}

/// Relies on liquid::ParserBuilder::build and liquid::Parser::parse, with
/// only the default-value filter registered: that filter set never reads the
/// clock or anything else outside its input, so whether a text compiles, and
/// what it renders to, depend on the text and the variables alone. Unknown
/// filters and control constructs fail compilation.
#[verifier::external_body]
fn compile_raw(text: &str) -> (r: Result<CompiledTemplate, String>)
    ensures
        r.is_ok() == template_compiles(text@),
        r matches Ok(t) ==> t.source_view() == text@,
{
    let parser = match liquid::ParserBuilder::new().filter(liquid_lib::stdlib::Default).build() {
        Ok(p) => p,
        Err(e) => return Err(e.to_string()),
    };
    match parser.parse(text) {
        Ok(compiled) => Ok(CompiledTemplate { source: text.to_string(), compiled }),
        Err(e) => Err(e.to_string()),
    }
}

/// Relies on liquid::Template::render with a single-entry variable object:
/// the result depends on the template text and the `text` value alone.
#[verifier::external_body]
fn render_raw(t: &CompiledTemplate, text_value: &str) -> (r: Result<String, String>)
    ensures
        r.is_ok() == rendered_of(t.source_view(), text_value@).is_some(),
        r matches Ok(s) ==> rendered_of(t.source_view(), text_value@) == Some(s@),
{
    let mut globals = liquid::Object::new();
    globals.insert("text".into(), liquid::model::Value::scalar(text_value.to_string()));
    match t.compiled.render(&globals) {
        Ok(s) => Ok(s),
        Err(e) => Err(e.to_string()),
    }
}

impl CompiledTemplate {
    /// The template text this value was compiled from.
    pub closed spec fn source_view(&self) -> Seq<char> {
        self.source@
    }

    /// Compiles a template text. Fails exactly when the text is not well
    /// formed in the templating syntax.
    pub fn compile(text: &str) -> (r: Result<CompiledTemplate, CompileError>)
        ensures
            r.is_ok() == template_compiles(text@),
            r matches Ok(t) ==> t.source_view() == text@,
    {
        match compile_raw(text) {
            Ok(t) => Ok(t),
            Err(reason) => Err(CompileError { reason }),
        }
    }

    /// Renders the template for one request. The caller-supplied value is
    /// escaped for the markup context before substitution, and a missing
    /// value is rendered as the empty string so the template's declared
    /// default applies.
    pub fn render(&self, vars: &RenderVars) -> (r: Result<String, RenderError>)
        ensures
            r.is_ok() == rendered_of(self.source_view(), escape_spec(text_or_empty(*vars))).is_some(),
            r matches Ok(s) ==> rendered_of(self.source_view(), escape_spec(text_or_empty(*vars)))
                == Some(s@),
    {
        let value: String = match &vars.text {
            Some(v) => escape_markup(v.as_str()),
            None => String::new(),
        };
        proof {
            assert(escape_spec(Seq::<char>::empty()) =~= Seq::<char>::empty());
        }
        match render_raw(self, value.as_str()) {
            Ok(s) => Ok(s),
            Err(reason) => Err(RenderError { reason }),
        }
    }
}

/// Law: whatever value the caller supplies, the string that reaches
/// substitution is its escaped form and contains no angle bracket, so the
/// caller cannot open or close an element of the rendered document.
pub proof fn lemma_substituted_value_safe(vars: RenderVars)
    ensures
        forall|i: int|
            0 <= i < escape_spec(text_or_empty(vars)).len() ==> escape_spec(text_or_empty(vars))[i]
                != '<' && escape_spec(text_or_empty(vars))[i] != '>',
{
    crate::escape::lemma_escape_no_markup(text_or_empty(vars));
}

/// Law: a request that omits the `text` value renders exactly as one that
/// supplies the empty string, so a template whose placeholder declares a
/// default falls back to it instead of failing the request.
pub proof fn lemma_missing_text_renders_as_empty(tmpl: Seq<char>, v1: RenderVars, v2: RenderVars)
    requires
        v1.text is None,
        v2.text matches Some(s) && s@ == Seq::<char>::empty(),
    ensures
        rendered_of(tmpl, escape_spec(text_or_empty(v1))) == rendered_of(
            tmpl,
            escape_spec(text_or_empty(v2)),
        ),
{
    assert(text_or_empty(v1) =~= text_or_empty(v2));
}

} // verus!
