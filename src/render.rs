//! Rendering one template source against the configuration context.
//!
//! The template language itself belongs to minijinja. Each template is
//! rendered in a fresh environment of its own that keeps the source's final
//! line break and treats a name that the context does not define as an error.
//! What the library states of the language is what holds of text without
//! directives: it is copied through unchanged.

use vstd::prelude::*;
use minijinja::{Environment, UndefinedBehavior, Value};

verus! {

/// What rendering a template gives: the output text, or minijinja's error.
pub type Rendered = Result<String, minijinja::Error>;

#[verifier::external_type_specification]
#[verifier::external_body]
pub struct ExValue(minijinja::Value);

#[verifier::external_type_specification]
#[verifier::external_body]
pub struct ExError(minijinja::Error);

/// Whether `s` holds no template directive: no `{` is followed by `{`, `%` or
/// `#`, the characters that open an expression, a block or a comment.
pub open spec fn is_literal(s: Seq<char>) -> bool {
    forall|i: int|
        0 <= i < s.len() - 1 && #[trigger] s[i] == '{' ==> s[i + 1] != '{' && s[i + 1] != '%'
            && s[i + 1] != '#'
}

/// Relies on `minijinja::Environment::new`, `set_keep_trailing_newline`,
/// `set_undefined_behavior` and `render_str`: in a new environment with the
/// default syntax, the final line break kept and undefined names made errors,
/// `source` is compiled as a template and rendered with `context`. Text outside
/// directives is emitted as it stands, so a source without directives that
/// renders at all renders to itself.
#[verifier::external_body]
fn render_strict(source: &str, context: &Value) -> (r: Rendered)
    ensures
        (r is Ok && is_literal(source@)) ==> r->Ok_0@ == source@,
{
    let mut env = Environment::new();
    env.set_keep_trailing_newline(true);
    env.set_undefined_behavior(UndefinedBehavior::Strict);
    env.render_str(source, context)
}

/// Renders `source` against `context` in a fresh environment used for this
/// one template. A name that `context` does not define is an error. A source
/// without directives that renders comes back exactly as it is.
pub fn render_template(source: &str, context: &Value) -> (r: Rendered)
    ensures
        (r is Ok && is_literal(source@)) ==> r->Ok_0@ == source@,
{
    render_strict(source, context)
}

} // verus!
