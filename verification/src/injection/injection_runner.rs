//! The injected script: where the themes go in it, and how each plugin is
//! wrapped before it runs.
use vstd::prelude::*;
use crate::processors::css_preprocess::regex_compiles;
use crate::text::append_str;

verus! {

broadcast use vstd::string::group_string_axioms;

/// The marker in the injection script where the theme styles go.
pub const THEMES_PATTERN: &'static str = r"/\*! __THEMES__ \*/";

/// What `Regex::new(pattern)` followed by `replace_all(text, rep)` gives:
/// every non-overlapping match of `pattern` in `text` replaced by `rep`, in
/// which `$name` and `${name}` stand for capture groups.
pub uninterp spec fn regex_replaced(pattern: Seq<char>, text: Seq<char>, rep: Seq<char>) -> Seq<
    char,
>;

/// Compiles `pattern` with `regex::Regex::new` and replaces its matches in
/// `text` by `rep` (`Regex::replace_all`). `None` exactly when `Regex::new`
/// refuses the pattern (whether it does is named by `regex_compiles`).
/// The result is named, not described: nothing here states the
/// regular-expression or replacement semantics.
#[verifier::external_body]
fn regex_replace_all(pattern: &str, text: &str, rep: &str) -> (r: Option<String>)
    ensures
        r is Some <==> regex_compiles(pattern@),
        r matches Some(t) ==> t@ == regex_replaced(pattern@, text@, rep@),
{
    match regex::Regex::new(pattern) {
        Ok(re) => Some(re.replace_all(text, rep).into_owned()),
        Err(_) => None,
    }
}

/// The injection script `injection_js` with the theme styles `theme_js` put
/// in place of its themes marker; `Err` when the marker pattern does not
/// compile.
pub fn get_injection_js(injection_js: &str, theme_js: &str) -> (r: Result<String, ()>)
    ensures
        r is Ok <==> regex_compiles(THEMES_PATTERN@),
        r matches Ok(t) ==> t@ == regex_replaced(THEMES_PATTERN@, injection_js@, theme_js@),
{
    match regex_replace_all(THEMES_PATTERN, injection_js, theme_js) {
        Some(t) => Ok(t),
        None => Err(()),
    }
}

/// The script that runs the plugin `name` with source `script`: it logs the
/// plugin's name, and runs the source in a `try` block whose `catch` logs
/// the error without stopping the client.
pub open spec fn plugin_eval_text(name: Seq<char>, script: Seq<char>) -> Seq<char> {
    "\n        console.log('Executing plugin: "@ + name + "')\n        try {\n          "@ + script
        + "\n        } catch(e) {\n          console.error(`Plugin "@ + name
        + " returned error: ${e}`)\n          console.log('The plugin could still work! Just don\\'t expect it to.')\n        }"@
}

/// The script that runs the plugin `name` with source `script`.
pub fn plugin_eval_script(name: &str, script: &str) -> (r: String)
    ensures
        r@ == plugin_eval_text(name@, script@),
{
    let mut r = String::from_str("\n        console.log('Executing plugin: ");
    append_str(&mut r, name);
    append_str(&mut r, "')\n        try {\n          ");
    append_str(&mut r, script);
    append_str(&mut r, "\n        } catch(e) {\n          console.error(`Plugin ");
    append_str(&mut r, name);
    append_str(
        &mut r,
        " returned error: ${e}`)\n          console.log('The plugin could still work! Just don\\'t expect it to.')\n        }",
    );
    r
}

} // verus!
