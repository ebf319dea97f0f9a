//! Choosing the script that the shim hands to the runtime.
use vstd::prelude::*;
use crate::text::{
    ascii_lower,
    ascii_lowercase_chars,
    blank,
    contains_chars,
    has_substring,
    is_blank,
};

verus! {

/// Name of the environment variable whose non-blank value overrides the
/// script chosen from the invocation name.
pub const SCRIPT_OVERRIDE_VAR: &'static str = "FORGE_AGENT_SCRIPT";

/// Entry script of the Gemini command-line agent.
pub const GEMINI_SCRIPT: &'static str =
    "C:\\Users\\hithe\\AppData\\Roaming\\npm\\node_modules\\@google\\gemini-cli\\dist\\index.js";

/// Entry script of the Codex command-line agent.
pub const CODEX_SCRIPT: &'static str =
    "C:\\Users\\hithe\\AppData\\Roaming\\npm\\node_modules\\@openai\\codex\\bin\\codex.js";

/// The key that selects the Gemini script, in lower case.
pub open spec fn gemini_key() -> Seq<char> {
    seq!['g', 'e', 'm', 'i', 'n', 'i']
}

/// The key that selects the Codex script, in lower case.
pub open spec fn codex_key() -> Seq<char> {
    seq!['c', 'o', 'd', 'e', 'x']
}

/// The invocation name holds "gemini", in any mix of ASCII case.
pub open spec fn names_gemini(name: Seq<char>) -> bool {
    has_substring(ascii_lower(name), gemini_key())
}

/// The invocation name holds "codex", in any mix of ASCII case.
pub open spec fn names_codex(name: Seq<char>) -> bool {
    has_substring(ascii_lower(name), codex_key())
}

/// The script inferred from the invocation name alone: Gemini's when the
/// name mentions it, else Codex's when the name mentions that, else none.
pub open spec fn default_script(name: Seq<char>) -> Option<Seq<char>> {
    if names_gemini(name) {
        Some(GEMINI_SCRIPT@)
    } else if names_codex(name) {
        Some(CODEX_SCRIPT@)
    } else {
        None
    }
}

/// The script to run: the override when it is present and not blank,
/// otherwise the one inferred from the invocation name.
pub open spec fn resolved_script(name: Seq<char>, override_value: Option<Seq<char>>) -> Option<
    Seq<char>,
> {
    match override_value {
        Some(v) => if !blank(v) {
            Some(v)
        } else {
            default_script(name)
        },
        None => default_script(name),
    }
}

/// Infers the script from the name the shim was invoked under, comparing
/// case-insensitively for ASCII letters.
pub fn default_node_script_from_exe(exe_name: &str) -> (r: Option<String>)
    ensures
        r.deep_view() == default_script(exe_name@),
{
    let lower = ascii_lowercase_chars(exe_name);
    let gemini: Vec<char> = vec!['g', 'e', 'm', 'i', 'n', 'i'];
    assert(gemini@ == gemini_key());
    if contains_chars(&lower, &gemini) {
        return Some(String::from_str(GEMINI_SCRIPT));
    }
    let codex: Vec<char> = vec!['c', 'o', 'd', 'e', 'x'];
    assert(codex@ == codex_key());
    if contains_chars(&lower, &codex) {
        return Some(String::from_str(CODEX_SCRIPT));
    }
    None
}

/// Picks the script to run from the override value, if any, and the
/// invocation name. `None` means that no script can be determined.
pub fn resolve_script(exe_name: &str, override_value: Option<&str>) -> (r: Option<String>)
    ensures
        r.deep_view() == resolved_script(exe_name@, override_value.deep_view()),
{
    match override_value {
        Some(v) => {
            if !is_blank(v) {
                Some(String::from_str(v))
            } else {
                default_node_script_from_exe(exe_name)
            }
        },
        None => default_node_script_from_exe(exe_name),
    }
}

/// Folding the case of a concatenation folds each part.
proof fn lemma_ascii_lower_concat(a: Seq<char>, b: Seq<char>)
    ensures
        ascii_lower(a + b) == ascii_lower(a) + ascii_lower(b),
{
    assert(ascii_lower(a + b) =~= ascii_lower(a) + ascii_lower(b));
}

/// A key spelled in any ASCII case, with anything around it, is found in the
/// folded name.
proof fn lemma_key_found(prefix: Seq<char>, spelled: Seq<char>, suffix: Seq<char>, key: Seq<char>)
    requires
        ascii_lower(spelled) == key,
    ensures
        has_substring(ascii_lower(prefix + spelled + suffix), key),
{
    lemma_ascii_lower_concat(prefix + spelled, suffix);
    lemma_ascii_lower_concat(prefix, spelled);
    let hay = ascii_lower(prefix + spelled + suffix);
    let at = prefix.len() as int;
    assert(hay.subrange(at, at + key.len()) =~= key);
}

/// With no override, a name that holds "gemini" in any ASCII case, whatever
/// surrounds it, resolves to the Gemini script.
pub proof fn lemma_gemini_name_resolves(prefix: Seq<char>, spelled: Seq<char>, suffix: Seq<char>)
    requires
        ascii_lower(spelled) == gemini_key(),
    ensures
        resolved_script(prefix + spelled + suffix, None) == Some(GEMINI_SCRIPT@),
{
    lemma_key_found(prefix, spelled, suffix, gemini_key());
}

/// With no override, a name that holds "codex" in any ASCII case, whatever
/// surrounds it, resolves to the Codex script, unless the name also holds
/// "gemini", which is looked for first.
pub proof fn lemma_codex_name_resolves(prefix: Seq<char>, spelled: Seq<char>, suffix: Seq<char>)
    requires
        ascii_lower(spelled) == codex_key(),
        !names_gemini(prefix + spelled + suffix),
    ensures
        resolved_script(prefix + spelled + suffix, None) == Some(CODEX_SCRIPT@),
{
    lemma_key_found(prefix, spelled, suffix, codex_key());
}

/// A name that holds neither key, with the override absent or blank, leaves
/// the script undetermined.
pub proof fn lemma_unknown_name_unresolved(name: Seq<char>, override_value: Option<Seq<char>>)
    requires
        !names_gemini(name),
        !names_codex(name),
        override_value is None || blank(override_value->0),
    ensures
        resolved_script(name, override_value) is None,
{
}

/// A non-blank override is the script, whatever the invocation name.
pub proof fn lemma_override_wins(name: Seq<char>, value: Seq<char>)
    requires
        !blank(value),
    ensures
        resolved_script(name, Some(value)) == Some(value),
{
}

} // verus!
