//! Hands the resolved paths to the user interface at startup.
//!
//! The paths travel as one JSON list inside a script that the interface
//! runs once. With no path there is nothing to hand over and no script.

use vstd::prelude::*;
use vstd::string::*;
use crate::path::is_flag_spec;
use crate::resolver::{nothing_resolves_without_path_args, resolve, resolve_spec};

verus! {

/// `serde_json::Error`, the error of a failed serialization. It is carried
/// through unread.
#[verifier::external_type_specification]
#[verifier::external_body]
pub struct ExJsonError(serde_json::Error);

/// The script up to the list of paths.
pub const SCRIPT_HEAD: &'static str = "window.__MARK_ARGS__ = ";

/// The script after the list of paths.
pub const SCRIPT_TAIL: &'static str = ";";

/// The JSON text of a list without entries.
pub const EMPTY_LIST: &'static str = "[]";

/// The JSON text that `serde_json::to_string` writes for a list of strings.
pub uninterp spec fn json_text(values: Seq<Seq<char>>) -> Seq<char>;

/// Calls `serde_json::to_string` on a list of strings. The call succeeds
/// and its text is the one that [`json_text`] names for the list: on this
/// type the serializer can fail only where its writer fails, and it writes
/// into a byte vector, which takes every write.
#[verifier::external_body]
fn to_json(values: &Vec<String>) -> (text: Result<String, serde_json::Error>)
    ensures
        text is Ok,
        text matches Ok(t) ==> t@ == json_text(values.deep_view()),
{
    serde_json::to_string(values)
}

/// The list to hand over for a serialization outcome: the serialized text,
/// or the empty list where serialization failed.
pub open spec fn payload_spec(serialized: Result<String, serde_json::Error>) -> Seq<char> {
    match serialized {
        Ok(text) => text@,
        Err(_) => EMPTY_LIST@,
    }
}

/// The script that hands `payload` to the user interface.
pub open spec fn script_spec(payload: Seq<char>) -> Seq<char> {
    SCRIPT_HEAD@ + payload + SCRIPT_TAIL@
}

/// Settles on the list to hand over: a failed serialization never blocks
/// startup, it hands over the empty list.
pub fn payload(serialized: Result<String, serde_json::Error>) -> (text: String)
    ensures
        text@ == payload_spec(serialized),
{
    match serialized {
        Ok(text) => text,
        Err(_) => EMPTY_LIST.to_owned(),
    }
}

/// Wraps `payload` into the script that the user interface runs.
pub fn script(payload: &str) -> (text: String)
    ensures
        text@ == script_spec(payload@),
{
    let mut text = SCRIPT_HEAD.to_owned();
    text.append(payload);
    text.append(SCRIPT_TAIL);
    text
}

/// The startup script for the resolved paths, or `None` where there is no
/// path to hand over. The script carries all the paths, in order, as one
/// JSON list.
pub fn startup_injection(resolved: &Vec<String>) -> (injection: Option<String>)
    ensures
        injection is None <==> resolved.len() == 0,
        injection matches Some(text) ==> text@ == script_spec(json_text(resolved.deep_view())),
{
    if resolved.len() == 0 {
        return None;
    }
    let list = payload(to_json(resolved));
    Some(script(list.as_str()))
}

/// The whole startup computation: resolves `args` seen from `cwd` on the
/// filesystem's `outcomes` and prepares the script that hands the resolved
/// paths over. There is a script exactly when some argument is not a flag.
pub fn startup_script(args: &Vec<String>, cwd: &str, outcomes: &Vec<Option<String>>) -> (injection:
    Option<String>)
    ensures
        injection is None <==> forall|i: int|
            0 <= i < args.len() ==> is_flag_spec(#[trigger] args.deep_view()[i]),
        injection matches Some(text) ==> text@ == script_spec(
            json_text(resolve_spec(args.deep_view(), cwd@, outcomes.deep_view())),
        ),
{
    let resolved = resolve(args, cwd, outcomes);
    proof {
        nothing_resolves_without_path_args(args.deep_view(), cwd@, outcomes.deep_view());
    }
    startup_injection(&resolved)
}

} // verus!
