//! The parameters of a request: which ones it must have, and within which limits.

use crate::json::{Json, JsonView};
use crate::limits::{byte_len, first_chars, take_chars};
use crate::text::{cat2, cat4, contains_char, decimal, decimal_text, starts_with_char, text_eq};
use vstd::prelude::*;

verus! {

/// A checked parameter as what it says.
pub open spec fn param_view(param: Result<&str, String>) -> Result<Seq<char>, Seq<char>> {
    match param {
        Ok(text) => Ok(text@),
        Err(message) => Err(message@),
    }
}

/// The answer to a request without a text that it must have.
pub open spec fn missing_text(name: Seq<char>) -> Seq<char> {
    "Missing string parameter: "@ + name
}

/// A text that a request must have, and that must not be empty.
pub open spec fn text_param(params: JsonView, name: Seq<char>) -> Result<Seq<char>, Seq<char>> {
    match params.text_field(name) {
        Some(text) => if text.len() > 0 {
            Ok(text)
        } else {
            Err(missing_text(name))
        },
        None => Err(missing_text(name)),
    }
}

/// A text that a request must have, and that must not be empty.
pub fn required_string<'a>(params: &'a Json, name: &str) -> (param: Result<&'a str, String>)
    ensures
        param_view(param) == text_param(params@, name@),
{
    match params.get_str(name) {
        Some(text) => if text.is_empty() {
            Err(cat2("Missing string parameter: ", name))
        } else {
            Ok(text)
        },
        None => Err(cat2("Missing string parameter: ", name)),
    }
}

/// A number that a request may have: a default where it is absent, and otherwise an integer
/// from one to a maximum.
pub open spec fn number_param(
    params: JsonView,
    name: Seq<char>,
    default: nat,
    max: nat,
) -> Result<nat, Seq<char>> {
    match params.field(name) {
        None => Ok(default),
        Some(value) => match value.as_u64() {
            Some(n) => if 1 <= n <= max {
                Ok(n as nat)
            } else {
                Err(number_message(name, max))
            },
            None => Err(number_message(name, max)),
        },
    }
}

/// The answer to a request with a number that is out of its limits.
pub open spec fn number_message(name: Seq<char>, max: nat) -> Seq<char> {
    "Parameter "@ + name + " must be an integer between 1 and "@ + decimal(max)
}

/// A number parameter as what it says.
pub open spec fn number_view(param: Result<usize, String>) -> Result<nat, Seq<char>> {
    match param {
        Ok(n) => Ok(n as nat),
        Err(message) => Err(message@),
    }
}

/// A number that a request may have, within its limits.
pub fn optional_usize(params: &Json, name: &str, default: usize, max: usize) -> (param: Result<
    usize,
    String,
>)
    ensures
        number_view(param) == number_param(params@, name@, default as nat, max as nat),
{
    let value = match params.get(name) {
        None => return Ok(default),
        Some(value) => value,
    };
    match value.as_u64() {
        Some(n) => if 1 <= n && n <= max as u64 {
            return Ok(n as usize);
        },
        None => {},
    }
    Err(
        cat4(
            "Parameter ",
            name,
            " must be an integer between 1 and ",
            decimal_text(max as u64).as_str(),
        ),
    )
}

/// Whether a text can be a path on a server: absolute, without the zero character, and at most
/// 4096 bytes long.
pub open spec fn is_remote_path(path: Seq<char>) -> bool {
    &&& path.len() > 0 && path[0] == '/'
    &&& !path.contains('\0')
    &&& byte_len(path) <= 4096
}

/// The path that a request must have.
pub open spec fn path_param(params: JsonView) -> Result<Seq<char>, Seq<char>> {
    match text_param(params, "path"@) {
        Ok(path) => if is_remote_path(path) {
            Ok(path)
        } else {
            Err("Parameter path must be an absolute remote path up to 4096 bytes"@)
        },
        Err(message) => Err(message),
    }
}

/// The path that a request must have.
pub fn required_remote_path<'a>(params: &'a Json) -> (param: Result<&'a str, String>)
    ensures
        param_view(param) == path_param(params@),
{
    match required_string(params, "path") {
        Ok(path) => {
            if !starts_with_char(path, '/') || contains_char(path, '\0') || path.as_bytes().len()
                > 4096 {
                Err(
                    "Parameter path must be an absolute remote path up to 4096 bytes".to_owned(),
                )
            } else {
                Ok(path)
            }
        },
        Err(message) => Err(message),
    }
}

/// The command that a request must have: without the zero character, and at most 65536 bytes
/// long.
pub open spec fn command_param(params: JsonView) -> Result<Seq<char>, Seq<char>> {
    match text_param(params, "command"@) {
        Ok(command) => if command.contains('\0') || byte_len(command) > 65536 {
            Err("Parameter command exceeds the 65536 byte MCP limit"@)
        } else {
            Ok(command)
        },
        Err(message) => Err(message),
    }
}

/// The command that a request must have.
pub fn required_command<'a>(params: &'a Json) -> (param: Result<&'a str, String>)
    ensures
        param_view(param) == command_param(params@),
{
    match required_string(params, "command") {
        Ok(command) => {
            if contains_char(command, '\0') || command.as_bytes().len() > 65536 {
                Err("Parameter command exceeds the 65536 byte MCP limit".to_owned())
            } else {
                Ok(command)
            }
        },
        Err(message) => Err(message),
    }
}

/// Whether a text names an approved action on a container.
pub open spec fn is_container_action(action: Seq<char>) -> bool {
    action == "start"@ || action == "stop"@ || action == "restart"@
}

/// The action on a container that a request must have.
pub open spec fn action_param(params: JsonView) -> Result<Seq<char>, Seq<char>> {
    match text_param(params, "action"@) {
        Ok(action) => if is_container_action(action) {
            Ok(action)
        } else {
            Err("Parameter action must be one of: start, stop, restart"@)
        },
        Err(message) => Err(message),
    }
}

/// The action on a container that a request must have.
pub fn required_container_action(params: &Json) -> (param: Result<&str, String>)
    ensures
        param_view(param) == action_param(params@),
{
    match required_string(params, "action") {
        Ok(action) => {
            if text_eq(action, "start") || text_eq(action, "stop") || text_eq(action, "restart") {
                Ok(action)
            } else {
                Err("Parameter action must be one of: start, stop, restart".to_owned())
            }
        },
        Err(message) => Err(message),
    }
}

/// The file content that a request must have, which may be empty: at most 131072 bytes.
pub open spec fn content_param(params: JsonView) -> Result<Seq<char>, Seq<char>> {
    match params.text_field("content"@) {
        Some(content) => if byte_len(content) > 131072 {
            Err("File content exceeds the 131072 byte MCP limit"@)
        } else {
            Ok(content)
        },
        None => Err("Missing string parameter: content"@),
    }
}

/// The file content that a request must have.
pub fn required_content<'a>(params: &'a Json) -> (param: Result<&'a str, String>)
    ensures
        param_view(param) == content_param(params@),
{
    match params.get_str("content") {
        Some(content) => {
            if content.as_bytes().len() > 131072 {
                Err("File content exceeds the 131072 byte MCP limit".to_owned())
            } else {
                Ok(content)
            }
        },
        None => Err("Missing string parameter: content".to_owned()),
    }
}

/// The switch that a request must have.
pub open spec fn switch_param(params: JsonView) -> Result<bool, Seq<char>> {
    match params.field("enabled"@) {
        Some(value) => match value.as_bool() {
            Some(enabled) => Ok(enabled),
            None => Err("Missing boolean parameter: enabled"@),
        },
        None => Err("Missing boolean parameter: enabled"@),
    }
}

/// A switch parameter as what it says.
pub open spec fn switch_view(param: Result<bool, String>) -> Result<bool, Seq<char>> {
    match param {
        Ok(enabled) => Ok(enabled),
        Err(message) => Err(message@),
    }
}

/// The switch that a request must have.
pub fn required_switch(params: &Json) -> (param: Result<bool, String>)
    ensures
        switch_view(param) == switch_param(params@),
{
    match params.get("enabled") {
        Some(value) => match value.as_bool() {
            Some(enabled) => Ok(enabled),
            None => Err("Missing boolean parameter: enabled".to_owned()),
        },
        None => Err("Missing boolean parameter: enabled".to_owned()),
    }
}

/// What the record of a request names as its target: the first of the container, the domain,
/// the path and the profile that is a text, and otherwise that there was a command.
pub open spec fn target_of(params: JsonView) -> Seq<char> {
    match params.text_field("container"@) {
        Some(text) => first_chars(text, 200),
        None => match params.text_field("domain"@) {
            Some(text) => first_chars(text, 200),
            None => match params.text_field("path"@) {
                Some(text) => first_chars(text, 200),
                None => match params.text_field("profile_id"@) {
                    Some(text) => first_chars(text, 200),
                    None => if params.field("command"@) is Some {
                        "command"@
                    } else {
                        ""@
                    },
                },
            },
        },
    }
}

/// What the record of a request names as its target.
pub fn audit_target(params: &Json) -> (target: String)
    ensures
        target@ == target_of(params@),
{
    match params.get_str("container") {
        Some(text) => return take_chars(text, 200),
        None => {},
    }
    match params.get_str("domain") {
        Some(text) => return take_chars(text, 200),
        None => {},
    }
    match params.get_str("path") {
        Some(text) => return take_chars(text, 200),
        None => {},
    }
    match params.get_str("profile_id") {
        Some(text) => return take_chars(text, 200),
        None => {},
    }
    if params.get("command").is_some() {
        "command".to_owned()
    } else {
        "".to_owned()
    }
}

/// A number parameter that is accepted is the default or lies within its limits.
pub proof fn law_number_is_bounded(params: JsonView, name: Seq<char>, default: nat, max: nat)
    ensures
        match number_param(params, name, default, max) {
            Ok(n) => n == default || 1 <= n <= max,
            Err(message) => params.field(name) is Some && message == number_message(name, max),
        },
{
}

/// The target in the record of a request has at most 200 characters.
pub proof fn law_target_is_short(params: JsonView)
    ensures
        target_of(params).len() <= 200,
{
    reveal_strlit("command");
    reveal_strlit("");
}

/// The record of a request keeps nothing of its command or of its content: requests that differ
/// in nothing else have the same target.
pub proof fn law_target_keeps_no_command(params: JsonView, other: JsonView)
    requires
        params.text_field("container"@) == other.text_field("container"@),
        params.text_field("domain"@) == other.text_field("domain"@),
        params.text_field("path"@) == other.text_field("path"@),
        params.text_field("profile_id"@) == other.text_field("profile_id"@),
        params.field("command"@) is Some <==> other.field("command"@) is Some,
    ensures
        target_of(params) == target_of(other),
{
}

/// The record of a request names the container that it gives, where it gives one as a text, else
/// the domain, else the path, else the profile, and at most 200 characters of it. A request that
/// gives none of them but a command is recorded as a command.
pub proof fn law_target_is_the_first_that_is_given(params: JsonView, text: Seq<char>)
    ensures
        ({
            let container = params.field("container"@);
            let domain = params.field("domain"@);
            let path = params.field("path"@);
            let profile_id = params.field("profile_id"@);
            let given = Some(JsonView::Text(text));
            let named = {
                &&& target_of(params).is_prefix_of(text)
                &&& target_of(params).len() == text.len() || target_of(params).len() == 200
            };
            let no_container = !(container matches Some(JsonView::Text(_)));
            let no_domain = no_container && !(domain matches Some(JsonView::Text(_)));
            let no_path = no_domain && !(path matches Some(JsonView::Text(_)));
            let no_profile = no_path && !(profile_id matches Some(JsonView::Text(_)));
            &&& container == given ==> named
            &&& no_container && domain == given ==> named
            &&& no_domain && path == given ==> named
            &&& no_path && profile_id == given ==> named
            &&& no_profile ==> target_of(params) == if params.field("command"@) is Some {
                "command"@
            } else {
                Seq::empty()
            }
        }),
{
    reveal_strlit("");
    crate::limits::law_first_chars_begin_the_text(text, 200);
    assert(""@ =~= Seq::<char>::empty());
}

/// A checked parameter says its value or the refusal.
pub proof fn law_parameters_say_what_they_hold(
    text: Result<&str, String>,
    number: Result<usize, String>,
    switch: Result<bool, String>,
)
    ensures
        text matches Ok(value) ==> param_view(text) == Ok::<Seq<char>, Seq<char>>(value@),
        text matches Err(message) ==> param_view(text) == Err::<Seq<char>, Seq<char>>(message@),
        number matches Ok(value) ==> number_view(number) == Ok::<nat, Seq<char>>(value as nat),
        number matches Err(message) ==> number_view(number) == Err::<nat, Seq<char>>(message@),
        switch matches Ok(value) ==> switch_view(switch) == Ok::<bool, Seq<char>>(value),
        switch matches Err(message) ==> switch_view(switch) == Err::<bool, Seq<char>>(message@),
{
}

} // verus!
