//! The text that the containers show to someone debugging.

use vstd::prelude::*;
use vstd::string::StringExecFns;

verus! {

/// What stands in the brackets while nothing is frozen.
pub const UNTOUCHED: &'static str = "<untouched>";

/// A container's debug text: its name, then in round brackets the text of
/// the frozen value, or `<untouched>` where nothing is frozen yet.
pub open spec fn tuple_rendering(name: Seq<char>, field: Option<Seq<char>>) -> Seq<char> {
    let shown = match field {
        Some(text) => text,
        None => UNTOUCHED@,
    };
    name + "("@ + shown + ")"@
}

/// Whether `shown` is a text that `T`'s `Debug` impl can write for `value`
/// under the plain `{:?}` directive. Nothing is known of such a text but
/// that [`shown_text`] returned it for that value.
pub closed spec fn shown_for<T: core::fmt::Debug>(value: T, shown: Seq<char>) -> bool {
    exists|text: String| #[trigger] call_ensures(debug_text::<T>, (&value,), text) && text@ == shown
}

/// The text that `T`'s `Debug` impl writes for `value`.
pub fn shown_text<T: core::fmt::Debug>(value: &T) -> (text: String)
    ensures
        shown_for(*value, text@),
{
    debug_text(value)
}

/// Writes out [`tuple_rendering`] for a field that was already turned into
/// text.
pub fn render_tuple(name: &str, field: Option<String>) -> (text: String)
    ensures
        text@ == tuple_rendering(
            name@,
            match field {
                Some(shown) => Some(shown@),
                None => None,
            },
        ),
{
    let mut text = String::from_str(name);
    text.append("(");
    match field {
        Some(shown) => text.append(shown.as_str()),
        None => text.append(UNTOUCHED),
    }
    text.append(")");
    text
}

/// The text that `T`'s own `Debug` impl writes for `value`, as `format!`
/// collects it under the plain `{:?}` directive.
///
/// Nothing is claimed of the text: it is whatever that impl produces.
#[verifier::external_body]
pub(crate) fn debug_text<T: core::fmt::Debug>(value: &T) -> String {
    format!("{:?}", value)
}

} // verus!
