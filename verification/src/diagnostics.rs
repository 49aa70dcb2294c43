//! Gate for what diagnostic logs may reveal.
//!
//! A sequence of key codes is in effect a key log. Codes and typed text therefore appear
//! only after an explicit opt-in, the environment variable [`KEY_CONTENT_ENV`]. The
//! application reads it once at start; every function here takes the value it found.

use vstd::prelude::*;
use vstd::string::*;

use crate::text;

verus! {

/// Environment variable that opts in to key content in the logs.
pub const KEY_CONTENT_ENV: &'static str = "AWASE_LOG_KEY_CONTENT";

/// Only the exact value `1` opts in.
pub open spec fn opted_in(value: Option<Seq<char>>) -> bool {
    value == Some("1"@)
}

/// View of an optional string slice.
pub open spec fn str_option_view(value: Option<&str>) -> Option<Seq<char>> {
    match value {
        Some(s) => Some(s@),
        None => None,
    }
}

/// Whether the value of [`KEY_CONTENT_ENV`] lets key content into the logs.
#[must_use]
pub fn key_content_value_enabled(value: Option<&str>) -> (r: bool)
    ensures
        r == opted_in(str_option_view(value)),
{
    match value {
        Some(v) => text::same(v, "1"),
        None => false,
    }
}

/// A key code that is shown only after the opt-in.
#[derive(Debug, Clone, Copy)]
pub struct MaskedVk(pub u16);

impl MaskedVk {
    pub open spec fn text_spec(self, key_content: Option<Seq<char>>) -> Seq<char> {
        if opted_in(key_content) {
            text::hex_code(self.0 as nat)
        } else {
            "<masked>"@
        }
    }

    /// The code in hexadecimal where `key_content`, the value of [`KEY_CONTENT_ENV`], opts
    /// in; `<masked>` otherwise.
    #[must_use]
    pub fn to_text(self, key_content: Option<&str>) -> (r: String)
        ensures
            r@ == self.text_spec(str_option_view(key_content)),
    {
        let mut out = String::new();
        if key_content_value_enabled(key_content) {
            text::push_hex_code(&mut out, self.0);
            assert(out@ =~= text::hex_code(self.0 as nat));
        } else {
            out.append("<masked>");
            assert(out@ =~= "<masked>"@);
        }
        out
    }
}

/// Without the opt-in every key code reads the same.
pub proof fn law_masked_codes_look_alike(
    a: MaskedVk,
    b: MaskedVk,
    key_content: Option<Seq<char>>,
)
    requires
        !opted_in(key_content),
    ensures
        a.text_spec(key_content) == b.text_spec(key_content),
{
}

/// With the opt-in every key code can be told from every other; the mask is never one of them.
pub proof fn law_shown_codes_are_told_apart(a: MaskedVk, b: MaskedVk)
    ensures
        a.text_spec(Some("1"@)) == b.text_spec(Some("1"@)) ==> a.0 == b.0,
        a.text_spec(None) == "<masked>"@,
        a.text_spec(Some("1"@)) != a.text_spec(None),
{
    reveal_strlit("<masked>");
    text::law_hex_codes_are_read_back(a.0 as nat);
    text::law_hex_codes_are_read_back(b.0 as nat);
    assert("<masked>"@[0] == '<');
}

/// No value but the one opts in.
pub proof fn law_other_values_do_not_opt_in(value: Seq<char>)
    requires
        value != seq!['1'],
    ensures
        !opted_in(Some(value)),
        !opted_in(None),
{
    reveal_strlit("1");
    assert("1"@ =~= seq!['1']);
}

} // verus!
