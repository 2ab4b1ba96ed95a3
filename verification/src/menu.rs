//! Menu and customer edits: category codes, price modes, favourites and phone
//! updates.

use vstd::prelude::*;
use crate::text::{
    owned, replace_all, str_eq, str_replace, to_lowercase, to_uppercase, trim_seq, trim_str,
    lowercase_text, uppercase_text,
};

verus! {

/// The code of a menu category: its name in upper case with spaces turned into
/// underscores.
pub open spec fn category_code_text(name: Seq<char>) -> Seq<char> {
    replace_all(uppercase_text(name), " "@, "_"@)
}

/// The code stored for a menu category named `name`.
pub fn menu_category_code(name: &str) -> (res: String)
    ensures
        res@ == category_code_text(name@),
{
    proof {
        reveal_strlit(" ");
    }
    let upper = to_uppercase(name);
    str_replace(upper.as_str(), " ", "_")
}

/// How a batch price change applies its value.
#[derive(PartialEq, Eq, Structural, Clone, Copy, Debug)]
pub enum PriceMode {
    /// The value becomes the price.
    Absolute,
    /// The value is added to the price.
    Delta,
    /// The price grows by the value, in percent.
    Percent,
}

/// The price mode a request names, read without surrounding blanks and case.
pub open spec fn price_mode_of(mode: Seq<char>) -> Option<PriceMode> {
    let m = lowercase_text(trim_seq(mode));
    if m == "set"@ {
        Some(PriceMode::Absolute)
    } else if m == "delta"@ {
        Some(PriceMode::Delta)
    } else if m == "percent"@ {
        Some(PriceMode::Percent)
    } else {
        None
    }
}

/// Reads the mode of a batch price change; an unknown mode is refused.
pub fn parse_price_mode(mode: &str) -> (res: Result<PriceMode, String>)
    ensures
        match price_mode_of(mode@) {
            Some(m) => res == Ok::<PriceMode, String>(m),
            None => res is Err && res->Err_0@ == "不支持的调价模式"@,
        },
{
    let t = trim_str(mode);
    let m = to_lowercase(t.as_str());
    if str_eq(m.as_str(), "set") {
        Ok(PriceMode::Absolute)
    } else if str_eq(m.as_str(), "delta") {
        Ok(PriceMode::Delta)
    } else if str_eq(m.as_str(), "percent") {
        Ok(PriceMode::Percent)
    } else {
        Err(owned("不支持的调价模式"))
    }
}

/// The name a mode is stored and passed on under.
pub fn price_mode_name(mode: PriceMode) -> (res: &'static str)
    ensures
        res@ == match mode {
            PriceMode::Absolute => "set"@,
            PriceMode::Delta => "delta"@,
            PriceMode::Percent => "percent"@,
        },
{
    match mode {
        PriceMode::Absolute => "set",
        PriceMode::Delta => "delta",
        PriceMode::Percent => "percent",
    }
}

/// The favourite flag after toggling: a cleared flag is set, any other cleared.
pub fn toggled_favorite(current: i32) -> (res: i32)
    ensures
        res == if current == 0 { 1i32 } else { 0i32 },
{
    if current == 0 { 1 } else { 0 }
}

/// Toggling the favourite flag twice gives back a flag that was 0 or 1.
pub proof fn law_toggle_twice(current: i32)
    requires
        current == 0 || current == 1,
    ensures
        (if (if current == 0 { 1i32 } else { 0i32 }) == 0 { 1i32 } else { 0i32 }) == current,
{
}

/// The phone change to store for a customer: cleared when asked, else the new
/// number when one is given, else none.
pub fn customer_phone_update(phone: Option<String>, clear_phone: bool) -> (res: Option<Option<String>>)
    ensures
        clear_phone ==> res == Some(None::<String>),
        !clear_phone ==> match phone {
            Some(p) => res == Some(Some(p)),
            None => res is None,
        },
{
    if clear_phone {
        Some(None)
    } else {
        match phone {
            Some(p) => Some(Some(p)),
            None => None,
        }
    }
}

} // verus!
