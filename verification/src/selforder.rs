//! Self-service ordering from a table: which table an order belongs to and
//! whether it may be placed.

use vstd::prelude::*;
use crate::text::{owned, str_eq, trim_seq, trim_str};

verus! {

/// What checking a scanned table code gave.
pub enum TokenCheck {
    /// The signature does not verify, or the code has expired.
    Invalid,
    /// A genuine code of another kind than a table code.
    NotTable,
    /// A genuine table code, bound to this table number.
    Table(String),
}

/// The table code a request carries, if any: an empty one counts as none.
pub fn supplied_token(token: Option<&str>) -> (res: Option<&str>)
    ensures
        match token {
            Some(t) => if t@.len() > 0 { res == Some(t) } else { res is None },
            None => res is None,
        },
{
    match token {
        Some(t) => if t.is_empty() { None } else { Some(t) },
        None => None,
    }
}

/// The table an order is placed for: a valid table code always wins over the
/// number the client sent; without a code the order is refused when codes are
/// required, and otherwise the trimmed table number is used.
pub open spec fn self_order_table(
    table_no: Seq<char>,
    token: Option<TokenCheck>,
    require_token: bool,
) -> Result<Seq<char>, Seq<char>> {
    match token {
        Some(TokenCheck::Invalid) => Err("二维码无效或已过期，请重新扫码"@),
        Some(TokenCheck::NotTable) => Err("二维码类型错误"@),
        Some(TokenCheck::Table(t)) => Ok(t@),
        None => if require_token {
            Err("请扫描餐桌上的最新二维码下单"@)
        } else if trim_seq(table_no).len() == 0 {
            Err("桌号不能为空"@)
        } else {
            Ok(trim_seq(table_no))
        },
    }
}

/// Resolves the table of a self-service order; `token` is the outcome of checking
/// the table code the request carried, `None` when it carried none.
pub fn resolve_self_order_table(table_no: &str, token: Option<TokenCheck>, require_token: bool) -> (res: Result<String, String>)
    ensures
        match self_order_table(table_no@, token, require_token) {
            Ok(t) => res is Ok && res->Ok_0@ == t,
            Err(m) => res is Err && res->Err_0@ == m,
        },
{
    match token {
        Some(TokenCheck::Invalid) => Err(owned("二维码无效或已过期，请重新扫码")),
        Some(TokenCheck::NotTable) => Err(owned("二维码类型错误")),
        Some(TokenCheck::Table(t)) => Ok(t),
        None => {
            if require_token {
                return Err(owned("请扫描餐桌上的最新二维码下单"));
            }
            let t = trim_str(table_no);
            if t.as_str().is_empty() {
                Err(owned("桌号不能为空"))
            } else {
                Ok(t)
            }
        },
    }
}

/// The table number a table code is made for: the trimmed number, which must not
/// be blank.
pub fn table_code_subject(table_no: &str) -> (res: Result<String, String>)
    ensures
        match res {
            Ok(t) => t@ == trim_seq(table_no@) && t@.len() > 0,
            Err(m) => trim_seq(table_no@).len() == 0 && m@ == "桌号不能为空"@,
        },
{
    let t = trim_str(table_no);
    if t.as_str().is_empty() {
        Err(owned("桌号不能为空"))
    } else {
        Ok(t)
    }
}

/// Whether `table_no` is one of `tables`.
pub open spec fn known_table(tables: Seq<String>, table_no: Seq<char>) -> bool {
    exists|k: int| 0 <= k < tables.len() && #[trigger] tables[k]@ == table_no
}

/// Whether every ordered item is currently offered.
pub open spec fn all_available(availability: Seq<Option<i64>>) -> bool {
    forall|k: int| 0 <= k < availability.len() ==> #[trigger] availability[k] == Some(1i64)
}

/// Why a self-service order is refused, if it is: it has no items; the shop has
/// set up tables and this is not one of them; or an item is no longer offered.
pub open spec fn self_order_refusal(
    table_no: Seq<char>,
    tables: Seq<String>,
    availability: Seq<Option<i64>>,
) -> Option<Seq<char>> {
    if availability.len() == 0 {
        Some("订单不能为空"@)
    } else if tables.len() > 0 && !known_table(tables, table_no) {
        Some("桌号无效，请扫描餐桌上的二维码"@)
    } else if !all_available(availability) {
        Some("部分商品已售罄或下架，请刷新菜单后重试"@)
    } else {
        None
    }
}

/// Checks a self-service order before it is stored. `tables` are the shop's
/// table numbers; `availability` holds, for each ordered item, the stored
/// availability flag of its menu item (`None` when the item does not exist).
pub fn check_self_order(table_no: &str, tables: &[String], availability: &[Option<i64>]) -> (res: Result<(), String>)
    ensures
        match self_order_refusal(table_no@, tables@, availability@) {
            Some(m) => res is Err && res->Err_0@ == m,
            None => res is Ok,
        },
{
    if availability.len() == 0 {
        return Err(owned("订单不能为空"));
    }
    if tables.len() > 0 {
        let mut found = false;
        let mut i: usize = 0;
        while i < tables.len()
            invariant
                i <= tables.len(),
                found <==> exists|k: int| 0 <= k < i && #[trigger] tables@[k]@ == table_no@,
            decreases tables.len() - i,
        {
            if str_eq(tables[i].as_str(), table_no) {
                found = true;
            }
            i = i + 1;
        }
        if !found {
            return Err(owned("桌号无效，请扫描餐桌上的二维码"));
        }
        assert(known_table(tables@, table_no@));
    }
    let mut j: usize = 0;
    while j < availability.len()
        invariant
            j <= availability.len(),
            availability@.len() > 0,
            tables@.len() > 0 ==> known_table(tables@, table_no@),
            forall|k: int| 0 <= k < j ==> #[trigger] availability@[k] == Some(1i64),
        decreases availability.len() - j,
    {
        match availability[j] {
            Some(v) => {
                if v != 1 {
                    return Err(owned("部分商品已售罄或下架，请刷新菜单后重试"));
                }
            },
            None => {
                return Err(owned("部分商品已售罄或下架，请刷新菜单后重试"));
            },
        }
        j = j + 1;
    }
    Ok(())
}

/// A valid table code always decides the table, whatever number the client sent
/// and whether codes are required; when codes are required, an order without one
/// is refused.
pub proof fn law_table_code_wins(table_no: Seq<char>, code_table: String, require_token: bool)
    ensures
        self_order_table(table_no, Some(TokenCheck::Table(code_table)), require_token) == Ok::<Seq<char>, Seq<char>>(code_table@),
        self_order_table(table_no, None, true) is Err,
{
}

/// A shop that has set up no tables accepts any table number: an order with
/// items that are all offered is never refused.
pub proof fn law_no_tables_any_number(table_no: Seq<char>, availability: Seq<Option<i64>>)
    requires
        availability.len() > 0,
        all_available(availability),
    ensures
        self_order_refusal(table_no, Seq::empty(), availability) is None,
{
}

} // verus!
