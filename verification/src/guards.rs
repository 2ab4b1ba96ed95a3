//! Rules the stock and recipe records keep: what may be deleted or extended,
//! lot numbers, alert titles and the text of filtered queries.

use vstd::prelude::*;
use crate::numtext::{dec_seq, i64_text, i64_zero_padded, int_text, u64_text, zero_padded};
use crate::orders::join_seq;
use crate::text::{chars_of, push_all, push_str_chars, replace_all, replace_chars, str_eq, string_of};

verus! {

fn number_after(before: &str, n: i64) -> (res: String)
    ensures
        res@ == before@ + int_text(n as int),
{
    let mut v = chars_of(before);
    let d = i64_text(n);
    push_all(&mut v, &d);
    string_of(&v)
}

fn text_around(before: &str, n: i64, after: &str) -> (res: String)
    ensures
        res@ == before@ + int_text(n as int) + after@,
{
    let mut v = chars_of(before);
    let d = i64_text(n);
    push_all(&mut v, &d);
    push_str_chars(&mut v, after);
    string_of(&v)
}

/// A material category may be retired only when no active material is in it.
pub fn check_category_deletable(active_materials: i64) -> (res: Result<(), String>)
    ensures
        active_materials <= 0 ==> res is Ok,
        active_materials > 0 ==> res is Err && res->Err_0@ == "該分類下有 "@ + int_text(active_materials as int)
            + " 個活躍原料，刪除前請先更換分類"@,
{
    if active_materials > 0 {
        Err(text_around("該分類下有 ", active_materials, " 個活躍原料，刪除前請先更換分類"))
    } else {
        Ok(())
    }
}

/// A recipe type may be retired only when no active recipe has it.
pub fn check_recipe_type_deletable(usage: i64) -> (res: Result<(), String>)
    ensures
        usage <= 0 ==> res is Ok,
        usage > 0 ==> res is Err && res->Err_0@ == "該配方類型仍被 "@ + int_text(usage as int) + " 個配方使用中"@,
{
    if usage > 0 {
        Err(text_around("該配方類型仍被 ", usage, " 個配方使用中"))
    } else {
        Ok(())
    }
}

/// A recipe may be retired only when no menu item uses it and no other recipe
/// contains it; menu items are reported first.
pub fn check_recipe_deletable(menu_items: i64, parent_recipes: i64) -> (res: Result<(), String>)
    ensures
        menu_items > 0 ==> res is Err && res->Err_0@ == "此配方被 "@ + int_text(menu_items as int)
            + " 個菜品使用，請先解除菜品與配方的綁定"@,
        menu_items <= 0 && parent_recipes > 0 ==> res is Err && res->Err_0@ == "此配方被 "@ + int_text(
            parent_recipes as int,
        ) + " 個其他配方引用為子配方，請先移除引用"@,
        menu_items <= 0 && parent_recipes <= 0 ==> res is Ok,
{
    if menu_items > 0 {
        return Err(text_around("此配方被 ", menu_items, " 個菜品使用，請先解除菜品與配方的綁定"));
    }
    if parent_recipes > 0 {
        return Err(text_around("此配方被 ", parent_recipes, " 個其他配方引用為子配方，請先移除引用"));
    }
    Ok(())
}

/// Items may be added to a purchase order only while it is a draft.
pub fn check_po_accepts_items(status: &str) -> (res: Result<(), String>)
    ensures
        status@ == "draft"@ ==> res is Ok,
        status@ != "draft"@ ==> res is Err && res->Err_0@ == "只能為草稿狀態的採購單新增明細，當前狀態："@ + status@,
{
    if str_eq(status, "draft") {
        Ok(())
    } else {
        let mut v = chars_of("只能為草稿狀態的採購單新增明細，當前狀態：");
        push_str_chars(&mut v, status);
        Err(string_of(&v))
    }
}

/// A production order may be deleted only while it is a draft.
pub fn check_production_deletable(status: &str) -> (res: Result<(), String>)
    ensures
        status@ == "draft"@ ==> res is Ok,
        status@ != "draft"@ ==> res is Err && res->Err_0@ == "只能刪除草稿狀態的生産單，當前狀態："@ + status@,
{
    if str_eq(status, "draft") {
        Ok(())
    } else {
        let mut v = chars_of("只能刪除草稿狀態的生産單，當前狀態：");
        push_str_chars(&mut v, status);
        Err(string_of(&v))
    }
}

/// The lot number of the `index`-th line (from 0) received on a purchase order:
/// the order number, a dash and the line's position, two digits at least.
pub open spec fn receipt_lot_text(po_no: Seq<char>, index: int) -> Seq<char> {
    po_no + "-"@ + zero_padded(index + 1, 2)
}

/// The lot number of a received line: the one given by the user, else the
/// numbered default.
pub fn receipt_lot_no(custom: Option<String>, po_no: &str, index: u32) -> (res: String)
    ensures
        match custom {
            Some(c) => res == c,
            None => res@ == receipt_lot_text(po_no@, index as int),
        },
{
    match custom {
        Some(c) => c,
        None => {
            let mut v = chars_of(po_no);
            push_str_chars(&mut v, "-");
            let n: i64 = index as i64 + 1;
            let d = i64_zero_padded(n, 2);
            push_all(&mut v, &d);
            string_of(&v)
        },
    }
}

/// Default lot numbers of different lines of one purchase order differ.
pub proof fn law_receipt_lots_distinct(po_no: Seq<char>, i: int, j: int)
    requires
        0 <= i,
        0 <= j,
        i != j,
    ensures
        receipt_lot_text(po_no, i) != receipt_lot_text(po_no, j),
{
    crate::numtext::lemma_zero_padded_injective(i + 1, j + 1, 2);
    let a = receipt_lot_text(po_no, i);
    let b = receipt_lot_text(po_no, j);
    reveal_strlit("-");
    let k: int = po_no.len() as int + 1;
    if a == b {
        assert(a.skip(k) =~= zero_padded(i + 1, 2));
        assert(b.skip(k) =~= zero_padded(j + 1, 2));
    }
}

/// The status of a purchase order after a receipt: received when no line is
/// left open, else partly received.
pub fn po_status_after_receipt(open_lines: i64) -> (res: &'static str)
    ensures
        open_lines == 0 ==> res@ == "received"@,
        open_lines != 0 ==> res@ == "partial"@,
{
    if open_lines == 0 { "received" } else { "partial" }
}

/// The lot number of what a production order makes.
pub fn production_output_lot(production_no: &str) -> (res: String)
    ensures
        res@ == production_no@ + "-OUT"@,
{
    let mut v = chars_of(production_no);
    push_str_chars(&mut v, "-OUT");
    string_of(&v)
}

/// The summary line of a received lot: material name and lot number.
pub fn received_lot_line(material_name: &str, lot_no: &str) -> (res: String)
    ensures
        res@ == material_name@ + ": "@ + lot_no@,
{
    let mut v = chars_of(material_name);
    push_str_chars(&mut v, ": ");
    push_str_chars(&mut v, lot_no);
    string_of(&v)
}

/// The severity and title of an expiry alert for a batch of `name` with
/// `days_left` days to go: expired from day 0 on, else expiring soon.
pub fn expiry_alert(name: &str, days_left: i64) -> (res: (&'static str, String))
    ensures
        days_left <= 0 ==> res.0@ == "error"@ && res.1@ == "【已过期】"@ + name@,
        days_left > 0 ==> res.0@ == "warning"@ && res.1@ == "【即将过期 "@ + int_text(days_left as int) + "天】"@ + name@,
{
    if days_left <= 0 {
        let mut v = chars_of("【已过期】");
        push_str_chars(&mut v, name);
        ("error", string_of(&v))
    } else {
        let mut v = chars_of("【即将过期 ");
        let d = i64_text(days_left);
        push_all(&mut v, &d);
        push_str_chars(&mut v, "天】");
        push_str_chars(&mut v, name);
        ("warning", string_of(&v))
    }
}

/// How a material is named when its record cannot be read: `材料#` and its id.
pub fn material_label(name: Option<String>, material_id: i64) -> (res: String)
    ensures
        match name {
            Some(n) => res == n,
            None => res@ == "材料#"@ + int_text(material_id as int),
        },
{
    match name {
        Some(n) => n,
        None => number_after("材料#", material_id),
    }
}

/// How a sold item is named on a receipt: the menu item's name when it is
/// known, else `商品#` and its id.
pub fn receipt_item_name(names: &[(i64, String)], menu_item_id: i64) -> (res: String)
    ensures
        (exists|k: int| 0 <= k < names@.len() && names@[k].0 == menu_item_id) ==> exists|k: int|
            0 <= k < names@.len() && names@[k].0 == menu_item_id && res@ == names@[k].1@,
        (forall|k: int| 0 <= k < names@.len() ==> names@[k].0 != menu_item_id) ==> res@ == "商品#"@
            + int_text(menu_item_id as int),
{
    let mut i: usize = 0;
    while i < names.len()
        invariant
            i <= names.len(),
            forall|k: int| 0 <= k < i ==> names@[k].0 != menu_item_id,
        decreases names.len() - i,
    {
        if names[i].0 == menu_item_id {
            return names[i].1.clone();
        }
        i = i + 1;
    }
    number_after("商品#", menu_item_id)
}

/// A shortage refusal: `prefix` followed by the shortage lines joined with `；`.
pub fn shortage_message(prefix: &str, lines: &[String]) -> (res: String)
    ensures
        res@ == prefix@ + join_seq(Seq::new(lines@.len(), |k: int| lines@[k]@), "；"@),
{
    let mut v = chars_of(prefix);
    let ghost start = v@;
    let mut i: usize = 0;
    while i < lines.len()
        invariant
            i <= lines.len(),
            v@ == start + join_seq(Seq::new(i as nat, |k: int| lines@[k]@), "；"@),
        decreases lines.len() - i,
    {
        let ghost before = Seq::new(i as nat, |k: int| lines@[k]@);
        let ghost after = Seq::new((i + 1) as nat, |k: int| lines@[k]@);
        assert(after.drop_last() =~= before);
        if i > 0 {
            push_str_chars(&mut v, "；");
        }
        push_str_chars(&mut v, lines[i].as_str());
        proof {
            if i == 0 {
                assert(join_seq(after, "；"@) == after[0]);
            }
            assert(v@ =~= start + join_seq(after, "；"@));
        }
        i = i + 1;
    }
    string_of(&v)
}

/// The filter clause for one store, or nothing for all stores.
pub fn store_filter(store_id: Option<i64>) -> (res: String)
    ensures
        match store_id {
            Some(id) => res@ == " AND store_id = "@ + int_text(id as int),
            None => res@ == Seq::<char>::empty(),
        },
{
    match store_id {
        Some(id) => number_after(" AND store_id = ", id),
        None => String::new(),
    }
}

/// The query listing active expenses, newest first, with a numbered parameter
/// for each filter given: type, then start date, then end date.
pub open spec fn expenses_query_text(by_type: bool, from: bool, to: bool) -> Seq<char> {
    let base = "SELECT id, expense_type, amount, expense_date, note, operator, is_active, created_at FROM expenses WHERE is_active = 1"@;
    let t: Seq<char> = if by_type { " AND expense_type = ?1"@ } else { Seq::empty() };
    let n_from = (if by_type { 1nat } else { 0nat }) + 1;
    let f: Seq<char> = if from { " AND expense_date >= ?"@ + dec_seq(n_from) } else { Seq::empty() };
    let n_to = (if by_type { 1nat } else { 0nat }) + (if from { 1nat } else { 0nat }) + 1;
    let e: Seq<char> = if to { " AND expense_date <= ?"@ + dec_seq(n_to) } else { Seq::empty() };
    base + t + f + e + " ORDER BY expense_date DESC, id DESC"@
}

/// The query text for listing expenses with the given filters.
pub fn expenses_query(by_type: bool, from: bool, to: bool) -> (res: String)
    ensures
        res@ == expenses_query_text(by_type, from, to),
{
    let mut v = chars_of("SELECT id, expense_type, amount, expense_date, note, operator, is_active, created_at FROM expenses WHERE is_active = 1");
    let mut args: u64 = 0;
    if by_type {
        push_str_chars(&mut v, " AND expense_type = ?1");
        args = args + 1;
    }
    if from {
        push_str_chars(&mut v, " AND expense_date >= ?");
        let d = u64_text(args + 1);
        push_all(&mut v, &d);
        args = args + 1;
    }
    if to {
        push_str_chars(&mut v, " AND expense_date <= ?");
        let d = u64_text(args + 1);
        push_all(&mut v, &d);
    }
    push_str_chars(&mut v, " ORDER BY expense_date DESC, id DESC");
    string_of(&v)
}

/// The statement that writes a consistent copy of the database to `dest_path`,
/// with quotes in the path doubled.
pub fn vacuum_into_sql(dest_path: &str) -> (res: String)
    ensures
        res@ == "VACUUM INTO '"@ + replace_all(dest_path@, "'"@, "''"@) + "'"@,
{
    proof {
        reveal_strlit("'");
    }
    let mut v = chars_of("VACUUM INTO '");
    let escaped = replace_chars(&chars_of(dest_path), &chars_of("'"), &chars_of("''"));
    push_all(&mut v, &escaped);
    push_str_chars(&mut v, "'");
    string_of(&v)
}

} // verus!
