//! Kitchen tickets (ESC/POS) and batch labels (TSPL).

use vstd::prelude::*;
use vstd::utf8::encode_utf8;
use crate::escpos::{EscPosBuilder, repeat_byte};
use crate::tspl::{TsplBuilder, header_text, print_line, text_line};
use crate::numtext::{i64_text, int_text};
use crate::text::{chars_of, concat2, push_all, push_str_chars, string_of};

verus! {

/// One line of a kitchen ticket: dish name, quantity as printed, optional note.
pub struct KitchenTicketItem {
    pub name: String,
    pub qty: String,
    pub note: Option<String>,
}

/// Paper width of a kitchen ticket, in characters.
pub open spec fn ticket_width() -> nat {
    32
}

/// Bytes of the ticket heading: title, order number and dining type.
pub open spec fn ticket_header_bytes(order_no: Seq<char>, dine_type: Seq<char>) -> Seq<u8> {
    seq![0x1Bu8, 0x40] + seq![0x1Bu8, 0x61, 1] + seq![0x1Bu8, 0x45, 1] + seq![0x1Du8, 0x21, 0x01]
        + encode_utf8("廚房單"@) + seq![0x0Au8] + seq![0x1Du8, 0x21, 0x00] + seq![0x1Bu8, 0x45, 0]
        + repeat_byte(0x2D, 32) + seq![0x0Au8] + seq![0x1Bu8, 0x61, 0]
        + encode_utf8("單號: "@) + encode_utf8(order_no) + seq![0x0Au8]
        + encode_utf8("類型: "@) + encode_utf8(dine_type) + seq![0x0Au8]
        + repeat_byte(0x2D, 32) + seq![0x0Au8]
}

/// Bytes of one ticket line: the dish in double size, then its note, if any.
pub open spec fn ticket_item_bytes(item: KitchenTicketItem) -> Seq<u8> {
    seq![0x1Bu8, 0x45, 1] + seq![0x1Du8, 0x21, 0x11] + encode_utf8(item.name@)
        + encode_utf8(" x"@) + encode_utf8(item.qty@) + seq![0x0Au8] + seq![0x1Du8, 0x21, 0x00]
        + seq![0x1Bu8, 0x45, 0] + match item.note {
        Some(n) => encode_utf8("  備註: "@) + encode_utf8(n@) + seq![0x0Au8],
        None => Seq::empty(),
    }
}

/// Bytes of all ticket lines, in order.
pub open spec fn ticket_items_bytes(items: Seq<KitchenTicketItem>) -> Seq<u8>
    decreases items.len(),
{
    if items.len() == 0 {
        Seq::empty()
    } else {
        ticket_items_bytes(items.drop_last()) + ticket_item_bytes(items.last())
    }
}

/// Bytes of the ticket ending: separator, order note if any, feed and cut.
pub open spec fn ticket_footer_bytes(note: Option<Seq<char>>) -> Seq<u8> {
    repeat_byte(0x2D, 32) + seq![0x0Au8] + match note {
        Some(n) => seq![0x1Bu8, 0x45, 1] + encode_utf8("訂單備註: "@) + encode_utf8(n)
            + seq![0x0Au8] + seq![0x1Bu8, 0x45, 0],
        None => Seq::empty(),
    } + seq![0x1Bu8, 0x64, 3] + seq![0x1Du8, 0x56, 0]
}

/// The complete kitchen ticket.
pub open spec fn kitchen_ticket_bytes(order_no: Seq<char>, dine_type: Seq<char>, items: Seq<KitchenTicketItem>, note: Option<Seq<char>>) -> Seq<u8> {
    ticket_header_bytes(order_no, dine_type) + ticket_items_bytes(items) + ticket_footer_bytes(note)
}

/// The ESC/POS kitchen ticket for an order: heading, one line per dish with its
/// note, the order note, then feed and cut.
pub fn build_kitchen_ticket_content(order_no: &str, dine_type: &str, items: &[KitchenTicketItem], note: Option<&str>) -> (res: EscPosBuilder)
    ensures
        res.buffer@ == kitchen_ticket_bytes(order_no@, dine_type@, items@, match note { Some(n) => Some(n@), None => None }),
{
    let mut b = EscPosBuilder::new();
    b.align_center().bold_on().double_height().text_ln("廚房單").normal_size().bold_off();
    b.separator(32).align_left();
    b.text("單號: ").text_ln(order_no);
    b.text("類型: ").text_ln(dine_type);
    b.separator(32);
    assert(b.buffer@ =~= ticket_header_bytes(order_no@, dine_type@));
    let mut i: usize = 0;
    while i < items.len()
        invariant
            i <= items.len(),
            b.buffer@ == ticket_header_bytes(order_no@, dine_type@) + ticket_items_bytes(items@.subrange(0, i as int)),
        decreases items.len() - i,
    {
        let ghost before = b.buffer@;
        let item = &items[i];
        b.bold_on().double_size().text(item.name.as_str()).text(" x").text_ln(item.qty.as_str()).normal_size().bold_off();
        match &item.note {
            Some(n) => {
                b.text("  備註: ").text_ln(n.as_str());
            },
            None => {},
        }
        assert(items@.subrange(0, i + 1).drop_last() =~= items@.subrange(0, i as int));
        assert(b.buffer@ =~= before + ticket_item_bytes(items@[i as int]));
        i = i + 1;
    }
    assert(items@.subrange(0, items@.len() as int) =~= items@);
    let ghost mid = b.buffer@;
    b.separator(32);
    match note {
        Some(n) => {
            b.bold_on().text("訂單備註: ").text_ln(n).bold_off();
        },
        None => {},
    }
    b.feed_lines(3).cut_paper();
    assert(b.buffer@ =~= mid + ticket_footer_bytes(match note { Some(n) => Some(n@), None => None }));
    b
}

/// The TSPL script of a 40 x 30 mm batch label: lot number, material, quantity
/// with unit, and, when known, expiry date and supplier; one copy.
pub open spec fn batch_label_text(lot_no: Seq<char>, material_name: Seq<char>, quantity: Seq<char>, unit: Seq<char>, expiry: Option<Seq<char>>, supplier: Option<Seq<char>>) -> Seq<char> {
    header_text(400, 300, 20) + text_line(10, 10, "TSS24.BF2"@, 0, 1, 1, "批號: "@ + lot_no)
        + text_line(10, 60, "TSS24.BF2"@, 0, 1, 1, "品名: "@ + material_name)
        + text_line(10, 110, "TSS24.BF2"@, 0, 1, 1, "數量: "@ + quantity + " "@ + unit)
        + match expiry {
        Some(e) => text_line(10, 160, "TSS24.BF2"@, 0, 1, 1, "效期: "@ + e),
        None => Seq::empty(),
    } + match supplier {
        Some(s) => text_line(10, 210, "TSS24.BF2"@, 0, 1, 1, "供應商: "@ + s),
        None => Seq::empty(),
    } + print_line(1)
}

/// The TSPL batch label for a received lot; `quantity` is the amount as printed.
pub fn build_batch_label_content(lot_no: &str, material_name: &str, quantity: &str, unit: &str, expiry_date: Option<&str>, supplier_name: Option<&str>) -> (res: TsplBuilder)
    ensures
        res.script@ == batch_label_text(lot_no@, material_name@, quantity@, unit@,
            match expiry_date { Some(e) => Some(e@), None => None },
            match supplier_name { Some(s) => Some(s@), None => None }),
{
    let font = "TSS24.BF2";
    let mut qty_line = chars_of("數量: ");
    push_str_chars(&mut qty_line, quantity);
    push_str_chars(&mut qty_line, " ");
    push_str_chars(&mut qty_line, unit);
    let qty_text = string_of(&qty_line);
    let mut b = TsplBuilder::new(400, 300)
        .text(10, 10, font, (1, 1), concat2("批號: ", lot_no).as_str())
        .text(10, 60, font, (1, 1), concat2("品名: ", material_name).as_str())
        .text(10, 110, font, (1, 1), qty_text.as_str());
    let ghost base = b.script@;
    match expiry_date {
        Some(e) => {
            b = b.text(10, 160, font, (1, 1), concat2("效期: ", e).as_str());
        },
        None => {},
    }
    let ghost after_expiry = b.script@;
    match supplier_name {
        Some(s) => {
            b = b.text(10, 210, font, (1, 1), concat2("供應商: ", s).as_str());
        },
        None => {},
    }
    let b = b.print_label(1);
    proof {
        assert("數量: "@ + quantity@ + " "@ + unit@ =~= qty_text@);
        assert(b.script@ =~= batch_label_text(lot_no@, material_name@, quantity@, unit@,
            match expiry_date { Some(e) => Some(e@), None => None },
            match supplier_name { Some(s) => Some(s@), None => None }));
    }
    b
}

/// The test page sent to a LAN printer at `ip:port` at time `now`: a bold
/// title, the printer's address and the time, then feed and cut.
pub open spec fn lan_test_page_bytes(ip: Seq<char>, port: int, now: Seq<char>) -> Seq<u8> {
    seq![0x1Bu8, 0x40] + seq![0x1Bu8, 0x61, 1] + seq![0x1Bu8, 0x45, 1] + seq![0x1Du8, 0x21, 0x01]
        + encode_utf8("Cuckoo 打印測試"@) + seq![0x0Au8] + seq![0x1Du8, 0x21, 0x00] + seq![0x1Bu8, 0x45, 0]
        + encode_utf8("打印機: "@ + ip + ":"@ + int_text(port)) + seq![0x0Au8]
        + encode_utf8("時間: "@ + now) + seq![0x0Au8] + seq![0x1Bu8, 0x64, 3] + seq![0x1Du8, 0x56, 0]
}

/// The ESC/POS test page for a LAN printer.
pub fn lan_test_page(ip: &str, port: i32, now: &str) -> (res: EscPosBuilder)
    ensures
        res.buffer@ == lan_test_page_bytes(ip@, port as int, now@),
{
    let mut addr = chars_of("打印機: ");
    push_str_chars(&mut addr, ip);
    push_str_chars(&mut addr, ":");
    let d = i64_text(port as i64);
    push_all(&mut addr, &d);
    let addr_text = string_of(&addr);
    let time_text = concat2("時間: ", now);
    let mut b = EscPosBuilder::new();
    b.align_center().bold_on().double_height().text_ln("Cuckoo 打印測試").normal_size().bold_off();
    b.text_ln(addr_text.as_str()).text_ln(time_text.as_str()).feed_lines(3).cut_paper();
    assert(b.buffer@ =~= lan_test_page_bytes(ip@, port as int, now@));
    b
}

/// The text of the test page sent through the Feie service to printer `sn`.
pub fn feie_test_content(sn: &str, now: &str) -> (res: String)
    ensures
        res@ == "=== Cuckoo 打印測試 ===\n打印機: "@ + sn@ + "\n時間: "@ + now@ + "\n"@,
{
    let mut v = chars_of("=== Cuckoo 打印測試 ===\n打印機: ");
    push_str_chars(&mut v, sn);
    push_str_chars(&mut v, "\n時間: ");
    push_str_chars(&mut v, now);
    push_str_chars(&mut v, "\n");
    string_of(&v)
}

} // verus!
