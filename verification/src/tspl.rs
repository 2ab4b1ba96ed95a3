//! TSPL label-printer command scripts.

use vstd::prelude::*;
use crate::numtext::{dec_seq, digit_char, u64_text};
use crate::text::{chars_of, push_all, push_str_chars, string_of};

verus! {

/// Millimetres given in tenths, written with one decimal (`600` is `60.0`).
pub open spec fn tenths_text(t: nat) -> Seq<char> {
    dec_seq(t / 10) + seq!['.'] + seq![digit_char((t % 10) as int)]
}

/// `SIZE w mm, h mm` with line end.
pub open spec fn size_line(w: nat, h: nat) -> Seq<char> {
    "SIZE "@ + tenths_text(w) + " mm, "@ + tenths_text(h) + " mm\r\n"@
}

/// `GAP g mm, 0 mm` with line end.
pub open spec fn gap_line(g: nat) -> Seq<char> {
    "GAP "@ + tenths_text(g) + " mm, 0 mm\r\n"@
}

/// The script header for a label of the given size and gap (tenths of mm).
pub open spec fn header_text(w: nat, h: nat, g: nat) -> Seq<char> {
    size_line(w, h) + gap_line(g) + "DIRECTION 1\r\n"@ + "CLS\r\n"@
}

/// `TEXT x,y,"font",rotation,xm,ym,"content"` with line end.
pub open spec fn text_line(x: nat, y: nat, font: Seq<char>, rot: nat, xm: nat, ym: nat, content: Seq<char>) -> Seq<char> {
    "TEXT "@ + dec_seq(x) + ","@ + dec_seq(y) + ",\""@ + font + "\","@ + dec_seq(rot) + ","@
        + dec_seq(xm) + ","@ + dec_seq(ym) + ",\""@ + content + "\"\r\n"@
}

/// `QRCODE x,y,ecc,cell,A,0,"data"` with line end.
pub open spec fn qr_line(x: nat, y: nat, ecc: Seq<char>, cell: nat, data: Seq<char>) -> Seq<char> {
    "QRCODE "@ + dec_seq(x) + ","@ + dec_seq(y) + ","@ + ecc + ","@ + dec_seq(cell) + ",A,0,\""@
        + data + "\"\r\n"@
}

/// `BOX x,y,x2,y2,thickness` with line end.
pub open spec fn box_line(x: nat, y: nat, x2: nat, y2: nat, t: nat) -> Seq<char> {
    "BOX "@ + dec_seq(x) + ","@ + dec_seq(y) + ","@ + dec_seq(x2) + ","@ + dec_seq(y2) + ","@
        + dec_seq(t) + "\r\n"@
}

/// `PRINT copies,1` with line end.
pub open spec fn print_line(copies: nat) -> Seq<char> {
    "PRINT "@ + dec_seq(copies) + ",1\r\n"@
}

/// A TSPL script under construction.
pub struct TsplBuilder {
    pub script: Vec<char>,
}

fn push_num(v: &mut Vec<char>, n: u32)
    ensures
        final(v)@ == old(v)@ + dec_seq(n as nat),
{
    let d = u64_text(n as u64);
    push_all(v, &d);
}

fn push_tenths(v: &mut Vec<char>, t: u32)
    ensures
        final(v)@ == old(v)@ + tenths_text(t as nat),
{
    push_num(v, t / 10);
    v.push('.');
    v.push(((t % 10) as u8 + 48u8) as char);
    assert(final(v)@ =~= old(v)@ + tenths_text(t as nat));
}

impl TsplBuilder {
    /// A label of `width` by `height` tenths of a millimetre with a 2 mm gap.
    pub fn new(width: u32, height: u32) -> (res: Self)
        ensures
            res.script@ == header_text(width as nat, height as nat, 20),
    {
        Self::with_gap(width, height, 20)
    }

    /// A label of `width` by `height` with a `gap` between labels, all in tenths
    /// of a millimetre.
    pub fn with_gap(width: u32, height: u32, gap: u32) -> (res: Self)
        ensures
            res.script@ == header_text(width as nat, height as nat, gap as nat),
    {
        let mut v = chars_of("SIZE ");
        push_tenths(&mut v, width);
        push_str_chars(&mut v, " mm, ");
        push_tenths(&mut v, height);
        push_str_chars(&mut v, " mm\r\n");
        push_str_chars(&mut v, "GAP ");
        push_tenths(&mut v, gap);
        push_str_chars(&mut v, " mm, 0 mm\r\n");
        push_str_chars(&mut v, "DIRECTION 1\r\n");
        push_str_chars(&mut v, "CLS\r\n");
        assert(v@ =~= header_text(width as nat, height as nat, gap as nat));
        TsplBuilder { script: v }
    }

    /// A line of text at `(x, y)` in `font`, scaled by `scale`, rotated by `rotation` degrees.
    pub fn text_with_rotation(self, x: u32, y: u32, font: &str, scale: (u32, u32), rotation: u32, content: &str) -> (res: Self)
        ensures
            res.script@ == self.script@ + text_line(x as nat, y as nat, font@, rotation as nat, scale.0 as nat, scale.1 as nat, content@),
    {
        let mut v = self.script;
        let ghost v0 = v@;
        push_str_chars(&mut v, "TEXT ");
        push_num(&mut v, x);
        push_str_chars(&mut v, ",");
        push_num(&mut v, y);
        push_str_chars(&mut v, ",\"");
        push_str_chars(&mut v, font);
        push_str_chars(&mut v, "\",");
        push_num(&mut v, rotation);
        push_str_chars(&mut v, ",");
        push_num(&mut v, scale.0);
        push_str_chars(&mut v, ",");
        push_num(&mut v, scale.1);
        push_str_chars(&mut v, ",\"");
        push_str_chars(&mut v, content);
        push_str_chars(&mut v, "\"\r\n");
        assert(v@ =~= v0 + text_line(x as nat, y as nat, font@, rotation as nat, scale.0 as nat, scale.1 as nat, content@));
        TsplBuilder { script: v }
    }

    /// A line of unrotated text at `(x, y)` in `font`, scaled by `scale`.
    pub fn text(self, x: u32, y: u32, font: &str, scale: (u32, u32), content: &str) -> (res: Self)
        ensures
            res.script@ == self.script@ + text_line(x as nat, y as nat, font@, 0, scale.0 as nat, scale.1 as nat, content@),
    {
        self.text_with_rotation(x, y, font, scale, 0, content)
    }

    /// A QR code at `(x, y)` with error level `ecc` and cell width `cell`.
    pub fn qr_code(self, x: u32, y: u32, ecc: &str, cell: u32, data: &str) -> (res: Self)
        ensures
            res.script@ == self.script@ + qr_line(x as nat, y as nat, ecc@, cell as nat, data@),
    {
        let mut v = self.script;
        let ghost v0 = v@;
        push_str_chars(&mut v, "QRCODE ");
        push_num(&mut v, x);
        push_str_chars(&mut v, ",");
        push_num(&mut v, y);
        push_str_chars(&mut v, ",");
        push_str_chars(&mut v, ecc);
        push_str_chars(&mut v, ",");
        push_num(&mut v, cell);
        push_str_chars(&mut v, ",A,0,\"");
        push_str_chars(&mut v, data);
        push_str_chars(&mut v, "\"\r\n");
        assert(v@ =~= v0 + qr_line(x as nat, y as nat, ecc@, cell as nat, data@));
        TsplBuilder { script: v }
    }

    /// A rectangle from `(x, y)` to `(x2, y2)` with line `thickness`.
    pub fn box_draw(self, x: u32, y: u32, x2: u32, y2: u32, thickness: u32) -> (res: Self)
        ensures
            res.script@ == self.script@ + box_line(x as nat, y as nat, x2 as nat, y2 as nat, thickness as nat),
    {
        let mut v = self.script;
        let ghost v0 = v@;
        push_str_chars(&mut v, "BOX ");
        push_num(&mut v, x);
        push_str_chars(&mut v, ",");
        push_num(&mut v, y);
        push_str_chars(&mut v, ",");
        push_num(&mut v, x2);
        push_str_chars(&mut v, ",");
        push_num(&mut v, y2);
        push_str_chars(&mut v, ",");
        push_num(&mut v, thickness);
        push_str_chars(&mut v, "\r\n");
        assert(v@ =~= v0 + box_line(x as nat, y as nat, x2 as nat, y2 as nat, thickness as nat));
        TsplBuilder { script: v }
    }

    /// Prints `copies` copies of the label.
    pub fn print_label(self, copies: u32) -> (res: Self)
        ensures
            res.script@ == self.script@ + print_line(copies as nat),
    {
        let mut v = self.script;
        let ghost v0 = v@;
        push_str_chars(&mut v, "PRINT ");
        push_num(&mut v, copies);
        push_str_chars(&mut v, ",1\r\n");
        assert(v@ =~= v0 + print_line(copies as nat));
        TsplBuilder { script: v }
    }

    /// The script built so far.
    pub fn build(&self) -> (res: String)
        ensures
            res@ == self.script@,
    {
        string_of(&self.script)
    }
}

} // verus!
