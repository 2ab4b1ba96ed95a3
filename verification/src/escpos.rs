//! ESC/POS receipt-printer command streams.

use vstd::prelude::*;
use vstd::utf8::encode_utf8;

verus! {

/// An ESC/POS command stream under construction.
pub struct EscPosBuilder {
    pub buffer: Vec<u8>,
}

/// `count` copies of the byte `b`.
pub open spec fn repeat_byte(b: u8, count: nat) -> Seq<u8> {
    Seq::new(count, |i: int| b)
}

/// The QR-code command sequence (model 2, module size `size`, error level M)
/// that stores and prints `data`.
pub open spec fn qr_bytes(data: Seq<u8>, size: u8) -> Seq<u8> {
    let n = data.len() + 3;
    seq![0x1Du8, 0x28, 0x6B, 0x04, 0x00, 0x31, 0x41, 0x32, 0x00]
        + seq![0x1Du8, 0x28, 0x6B, 0x03, 0x00, 0x31, 0x43, size]
        + seq![0x1Du8, 0x28, 0x6B, 0x03, 0x00, 0x31, 0x45, 0x31]
        + seq![0x1Du8, 0x28, 0x6B, (n % 256) as u8, (n / 256) as u8, 0x31, 0x50, 0x30] + data
        + seq![0x1Du8, 0x28, 0x6B, 0x03, 0x00, 0x31, 0x51, 0x30]
}

/// The UTF-8 bytes of joined text are the bytes of its parts, joined.
pub proof fn lemma_encode_utf8_concat(a: Seq<char>, b: Seq<char>)
    ensures
        encode_utf8(a + b) == encode_utf8(a) + encode_utf8(b),
    decreases a.len(),
{
    if a.len() == 0 {
        assert(a + b =~= b);
    } else {
        lemma_encode_utf8_concat(a.drop_first(), b);
        assert((a + b).drop_first() =~= a.drop_first() + b);
        assert((a + b)[0] == a[0]);
    }
}

impl EscPosBuilder {
    /// A stream that starts by initialising the printer (`ESC @`).
    pub fn new() -> (res: Self)
        ensures
            res.buffer@ == seq![0x1Bu8, 0x40],
    {
        let mut buffer: Vec<u8> = Vec::new();
        buffer.push(0x1B);
        buffer.push(0x40);
        EscPosBuilder { buffer }
    }

    /// Appends raw bytes.
    pub fn raw(&mut self, bytes: &[u8]) -> (res: &mut Self)
        ensures
            res.buffer@ == old(self).buffer@ + bytes@,
            *final(self) == *final(res),
    {
        let mut k: usize = 0;
        while k < bytes.len()
            invariant
                k <= bytes.len(),
                self.buffer@ == old(self).buffer@ + bytes@.subrange(0, k as int),
            decreases bytes.len() - k,
        {
            self.buffer.push(bytes[k]);
            k = k + 1;
            assert(self.buffer@ =~= old(self).buffer@ + bytes@.subrange(0, k as int));
        }
        assert(bytes@.subrange(0, bytes@.len() as int) =~= bytes@);
        self
    }

    fn cmd3(&mut self, a: u8, b: u8, c: u8) -> (res: &mut Self)
        ensures
            res.buffer@ == old(self).buffer@ + seq![a, b, c],
            *final(self) == *final(res),
    {
        self.buffer.push(a);
        self.buffer.push(b);
        self.buffer.push(c);
        assert(self.buffer@ =~= old(self).buffer@ + seq![a, b, c]);
        self
    }

    /// Left alignment (`ESC a 0`).
    pub fn align_left(&mut self) -> (res: &mut Self)
        ensures
            res.buffer@ == old(self).buffer@ + seq![0x1Bu8, 0x61, 0],
            *final(self) == *final(res),
    {
        self.cmd3(0x1B, 0x61, 0)
    }

    /// Centred text (`ESC a 1`).
    pub fn align_center(&mut self) -> (res: &mut Self)
        ensures
            res.buffer@ == old(self).buffer@ + seq![0x1Bu8, 0x61, 1],
            *final(self) == *final(res),
    {
        self.cmd3(0x1B, 0x61, 1)
    }

    /// Right alignment (`ESC a 2`).
    pub fn align_right(&mut self) -> (res: &mut Self)
        ensures
            res.buffer@ == old(self).buffer@ + seq![0x1Bu8, 0x61, 2],
            *final(self) == *final(res),
    {
        self.cmd3(0x1B, 0x61, 2)
    }

    /// Emphasis on (`ESC E 1`).
    pub fn bold_on(&mut self) -> (res: &mut Self)
        ensures
            res.buffer@ == old(self).buffer@ + seq![0x1Bu8, 0x45, 1],
            *final(self) == *final(res),
    {
        self.cmd3(0x1B, 0x45, 1)
    }

    /// Emphasis off (`ESC E 0`).
    pub fn bold_off(&mut self) -> (res: &mut Self)
        ensures
            res.buffer@ == old(self).buffer@ + seq![0x1Bu8, 0x45, 0],
            *final(self) == *final(res),
    {
        self.cmd3(0x1B, 0x45, 0)
    }

    /// Underline on (`ESC - 1`).
    pub fn underline_on(&mut self) -> (res: &mut Self)
        ensures
            res.buffer@ == old(self).buffer@ + seq![0x1Bu8, 0x2D, 1],
            *final(self) == *final(res),
    {
        self.cmd3(0x1B, 0x2D, 1)
    }

    /// Underline off (`ESC - 0`).
    pub fn underline_off(&mut self) -> (res: &mut Self)
        ensures
            res.buffer@ == old(self).buffer@ + seq![0x1Bu8, 0x2D, 0],
            *final(self) == *final(res),
    {
        self.cmd3(0x1B, 0x2D, 0)
    }

    /// White-on-black printing on (`GS B 1`).
    pub fn inverse_on(&mut self) -> (res: &mut Self)
        ensures
            res.buffer@ == old(self).buffer@ + seq![0x1Du8, 0x42, 1],
            *final(self) == *final(res),
    {
        self.cmd3(0x1D, 0x42, 1)
    }

    /// White-on-black printing off (`GS B 0`).
    pub fn inverse_off(&mut self) -> (res: &mut Self)
        ensures
            res.buffer@ == old(self).buffer@ + seq![0x1Du8, 0x42, 0],
            *final(self) == *final(res),
    {
        self.cmd3(0x1D, 0x42, 0)
    }

    /// Font A (`ESC M 0`).
    pub fn font_a(&mut self) -> (res: &mut Self)
        ensures
            res.buffer@ == old(self).buffer@ + seq![0x1Bu8, 0x4D, 0],
            *final(self) == *final(res),
    {
        self.cmd3(0x1B, 0x4D, 0)
    }

    /// Font B (`ESC M 1`).
    pub fn font_b(&mut self) -> (res: &mut Self)
        ensures
            res.buffer@ == old(self).buffer@ + seq![0x1Bu8, 0x4D, 1],
            *final(self) == *final(res),
    {
        self.cmd3(0x1B, 0x4D, 1)
    }

    /// Normal character size (`GS ! 0x00`).
    pub fn normal_size(&mut self) -> (res: &mut Self)
        ensures
            res.buffer@ == old(self).buffer@ + seq![0x1Du8, 0x21, 0x00],
            *final(self) == *final(res),
    {
        self.cmd3(0x1D, 0x21, 0x00)
    }

    /// Double-height characters (`GS ! 0x01`).
    pub fn double_height(&mut self) -> (res: &mut Self)
        ensures
            res.buffer@ == old(self).buffer@ + seq![0x1Du8, 0x21, 0x01],
            *final(self) == *final(res),
    {
        self.cmd3(0x1D, 0x21, 0x01)
    }

    /// Double-width characters (`GS ! 0x10`).
    pub fn double_width(&mut self) -> (res: &mut Self)
        ensures
            res.buffer@ == old(self).buffer@ + seq![0x1Du8, 0x21, 0x10],
            *final(self) == *final(res),
    {
        self.cmd3(0x1D, 0x21, 0x10)
    }

    /// Double-height and double-width characters (`GS ! 0x11`).
    pub fn double_size(&mut self) -> (res: &mut Self)
        ensures
            res.buffer@ == old(self).buffer@ + seq![0x1Du8, 0x21, 0x11],
            *final(self) == *final(res),
    {
        self.cmd3(0x1D, 0x21, 0x11)
    }

    /// Feeds `n` lines (`ESC d n`).
    pub fn feed_lines(&mut self, n: u8) -> (res: &mut Self)
        ensures
            res.buffer@ == old(self).buffer@ + seq![0x1Bu8, 0x64, n],
            *final(self) == *final(res),
    {
        self.cmd3(0x1B, 0x64, n)
    }

    /// Full cut (`GS V 0`).
    pub fn cut_paper(&mut self) -> (res: &mut Self)
        ensures
            res.buffer@ == old(self).buffer@ + seq![0x1Du8, 0x56, 0],
            *final(self) == *final(res),
    {
        self.cmd3(0x1D, 0x56, 0)
    }

    /// Partial cut (`GS V 1`).
    pub fn partial_cut(&mut self) -> (res: &mut Self)
        ensures
            res.buffer@ == old(self).buffer@ + seq![0x1Du8, 0x56, 1],
            *final(self) == *final(res),
    {
        self.cmd3(0x1D, 0x56, 1)
    }

    /// The UTF-8 bytes of `s`.
    pub fn text(&mut self, s: &str) -> (res: &mut Self)
        ensures
            res.buffer@ == old(self).buffer@ + encode_utf8(s@),
            *final(self) == *final(res),
    {
        self.raw(s.as_bytes())
    }

    /// The UTF-8 bytes of `s` and a line feed.
    pub fn text_ln(&mut self, s: &str) -> (res: &mut Self)
        ensures
            res.buffer@ == old(self).buffer@ + encode_utf8(s@) + seq![0x0Au8],
            *final(self) == *final(res),
    {
        self.raw(s.as_bytes());
        self.buffer.push(0x0A);
        self
    }

    fn repeat_ln(&mut self, b: u8, width: usize) -> (res: &mut Self)
        ensures
            res.buffer@ == old(self).buffer@ + repeat_byte(b, width as nat) + seq![0x0Au8],
            *final(self) == *final(res),
    {
        let mut k: usize = 0;
        while k < width
            invariant
                k <= width,
                self.buffer@ == old(self).buffer@ + repeat_byte(b, k as nat),
            decreases width - k,
        {
            self.buffer.push(b);
            k = k + 1;
            assert(self.buffer@ =~= old(self).buffer@ + repeat_byte(b, k as nat));
        }
        self.buffer.push(0x0A);
        self
    }

    /// A line of `width` dashes.
    pub fn separator(&mut self, width: usize) -> (res: &mut Self)
        ensures
            res.buffer@ == old(self).buffer@ + repeat_byte(0x2D, width as nat) + seq![0x0Au8],
            *final(self) == *final(res),
    {
        self.repeat_ln(0x2D, width)
    }

    /// A line of `width` equals signs.
    pub fn double_separator(&mut self, width: usize) -> (res: &mut Self)
        ensures
            res.buffer@ == old(self).buffer@ + repeat_byte(0x3D, width as nat) + seq![0x0Au8],
            *final(self) == *final(res),
    {
        self.repeat_ln(0x3D, width)
    }

    /// A dashed line: `width` characters alternating dash and space.
    pub fn dashed_separator(&mut self, width: usize) -> (res: &mut Self)
        ensures
            res.buffer@ == old(self).buffer@ + Seq::new(width as nat, |i: int| if i % 2 == 0 { 0x2Du8 } else { 0x20u8 }) + seq![0x0Au8],
            *final(self) == *final(res),
    {
        let mut k: usize = 0;
        while k < width
            invariant
                k <= width,
                self.buffer@ == old(self).buffer@ + Seq::new(k as nat, |i: int| if i % 2 == 0 { 0x2Du8 } else { 0x20u8 }),
            decreases width - k,
        {
            self.buffer.push(if k % 2 == 0 { 0x2D } else { 0x20 });
            k = k + 1;
            assert(self.buffer@ =~= old(self).buffer@ + Seq::new(k as nat, |i: int| if i % 2 == 0 { 0x2Du8 } else { 0x20u8 }));
        }
        self.buffer.push(0x0A);
        self
    }

    /// A QR code holding the UTF-8 bytes of `data`, with module size `size`.
    pub fn qr_code(&mut self, data: &str, size: u8) -> (res: &mut Self)
        requires
            encode_utf8(data@).len() + 3 < 65536,
        ensures
            res.buffer@ == old(self).buffer@ + qr_bytes(encode_utf8(data@), size),
            *final(self) == *final(res),
    {
        let bytes = data.as_bytes();
        let n: usize = bytes.len() + 3;
        self.raw(&[0x1D, 0x28, 0x6B, 0x04, 0x00, 0x31, 0x41, 0x32, 0x00]);
        self.raw(&[0x1D, 0x28, 0x6B, 0x03, 0x00, 0x31, 0x43, size]);
        self.raw(&[0x1D, 0x28, 0x6B, 0x03, 0x00, 0x31, 0x45, 0x31]);
        self.raw(&[0x1D, 0x28, 0x6B, (n % 256) as u8, (n / 256) as u8, 0x31, 0x50, 0x30]);
        self.raw(bytes);
        self.raw(&[0x1D, 0x28, 0x6B, 0x03, 0x00, 0x31, 0x51, 0x30]);
        assert(self.buffer@ =~= old(self).buffer@ + qr_bytes(encode_utf8(data@), size));
        self
    }

    /// The command stream built so far.
    pub fn build(&self) -> (res: Vec<u8>)
        ensures
            res@ == self.buffer@,
    {
        let mut out: Vec<u8> = Vec::new();
        let mut k: usize = 0;
        while k < self.buffer.len()
            invariant
                k <= self.buffer.len(),
                out@ == self.buffer@.subrange(0, k as int),
            decreases self.buffer.len() - k,
        {
            out.push(self.buffer[k]);
            k = k + 1;
            assert(out@ =~= self.buffer@.subrange(0, k as int));
        }
        assert(self.buffer@.subrange(0, self.buffer@.len() as int) =~= self.buffer@);
        out
    }
}

} // verus!
