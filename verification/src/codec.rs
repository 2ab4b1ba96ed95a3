//! Byte and text encoders: Base64, CSV fields, image MIME types and the SQLite
//! file header.

use vstd::prelude::*;
use crate::text::{
    chars_of, replace_all, seq_ends_with, str_ends_with, str_replace, string_of,
    to_lowercase, lowercase_text, push_str_chars,
};

verus! {

/// The Base64 alphabet character for a 6-bit value.
pub open spec fn b64_char(i: int) -> char {
    if i < 26 {
        (65 + i) as char
    } else if i < 52 {
        (71 + i) as char
    } else if i < 62 {
        (i - 4) as char
    } else if i == 62 {
        '+'
    } else {
        '/'
    }
}

/// Four Base64 characters for a group of `n` (1..=3) bytes, padded with `=`.
pub open spec fn b64_group(b0: int, b1: int, b2: int, n: int) -> Seq<char> {
    seq![
        b64_char(b0 / 4),
        b64_char((b0 % 4) * 16 + b1 / 16),
        if n > 1 { b64_char((b1 % 16) * 4 + b2 / 64) } else { '=' },
        if n > 2 { b64_char(b2 % 64) } else { '=' },
    ]
}

/// Standard padded Base64 of `data`.
pub open spec fn base64_seq(data: Seq<u8>) -> Seq<char>
    decreases data.len(),
{
    if data.len() == 0 {
        Seq::empty()
    } else if data.len() <= 3 {
        b64_group(
            data[0] as int,
            if data.len() > 1 { data[1] as int } else { 0 },
            if data.len() > 2 { data[2] as int } else { 0 },
            data.len() as int,
        )
    } else {
        b64_group(data[0] as int, data[1] as int, data[2] as int, 3) + base64_seq(data.skip(3))
    }
}

/// Whether `c` is one of the 64 characters of the standard Base64 alphabet
/// (`A`-`Z`, `a`-`z`, `0`-`9`, `+`, `/`).
pub open spec fn is_b64_alphabet(c: char) -> bool {
    let u = c as u32;
    ||| 65 <= u <= 90
    ||| 97 <= u <= 122
    ||| 48 <= u <= 57
    ||| u == 43
    ||| u == 47
}

/// The 6-bit value that an alphabet character stands for.
pub open spec fn b64_value(c: char) -> int {
    let u = c as u32;
    if 65 <= u <= 90 {
        u - 65
    } else if 97 <= u <= 122 {
        u - 71
    } else if 48 <= u <= 57 {
        u + 4
    } else if u == 43 {
        62
    } else {
        63
    }
}

/// The bytes that one group of four Base64 characters decodes to: one byte when
/// the group ends in `==`, two when it ends in one `=`, three otherwise.
pub open spec fn b64_decode_group(g: Seq<char>) -> Seq<u8> {
    let v0 = b64_value(g[0]);
    let v1 = b64_value(g[1]);
    let v2 = b64_value(g[2]);
    let v3 = b64_value(g[3]);
    let x0 = (v0 * 4 + v1 / 16) as u8;
    let x1 = ((v1 % 16) * 16 + v2 / 4) as u8;
    let x2 = ((v2 % 4) * 64 + v3) as u8;
    if g[2] == '=' {
        seq![x0]
    } else if g[3] == '=' {
        seq![x0, x1]
    } else {
        seq![x0, x1, x2]
    }
}

/// Standard (RFC 4648) decoding of padded Base64 text, group by group.
pub open spec fn base64_decode(s: Seq<char>) -> Seq<u8>
    decreases s.len(),
{
    if s.len() < 4 {
        Seq::empty()
    } else {
        b64_decode_group(s.take(4)) + base64_decode(s.skip(4))
    }
}

proof fn lemma_b64_char(i: int)
    requires
        0 <= i < 64,
    ensures
        is_b64_alphabet(b64_char(i)),
        b64_value(b64_char(i)) == i,
        b64_char(i) != '=',
{
}

proof fn lemma_b64_group(b0: int, b1: int, b2: int, n: int)
    requires
        0 <= b0 < 256,
        0 <= b1 < 256,
        0 <= b2 < 256,
        1 <= n <= 3,
    ensures
        b64_group(b0, b1, b2, n).len() == 4,
        forall|k: int| 0 <= k < n + 1 ==> is_b64_alphabet(#[trigger] b64_group(b0, b1, b2, n)[k]),
        forall|k: int| n + 1 <= k < 4 ==> #[trigger] b64_group(b0, b1, b2, n)[k] == '=',
        b64_decode_group(b64_group(b0, b1, b2, n)) == (if n == 1 {
            seq![b0 as u8]
        } else if n == 2 {
            seq![b0 as u8, b1 as u8]
        } else {
            seq![b0 as u8, b1 as u8, b2 as u8]
        }),
{
    let v0 = b0 / 4;
    let v1 = (b0 % 4) * 16 + b1 / 16;
    let v2 = (b1 % 16) * 4 + b2 / 64;
    let v3 = b2 % 64;
    lemma_b64_char(v0);
    lemma_b64_char(v1);
    lemma_b64_char(v2);
    lemma_b64_char(v3);
    assert(v0 * 4 + v1 / 16 == b0);
    assert((v1 % 16) * 16 + v2 / 4 == b1);
    assert((v2 % 4) * 64 + v3 == b2);
    let g = b64_group(b0, b1, b2, n);
    if n == 1 {
        assert(b64_decode_group(g) =~= seq![b0 as u8]);
    } else if n == 2 {
        assert(b64_decode_group(g) =~= seq![b0 as u8, b1 as u8]);
    } else {
        assert(b64_decode_group(g) =~= seq![b0 as u8, b1 as u8, b2 as u8]);
    }
}

proof fn lemma_base64_short(data: Seq<u8>)
    requires
        1 <= data.len() <= 3,
    ensures
        base64_seq(data).len() == 4,
        forall|k: int| 0 <= k < data.len() + 1 ==> is_b64_alphabet(#[trigger] base64_seq(data)[k]),
        forall|k: int| data.len() + 1 <= k < 4 ==> #[trigger] base64_seq(data)[k] == '=',
        base64_decode(base64_seq(data)) == data,
{
    let r = base64_seq(data);
    let n = data.len() as int;
    let b1 = if n > 1 { data[1] as int } else { 0 };
    let b2 = if n > 2 { data[2] as int } else { 0 };
    lemma_b64_group(data[0] as int, b1, b2, n);
    assert(r == b64_group(data[0] as int, b1, b2, n));
    assert(r.skip(4) =~= Seq::<char>::empty());
    assert(r.take(4) =~= r);
    assert(base64_decode(Seq::<char>::empty()) =~= Seq::<u8>::empty());
    assert(base64_decode(r) == b64_decode_group(r) + Seq::<u8>::empty());
    assert(base64_decode(r) =~= data);
}

proof fn lemma_base64_step(data: Seq<u8>)
    requires
        data.len() > 3,
        base64_seq(data.skip(3)).len() == 4 * ((data.len() - 3 + 2) / 3),
        forall|k: int| 0 <= k < base64_seq(data.skip(3)).len() - (3 - (data.len() - 3) % 3) % 3
            ==> is_b64_alphabet(#[trigger] base64_seq(data.skip(3))[k]),
        forall|k: int| base64_seq(data.skip(3)).len() - (3 - (data.len() - 3) % 3) % 3 <= k
            < base64_seq(data.skip(3)).len() ==> #[trigger] base64_seq(data.skip(3))[k] == '=',
        base64_decode(base64_seq(data.skip(3))) == data.skip(3),
    ensures
        base64_seq(data).len() == 4 * ((data.len() + 2) / 3),
        forall|k: int| 0 <= k < base64_seq(data).len() - (3 - data.len() % 3) % 3
            ==> is_b64_alphabet(#[trigger] base64_seq(data)[k]),
        forall|k: int| base64_seq(data).len() - (3 - data.len() % 3) % 3 <= k < base64_seq(data).len()
            ==> #[trigger] base64_seq(data)[k] == '=',
        base64_decode(base64_seq(data)) == data,
{
    let r = base64_seq(data);
    let g = b64_group(data[0] as int, data[1] as int, data[2] as int, 3);
    let rest = data.skip(3);
    let rr = base64_seq(rest);
    lemma_b64_group(data[0] as int, data[1] as int, data[2] as int, 3);
    assert(r == g + rr);
    let pad = (3 - data.len() % 3) % 3;
    assert(pad == (3 - (data.len() - 3) % 3) % 3);
    assert(r.len() == 4 * ((data.len() + 2) / 3));
    assert(base64_decode(r) == data) by {
        assert((g + rr).take(4) =~= g);
        assert((g + rr).skip(4) =~= rr);
        assert(base64_decode(r) == b64_decode_group(g) + base64_decode(rr));
        assert(data =~= seq![data[0], data[1], data[2]] + rest);
    }
    assert forall|k: int| 0 <= k < r.len() - pad implies is_b64_alphabet(#[trigger] r[k]) by {
        if k < 4 {
            assert(r[k] == g[k]);
        } else {
            assert(r[k] == rr[k - 4]);
        }
    }
    assert forall|k: int| r.len() - pad <= k < r.len() implies #[trigger] r[k] == '=' by {
        assert(r[k] == rr[k - 4]);
    }
}

/// Base64 text is four characters for every started group of three bytes; it is
/// made of alphabet characters followed by exactly `(3 - n % 3) % 3` padding
/// characters `=`, where `n` is the number of bytes; and standard decoding gives
/// the bytes back.
pub proof fn law_base64_shape(data: Seq<u8>)
    ensures
        base64_seq(data).len() == 4 * ((data.len() + 2) / 3),
        forall|k: int| 0 <= k < base64_seq(data).len() - (3 - data.len() % 3) % 3
            ==> is_b64_alphabet(#[trigger] base64_seq(data)[k]),
        forall|k: int| base64_seq(data).len() - (3 - data.len() % 3) % 3 <= k < base64_seq(data).len()
            ==> #[trigger] base64_seq(data)[k] == '=',
        base64_decode(base64_seq(data)) == data,
    decreases data.len(),
{
    let r = base64_seq(data);
    if data.len() == 0 {
        assert(base64_decode(r) =~= data);
    } else if data.len() <= 3 {
        lemma_base64_short(data);
    } else {
        law_base64_shape(data.skip(3));
        lemma_base64_step(data);
    }
}

fn b64(i: u8) -> (c: char)
    requires
        i < 64,
    ensures
        c == b64_char(i as int),
{
    if i < 26 {
        (65 + i) as char
    } else if i < 52 {
        (71 + i) as char
    } else if i < 62 {
        (i - 4) as char
    } else if i == 62 {
        '+'
    } else {
        '/'
    }
}

/// Standard padded Base64 of `data`.
pub fn encode_base64(data: &[u8]) -> (res: String)
    ensures
        res@ == base64_seq(data@),
{
    let mut out: Vec<char> = Vec::new();
    let mut i: usize = 0;
    assert(data@.skip(0) =~= data@);
    assert(out@ + base64_seq(data@) =~= base64_seq(data@));
    while i < data.len()
        invariant
            i <= data.len(),
            out@ + base64_seq(data@.skip(i as int)) == base64_seq(data@),
        decreases data.len() - i,
    {
        let rest = data.len() - i;
        let b0 = data[i];
        let b1: u8 = if rest > 1 { data[i + 1] } else { 0 };
        let b2: u8 = if rest > 2 { data[i + 2] } else { 0 };
        let ghost out0 = out@;
        let ghost tail = data@.skip(i as int);
        out.push(b64(b0 / 4));
        out.push(b64((b0 % 4) * 16 + b1 / 16));
        out.push(if rest > 1 { b64((b1 % 16) * 4 + b2 / 64) } else { '=' });
        out.push(if rest > 2 { b64(b2 % 64) } else { '=' });
        let n: usize = if rest > 3 { 3 } else { rest };
        assert(out@ =~= out0 + b64_group(b0 as int, b1 as int, b2 as int, n as int));
        if rest > 3 {
            assert(tail.skip(3) =~= data@.skip(i + 3));
            i = i + 3;
        } else {
            assert(data@.skip(data.len() as int) =~= Seq::<u8>::empty());
            i = data.len();
        }
    }
    assert(data@.skip(i as int) =~= Seq::<u8>::empty());
    assert(out@ + Seq::<char>::empty() =~= out@);
    string_of(&out)
}

/// The image MIME type implied by a file name's extension (JPEG by default).
pub open spec fn mime_text(path: Seq<char>) -> Seq<char> {
    let lower = lowercase_text(path);
    if seq_ends_with(lower, ".jpg"@) || seq_ends_with(lower, ".jpeg"@) {
        "image/jpeg"@
    } else if seq_ends_with(lower, ".png"@) {
        "image/png"@
    } else if seq_ends_with(lower, ".gif"@) {
        "image/gif"@
    } else if seq_ends_with(lower, ".webp"@) {
        "image/webp"@
    } else if seq_ends_with(lower, ".svg"@) {
        "image/svg+xml"@
    } else {
        "image/jpeg"@
    }
}

/// The image MIME type implied by a file name's extension, letter case ignored.
pub fn mime_from_ext(path: &str) -> (res: &'static str)
    ensures
        res@ == mime_text(path@),
{
    let lowered = to_lowercase(path);
    let lower = lowered.as_str();
    if str_ends_with(lower, ".jpg") || str_ends_with(lower, ".jpeg") {
        "image/jpeg"
    } else if str_ends_with(lower, ".png") {
        "image/png"
    } else if str_ends_with(lower, ".gif") {
        "image/gif"
    } else if str_ends_with(lower, ".webp") {
        "image/webp"
    } else if str_ends_with(lower, ".svg") {
        "image/svg+xml"
    } else {
        "image/jpeg"
    }
}

/// A CSV field: the text in double quotes, inner quotes doubled.
pub open spec fn csv_quoted(s: Seq<char>) -> Seq<char> {
    "\""@ + replace_all(s, "\""@, "\"\""@) + "\""@
}

/// Quotes a CSV field, doubling inner quotes.
pub fn csv_quote(s: &str) -> (res: String)
    ensures
        res@ == csv_quoted(s@),
{
    proof {
        reveal_strlit("\"");
    }
    let inner = str_replace(s, "\"", "\"\"");
    let mut v = chars_of("\"");
    push_str_chars(&mut v, inner.as_str());
    push_str_chars(&mut v, "\"");
    string_of(&v)
}

/// `data:` URL of an image.
pub open spec fn data_url_text(mime: Seq<char>, data: Seq<u8>) -> Seq<char> {
    "data:"@ + mime + ";base64,"@ + base64_seq(data)
}

/// A `data:` URL carrying `data` Base64-encoded under the MIME type `mime`.
pub fn data_url(mime: &str, data: &[u8]) -> (res: String)
    ensures
        res@ == data_url_text(mime@, data@),
{
    let encoded = encode_base64(data);
    let mut v = chars_of("data:");
    push_str_chars(&mut v, mime);
    push_str_chars(&mut v, ";base64,");
    push_str_chars(&mut v, encoded.as_str());
    string_of(&v)
}

/// The first 15 bytes of every SQLite database file: `SQLite format 3`.
pub open spec fn sqlite_magic() -> Seq<u8> {
    seq![83u8, 81, 76, 105, 116, 101, 32, 102, 111, 114, 109, 97, 116, 32, 51]
}

fn not_sqlite() -> (res: String)
    ensures
        res@ == "所选文件不是有效的 SQLite 数据库"@,
{
    string_of(&chars_of("所选文件不是有效的 SQLite 数据库"))
}

/// Checks the first bytes of a backup file: they must spell the SQLite header.
pub fn check_backup_header(head: &[u8]) -> (res: Result<(), String>)
    ensures
        res is Ok <==> (head@.len() >= 15 && head@.subrange(0, 15) == sqlite_magic()),
        res matches Err(msg) ==> msg@ == "所选文件不是有效的 SQLite 数据库"@,
{
    let magic: [u8; 15] = [83, 81, 76, 105, 116, 101, 32, 102, 111, 114, 109, 97, 116, 32, 51];
    assert(magic@ =~= sqlite_magic());
    if head.len() < 15 {
        return Err(not_sqlite());
    }
    let mut k: usize = 0;
    while k < 15
        invariant
            k <= 15,
            head@.len() >= 15,
            magic@ == sqlite_magic(),
            forall|j: int| 0 <= j < k ==> head@[j] == magic@[j],
        decreases 15 - k,
    {
        if head[k] != magic[k] {
            assert(head@.subrange(0, 15)[k as int] != sqlite_magic()[k as int]);
            return Err(not_sqlite());
        }
        k = k + 1;
    }
    assert(head@.subrange(0, 15) =~= sqlite_magic());
    Ok(())
}

} // verus!
