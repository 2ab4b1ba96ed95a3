//! Print templates: placeholder filling, plain-text lines and the HTML preview.

use vstd::prelude::*;
use crate::escpos::{EscPosBuilder, lemma_encode_utf8_concat, repeat_byte};
use crate::model::PrintPreviewResult;
use vstd::utf8::encode_utf8;
use crate::numtext::{i64_text, int_text};
use crate::text::{
    chars_of, owned, push_all, push_str_chars, replace_all, replace_chars, str_eq, string_of,
};

verus! {

/// One element of a print template, as stored; absent settings are `None`.
pub enum TemplateElement {
    /// A line of text with placeholders, aligned and styled.
    Text { content: Option<String>, align: Option<String>, bold: Option<bool>, size: Option<String> },
    /// A full-width rule.
    Separator,
    /// Empty lines.
    BlankLines { count: Option<u64> },
    /// The order's items, one line each plus a line for each note.
    Items,
    /// An element of a kind the preview does not draw.
    Other,
}

/// One ordered item as a template sees it: its name, the whole part of its
/// quantity, whether the quantity is exactly one, and its note.
pub struct TemplateItem {
    pub name: Option<String>,
    pub qty_whole: i64,
    pub qty_is_one: bool,
    pub note: Option<String>,
}

/// Characters per line on the given paper: 32 on 58 mm paper, else 48.
pub open spec fn line_width(paper: Seq<char>) -> nat {
    if paper == "58mm"@ { 32 } else { 48 }
}

/// `n` copies of `c`.
pub open spec fn repeat_char(c: char, n: nat) -> Seq<char> {
    Seq::new(n, |i: int| c)
}

/// The placeholder for `key`: `{{key}}`.
pub open spec fn placeholder(key: Seq<char>) -> Seq<char> {
    "{{"@ + key + "}}"@
}

/// `t` with the placeholder of each variable replaced by its value, one variable
/// after the other.
pub open spec fn interpolate(t: Seq<char>, vars: Seq<(String, String)>) -> Seq<char>
    decreases vars.len(),
{
    if vars.len() == 0 {
        t
    } else {
        replace_all(interpolate(t, vars.drop_last()), placeholder(vars.last().0@), vars.last().1@)
    }
}

/// Fills the placeholders `{{key}}` of a template text with the values of
/// `vars`, one variable after the other.
pub fn interpolate_template_string(template: &str, vars: &[(String, String)]) -> (res: String)
    ensures
        res@ == interpolate(template@, vars@),
{
    let mut cur = chars_of(template);
    let mut i: usize = 0;
    while i < vars.len()
        invariant
            i <= vars.len(),
            cur@ == interpolate(template@, vars@.take(i as int)),
        decreases vars.len() - i,
    {
        assert(vars@.take(i + 1).drop_last() =~= vars@.take(i as int));
        proof {
            reveal_strlit("{{");
        }
        let mut p = chars_of("{{");
        push_str_chars(&mut p, vars[i].0.as_str());
        push_str_chars(&mut p, "}}");
        let r = chars_of(vars[i].1.as_str());
        cur = replace_chars(&cur, &p, &r);
        i = i + 1;
    }
    assert(vars@.take(vars.len() as int) =~= vars@);
    string_of(&cur)
}

/// The spaces put before a line of `n` characters to align it on a line of
/// `width` characters.
pub open spec fn padding(align: Seq<char>, width: nat, n: nat) -> nat {
    if align == "center"@ {
        if width > n { ((width - n) / 2) as nat } else { 0 }
    } else if align == "right"@ {
        if width > n { (width - n) as nat } else { 0 }
    } else {
        0
    }
}

/// `line` with `**` around it when bold and `##` before it when large.
pub open spec fn styled(line: Seq<char>, bold: bool, large: bool) -> Seq<char> {
    let mark: Seq<char> = if bold { "**"@ } else { Seq::empty() };
    (if large { "##"@ } else { Seq::<char>::empty() }) + mark + line + mark
}

/// A text element's line: filled, aligned, with `**` around bold text and `##`
/// before large text.
pub open spec fn text_line(
    content: Option<String>,
    align: Option<String>,
    bold: Option<bool>,
    size: Option<String>,
    paper: Seq<char>,
    vars: Seq<(String, String)>,
) -> Seq<char> {
    let rendered = interpolate(match content { Some(c) => c@, None => Seq::empty() }, vars);
    let a = match align { Some(a) => a@, None => "left"@ };
    let sz = match size { Some(s) => s@, None => "normal"@ };
    styled(
        repeat_char(' ', padding(a, line_width(paper), rendered.len())) + rendered,
        bold == Some(true),
        sz == "large"@,
    )
}

/// The line of one ordered item.
pub open spec fn item_line(item: TemplateItem) -> Seq<char> {
    (match item.name { Some(n) => n@, None => Seq::empty() }) + " x"@ + int_text(item.qty_whole as int)
}

/// The lines of the ordered items: each item, then its note when it has one.
pub open spec fn item_lines(items: Seq<TemplateItem>) -> Seq<Seq<char>>
    decreases items.len(),
{
    if items.len() == 0 {
        Seq::empty()
    } else {
        let rest = item_lines(items.drop_last());
        let it = items.last();
        match it.note {
            Some(n) => rest.push(item_line(it)).push("  備註: "@ + n@),
            None => rest.push(item_line(it)),
        }
    }
}

/// The lines one element contributes to a preview.
pub open spec fn element_lines(
    e: TemplateElement,
    paper: Seq<char>,
    vars: Seq<(String, String)>,
    items: Seq<TemplateItem>,
) -> Seq<Seq<char>> {
    match e {
        TemplateElement::Text { content, align, bold, size } => seq![text_line(content, align, bold, size, paper, vars)],
        TemplateElement::Separator => seq![repeat_char('─', line_width(paper))],
        TemplateElement::BlankLines { count } => Seq::new(
            match count { Some(c) => c as nat, None => 1 },
            |i: int| Seq::<char>::empty(),
        ),
        TemplateElement::Items => item_lines(items),
        TemplateElement::Other => Seq::empty(),
    }
}

/// The plain-text lines of a template, element after element.
pub open spec fn preview_lines(
    elements: Seq<TemplateElement>,
    paper: Seq<char>,
    vars: Seq<(String, String)>,
    items: Seq<TemplateItem>,
) -> Seq<Seq<char>>
    decreases elements.len(),
{
    if elements.len() == 0 {
        Seq::empty()
    } else {
        preview_lines(elements.drop_last(), paper, vars, items) + element_lines(elements.last(), paper, vars, items)
    }
}

/// Whether `out` holds the lines `lines`, in order.
pub open spec fn lines_are(out: Seq<String>, lines: Seq<Seq<char>>) -> bool {
    &&& out.len() == lines.len()
    &&& forall|k: int| 0 <= k < out.len() ==> #[trigger] out[k]@ == lines[k]
}

fn repeat_chars(c: char, n: usize) -> (res: Vec<char>)
    ensures
        res@ == repeat_char(c, n as nat),
{
    let mut v: Vec<char> = Vec::new();
    let mut i: usize = 0;
    while i < n
        invariant
            i <= n,
            v@ == repeat_char(c, i as nat),
        decreases n - i,
    {
        v.push(c);
        i = i + 1;
        assert(v@ =~= repeat_char(c, i as nat));
    }
    v
}

fn align_padding(align: &str, width: usize, n: usize) -> (res: usize)
    ensures
        res == padding(align@, width as nat, n as nat),
{
    if str_eq(align, "center") {
        if width > n { (width - n) / 2 } else { 0 }
    } else if str_eq(align, "right") {
        if width > n { width - n } else { 0 }
    } else {
        0
    }
}

fn styled_chars(line: &Vec<char>, bold: bool, large: bool) -> (res: Vec<char>)
    ensures
        res@ == styled(line@, bold, large),
{
    let mut out: Vec<char> = Vec::new();
    if large {
        push_str_chars(&mut out, "##");
    }
    if bold {
        push_str_chars(&mut out, "**");
    }
    push_all(&mut out, line);
    if bold {
        push_str_chars(&mut out, "**");
    }
    out
}

fn text_line_of(
    content: &Option<String>,
    align: &Option<String>,
    bold: &Option<bool>,
    size: &Option<String>,
    paper_size: &str,
    vars: &[(String, String)],
) -> (res: String)
    ensures
        res@ == text_line(*content, *align, *bold, *size, paper_size@, vars@),
{
    proof {
        reveal_strlit("");
    }
    let raw: &str = match content {
        Some(c) => c.as_str(),
        None => "",
    };
    let rendered = interpolate_template_string(raw, vars);
    let a: &str = match align {
        Some(a) => a.as_str(),
        None => "left",
    };
    let b = match bold {
        Some(b) => *b,
        None => false,
    };
    let large = match size {
        Some(s) => str_eq(s.as_str(), "large"),
        None => str_eq("normal", "large"),
    };
    let width: usize = if str_eq(paper_size, "58mm") { 32 } else { 48 };
    let rv = chars_of(rendered.as_str());
    let pad = align_padding(a, width, rv.len());
    let mut line = repeat_chars(' ', pad);
    push_all(&mut line, &rv);
    let out = styled_chars(&line, b, large);
    proof {
        assert(""@ =~= Seq::<char>::empty());
    }
    string_of(&out)
}

fn item_line_of(item: &TemplateItem) -> (res: String)
    ensures
        res@ == item_line(*item),
{
    let mut v: Vec<char> = match &item.name {
        Some(n) => chars_of(n.as_str()),
        None => Vec::new(),
    };
    push_str_chars(&mut v, " x");
    let q = i64_text(item.qty_whole);
    push_all(&mut v, &q);
    string_of(&v)
}

/// Appends the lines of the ordered items to `out`.
fn push_item_lines(out: &mut Vec<String>, items: &[TemplateItem])
    ensures
        final(out)@.len() == old(out)@.len() + item_lines(items@).len(),
        forall|k: int| 0 <= k < old(out)@.len() ==> #[trigger] final(out)@[k] == old(out)@[k],
        forall|k: int| 0 <= k < item_lines(items@).len() ==> #[trigger] final(out)@[old(out)@.len() + k]@ == item_lines(items@)[k],
{
    let ghost start = out@;
    let mut i: usize = 0;
    while i < items.len()
        invariant
            i <= items.len(),
            out@.len() == start.len() + item_lines(items@.take(i as int)).len(),
            forall|k: int| 0 <= k < start.len() ==> #[trigger] out@[k] == start[k],
            forall|k: int| 0 <= k < item_lines(items@.take(i as int)).len() ==> #[trigger] out@[start.len() + k]@ == item_lines(items@.take(i as int))[k],
        decreases items.len() - i,
    {
        let ghost before = item_lines(items@.take(i as int));
        assert(items@.take(i + 1).drop_last() =~= items@.take(i as int));
        assert(items@.take(i + 1).last() == items@[i as int]);
        let line = item_line_of(&items[i]);
        out.push(line);
        match &items[i].note {
            Some(n) => {
                let mut nv = chars_of("  備註: ");
                push_str_chars(&mut nv, n.as_str());
                out.push(string_of(&nv));
            },
            None => {},
        }
        proof {
            let after = item_lines(items@.take(i + 1));
            assert forall|k: int| 0 <= k < after.len() implies #[trigger] out@[start.len() + k]@ == after[k] by {
                if k < before.len() {
                    assert(after[k] == before[k]);
                }
            }
        }
        i = i + 1;
    }
    assert(items@.take(items.len() as int) =~= items@);
}

/// The plain-text lines of a template: `elements` in order, with placeholders
/// filled from `vars` and item lines from `items`.
pub fn render_preview_lines(
    elements: &[TemplateElement],
    paper_size: &str,
    vars: &[(String, String)],
    items: &[TemplateItem],
) -> (res: Vec<String>)
    ensures
        lines_are(res@, preview_lines(elements@, paper_size@, vars@, items@)),
{
    let mut out: Vec<String> = Vec::new();
    let mut i: usize = 0;
    while i < elements.len()
        invariant
            i <= elements.len(),
            lines_are(out@, preview_lines(elements@.take(i as int), paper_size@, vars@, items@)),
        decreases elements.len() - i,
    {
        let ghost before = out@;
        let ghost pl = preview_lines(elements@.take(i as int), paper_size@, vars@, items@);
        assert(elements@.take(i + 1).drop_last() =~= elements@.take(i as int));
        assert(elements@.take(i + 1).last() == elements@[i as int]);
        let ghost el = element_lines(elements@[i as int], paper_size@, vars@, items@);
        match &elements[i] {
            TemplateElement::Text { content, align, bold, size } => {
                let line = text_line_of(content, align, bold, size, paper_size, vars);
                out.push(line);
                proof {
                    assert(out@.len() == before.len() + el.len());
                    assert forall|j: int| 0 <= j < el.len() implies #[trigger] out@[before.len() + j]@ == el[j] by {}
                    assert forall|j: int| 0 <= j < before.len() implies #[trigger] out@[j] == before[j] by {}
                }
            },
            TemplateElement::Separator => {
                let width: usize = if str_eq(paper_size, "58mm") { 32 } else { 48 };
                let rule = repeat_chars('─', width);
                out.push(string_of(&rule));
                proof {
                    assert(out@.len() == before.len() + el.len());
                    assert forall|j: int| 0 <= j < el.len() implies #[trigger] out@[before.len() + j]@ == el[j] by {}
                    assert forall|j: int| 0 <= j < before.len() implies #[trigger] out@[j] == before[j] by {}
                }
            },
            TemplateElement::BlankLines { count } => {
                let c: u64 = match count {
                    Some(c) => *c,
                    None => 1,
                };
                let mut k: u64 = 0;
                while k < c
                    invariant
                        k <= c,
                        out@.len() == before.len() + k,
                        forall|j: int| 0 <= j < before.len() ==> #[trigger] out@[j] == before[j],
                        forall|j: int| before.len() <= j < out@.len() ==> #[trigger] out@[j]@ == Seq::<char>::empty(),
                    decreases c - k,
                {
                    out.push(String::new());
                    k = k + 1;
                }
                proof {
                    assert(out@.len() == before.len() + el.len());
                    assert forall|j: int| 0 <= j < el.len() implies #[trigger] out@[before.len() + j]@ == el[j] by {}
                    assert forall|j: int| 0 <= j < before.len() implies #[trigger] out@[j] == before[j] by {}
                }
            },
            TemplateElement::Items => {
                push_item_lines(&mut out, items);
                proof {
                    assert(out@.len() == before.len() + el.len());
                    assert forall|j: int| 0 <= j < el.len() implies #[trigger] out@[before.len() + j]@ == el[j] by {}
                    assert forall|j: int| 0 <= j < before.len() implies #[trigger] out@[j] == before[j] by {}
                }
            },
            TemplateElement::Other => {
                proof {
                    assert(el.len() == 0);
                }
            },
        }
        proof {
            let after = preview_lines(elements@.take(i + 1), paper_size@, vars@, items@);
            assert(after == pl + el);
            assert forall|k: int| 0 <= k < out@.len() implies #[trigger] out@[k]@ == after[k] by {
                if k < before.len() {
                    assert(out@[k] == before[k]);
                } else {
                    assert(after[k] == el[k - before.len()]);
                    assert(out@[before.len() + (k - before.len())]@ == el[k - before.len()]);
                }
            }
        }
        i = i + 1;
    }
    assert(elements@.take(elements.len() as int) =~= elements@);
    out
}

/// `s` without every leading repetition of `p` (`str::trim_start_matches`).
pub open spec fn strip_repeated(s: Seq<char>, p: Seq<char>) -> Seq<char>
    decreases s.len(),
{
    if p.len() > 0 && p.len() <= s.len() && s.subrange(0, p.len() as int) == p {
        strip_repeated(s.skip(p.len() as int), p)
    } else {
        s
    }
}

/// `s` without leading copies of `c`.
pub open spec fn trim_start_char(s: Seq<char>, c: char) -> Seq<char>
    decreases s.len(),
{
    if s.len() > 0 && s[0] == c {
        trim_start_char(s.skip(1), c)
    } else {
        s
    }
}

/// `s` without trailing copies of `c`.
pub open spec fn trim_end_char(s: Seq<char>, c: char) -> Seq<char>
    decreases s.len(),
{
    if s.len() > 0 && s.last() == c {
        trim_end_char(s.drop_last(), c)
    } else {
        s
    }
}

/// `s` without leading and trailing copies of `c` (`str::trim_matches`).
pub open spec fn trim_char(s: Seq<char>, c: char) -> Seq<char> {
    trim_end_char(trim_start_char(s, c), c)
}

/// `s` with `&`, `<` and `>` written as HTML entities.
pub open spec fn escape_html(s: Seq<char>) -> Seq<char> {
    replace_all(replace_all(replace_all(s, "&"@, "&amp;"@), "<"@, "&lt;"@), ">"@, "&gt;"@)
}

/// Whether every character of `s` is `c`.
pub open spec fn all_chars(s: Seq<char>, c: char) -> bool {
    forall|k: int| 0 <= k < s.len() ==> #[trigger] s[k] == c
}

/// The HTML of one preview line: a gap for an empty line, a large centred title
/// for a `##` line, bold text for a `**` line, a dashed rule for a line of `─`,
/// and escaped text otherwise.
pub open spec fn line_html(line: Seq<char>) -> Seq<char> {
    if line.len() == 0 {
        "<div style=\"height: 8px;\"></div>\n"@
    } else if line.len() >= 2 && line.subrange(0, 2) == "##"@ {
        "<div style=\"font-size: 16px; font-weight: bold; text-align: center;\">"@ + trim_char(strip_repeated(line, "##"@), '*')
            + "</div>\n"@
    } else if line.len() >= 2 && line.subrange(0, 2) == "**"@ {
        "<div style=\"font-weight: bold;\">"@ + trim_char(line, '*') + "</div>\n"@
    } else if all_chars(line, '─') {
        "<div style=\"border-bottom: 1px dashed #ccc; margin: 6px 0;\"></div>\n"@
    } else {
        "<div style=\"font-size: 13px; line-height: 1.4;\">"@ + escape_html(line) + "</div>\n"@
    }
}

/// The opening of the preview box, narrower for 58 mm paper.
pub open spec fn preview_open(paper: Seq<char>) -> Seq<char> {
    "<div class=\"receipt-preview\" style=\""@ + "font-family: 'Courier New', monospace; "@ + "background: #fff; "@
        + "color: #1a1a1a; "@ + "padding: 16px; "@ + "max-width: "@ + (if paper == "58mm"@ { "240"@ } else { "320"@ })
        + "px; "@ + "margin: 0 auto; "@ + "border: 1px solid #e2e8f0; "@ + "border-radius: 8px; "@ + "\">\n"@
}

/// The heading with the logo, the restaurant's name and its tagline; shown when
/// there is a name or a logo.
pub open spec fn brand_html(name: Seq<char>, tagline: Seq<char>, logo: Option<Seq<char>>) -> Seq<char> {
    if name.len() > 0 || logo is Some {
        "<div style=\"text-align: center; margin-bottom: 12px;\">"@ + (match logo {
            Some(l) => if l.len() > 0 {
                "<img src=\""@ + l + "\" style=\"max-height: 48px; max-width: 80px; margin-bottom: 6px;\" />"@
            } else {
                Seq::empty()
            },
            None => Seq::empty(),
        }) + (if name.len() > 0 {
            "<div style=\"font-size: 18px; font-weight: bold;\">"@ + name + "</div>"@
        } else {
            Seq::empty()
        }) + (if tagline.len() > 0 {
            "<div style=\"font-size: 11px; color: #666;\">"@ + tagline + "</div>"@
        } else {
            Seq::empty()
        }) + "</div>"@ + "<div style=\"border-bottom: 1px dashed #ccc; margin: 8px 0;\"></div>"@
    } else {
        Seq::empty()
    }
}

/// The HTML of the lines, one after the other.
pub open spec fn lines_html(lines: Seq<String>) -> Seq<char>
    decreases lines.len(),
{
    if lines.len() == 0 {
        Seq::empty()
    } else {
        lines_html(lines.drop_last()) + line_html(lines.last()@)
    }
}

/// The whole HTML preview of a ticket.
pub open spec fn preview_html_text(
    lines: Seq<String>,
    paper: Seq<char>,
    name: Seq<char>,
    tagline: Seq<char>,
    logo: Option<Seq<char>>,
) -> Seq<char> {
    preview_open(paper) + brand_html(name, tagline, logo) + lines_html(lines) + "</div>"@
}

fn strip_repeated_chars(s: &Vec<char>, p: &Vec<char>) -> (res: Vec<char>)
    ensures
        res@ == strip_repeated(s@, p@),
{
    let mut i: usize = 0;
    assert(s@.skip(0) =~= s@);
    while p.len() > 0 && p.len() <= s.len() - i && crate::text::matches_at(s, p, i)
        invariant
            i <= s.len(),
            strip_repeated(s@, p@) == strip_repeated(s@.skip(i as int), p@),
        decreases s.len() - i,
    {
        assert(s@.skip(i as int).subrange(0, p@.len() as int) =~= s@.subrange(i as int, i + p@.len()));
        assert(s@.skip(i as int).skip(p@.len() as int) =~= s@.skip(i + p@.len()));
        i = i + p.len();
    }
    proof {
        if p@.len() > 0 && p@.len() <= s@.len() - i {
            assert(s@.skip(i as int).subrange(0, p@.len() as int) =~= s@.subrange(i as int, i + p@.len()));
        }
    }
    let n = s.len();
    let r = crate::text::slice_chars(s, i, n);
    assert(r@ =~= s@.skip(i as int));
    r
}

fn trim_char_chars(s: &Vec<char>, c: char) -> (res: Vec<char>)
    ensures
        res@ == trim_char(s@, c),
{
    let mut i: usize = 0;
    assert(s@.skip(0) =~= s@);
    while i < s.len() && s[i] == c
        invariant
            i <= s.len(),
            trim_start_char(s@, c) == trim_start_char(s@.skip(i as int), c),
        decreases s.len() - i,
    {
        assert(s@.skip(i as int).skip(1) =~= s@.skip(i + 1));
        i = i + 1;
    }
    let mut j: usize = s.len();
    let ghost t = s@.skip(i as int);
    assert(t.subrange(0, (j - i) as int) =~= t);
    while j > i && s[j - 1] == c
        invariant
            i <= j <= s.len(),
            t == s@.skip(i as int),
            trim_end_char(t, c) == trim_end_char(s@.subrange(i as int, j as int), c),
        decreases j,
    {
        assert(s@.subrange(i as int, j as int).drop_last() =~= s@.subrange(i as int, j - 1));
        j = j - 1;
    }
    let r = crate::text::slice_chars(s, i, j);
    r
}

fn all_chars_are(s: &Vec<char>, c: char) -> (res: bool)
    ensures
        res == all_chars(s@, c),
{
    let mut i: usize = 0;
    while i < s.len()
        invariant
            i <= s.len(),
            forall|k: int| 0 <= k < i ==> #[trigger] s@[k] == c,
        decreases s.len() - i,
    {
        if s[i] != c {
            return false;
        }
        i = i + 1;
    }
    true
}

fn escape_html_chars(s: &Vec<char>) -> (res: Vec<char>)
    ensures
        res@ == escape_html(s@),
{
    proof {
        reveal_strlit("&");
        reveal_strlit("<");
        reveal_strlit(">");
    }
    let a = replace_chars(s, &chars_of("&"), &chars_of("&amp;"));
    let b = replace_chars(&a, &chars_of("<"), &chars_of("&lt;"));
    replace_chars(&b, &chars_of(">"), &chars_of("&gt;"))
}

fn line_html_chars(line: &Vec<char>) -> (res: Vec<char>)
    ensures
        res@ == line_html(line@),
{
    proof {
        reveal_strlit("##");
        reveal_strlit("**");
    }
    let hashes = chars_of("##");
    let stars = chars_of("**");
    if line.len() == 0 {
        return chars_of("<div style=\"height: 8px;\"></div>\n");
    }
    if crate::text::matches_at(line, &hashes, 0) {
        assert(line@.len() >= 2 && line@.subrange(0, 2) == "##"@);
        let mut v = chars_of("<div style=\"font-size: 16px; font-weight: bold; text-align: center;\">");
        let stripped = strip_repeated_chars(line, &hashes);
        let body = trim_char_chars(&stripped, '*');
        push_all(&mut v, &body);
        push_str_chars(&mut v, "</div>\n");
        return v;
    }
    assert(!(line@.len() >= 2 && line@.subrange(0, 2) == "##"@));
    if crate::text::matches_at(line, &stars, 0) {
        assert(line@.len() >= 2 && line@.subrange(0, 2) == "**"@);
        let mut v = chars_of("<div style=\"font-weight: bold;\">");
        let body = trim_char_chars(line, '*');
        push_all(&mut v, &body);
        push_str_chars(&mut v, "</div>\n");
        return v;
    }
    assert(!(line@.len() >= 2 && line@.subrange(0, 2) == "**"@));
    if all_chars_are(line, '─') {
        return chars_of("<div style=\"border-bottom: 1px dashed #ccc; margin: 6px 0;\"></div>\n");
    }
    let mut v = chars_of("<div style=\"font-size: 13px; line-height: 1.4;\">");
    let body = escape_html_chars(line);
    push_all(&mut v, &body);
    push_str_chars(&mut v, "</div>\n");
    v
}

fn preview_open_chars(paper_size: &str) -> (res: Vec<char>)
    ensures
        res@ == preview_open(paper_size@),
{
    let mut v = chars_of("<div class=\"receipt-preview\" style=\"");
    push_str_chars(&mut v, "font-family: 'Courier New', monospace; ");
    push_str_chars(&mut v, "background: #fff; ");
    push_str_chars(&mut v, "color: #1a1a1a; ");
    push_str_chars(&mut v, "padding: 16px; ");
    push_str_chars(&mut v, "max-width: ");
    if str_eq(paper_size, "58mm") {
        push_str_chars(&mut v, "240");
    } else {
        push_str_chars(&mut v, "320");
    }
    push_str_chars(&mut v, "px; ");
    push_str_chars(&mut v, "margin: 0 auto; ");
    push_str_chars(&mut v, "border: 1px solid #e2e8f0; ");
    push_str_chars(&mut v, "border-radius: 8px; ");
    push_str_chars(&mut v, "\">\n");
    v
}

fn logo_chars(logo_data: Option<&str>) -> (res: Vec<char>)
    ensures
        res@ == match logo_data {
            Some(l) => if l@.len() > 0 {
                "<img src=\""@ + l@ + "\" style=\"max-height: 48px; max-width: 80px; margin-bottom: 6px;\" />"@
            } else {
                Seq::empty()
            },
            None => Seq::empty(),
        },
{
    let mut v: Vec<char> = Vec::new();
    match logo_data {
        Some(logo) => {
            if !logo.is_empty() {
                push_str_chars(&mut v, "<img src=\"");
                push_str_chars(&mut v, logo);
                push_str_chars(&mut v, "\" style=\"max-height: 48px; max-width: 80px; margin-bottom: 6px;\" />");
            }
        },
        None => {},
    }
    v
}

fn wrapped_if_nonempty(open: &str, body: &str, close: &str) -> (res: Vec<char>)
    ensures
        res@ == if body@.len() > 0 { open@ + body@ + close@ } else { Seq::empty() },
{
    let mut v: Vec<char> = Vec::new();
    if !body.is_empty() {
        push_str_chars(&mut v, open);
        push_str_chars(&mut v, body);
        push_str_chars(&mut v, close);
    }
    v
}

fn brand_chars(restaurant_name: &str, tagline: &str, logo_data: Option<&str>) -> (res: Vec<char>)
    ensures
        res@ == brand_html(restaurant_name@, tagline@, match logo_data { Some(l) => Some(l@), None => None }),
{
    let has_logo = match logo_data {
        Some(_) => true,
        None => false,
    };
    let mut v: Vec<char> = Vec::new();
    if !restaurant_name.is_empty() || has_logo {
        push_str_chars(&mut v, "<div style=\"text-align: center; margin-bottom: 12px;\">");
        let l = logo_chars(logo_data);
        push_all(&mut v, &l);
        let n = wrapped_if_nonempty("<div style=\"font-size: 18px; font-weight: bold;\">", restaurant_name, "</div>");
        push_all(&mut v, &n);
        let t = wrapped_if_nonempty("<div style=\"font-size: 11px; color: #666;\">", tagline, "</div>");
        push_all(&mut v, &t);
        push_str_chars(&mut v, "</div>");
        push_str_chars(&mut v, "<div style=\"border-bottom: 1px dashed #ccc; margin: 8px 0;\"></div>");
    }
    v
}

/// The HTML preview of a ticket's lines on the given paper, headed by the logo,
/// the restaurant's name and its tagline when there is a name or a logo.
pub fn preview_html(
    lines: &[String],
    paper_size: &str,
    restaurant_name: &str,
    tagline: &str,
    logo_data: Option<&str>,
) -> (res: String)
    ensures
        res@ == preview_html_text(lines@, paper_size@, restaurant_name@, tagline@, match logo_data { Some(l) => Some(l@), None => None }),
{
    let mut v = preview_open_chars(paper_size);
    let b = brand_chars(restaurant_name, tagline, logo_data);
    push_all(&mut v, &b);
    let ghost start = v@;
    assert(lines@.take(0) =~= Seq::<String>::empty());
    let mut i: usize = 0;
    while i < lines.len()
        invariant
            i <= lines.len(),
            v@ == start + lines_html(lines@.take(i as int)),
        decreases lines.len() - i,
    {
        assert(lines@.take(i + 1).drop_last() =~= lines@.take(i as int));
        let lc = chars_of(lines[i].as_str());
        let h = line_html_chars(&lc);
        push_all(&mut v, &h);
        assert(v@ =~= start + lines_html(lines@.take(i + 1)));
        i = i + 1;
    }
    assert(lines@.take(lines.len() as int) =~= lines@);
    push_str_chars(&mut v, "</div>");
    string_of(&v)
}

/// The preview of a template: its plain lines, their HTML and the paper width.
pub fn render_template_content_preview(
    elements: &[TemplateElement],
    paper_size: &str,
    restaurant_name: &str,
    tagline: &str,
    logo_data: Option<&str>,
    vars: &[(String, String)],
    items: &[TemplateItem],
) -> (res: PrintPreviewResult)
    ensures
        lines_are(res.lines@, preview_lines(elements@, paper_size@, vars@, items@)),
        res.html@ == preview_html_text(res.lines@, paper_size@, restaurant_name@, tagline@, match logo_data { Some(l) => Some(l@), None => None }),
        res.paper_width@ == paper_size@,
{
    let lines = render_preview_lines(elements, paper_size, vars, items);
    let html = preview_html(&lines, paper_size, restaurant_name, tagline, logo_data);
    PrintPreviewResult { html, lines, paper_width: owned(paper_size) }
}

/// The look of a kitchen ticket printed from a template.
#[derive(PartialEq, Eq, Structural, Clone, Copy, Debug)]
pub enum TicketTheme {
    Minimal,
    Modern,
    Classic,
}

/// The theme a template names; any other name is the classic look.
pub open spec fn theme_of(name: Seq<char>) -> TicketTheme {
    if name == "minimal"@ {
        TicketTheme::Minimal
    } else if name == "modern"@ {
        TicketTheme::Modern
    } else {
        TicketTheme::Classic
    }
}

/// The style settings of a kitchen-ticket template; absent ones take their
/// defaults (classic theme, restaurant "Cuckoo", no tagline, red notes).
pub struct TicketStyle {
    pub theme: Option<String>,
    pub restaurant_name: Option<String>,
    pub tagline: Option<String>,
    pub modifiers_color: Option<String>,
}

/// The order data a kitchen ticket prints; absent texts print as empty.
pub struct TicketOrder {
    pub order_no: Option<String>,
    pub dine_type: Option<String>,
    pub note: Option<String>,
}

/// The text of an optional string, empty when absent.
pub open spec fn text_or_empty(s: Option<String>) -> Seq<char> {
    match s {
        Some(t) => t@,
        None => Seq::empty(),
    }
}

/// The text of an optional string, `d` when absent.
pub open spec fn text_or(s: Option<String>, d: Seq<char>) -> Seq<char> {
    match s {
        Some(t) => t@,
        None => d,
    }
}

/// A printed line: the UTF-8 bytes of `s` and a line feed.
pub open spec fn ln(s: Seq<char>) -> Seq<u8> {
    encode_utf8(s) + seq![0x0Au8]
}

/// A line of `w` dashes.
pub open spec fn rule(w: nat) -> Seq<u8> {
    repeat_byte(0x2D, w) + seq![0x0Au8]
}

/// The whole part of a quantity as `f64 as i32` gives it: clamped to `i32`.
pub open spec fn clamp_i32(x: i64) -> int {
    if x < i32::MIN as i64 {
        i32::MIN as int
    } else if x > i32::MAX as i64 {
        i32::MAX as int
    } else {
        x as int
    }
}

/// The line of an item's note on a themed kitchen ticket.
pub open spec fn note_line(theme: TicketTheme, color: Seq<char>, n: Seq<char>) -> Seq<char> {
    match theme {
        TicketTheme::Minimal => (if color == "red"@ { "  "@ } else { "**"@ }) + n,
        TicketTheme::Modern => "  "@ + (if color == "bold"@ { "**"@ } else { "→"@ }) + " "@ + n,
        TicketTheme::Classic => (if color == "red"@ { "  [紅] "@ } else { "  **"@ }) + n,
    }
}

/// The bytes of one item on a themed kitchen ticket.
pub open spec fn themed_item_bytes(theme: TicketTheme, color: Seq<char>, item: TemplateItem) -> Seq<u8> {
    let name = text_or_empty(item.name);
    let q = int_text(clamp_i32(item.qty_whole));
    let line = match theme {
        TicketTheme::Modern => if item.qty_is_one { "[1] "@ + name } else { "["@ + q + "] "@ + name },
        _ => if item.qty_is_one { name } else { name + " x"@ + q },
    };
    let note_bytes: Seq<u8> = match item.note {
        Some(n) => ln(note_line(theme, color, n@)),
        None => Seq::empty(),
    };
    ln(line) + note_bytes
}

/// The bytes of all items, in order.
pub open spec fn themed_items_bytes(theme: TicketTheme, color: Seq<char>, items: Seq<TemplateItem>) -> Seq<u8>
    decreases items.len(),
{
    if items.len() == 0 {
        Seq::empty()
    } else {
        themed_items_bytes(theme, color, items.drop_last()) + themed_item_bytes(theme, color, items.last())
    }
}

/// The tagline line, when there is a tagline.
pub open spec fn tagline_bytes(tagline: Seq<char>) -> Seq<u8> {
    if tagline.len() > 0 { ln(tagline) } else { Seq::empty() }
}

/// The heading of the minimal look.
pub open spec fn minimal_head(name: Seq<char>, tagline: Seq<char>, no: Seq<char>, dt: Seq<char>, w: nat) -> Seq<u8> {
    seq![0x1Bu8, 0x61, 1] + seq![0x1Bu8, 0x45, 1] + seq![0x1Du8, 0x21, 0x01] + ln(name) + seq![0x1Du8, 0x21, 0x00]
        + seq![0x1Bu8, 0x45, 0] + tagline_bytes(tagline) + rule(w) + ln("單號: "@ + no) + ln("類型: "@ + dt) + rule(w)
        + seq![0x1Bu8, 0x45, 1] + ln("項目"@) + seq![0x1Bu8, 0x45, 0]
}

/// The heading of the modern look.
pub open spec fn modern_head(name: Seq<char>, tagline: Seq<char>, no: Seq<char>, dt: Seq<char>, w: nat, now: Seq<char>) -> Seq<u8> {
    seq![0x1Bu8, 0x61, 1] + rule(w) + seq![0x1Bu8, 0x45, 1] + ln(name) + seq![0x1Bu8, 0x45, 0] + tagline_bytes(tagline)
        + rule(w) + seq![0x1Bu8, 0x61, 0] + ln("NO: "@ + no) + ln("TYPE: "@ + dt) + ln(now) + rule(w)
}

/// The heading of the classic look.
pub open spec fn classic_head(name: Seq<char>, tagline: Seq<char>, no: Seq<char>, dt: Seq<char>, w: nat, now: Seq<char>) -> Seq<u8> {
    seq![0x1Bu8, 0x61, 1] + seq![0x1Bu8, 0x45, 1] + seq![0x1Du8, 0x21, 0x01] + ln(name) + seq![0x1Du8, 0x21, 0x00]
        + seq![0x1Bu8, 0x45, 0] + tagline_bytes(tagline) + rule(w) + seq![0x1Bu8, 0x61, 0] + ln("單號: "@ + no)
        + ln("類型: "@ + dt) + ln(now) + rule(w) + seq![0x1Bu8, 0x45, 1] + ln("項目明細"@) + seq![0x1Bu8, 0x45, 0]
}

/// The bytes before the items: reset, heading, order data and, for the minimal
/// and classic looks, a bold items heading.
pub open spec fn themed_head_bytes(theme: TicketTheme, name: Seq<char>, tagline: Seq<char>, order: TicketOrder, w: nat, now: Seq<char>) -> Seq<u8> {
    let no = text_or_empty(order.order_no);
    let dt = text_or_empty(order.dine_type);
    seq![0x1Bu8, 0x40] + match theme {
        TicketTheme::Minimal => minimal_head(name, tagline, no, dt, w),
        TicketTheme::Modern => modern_head(name, tagline, no, dt, w, now),
        TicketTheme::Classic => classic_head(name, tagline, no, dt, w, now),
    }
}

/// The bytes after the items: the order note, then feed and cut.
pub open spec fn themed_tail_bytes(theme: TicketTheme, note: Option<String>, w: nat) -> Seq<u8> {
    let end = seq![0x1Bu8, 0x64, 3] + seq![0x1Du8, 0x56, 0];
    let minimal_note: Seq<u8> = match note {
        Some(n) => rule(w) + seq![0x1Bu8, 0x45, 1] + ln("備註: "@ + n@) + seq![0x1Bu8, 0x45, 0],
        None => Seq::empty(),
    };
    let modern_note: Seq<u8> = match note {
        Some(n) => rule(w) + ln("備註: "@ + n@),
        None => Seq::empty(),
    };
    let classic_note: Seq<u8> = match note {
        Some(n) => seq![0x1Bu8, 0x45, 1] + ln("訂單備註: "@ + n@) + seq![0x1Bu8, 0x45, 0],
        None => Seq::empty(),
    };
    match theme {
        TicketTheme::Minimal => minimal_note + end,
        TicketTheme::Modern => modern_note + rule(w) + end,
        TicketTheme::Classic => rule(w) + classic_note + end,
    }
}

/// The whole kitchen ticket printed from a template at time `now`.
pub open spec fn themed_ticket_bytes(style: TicketStyle, order: TicketOrder, items: Seq<TemplateItem>, paper: Seq<char>, now: Seq<char>) -> Seq<u8> {
    let theme = theme_of(text_or(style.theme, "classic"@));
    let w = line_width(paper);
    themed_head_bytes(theme, text_or(style.restaurant_name, "Cuckoo"@), text_or_empty(style.tagline), order, w, now)
        + themed_items_bytes(theme, text_or(style.modifiers_color, "red"@), items)
        + themed_tail_bytes(theme, order.note, w)
}

fn opt_str<'a>(s: &'a Option<String>, d: &'a str) -> (res: &'a str)
    ensures
        res@ == text_or(*s, d@),
{
    match s {
        Some(t) => t.as_str(),
        None => d,
    }
}

fn theme_kind(name: &str) -> (res: TicketTheme)
    ensures
        res == theme_of(name@),
{
    if str_eq(name, "minimal") {
        TicketTheme::Minimal
    } else if str_eq(name, "modern") {
        TicketTheme::Modern
    } else {
        TicketTheme::Classic
    }
}

fn clamped_qty(x: i64) -> (res: i32)
    ensures
        res as int == clamp_i32(x),
{
    if x < i32::MIN as i64 {
        i32::MIN
    } else if x > i32::MAX as i64 {
        i32::MAX
    } else {
        x as i32
    }
}

/// Appends a line made of two texts.
fn text_pair_ln(b: &mut EscPosBuilder, first: &str, second: &str)
    ensures
        final(b).buffer@ == old(b).buffer@ + ln(first@ + second@),
{
    b.text(first).text_ln(second);
    proof {
        lemma_encode_utf8_concat(first@, second@);
    }
}

fn note_text(theme: TicketTheme, color: &str, n: &str) -> (res: String)
    ensures
        res@ == note_line(theme, color@, n@),
{
    let mut v: Vec<char> = Vec::new();
    match theme {
        TicketTheme::Minimal => {
            if str_eq(color, "red") {
                push_str_chars(&mut v, "  ");
            } else {
                push_str_chars(&mut v, "**");
            }
        },
        TicketTheme::Modern => {
            push_str_chars(&mut v, "  ");
            if str_eq(color, "bold") {
                push_str_chars(&mut v, "**");
            } else {
                push_str_chars(&mut v, "→");
            }
            push_str_chars(&mut v, " ");
        },
        TicketTheme::Classic => {
            if str_eq(color, "red") {
                push_str_chars(&mut v, "  [紅] ");
            } else {
                push_str_chars(&mut v, "  **");
            }
        },
    }
    push_str_chars(&mut v, n);
    string_of(&v)
}

fn item_text(theme: TicketTheme, item: &TemplateItem) -> (res: String)
    ensures
        res@ == ({
            let name = text_or_empty(item.name);
            let q = int_text(clamp_i32(item.qty_whole));
            match theme {
                TicketTheme::Modern => if item.qty_is_one { "[1] "@ + name } else { "["@ + q + "] "@ + name },
                _ => if item.qty_is_one { name } else { name + " x"@ + q },
            }
        }),
{
    proof {
        reveal_strlit("");
    }
    let name: &str = opt_str(&item.name, "");
    let q = i64_text(clamped_qty(item.qty_whole) as i64);
    let mut v: Vec<char> = Vec::new();
    match theme {
        TicketTheme::Modern => {
            if item.qty_is_one {
                push_str_chars(&mut v, "[1] ");
            } else {
                push_str_chars(&mut v, "[");
                push_all(&mut v, &q);
                push_str_chars(&mut v, "] ");
            }
            push_str_chars(&mut v, name);
        },
        _ => {
            push_str_chars(&mut v, name);
            if !item.qty_is_one {
                push_str_chars(&mut v, " x");
                push_all(&mut v, &q);
            }
        },
    }
    proof {
        assert(""@ =~= Seq::<char>::empty());
    }
    string_of(&v)
}

fn push_themed_item(b: &mut EscPosBuilder, theme: TicketTheme, color: &str, item: &TemplateItem)
    ensures
        final(b).buffer@ == old(b).buffer@ + themed_item_bytes(theme, color@, *item),
{
    let line = item_text(theme, item);
    b.text_ln(line.as_str());
    match &item.note {
        Some(n) => {
            let t = note_text(theme, color, n.as_str());
            b.text_ln(t.as_str());
        },
        None => {},
    }
}

fn push_tagline(b: &mut EscPosBuilder, tagline: &str)
    ensures
        final(b).buffer@ == old(b).buffer@ + tagline_bytes(tagline@),
{
    if !tagline.is_empty() {
        b.text_ln(tagline);
    }
}

fn push_minimal_head(b: &mut EscPosBuilder, name: &str, tagline: &str, order_no: &str, dine_type: &str, w: usize)
    ensures
        final(b).buffer@ == old(b).buffer@ + minimal_head(name@, tagline@, order_no@, dine_type@, w as nat),
{
    b.align_center().bold_on().double_height().text_ln(name).normal_size().bold_off();
    push_tagline(b, tagline);
    b.separator(w);
    text_pair_ln(b, "單號: ", order_no);
    text_pair_ln(b, "類型: ", dine_type);
    b.separator(w);
    b.bold_on().text_ln("項目").bold_off();
}

fn push_modern_head(b: &mut EscPosBuilder, name: &str, tagline: &str, order_no: &str, dine_type: &str, w: usize, now: &str)
    ensures
        final(b).buffer@ == old(b).buffer@ + modern_head(name@, tagline@, order_no@, dine_type@, w as nat, now@),
{
    b.align_center().separator(w).bold_on().text_ln(name).bold_off();
    push_tagline(b, tagline);
    b.separator(w).align_left();
    text_pair_ln(b, "NO: ", order_no);
    text_pair_ln(b, "TYPE: ", dine_type);
    b.text_ln(now).separator(w);
}

fn push_classic_head(b: &mut EscPosBuilder, name: &str, tagline: &str, order_no: &str, dine_type: &str, w: usize, now: &str)
    ensures
        final(b).buffer@ == old(b).buffer@ + classic_head(name@, tagline@, order_no@, dine_type@, w as nat, now@),
{
    let ghost start = b.buffer@;
    b.align_center().bold_on().double_height().text_ln(name).normal_size().bold_off();
    push_tagline(b, tagline);
    b.separator(w).align_left();
    let ghost first = seq![0x1Bu8, 0x61, 1] + seq![0x1Bu8, 0x45, 1] + seq![0x1Du8, 0x21, 0x01] + ln(name@)
        + seq![0x1Du8, 0x21, 0x00] + seq![0x1Bu8, 0x45, 0] + tagline_bytes(tagline@) + rule(w as nat) + seq![0x1Bu8, 0x61, 0];
    assert(b.buffer@ =~= start + first);
    let ghost mid = b.buffer@;
    text_pair_ln(b, "單號: ", order_no);
    text_pair_ln(b, "類型: ", dine_type);
    b.text_ln(now).separator(w);
    b.bold_on().text_ln("項目明細").bold_off();
    assert(b.buffer@ =~= mid + ln("單號: "@ + order_no@) + ln("類型: "@ + dine_type@) + ln(now@) + rule(w as nat)
        + seq![0x1Bu8, 0x45, 1] + ln("項目明細"@) + seq![0x1Bu8, 0x45, 0]);
}

fn push_themed_tail(b: &mut EscPosBuilder, theme: TicketTheme, note: &Option<String>, w: usize)
    ensures
        final(b).buffer@ == old(b).buffer@ + themed_tail_bytes(theme, *note, w as nat),
{
    match theme {
        TicketTheme::Minimal => {
            match note {
                Some(n) => {
                    b.separator(w).bold_on();
                    text_pair_ln(b, "備註: ", n.as_str());
                    b.bold_off();
                },
                None => {},
            }
        },
        TicketTheme::Modern => {
            match note {
                Some(n) => {
                    b.separator(w);
                    text_pair_ln(b, "備註: ", n.as_str());
                },
                None => {},
            }
            b.separator(w);
        },
        TicketTheme::Classic => {
            b.separator(w);
            match note {
                Some(n) => {
                    b.bold_on();
                    text_pair_ln(b, "訂單備註: ", n.as_str());
                    b.bold_off();
                },
                None => {},
            }
        },
    }
    b.feed_lines(3).cut_paper();
}

/// The kitchen ticket printed from a template in its theme: heading, order data,
/// `now` as the printing time (modern and classic looks), one line per item with
/// its note, the order note, then feed and cut.
pub fn render_kitchen_ticket_from_template(
    style: &TicketStyle,
    order: &TicketOrder,
    items: &[TemplateItem],
    paper_size: &str,
    now: &str,
) -> (res: EscPosBuilder)
    ensures
        res.buffer@ == themed_ticket_bytes(*style, *order, items@, paper_size@, now@),
{
    proof {
        reveal_strlit("");
    }
    let theme = theme_kind(opt_str(&style.theme, "classic"));
    let name = opt_str(&style.restaurant_name, "Cuckoo");
    let tagline = opt_str(&style.tagline, "");
    let color = opt_str(&style.modifiers_color, "red");
    let order_no = opt_str(&order.order_no, "");
    let dine_type = opt_str(&order.dine_type, "");
    let w: usize = if str_eq(paper_size, "58mm") { 32 } else { 48 };
    proof {
        assert(""@ =~= Seq::<char>::empty());
    }
    let mut b = EscPosBuilder::new();
    match theme {
        TicketTheme::Minimal => push_minimal_head(&mut b, name, tagline, order_no, dine_type, w),
        TicketTheme::Modern => push_modern_head(&mut b, name, tagline, order_no, dine_type, w, now),
        TicketTheme::Classic => push_classic_head(&mut b, name, tagline, order_no, dine_type, w, now),
    }
    let ghost head = b.buffer@;
    assert(head == themed_head_bytes(theme, name@, tagline@, *order, w as nat, now@));
    let mut i: usize = 0;
    while i < items.len()
        invariant
            i <= items.len(),
            b.buffer@ == head + themed_items_bytes(theme, color@, items@.take(i as int)),
        decreases items.len() - i,
    {
        assert(items@.take(i + 1).drop_last() =~= items@.take(i as int));
        push_themed_item(&mut b, theme, color, &items[i]);
        assert(b.buffer@ =~= head + themed_items_bytes(theme, color@, items@.take(i + 1)));
        i = i + 1;
    }
    assert(items@.take(items.len() as int) =~= items@);
    push_themed_tail(&mut b, theme, &order.note, w);
    b
}

/// Whether the bytes `t` occur as one unbroken stretch of `s`.
pub open spec fn holds_run(s: Seq<u8>, t: Seq<u8>) -> bool {
    exists|i: int| 0 <= i && i + t.len() <= s.len() && #[trigger] s.subrange(i, i + t.len()) == t
}

proof fn lemma_run_at_end(x: Seq<u8>, t: Seq<u8>)
    ensures
        holds_run(x + t, t),
{
    assert((x + t).subrange(x.len() as int, (x.len() + t.len()) as int) =~= t);
}

proof fn lemma_run_extend(s: Seq<u8>, t: Seq<u8>, y: Seq<u8>)
    requires
        holds_run(s, t),
    ensures
        holds_run(s + y, t),
{
    let i = choose|i: int| 0 <= i && i + t.len() <= s.len() && #[trigger] s.subrange(i, i + t.len()) == t;
    assert((s + y).subrange(i, i + t.len()) =~= s.subrange(i, i + t.len()));
}

proof fn lemma_run_prepend(x: Seq<u8>, s: Seq<u8>, t: Seq<u8>)
    requires
        holds_run(s, t),
    ensures
        holds_run(x + s, t),
{
    let i = choose|i: int| 0 <= i && i + t.len() <= s.len() && #[trigger] s.subrange(i, i + t.len()) == t;
    assert((x + s).subrange(x.len() + i, x.len() + i + t.len()) =~= s.subrange(i, i + t.len()));
}

/// The order lines of each heading: the line with the order number and the line
/// with the dining type both appear in it.
proof fn lemma_head_shows_order(theme: TicketTheme, name: Seq<char>, tagline: Seq<char>, no: Seq<char>, dt: Seq<char>, w: nat, now: Seq<char>)
    ensures
        theme == TicketTheme::Modern ==> holds_run(modern_head(name, tagline, no, dt, w, now), ln("NO: "@ + no))
            && holds_run(modern_head(name, tagline, no, dt, w, now), ln("TYPE: "@ + dt)),
        theme == TicketTheme::Minimal ==> holds_run(minimal_head(name, tagline, no, dt, w), ln("單號: "@ + no))
            && holds_run(minimal_head(name, tagline, no, dt, w), ln("類型: "@ + dt)),
        theme == TicketTheme::Classic ==> holds_run(classic_head(name, tagline, no, dt, w, now), ln("單號: "@ + no))
            && holds_run(classic_head(name, tagline, no, dt, w, now), ln("類型: "@ + dt)),
{
    let bold_on = seq![0x1Bu8, 0x45, 1];
    let bold_off = seq![0x1Bu8, 0x45, 0];
    let center = seq![0x1Bu8, 0x61, 1];
    let left = seq![0x1Bu8, 0x61, 0];
    let big = seq![0x1Du8, 0x21, 0x01];
    let small = seq![0x1Du8, 0x21, 0x00];
    if theme == TicketTheme::Minimal {
        let p = center + bold_on + big + ln(name) + small + bold_off + tagline_bytes(tagline) + rule(w);
        let a = ln("單號: "@ + no);
        let b = ln("類型: "@ + dt);
        lemma_run_at_end(p, a);
        lemma_run_extend(p + a, a, b);
        lemma_run_at_end(p + a, b);
        lemma_run_extend(p + a + b, a, rule(w));
        lemma_run_extend(p + a + b, b, rule(w));
        lemma_run_extend(p + a + b + rule(w), a, bold_on);
        lemma_run_extend(p + a + b + rule(w), b, bold_on);
        lemma_run_extend(p + a + b + rule(w) + bold_on, a, ln("項目"@));
        lemma_run_extend(p + a + b + rule(w) + bold_on, b, ln("項目"@));
        lemma_run_extend(p + a + b + rule(w) + bold_on + ln("項目"@), a, bold_off);
        lemma_run_extend(p + a + b + rule(w) + bold_on + ln("項目"@), b, bold_off);
    } else if theme == TicketTheme::Modern {
        let p = center + rule(w) + bold_on + ln(name) + bold_off + tagline_bytes(tagline) + rule(w) + left;
        let a = ln("NO: "@ + no);
        let b = ln("TYPE: "@ + dt);
        lemma_run_at_end(p, a);
        lemma_run_extend(p + a, a, b);
        lemma_run_at_end(p + a, b);
        lemma_run_extend(p + a + b, a, ln(now));
        lemma_run_extend(p + a + b, b, ln(now));
        lemma_run_extend(p + a + b + ln(now), a, rule(w));
        lemma_run_extend(p + a + b + ln(now), b, rule(w));
    } else {
        let p = center + bold_on + big + ln(name) + small + bold_off + tagline_bytes(tagline) + rule(w) + left;
        let a = ln("單號: "@ + no);
        let b = ln("類型: "@ + dt);
        lemma_run_at_end(p, a);
        lemma_run_extend(p + a, a, b);
        lemma_run_at_end(p + a, b);
        lemma_run_extend(p + a + b, a, ln(now));
        lemma_run_extend(p + a + b, b, ln(now));
        lemma_run_extend(p + a + b + ln(now), a, rule(w));
        lemma_run_extend(p + a + b + ln(now), b, rule(w));
        lemma_run_extend(p + a + b + ln(now) + rule(w), a, bold_on);
        lemma_run_extend(p + a + b + ln(now) + rule(w), b, bold_on);
        lemma_run_extend(p + a + b + ln(now) + rule(w) + bold_on, a, ln("項目明細"@));
        lemma_run_extend(p + a + b + ln(now) + rule(w) + bold_on, b, ln("項目明細"@));
        lemma_run_extend(p + a + b + ln(now) + rule(w) + bold_on + ln("項目明細"@), a, bold_off);
        lemma_run_extend(p + a + b + ln(now) + rule(w) + bold_on + ln("項目明細"@), b, bold_off);
    }
}

/// Every kitchen ticket printed from a template shows the order's number and
/// dining type on lines of their own: `NO: ` and `TYPE: ` in the modern look,
/// `單號: ` and `類型: ` in the minimal and classic looks (classic is the look when
/// the template names none, or one it does not know); an absent number or type
/// prints as empty.
pub proof fn law_ticket_shows_order(style: TicketStyle, order: TicketOrder, items: Seq<TemplateItem>, paper: Seq<char>, now: Seq<char>)
    ensures
        ({
            let bytes = themed_ticket_bytes(style, order, items, paper, now);
            let no = match order.order_no { Some(n) => n@, None => Seq::<char>::empty() };
            let dt = match order.dine_type { Some(d) => d@, None => Seq::<char>::empty() };
            let modern = style.theme is Some && style.theme->0@ == "modern"@;
            &&& modern ==> holds_run(bytes, ln("NO: "@ + no)) && holds_run(bytes, ln("TYPE: "@ + dt))
            &&& !modern ==> holds_run(bytes, ln("單號: "@ + no)) && holds_run(bytes, ln("類型: "@ + dt))
        }),
{
    reveal_strlit("classic");
    reveal_strlit("modern");
    reveal_strlit("minimal");
    assert("classic"@.len() != "modern"@.len());
    let theme = theme_of(text_or(style.theme, "classic"@));
    let w = line_width(paper);
    let name = text_or(style.restaurant_name, "Cuckoo"@);
    let tagline = text_or_empty(style.tagline);
    let no = text_or_empty(order.order_no);
    let dt = text_or_empty(order.dine_type);
    let head = themed_head_bytes(theme, name, tagline, order, w, now);
    let items_b = themed_items_bytes(theme, text_or(style.modifiers_color, "red"@), items);
    let tail = themed_tail_bytes(theme, order.note, w);
    lemma_head_shows_order(theme, name, tagline, no, dt, w, now);
    let (a, b) = if theme == TicketTheme::Modern {
        (ln("NO: "@ + no), ln("TYPE: "@ + dt))
    } else {
        (ln("單號: "@ + no), ln("類型: "@ + dt))
    };
    let h = match theme {
        TicketTheme::Minimal => minimal_head(name, tagline, no, dt, w),
        TicketTheme::Modern => modern_head(name, tagline, no, dt, w, now),
        TicketTheme::Classic => classic_head(name, tagline, no, dt, w, now),
    };
    assert(head == seq![0x1Bu8, 0x40] + h);
    lemma_run_prepend(seq![0x1Bu8, 0x40], h, a);
    lemma_run_prepend(seq![0x1Bu8, 0x40], h, b);
    lemma_run_extend(head, a, items_b);
    lemma_run_extend(head, b, items_b);
    lemma_run_extend(head + items_b, a, tail);
    lemma_run_extend(head + items_b, b, tail);
    assert((theme == TicketTheme::Modern) == (style.theme is Some && style.theme->0@ == "modern"@));
}

} // verus!
