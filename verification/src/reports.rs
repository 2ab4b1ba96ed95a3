//! CSV exports of the sales and stock reports.

use vstd::prelude::*;
use crate::codec::csv_quoted;
use crate::orders::join_seq;
use crate::text::{chars_of, push_str_chars, str_eq, string_of};

verus! {

/// A report that can be exported.
#[derive(PartialEq, Eq, Structural, Clone, Copy, Debug)]
pub enum ReportKind {
    /// Sales per day.
    Sales,
    /// Sales per menu category.
    Category,
    /// The best-selling menu items.
    TopItems,
    /// Material consumption.
    Material,
}

/// The report a request names.
pub open spec fn report_kind_of(name: Seq<char>) -> Option<ReportKind> {
    if name == "sales"@ {
        Some(ReportKind::Sales)
    } else if name == "category"@ {
        Some(ReportKind::Category)
    } else if name == "top_items"@ {
        Some(ReportKind::TopItems)
    } else if name == "material"@ {
        Some(ReportKind::Material)
    } else {
        None
    }
}

/// Reads the report type of an export request; an unknown type is refused.
pub fn report_kind(report_type: &str) -> (res: Result<ReportKind, String>)
    ensures
        match report_kind_of(report_type@) {
            Some(k) => res == Ok::<ReportKind, String>(k),
            None => res is Err && res->Err_0@ == "不支持的报告类型: "@ + report_type@,
        },
{
    if str_eq(report_type, "sales") {
        Ok(ReportKind::Sales)
    } else if str_eq(report_type, "category") {
        Ok(ReportKind::Category)
    } else if str_eq(report_type, "top_items") {
        Ok(ReportKind::TopItems)
    } else if str_eq(report_type, "material") {
        Ok(ReportKind::Material)
    } else {
        let mut v = chars_of("不支持的报告类型: ");
        push_str_chars(&mut v, report_type);
        Err(string_of(&v))
    }
}

/// The header line of a report.
pub open spec fn header_text(kind: ReportKind) -> Seq<char> {
    match kind {
        ReportKind::Sales => "日期,销售额,订单数,实收"@,
        ReportKind::Category => "分类,销售额,订单数"@,
        ReportKind::TopItems => "菜品,销量,订单数,销售额"@,
        ReportKind::Material => "原料,消耗数量,平均成本,总成本"@,
    }
}

/// The header line of a report.
pub fn report_header(kind: ReportKind) -> (res: &'static str)
    ensures
        res@ == header_text(kind),
{
    match kind {
        ReportKind::Sales => "日期,销售额,订单数,实收",
        ReportKind::Category => "分类,销售额,订单数",
        ReportKind::TopItems => "菜品,销量,订单数,销售额",
        ReportKind::Material => "原料,消耗数量,平均成本,总成本",
    }
}

/// One report row: the quoted label, then the figures as already formatted,
/// separated by commas.
pub open spec fn row_text(label: Seq<char>, figures: Seq<String>) -> Seq<char> {
    join_seq(seq![csv_quoted(label)] + Seq::new(figures.len(), |k: int| figures[k]@), ","@)
}

/// One report row.
pub fn report_row(label: &str, figures: &[String]) -> (res: String)
    ensures
        res@ == row_text(label@, figures@),
{
    let q = crate::codec::csv_quote(label);
    let mut v = chars_of(q.as_str());
    let ghost start = v@;
    let mut i: usize = 0;
    while i < figures.len()
        invariant
            i <= figures.len(),
            start == csv_quoted(label@),
            v@ == join_seq(seq![start] + Seq::new(i as nat, |k: int| figures@[k]@), ","@),
        decreases figures.len() - i,
    {
        let ghost before = seq![start] + Seq::new(i as nat, |k: int| figures@[k]@);
        let ghost after = seq![start] + Seq::new((i + 1) as nat, |k: int| figures@[k]@);
        assert(after.drop_last() =~= before);
        push_str_chars(&mut v, ",");
        push_str_chars(&mut v, figures[i].as_str());
        assert(v@ =~= join_seq(after, ","@));
        i = i + 1;
    }
    proof {
        if figures@.len() == 0 {
            assert(seq![start] + Seq::new(0nat, |k: int| figures@[k]@) =~= seq![start]);
        }
    }
    string_of(&v)
}

/// The CSV document: the header line, then the rows, one per line.
pub fn report_document(kind: ReportKind, rows: &[String]) -> (res: String)
    ensures
        res@ == join_seq(seq![header_text(kind)] + Seq::new(rows@.len(), |k: int| rows@[k]@), "\n"@),
{
    let mut v = chars_of(report_header(kind));
    let ghost start = v@;
    let mut i: usize = 0;
    while i < rows.len()
        invariant
            i <= rows.len(),
            start == header_text(kind),
            v@ == join_seq(seq![start] + Seq::new(i as nat, |k: int| rows@[k]@), "\n"@),
        decreases rows.len() - i,
    {
        let ghost before = seq![start] + Seq::new(i as nat, |k: int| rows@[k]@);
        let ghost after = seq![start] + Seq::new((i + 1) as nat, |k: int| rows@[k]@);
        assert(after.drop_last() =~= before);
        push_str_chars(&mut v, "\n");
        push_str_chars(&mut v, rows[i].as_str());
        assert(v@ =~= join_seq(after, "\n"@));
        i = i + 1;
    }
    proof {
        if rows@.len() == 0 {
            assert(seq![start] + Seq::new(0nat, |k: int| rows@[k]@) =~= seq![start]);
        }
    }
    string_of(&v)
}

} // verus!
