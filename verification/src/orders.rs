//! Order lifecycle decisions: submitting to the kitchen, finishing tickets and
//! cancelling.

use vstd::prelude::*;
use crate::numtext::{i64_text, int_text, u64_text, dec_seq};
use crate::text::{chars_of, push_all, push_str_chars, str_eq, string_of};

verus! {

/// The values of `s` without repeats, each where it first occurs.
pub open spec fn distinct(s: Seq<i64>) -> Seq<i64>
    decreases s.len(),
{
    if s.len() == 0 {
        Seq::empty()
    } else {
        let d = distinct(s.drop_last());
        if d.contains(s.last()) {
            d
        } else {
            d.push(s.last())
        }
    }
}

/// Values of `distinct(s)` are the values of `s`, each once.
pub proof fn lemma_distinct(s: Seq<i64>)
    ensures
        distinct(s).no_duplicates(),
        forall|x: i64| distinct(s).contains(x) <==> s.contains(x),
    decreases s.len(),
{
    if s.len() > 0 {
        let t = s.drop_last();
        let y = s.last();
        lemma_distinct(t);
        let d = distinct(t);
        assert forall|x: i64| s.contains(x) <==> (t.contains(x) || x == y) by {
            if s.contains(x) {
                let k = choose|k: int| 0 <= k < s.len() && s[k] == x;
                if k < s.len() - 1 {
                    assert(t[k] == x);
                }
            }
            if t.contains(x) {
                let k = choose|k: int| 0 <= k < t.len() && t[k] == x;
                assert(s[k] == x);
            }
            if x == y {
                assert(s[s.len() - 1] == x);
            }
        }
        if !d.contains(y) {
            let e = d.push(y);
            assert forall|x: i64| e.contains(x) <==> (d.contains(x) || x == y) by {
                if e.contains(x) {
                    let k = choose|k: int| 0 <= k < e.len() && e[k] == x;
                    if k < d.len() {
                        assert(d[k] == x);
                    }
                }
                if d.contains(x) {
                    let k = choose|k: int| 0 <= k < d.len() && d[k] == x;
                    assert(e[k] == x);
                }
                if x == y {
                    assert(e[d.len() as int] == y);
                }
            }
            assert forall|i: int, j: int| 0 <= i < e.len() && 0 <= j < e.len() && i != j implies e[i] != e[j] by {
                if i < d.len() && j < d.len() {
                } else if i == d.len() {
                    assert(d[j] == e[j]);
                } else {
                    assert(d[i] == e[i]);
                }
            }
        }
    }
}

/// The stations that get a kitchen ticket when an order is submitted: each
/// station its items are mapped to, once; without any mapping, the first active
/// station, when there is one.
pub open spec fn ticket_stations(item_stations: Seq<i64>, default_station: Option<i64>) -> Seq<i64> {
    if item_stations.len() == 0 {
        match default_station {
            Some(d) => seq![d],
            None => Seq::empty(),
        }
    } else {
        distinct(item_stations)
    }
}

/// What submitting an order does. `status` is the order's status,
/// `item_stations` the stations its items are mapped to (one entry per mapping)
/// and `default_station` the first active station. An order that is no longer
/// pending is left as it is (`None`); otherwise the order becomes submitted and
/// gets one kitchen ticket per station listed.
pub fn submit_plan(status: &str, item_stations: &[i64], default_station: Option<i64>) -> (res: Option<Vec<i64>>)
    ensures
        status@ != "pending"@ ==> res is None,
        status@ == "pending"@ ==> res is Some && res->0@ == ticket_stations(item_stations@, default_station),
{
    if !str_eq(status, "pending") {
        return None;
    }
    if item_stations.len() == 0 {
        return match default_station {
            Some(d) => {
                let mut v: Vec<i64> = Vec::new();
                v.push(d);
                Some(v)
            },
            None => Some(Vec::new()),
        };
    }
    let mut out: Vec<i64> = Vec::new();
    let mut i: usize = 0;
    while i < item_stations.len()
        invariant
            i <= item_stations.len(),
            out@ == distinct(item_stations@.take(i as int)),
        decreases item_stations.len() - i,
    {
        let s = item_stations[i];
        let mut seen = false;
        let mut j: usize = 0;
        while j < out.len()
            invariant
                j <= out.len(),
                seen <==> exists|k: int| 0 <= k < j && out@[k] == s,
            decreases out.len() - j,
        {
            if out[j] == s {
                seen = true;
            }
            j = j + 1;
        }
        assert(item_stations@.take(i + 1).drop_last() =~= item_stations@.take(i as int));
        assert(seen <==> out@.contains(s));
        if !seen {
            out.push(s);
        }
        i = i + 1;
    }
    assert(item_stations@.take(item_stations.len() as int) =~= item_stations@);
    Some(out)
}

/// Each station gets at most one ticket per submitted order, and every station an
/// item is mapped to gets one.
pub proof fn law_one_ticket_per_station(item_stations: Seq<i64>, default_station: Option<i64>)
    ensures
        ticket_stations(item_stations, default_station).no_duplicates(),
        forall|s: i64| item_stations.contains(s) ==> ticket_stations(item_stations, default_station).contains(s),
{
    lemma_distinct(item_stations);
    if item_stations.len() == 0 {
        match default_station {
            Some(d) => {
                assert(seq![d].no_duplicates());
            },
            None => {},
        }
    }
}

/// Whether an order is ready once a ticket is finished: every one of its tickets,
/// given by status, is finished.
pub fn order_ready_after_finish(ticket_statuses: &[String]) -> (res: bool)
    ensures
        res <==> forall|k: int| 0 <= k < ticket_statuses@.len() ==> #[trigger] ticket_statuses@[k]@ == "finished"@,
{
    let mut i: usize = 0;
    while i < ticket_statuses.len()
        invariant
            i <= ticket_statuses.len(),
            forall|k: int| 0 <= k < i ==> #[trigger] ticket_statuses@[k]@ == "finished"@,
        decreases ticket_statuses.len() - i,
    {
        if !str_eq(ticket_statuses[i].as_str(), "finished") {
            return false;
        }
        i = i + 1;
    }
    true
}

/// How an order is cancelled.
#[derive(PartialEq, Eq, Structural, Clone, Copy, Debug)]
pub enum CancelAction {
    /// Already cancelled: nothing to do.
    Skip,
    /// Already served: its ingredients stay used up and it is marked cancelled.
    KeepConsumption,
    /// Not yet served: used-up stock is given back and it is marked cancelled.
    Release,
}

/// The way an order with the given status is cancelled in a batch.
pub open spec fn cancel_action_of(status: Seq<char>) -> CancelAction {
    if status == "cancelled"@ {
        CancelAction::Skip
    } else if status == "ready"@ {
        CancelAction::KeepConsumption
    } else {
        CancelAction::Release
    }
}

/// The way an order with status `status` is cancelled in a batch.
pub fn cancel_action(status: &str) -> (res: CancelAction)
    ensures
        res == cancel_action_of(status@),
{
    if str_eq(status, "cancelled") {
        CancelAction::Skip
    } else if str_eq(status, "ready") {
        CancelAction::KeepConsumption
    } else {
        CancelAction::Release
    }
}

/// The way a single order is cancelled from the till: a served order keeps its
/// ingredients used up.
pub fn cancel_action_for(is_served: bool) -> (res: CancelAction)
    ensures
        res == if is_served { CancelAction::KeepConsumption } else { CancelAction::Release },
{
    if is_served {
        CancelAction::KeepConsumption
    } else {
        CancelAction::Release
    }
}

/// `parts` joined with `sep` between them.
pub open spec fn join_seq(parts: Seq<Seq<char>>, sep: Seq<char>) -> Seq<char>
    decreases parts.len(),
{
    if parts.len() == 0 {
        Seq::empty()
    } else if parts.len() == 1 {
        parts[0]
    } else {
        join_seq(parts.drop_last(), sep) + sep + parts.last()
    }
}

/// How one failed cancellation is reported.
pub open spec fn failure_line(f: (i64, Seq<char>)) -> Seq<char> {
    "訂單 "@ + int_text(f.0 as int) + ": "@ + f.1
}

/// The failure lines of a batch, in order.
pub open spec fn failure_lines(failures: Seq<(i64, String)>) -> Seq<Seq<char>> {
    Seq::new(failures.len(), |k: int| failure_line((failures[k].0, failures[k].1@)))
}

/// The refusal of a batch in which some cancellations failed.
pub open spec fn batch_failure_text(failures: Seq<(i64, String)>) -> Seq<char> {
    "部分訂單取消失敗（"@ + dec_seq(failures.len()) + "）："@ + join_seq(failure_lines(failures), "；"@)
}

/// The outcome of cancelling a batch: the number cancelled when every attempt
/// succeeded, otherwise one refusal listing each failed order with its error.
pub fn batch_cancel_result(cancelled: usize, failures: &[(i64, String)]) -> (res: Result<usize, String>)
    ensures
        failures@.len() == 0 ==> res == Ok::<usize, String>(cancelled),
        failures@.len() > 0 ==> res is Err && res->Err_0@ == batch_failure_text(failures@),
{
    if failures.len() == 0 {
        return Ok(cancelled);
    }
    let mut body: Vec<char> = Vec::new();
    let mut i: usize = 0;
    while i < failures.len()
        invariant
            0 < failures@.len(),
            i <= failures.len(),
            body@ == join_seq(failure_lines(failures@.take(i as int)), "；"@),
        decreases failures.len() - i,
    {
        let ghost before = failure_lines(failures@.take(i as int));
        let ghost after = failure_lines(failures@.take(i + 1));
        assert(after.drop_last() =~= before);
        if i > 0 {
            push_str_chars(&mut body, "；");
        }
        push_str_chars(&mut body, "訂單 ");
        let d = i64_text(failures[i].0);
        push_all(&mut body, &d);
        push_str_chars(&mut body, ": ");
        push_str_chars(&mut body, failures[i].1.as_str());
        proof {
            if i == 0 {
                assert(before.len() == 0);
                assert(after.len() == 1);
            }
            assert(after.last() == failure_line((failures@[i as int].0, failures@[i as int].1@)));
        }
        i = i + 1;
    }
    assert(failures@.take(failures.len() as int) =~= failures@);
    let mut v = chars_of("部分訂單取消失敗（");
    let n = u64_text(failures.len() as u64);
    push_all(&mut v, &n);
    push_str_chars(&mut v, "）：");
    push_all(&mut v, &body);
    Err(string_of(&v))
}

} // verus!
