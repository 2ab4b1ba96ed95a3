//! Marketing codes: single-use redemption, character collecting and campaign
//! coupons.

use vstd::prelude::*;
use crate::numtext::{i64_text, int_text};
use crate::orders::join_seq;
use crate::text::{chars_of, owned, push_all, push_str_chars, string_of, trim_seq, trim_str};

verus! {

/// What checking a scanned marketing code gave.
pub enum MarketingToken {
    /// The signature does not verify.
    BadSignature,
    /// A genuine code that is not a marketing code.
    NotMarketing,
    /// A genuine marketing code: the order (or campaign) it was issued for, the
    /// marketing component and its character or coupon kind.
    Marketing { order_id: i64, component: String, ch: String },
}

/// Why a marketing code, or a set of them, is refused.
#[derive(PartialEq, Eq, Structural, Clone, Copy, Debug)]
pub enum RejectReason {
    /// No code was given.
    Empty,
    /// A signature does not verify.
    InvalidSignature,
    /// A genuine code that is not a marketing code.
    NotMarketingToken,
    /// A code that was already redeemed.
    AlreadyVoid,
}

/// The reason as it is reported to the user interface.
pub open spec fn reason_code(r: RejectReason) -> Seq<char> {
    match r {
        RejectReason::Empty => "empty"@,
        RejectReason::InvalidSignature => "invalid_signature"@,
        RejectReason::NotMarketingToken => "not_marketing_token"@,
        RejectReason::AlreadyVoid => "already_void"@,
    }
}

impl RejectReason {
    /// The reason as it is reported to the user interface.
    pub fn code(&self) -> (res: &'static str)
        ensures
            res@ == reason_code(*self),
    {
        match self {
            RejectReason::Empty => "empty",
            RejectReason::InvalidSignature => "invalid_signature",
            RejectReason::NotMarketingToken => "not_marketing_token",
            RejectReason::AlreadyVoid => "already_void",
        }
    }
}

/// The answer to a request to redeem one marketing code.
pub enum RedeemVerdict {
    /// The code is refused.
    Refused(RejectReason),
    /// The code was redeemed before.
    Already { order_id: i64, component: String, ch: String },
    /// The code is redeemed now: it is voided and the redemption recorded.
    Redeem { order_id: i64, component: String, ch: String },
}

/// Whether the stored void flag marks a code as used.
pub open spec fn is_void(void: Option<i64>) -> bool {
    void == Some(1i64)
}

/// The answer to redeeming `token`, whose stored void flag is `void` (`None`
/// when the code was never stored): a forged or foreign code is refused, a
/// voided one was redeemed before, any other is redeemed now.
pub open spec fn redeem_verdict_of(token: MarketingToken, void: Option<i64>) -> RedeemVerdict {
    match token {
        MarketingToken::BadSignature => RedeemVerdict::Refused(RejectReason::InvalidSignature),
        MarketingToken::NotMarketing => RedeemVerdict::Refused(RejectReason::NotMarketingToken),
        MarketingToken::Marketing { order_id, component, ch } => if is_void(void) {
            RedeemVerdict::Already { order_id, component, ch }
        } else {
            RedeemVerdict::Redeem { order_id, component, ch }
        },
    }
}

/// Decides a request to redeem one marketing code; the same answer, read as
/// "already void" or not, is what peeking at a code reports.
pub fn redeem_verdict(token: MarketingToken, void: Option<i64>) -> (res: RedeemVerdict)
    ensures
        res == redeem_verdict_of(token, void),
{
    match token {
        MarketingToken::BadSignature => RedeemVerdict::Refused(RejectReason::InvalidSignature),
        MarketingToken::NotMarketing => RedeemVerdict::Refused(RejectReason::NotMarketingToken),
        MarketingToken::Marketing { order_id, component, ch } => {
            let used = match void {
                Some(v) => v == 1,
                None => false,
            };
            if used {
                RedeemVerdict::Already { order_id, component, ch }
            } else {
                RedeemVerdict::Redeem { order_id, component, ch }
            }
        },
    }
}

/// A marketing code is single-use: once a redemption has voided it, every later
/// request for it is answered "already redeemed", with the same order, component
/// and character.
pub proof fn law_redeem_once(token: MarketingToken, void: Option<i64>)
    requires
        redeem_verdict_of(token, void) is Redeem,
    ensures
        match (redeem_verdict_of(token, void), redeem_verdict_of(token, Some(1i64))) {
            (RedeemVerdict::Redeem { order_id: o1, component: c1, ch: h1 }, RedeemVerdict::Already { order_id: o2, component: c2, ch: h2 }) =>
                o1 == o2 && c1 == c2 && h1 == h2,
            _ => false,
        },
{
}

/// Whether a scanned code of a collected set may be redeemed: a genuine
/// marketing code that was not used before.
pub open spec fn collectable(item: (MarketingToken, Option<i64>)) -> bool {
    item.0 is Marketing && !is_void(item.1)
}

/// Why a scanned code of a set is refused.
pub open spec fn refusal_of(item: (MarketingToken, Option<i64>)) -> RejectReason {
    match item.0 {
        MarketingToken::BadSignature => RejectReason::InvalidSignature,
        MarketingToken::NotMarketing => RejectReason::NotMarketingToken,
        MarketingToken::Marketing { .. } => RejectReason::AlreadyVoid,
    }
}

/// The answer to redeeming a collected set of codes at once.
pub enum CollectVerdict {
    /// The set is refused; for a code used before, its character is given.
    Refused { reason: RejectReason, ch: Option<String> },
    /// Every code is voided and one set redemption is recorded against the first
    /// code's order; the collected characters, in scan order.
    Accepted { chars: Vec<String>, first_order_id: i64 },
}

/// Whether `k` is the first code of `items` that cannot be collected.
pub open spec fn first_refused(items: Seq<(MarketingToken, Option<i64>)>, k: int) -> bool {
    &&& 0 <= k < items.len()
    &&& !collectable(items[k])
    &&& forall|j: int| 0 <= j < k ==> #[trigger] collectable(items[j])
}

/// The character of a marketing code.
pub open spec fn char_of(t: MarketingToken) -> Seq<char> {
    match t {
        MarketingToken::Marketing { ch, .. } => ch@,
        _ => Seq::empty(),
    }
}

/// The order id of a marketing code.
pub open spec fn order_of(t: MarketingToken) -> i64 {
    match t {
        MarketingToken::Marketing { order_id, .. } => order_id,
        _ => 0,
    }
}

/// Decides a collected set of codes, each given with its stored void flag: an
/// empty set is refused; otherwise the first code, in scan order, that is forged,
/// foreign or used decides the refusal; when there is none the set is accepted.
/// Nothing is voided unless every code is accepted.
pub fn collect_verdict(items: &[(MarketingToken, Option<i64>)]) -> (res: CollectVerdict)
    ensures
        items@.len() == 0 ==> res == (CollectVerdict::Refused { reason: RejectReason::Empty, ch: None }),
        items@.len() > 0 ==> match res {
            CollectVerdict::Refused { reason, ch } => exists|k: int| #[trigger] first_refused(items@, k)
                && reason == refusal_of(items@[k])
                && (reason == RejectReason::AlreadyVoid ==> ch is Some && ch->0@ == char_of(items@[k].0))
                && (reason != RejectReason::AlreadyVoid ==> ch is None),
            CollectVerdict::Accepted { chars, first_order_id } => (forall|k: int| 0 <= k < items@.len() ==> #[trigger] collectable(items@[k]))
                && chars@.len() == items@.len()
                && (forall|k: int| 0 <= k < chars@.len() ==> #[trigger] chars@[k]@ == char_of(items@[k].0))
                && first_order_id == order_of(items@[0].0),
        },
{
    if items.len() == 0 {
        return CollectVerdict::Refused { reason: RejectReason::Empty, ch: None };
    }
    let mut chars: Vec<String> = Vec::new();
    let mut i: usize = 0;
    while i < items.len()
        invariant
            i <= items.len(),
            chars@.len() == i,
            forall|k: int| 0 <= k < i ==> #[trigger] collectable(items@[k]),
            forall|k: int| 0 <= k < i ==> #[trigger] chars@[k]@ == char_of(items@[k].0),
        decreases items.len() - i,
    {
        match &items[i].0 {
            MarketingToken::BadSignature => {
                assert(first_refused(items@, i as int));
                return CollectVerdict::Refused { reason: RejectReason::InvalidSignature, ch: None };
            },
            MarketingToken::NotMarketing => {
                assert(first_refused(items@, i as int));
                return CollectVerdict::Refused { reason: RejectReason::NotMarketingToken, ch: None };
            },
            MarketingToken::Marketing { ch, .. } => {
                let used = match items[i].1 {
                    Some(v) => v == 1,
                    None => false,
                };
                if used {
                    assert(first_refused(items@, i as int));
                    return CollectVerdict::Refused { reason: RejectReason::AlreadyVoid, ch: Some(ch.clone()) };
                }
                chars.push(ch.clone());
            },
        }
        i = i + 1;
    }
    let first = match &items[0].0 {
        MarketingToken::Marketing { order_id, .. } => *order_id,
        _ => 0,
    };
    CollectVerdict::Accepted { chars, first_order_id: first }
}

/// The note recorded with a set redemption: the collected characters in order.
pub fn collect_note(chars: &[String]) -> (res: String)
    ensures
        res@ == "集字兑换:"@ + join_seq(Seq::new(chars@.len(), |k: int| chars@[k]@), Seq::empty()),
{
    let mut v = chars_of("集字兑换:");
    let ghost start = v@;
    let mut i: usize = 0;
    while i < chars.len()
        invariant
            i <= chars.len(),
            start == "集字兑换:"@,
            v@ == start + join_seq(Seq::new(i as nat, |k: int| chars@[k]@), Seq::empty()),
        decreases chars.len() - i,
    {
        let ghost before = Seq::new(i as nat, |k: int| chars@[k]@);
        let ghost after = Seq::new((i + 1) as nat, |k: int| chars@[k]@);
        assert(after.drop_last() =~= before);
        push_str_chars(&mut v, chars[i].as_str());
        proof {
            if i == 0 {
                assert(join_seq(after, Seq::empty()) == after[0]);
            } else {
                assert(join_seq(after, Seq::empty()) == join_seq(before, Seq::empty()) + Seq::<char>::empty() + after.last());
            }
            assert(v@ =~= start + join_seq(after, Seq::empty()));
        }
        i = i + 1;
    }
    string_of(&v)
}

/// What scanning a campaign poster gives.
#[derive(PartialEq, Eq, Structural, Clone, Copy, Debug)]
pub enum CouponDecision {
    /// No such campaign.
    Invalid,
    /// The campaign is switched off.
    Inactive,
    /// Today's coupons of the campaign are all given out.
    DailyLimitReached,
    /// A fresh single-use coupon is issued.
    Issue,
}

/// What scanning a campaign poster gives: `campaign` holds the stored active flag
/// and daily limit (0 for none) when the campaign exists, and `issued_today` the
/// number of its coupons issued today.
pub open spec fn coupon_decision_of(campaign: Option<(i64, i64)>, issued_today: i64) -> CouponDecision {
    match campaign {
        None => CouponDecision::Invalid,
        Some((active, limit)) => if active != 1 {
            CouponDecision::Inactive
        } else if limit > 0 && issued_today >= limit {
            CouponDecision::DailyLimitReached
        } else {
            CouponDecision::Issue
        },
    }
}

/// Decides whether a campaign coupon is issued.
pub fn coupon_decision(campaign: Option<(i64, i64)>, issued_today: i64) -> (res: CouponDecision)
    ensures
        res == coupon_decision_of(campaign, issued_today),
{
    match campaign {
        None => CouponDecision::Invalid,
        Some((active, limit)) => {
            if active != 1 {
                CouponDecision::Inactive
            } else if limit > 0 && issued_today >= limit {
                CouponDecision::DailyLimitReached
            } else {
                CouponDecision::Issue
            }
        },
    }
}

/// A campaign with a daily limit never issues more than that many coupons in a
/// day: at the limit, the next scan is refused.
pub proof fn law_daily_limit(active: i64, limit: i64, issued_today: i64)
    requires
        limit > 0,
        coupon_decision_of(Some((active, limit)), issued_today) == CouponDecision::Issue,
    ensures
        issued_today < limit,
        coupon_decision_of(Some((active, limit)), limit) == CouponDecision::DailyLimitReached,
{
}

/// The character a receipt shows for a character-collecting game: the one the
/// seed picks among the game's characters; none when the game has none.
pub fn picked_char(chars: &[String], seed: u64) -> (res: Option<String>)
    ensures
        chars@.len() == 0 ==> res is None,
        chars@.len() > 0 ==> res is Some && res->0@ == chars@[(seed as int) % (chars@.len() as int)]@,
{
    if chars.len() == 0 {
        return None;
    }
    let n: u64 = chars.len() as u64;
    let k: u64 = seed % n;
    Some(chars[k as usize].clone())
}

/// The time window of the marketing funnel: the last `days` days, at least one.
pub open spec fn funnel_window_text(days: i64) -> Seq<char> {
    "-"@ + int_text(if days < 1 { 1 } else { days as int }) + " days"@
}

/// The time window of the marketing funnel, as the database's date modifier.
pub fn funnel_window(days: i64) -> (res: String)
    ensures
        res@ == funnel_window_text(days),
{
    let d: i64 = if days < 1 { 1 } else { days };
    let mut v = chars_of("-");
    let t = i64_text(d);
    push_all(&mut v, &t);
    push_str_chars(&mut v, " days");
    string_of(&v)
}

/// How an order is named when its number cannot be read: `#` and its id.
pub fn order_label(order_no: Option<String>, order_id: i64) -> (res: String)
    ensures
        match order_no {
            Some(n) => res@ == n@,
            None => res@ == "#"@ + int_text(order_id as int),
        },
{
    match order_no {
        Some(n) => n,
        None => {
            let mut v = chars_of("#");
            let t = i64_text(order_id);
            push_all(&mut v, &t);
            string_of(&v)
        },
    }
}

/// A campaign's name, trimmed; a blank name is refused.
pub fn campaign_name(name: &str) -> (res: Result<String, String>)
    ensures
        match res {
            Ok(n) => n@ == trim_seq(name@) && n@.len() > 0,
            Err(m) => trim_seq(name@).len() == 0 && m@ == "活动名称不能为空"@,
        },
{
    let t = trim_str(name);
    if t.as_str().is_empty() {
        Err(owned("活动名称不能为空"))
    } else {
        Ok(t)
    }
}

} // verus!
