use cuckoo::marketing::campaign_name;
use cuckoo::marketing::{
    collect_note, collect_verdict, coupon_decision, funnel_window, order_label, picked_char, redeem_verdict,
    CollectVerdict, CouponDecision, MarketingToken, RedeemVerdict, RejectReason,
};

fn token(order_id: i64, ch: &str) -> MarketingToken {
    MarketingToken::Marketing { order_id, component: "character_collect".to_string(), ch: ch.to_string() }
}

#[test]
fn redeem_once_then_already() {
    match redeem_verdict(token(5, "恭"), None) {
        RedeemVerdict::Redeem { order_id, ch, .. } => {
            assert_eq!(order_id, 5);
            assert_eq!(ch, "恭");
        }
        _ => panic!("expected a redemption"),
    }
    match redeem_verdict(token(5, "恭"), Some(1)) {
        RedeemVerdict::Already { order_id, .. } => assert_eq!(order_id, 5),
        _ => panic!("expected already redeemed"),
    }
    assert!(matches!(redeem_verdict(token(5, "恭"), Some(0)), RedeemVerdict::Redeem { .. }));
}

#[test]
fn redeem_refusals() {
    assert!(matches!(
        redeem_verdict(MarketingToken::BadSignature, None),
        RedeemVerdict::Refused(RejectReason::InvalidSignature)
    ));
    assert!(matches!(
        redeem_verdict(MarketingToken::NotMarketing, Some(1)),
        RedeemVerdict::Refused(RejectReason::NotMarketingToken)
    ));
    assert_eq!(RejectReason::InvalidSignature.code(), "invalid_signature");
    assert_eq!(RejectReason::NotMarketingToken.code(), "not_marketing_token");
    assert_eq!(RejectReason::AlreadyVoid.code(), "already_void");
    assert_eq!(RejectReason::Empty.code(), "empty");
}

#[test]
fn collect_set_accepts_all_valid() {
    let items = vec![(token(3, "恭"), None), (token(4, "喜"), Some(0)), (token(5, "发"), None)];
    match collect_verdict(&items) {
        CollectVerdict::Accepted { chars, first_order_id } => {
            assert_eq!(chars, vec!["恭".to_string(), "喜".to_string(), "发".to_string()]);
            assert_eq!(first_order_id, 3);
            assert_eq!(collect_note(&chars), "集字兑换:恭喜发");
        }
        _ => panic!("expected acceptance"),
    }
}

#[test]
fn collect_set_first_failure_decides() {
    assert!(matches!(collect_verdict(&[]), CollectVerdict::Refused { reason: RejectReason::Empty, ch: None }));
    let items = vec![(token(3, "恭"), None), (token(4, "喜"), Some(1)), (MarketingToken::BadSignature, None)];
    match collect_verdict(&items) {
        CollectVerdict::Refused { reason, ch } => {
            assert_eq!(reason, RejectReason::AlreadyVoid);
            assert_eq!(ch, Some("喜".to_string()));
        }
        _ => panic!("expected refusal"),
    }
    let items = vec![(MarketingToken::NotMarketing, None), (token(4, "喜"), Some(1))];
    assert!(matches!(
        collect_verdict(&items),
        CollectVerdict::Refused { reason: RejectReason::NotMarketingToken, ch: None }
    ));
}

#[test]
fn campaign_coupons() {
    assert_eq!(coupon_decision(None, 0), CouponDecision::Invalid);
    assert_eq!(coupon_decision(Some((0, 0)), 0), CouponDecision::Inactive);
    assert_eq!(coupon_decision(Some((1, 0)), 1000), CouponDecision::Issue);
    assert_eq!(coupon_decision(Some((1, 5)), 4), CouponDecision::Issue);
    assert_eq!(coupon_decision(Some((1, 5)), 5), CouponDecision::DailyLimitReached);
}

#[test]
fn picked_character() {
    let chars: Vec<String> = ["恭", "喜", "发", "财"].iter().map(|s| s.to_string()).collect();
    assert_eq!(picked_char(&chars, 0), Some("恭".to_string()));
    assert_eq!(picked_char(&chars, 7), Some("财".to_string()));
    assert_eq!(picked_char(&[], 7), None);
}

#[test]
fn funnel_window_at_least_one_day() {
    assert_eq!(funnel_window(7), "-7 days");
    assert_eq!(funnel_window(0), "-1 days");
    assert_eq!(funnel_window(-3), "-1 days");
}

#[test]
fn order_labels() {
    assert_eq!(order_label(Some("SO2024".to_string()), 5), "SO2024");
    assert_eq!(order_label(None, 42), "#42");
}

#[test]
fn campaign_names() {
    assert_eq!(campaign_name(" 開幕 "), Ok("開幕".to_string()));
    assert_eq!(campaign_name(" "), Err("活动名称不能为空".to_string()));
}
