use cuckoo::orders::{batch_cancel_result, cancel_action, cancel_action_for, order_ready_after_finish, submit_plan, CancelAction};

#[test]
fn submit_only_pending_orders() {
    assert_eq!(submit_plan("submitted", &[1, 2], Some(9)), None);
    assert_eq!(submit_plan("ready", &[], Some(9)), None);
}

#[test]
fn submit_makes_one_ticket_per_station() {
    assert_eq!(submit_plan("pending", &[3, 1, 3, 2, 1], Some(9)), Some(vec![3, 1, 2]));
}

#[test]
fn submit_falls_back_to_first_station() {
    assert_eq!(submit_plan("pending", &[], Some(9)), Some(vec![9]));
    assert_eq!(submit_plan("pending", &[], None), Some(vec![]));
}

#[test]
fn order_ready_when_all_tickets_finished() {
    let done = vec!["finished".to_string(), "finished".to_string()];
    let open = vec!["finished".to_string(), "started".to_string()];
    assert!(order_ready_after_finish(&done));
    assert!(!order_ready_after_finish(&open));
    assert!(order_ready_after_finish(&[]));
}

#[test]
fn cancel_actions_by_status() {
    assert_eq!(cancel_action("cancelled"), CancelAction::Skip);
    assert_eq!(cancel_action("ready"), CancelAction::KeepConsumption);
    assert_eq!(cancel_action("submitted"), CancelAction::Release);
    assert_eq!(cancel_action("pending"), CancelAction::Release);
    assert_eq!(cancel_action_for(true), CancelAction::KeepConsumption);
    assert_eq!(cancel_action_for(false), CancelAction::Release);
}

#[test]
fn batch_cancel_reports_failures() {
    assert_eq!(batch_cancel_result(3, &[]), Ok(3));
    let failures = vec![(12, "库存不足".to_string()), (15, "locked".to_string())];
    assert_eq!(
        batch_cancel_result(1, &failures),
        Err("部分訂單取消失敗（2）：訂單 12: 库存不足；訂單 15: locked".to_string())
    );
    assert_eq!(
        batch_cancel_result(0, &[(7, "x".to_string())]),
        Err("部分訂單取消失敗（1）：訂單 7: x".to_string())
    );
}
