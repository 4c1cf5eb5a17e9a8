use tauri_mcp::bridge::SubscriptionTable;

#[test]
fn subscription_ids_are_fresh() {
    let mut table = SubscriptionTable::new();
    let a = table.subscribe(String::from("reply"));
    let b = table.subscribe(String::from("reply"));
    assert_ne!(a, b);
}

#[test]
fn reply_goes_to_oldest_subscriber_on_topic() {
    let mut table = SubscriptionTable::new();
    let a = table.subscribe(String::from("logs"));
    let _other = table.subscribe(String::from("metrics"));
    let b = table.subscribe(String::from("logs"));
    assert_eq!(table.deliver("logs"), Some(a));
    assert_eq!(table.deliver("logs"), Some(b));
    assert_eq!(table.deliver("logs"), None);
}

#[test]
fn late_reply_does_not_reach_a_timed_out_call() {
    // Call A subscribes and times out before any responder answers; its
    // subscription is unregistered. Call B then subscribes on the same
    // topic, and a later reply must reach B, never the stale A.
    let mut table = SubscriptionTable::new();
    let a = table.subscribe(String::from("reply"));
    table.unsubscribe(a);
    let b = table.subscribe(String::from("reply"));
    let delivered = table.deliver("reply");
    assert_eq!(delivered, Some(b));
    assert_ne!(delivered, Some(a));
    // The one-shot subscription was consumed: nothing else is waiting.
    assert_eq!(table.deliver("reply"), None);
}

#[test]
fn unsubscribe_is_idempotent_and_keeps_others() {
    let mut table = SubscriptionTable::new();
    let a = table.subscribe(String::from("t"));
    let b = table.subscribe(String::from("t"));
    table.unsubscribe(a);
    table.unsubscribe(a);
    assert_eq!(table.deliver("t"), Some(b));
}

#[test]
fn reply_on_unsubscribed_topic_is_dropped() {
    let mut table = SubscriptionTable::new();
    let a = table.subscribe(String::from("t"));
    table.unsubscribe(a);
    assert_eq!(table.deliver("t"), None);
}
