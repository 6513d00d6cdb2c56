use steamcmd_hub::hub::Hub;
use tokio::sync::broadcast::error::TryRecvError;

#[test]
fn publish_without_subscribers_reaches_none() {
    let mut hub = Hub::new(4);
    assert_eq!(hub.publish("x\n".to_string()), 0);
}

#[test]
fn every_subscriber_receives_in_publish_order() {
    let mut hub = Hub::new(16);
    let mut a = hub.subscribe();
    let mut b = hub.subscribe();
    for i in 0..5 {
        assert_eq!(hub.publish(format!("{}\n", i)), 2);
    }
    for i in 0..3 {
        assert_eq!(a.try_recv().unwrap(), format!("{}\n", i));
    }
    for i in 0..5 {
        assert_eq!(b.try_recv().unwrap(), format!("{}\n", i));
    }
    for i in 3..5 {
        assert_eq!(a.try_recv().unwrap(), format!("{}\n", i));
    }
    assert!(matches!(a.try_recv(), Err(TryRecvError::Empty)));
}

#[test]
fn late_subscriber_gets_no_backfill() {
    let mut hub = Hub::new(16);
    let _keep = hub.subscribe();
    hub.publish("1\n".to_string());
    hub.publish("2\n".to_string());
    let mut late = hub.subscribe();
    hub.publish("3\n".to_string());
    assert_eq!(late.try_recv().unwrap(), "3\n");
    assert!(matches!(late.try_recv(), Err(TryRecvError::Empty)));
}

#[test]
fn slow_subscriber_does_not_block_others() {
    let mut hub = Hub::new(4);
    let _slow = hub.subscribe();
    let mut fast = hub.subscribe();
    for i in 0..20 {
        assert_eq!(hub.publish(format!("{}\n", i)), 2);
        assert_eq!(fast.try_recv().unwrap(), format!("{}\n", i));
    }
}

#[test]
fn slow_subscriber_loses_oldest_lines() {
    let mut hub = Hub::new(4);
    let mut slow = hub.subscribe();
    for i in 0..10 {
        hub.publish(format!("{}\n", i));
    }
    assert!(matches!(slow.try_recv(), Err(TryRecvError::Lagged(6))));
    for i in 6..10 {
        assert_eq!(slow.try_recv().unwrap(), format!("{}\n", i));
    }
}

#[test]
fn hub_reports_capacity() {
    assert_eq!(Hub::new(200).capacity(), 200);
}
