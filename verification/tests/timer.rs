use turn_input::channel::Inbox;
use turn_input::turn_timer::observer::{Notifier, Subscriber};
use turn_input::turn_timer::turn_timer::{
    TimerStatus, TurnTimer, TurnTimerSubscriber, TurnTimerSubscriberTrait,
};

fn subscribed(timer: &mut TurnTimer) -> TurnTimerSubscriber {
    let mut subscriber = TurnTimerSubscriber::new();
    subscriber.add_subscription(timer.subscribe());
    subscriber
}

#[test]
fn new_timer_keeps_duration_and_has_no_subscriber() {
    let timer = TurnTimer::new(30);
    assert_eq!(timer.timer_duration(), 30);
    assert_eq!(timer.subscribers().len(), 0);
    assert_eq!(TurnTimer::new(0).timer_duration(), 0);
    assert_eq!(TurnTimer::new(u64::MAX).timer_duration(), u64::MAX);
}

#[test]
fn subscribe_adds_one_subscriber() {
    let mut timer = TurnTimer::new(5);
    let _first = timer.subscribe();
    assert_eq!(timer.subscribers().len(), 1);
    let _second = timer.subscribe();
    assert_eq!(timer.subscribers().len(), 2);
    assert_eq!(timer.timer_duration(), 5);
}

#[test]
fn new_subscriber_is_not_complete() {
    let mut subscriber = TurnTimerSubscriber::new();
    assert_eq!(subscriber.get_timer_status(), TimerStatus::TimerNotComplete);
    assert_eq!(subscriber.get_timer_status(), TimerStatus::TimerNotComplete);
}

#[test]
fn subscriber_is_not_complete_before_expiry() {
    let mut timer = TurnTimer::new(0);
    let mut subscriber = subscribed(&mut timer);
    assert_eq!(subscriber.get_timer_status(), TimerStatus::TimerNotComplete);
    assert_eq!(subscriber.get_timer_status(), TimerStatus::TimerNotComplete);
    timer.expire();
    assert_eq!(subscriber.get_timer_status(), TimerStatus::TimerComplete);
}

#[test]
fn zero_duration_timer_completes_both_subscribers() {
    let mut timer = TurnTimer::new(0);
    let mut first = subscribed(&mut timer);
    let mut second = subscribed(&mut timer);
    timer.expire();
    assert_eq!(first.get_timer_status(), TimerStatus::TimerComplete);
    assert_eq!(second.get_timer_status(), TimerStatus::TimerComplete);
}

#[test]
fn expiry_sends_one_notification_to_each_subscriber() {
    let mut timer = TurnTimer::new(1);
    let first = timer.subscribe();
    let second = timer.subscribe();
    timer.expire();
    for receiver in [first, second] {
        assert_eq!(receiver.try_recv(), Ok(TimerStatus::TimerComplete));
        assert!(receiver.try_recv().is_err());
    }
}

#[test]
fn expiry_with_no_subscriber_is_silent() {
    TurnTimer::new(3).expire();
}

#[test]
fn expiry_skips_a_subscriber_that_is_gone() {
    let mut timer = TurnTimer::new(0);
    let gone = timer.subscribe();
    let mut listening = subscribed(&mut timer);
    drop(gone);
    timer.expire();
    assert_eq!(listening.get_timer_status(), TimerStatus::TimerComplete);
}

#[test]
fn status_stays_complete() {
    let mut timer = TurnTimer::new(0);
    let mut subscriber = subscribed(&mut timer);
    timer.expire();
    for _ in 0..5 {
        assert_eq!(subscriber.get_timer_status(), TimerStatus::TimerComplete);
    }
    // A new conduit with nothing in it does not take completion back.
    let mut later = TurnTimer::new(0);
    subscriber.add_subscription(later.subscribe());
    assert_eq!(subscriber.get_timer_status(), TimerStatus::TimerComplete);
}

#[test]
fn notify_reaches_every_subscriber_each_time() {
    let mut timer = TurnTimer::new(0);
    let first = timer.subscribe();
    let second = timer.subscribe();
    timer.notify(&TimerStatus::TimerNotComplete);
    timer.notify(&TimerStatus::TimerComplete);
    for receiver in [first, second] {
        assert_eq!(receiver.try_recv(), Ok(TimerStatus::TimerNotComplete));
        assert_eq!(receiver.try_recv(), Ok(TimerStatus::TimerComplete));
        assert!(receiver.try_recv().is_err());
    }
}

#[test]
fn not_complete_notice_is_passed_over() {
    let mut timer = TurnTimer::new(0);
    let mut subscriber = subscribed(&mut timer);
    timer.notify(&TimerStatus::TimerNotComplete);
    assert_eq!(subscriber.get_timer_status(), TimerStatus::TimerNotComplete);
    timer.expire();
    assert_eq!(subscriber.get_timer_status(), TimerStatus::TimerComplete);
}

#[test]
fn second_subscription_replaces_the_first() {
    let mut first_timer = TurnTimer::new(0);
    let mut second_timer = TurnTimer::new(0);
    let mut subscriber = TurnTimerSubscriber::new();
    subscriber.add_subscription(first_timer.subscribe());
    subscriber.add_subscription(second_timer.subscribe());
    first_timer.expire();
    assert_eq!(subscriber.get_timer_status(), TimerStatus::TimerNotComplete);
    second_timer.expire();
    assert_eq!(subscriber.get_timer_status(), TimerStatus::TimerComplete);
}

#[test]
fn update_takes_note_of_completion() {
    let mut timer = TurnTimer::new(0);
    let mut subscriber = subscribed(&mut timer);
    subscriber.update();
    timer.expire();
    subscriber.update();
    // The conduit is empty by now: the status comes from what update kept.
    assert_eq!(subscriber.get_timer_status(), TimerStatus::TimerComplete);
}

#[test]
fn observe_merges_what_was_received() {
    let mut subscriber = TurnTimerSubscriber::new();
    assert_eq!(subscriber.observe(None), TimerStatus::TimerNotComplete);
    assert_eq!(
        subscriber.observe(Some(TimerStatus::TimerNotComplete)),
        TimerStatus::TimerNotComplete
    );
    assert_eq!(subscriber.observe(Some(TimerStatus::TimerComplete)), TimerStatus::TimerComplete);
    assert_eq!(subscriber.observe(None), TimerStatus::TimerComplete);
    assert_eq!(subscriber.observe(Some(TimerStatus::TimerNotComplete)), TimerStatus::TimerComplete);
    assert_eq!(subscriber.get_timer_status(), TimerStatus::TimerComplete);
}

#[test]
fn status_after_receipt() {
    let not = TimerStatus::TimerNotComplete;
    let done = TimerStatus::TimerComplete;
    assert_eq!(not.after(None), not);
    assert_eq!(not.after(Some(not)), not);
    assert_eq!(not.after(Some(done)), done);
    assert_eq!(done.after(None), done);
    assert_eq!(done.after(Some(not)), done);
    assert_eq!(done.after(Some(done)), done);
}

#[test]
fn subscriber_works_through_the_trait() {
    fn ask<U: TurnTimerSubscriberTrait>(source: &mut U) -> TimerStatus {
        source.get_timer_status()
    }
    let mut timer = TurnTimer::new(0);
    let mut subscriber = subscribed(&mut timer);
    assert_eq!(ask(&mut subscriber), TimerStatus::TimerNotComplete);
    timer.expire();
    assert_eq!(ask(&mut subscriber), TimerStatus::TimerComplete);
}

#[test]
fn expiry_leaves_one_outbox_for_each_subscriber() {
    let mut timer = TurnTimer::new(2);
    let _first = timer.subscribe();
    let _second = timer.subscribe();
    let _third = timer.subscribe();
    assert_eq!(timer.expire().len(), 3);
    assert_eq!(TurnTimer::new(2).expire().len(), 0);
}

#[test]
fn inbox_finds_what_was_sent_in_order() {
    let mut timer = TurnTimer::new(0);
    let mut inbox = Inbox::new(timer.subscribe());
    assert_eq!(inbox.look(), None);
    timer.notify(&TimerStatus::TimerNotComplete);
    timer.notify(&TimerStatus::TimerComplete);
    assert_eq!(inbox.look(), Some(TimerStatus::TimerNotComplete));
    assert_eq!(inbox.look(), Some(TimerStatus::TimerComplete));
    assert_eq!(inbox.look(), None);
    drop(timer);
    assert_eq!(inbox.look(), None);
}
