use freertos_rs::base::FreeRtosError;
use freertos_rs::mailbox::NotificationSlot;
use freertos_rs::task::TaskNotification;

#[test]
fn set_bits_then_take_has_the_bits() {
    let mut s = NotificationSlot::new();
    assert!(s.notify(TaskNotification::SetBits(0b1010)));
    let v = s.take(false);
    assert_eq!(v & 0b1010, 0b1010);
    assert_eq!(v, 0b1010);
    assert_eq!(s.value, 0b1001);
}

#[test]
fn set_bits_merges_with_what_is_there() {
    let mut s = NotificationSlot { value: 0b0101, pending: true };
    assert!(s.notify(TaskNotification::SetBits(0b0110)));
    assert_eq!(s.take(true), 0b0111);
    assert_eq!(s.value, 0);
}

#[test]
fn increment_twice_then_take_yields_two() {
    let mut s = NotificationSlot::new();
    assert!(s.notify(TaskNotification::Increment));
    assert!(s.notify(TaskNotification::Increment));
    assert_eq!(s.take(false), 2);
    assert_eq!(s.value, 1);
    assert_eq!(s.take(false), 1);
    assert_eq!(s.take(false), 0);
    assert_eq!(s.value, 0);
}

#[test]
fn increment_wraps() {
    let mut s = NotificationSlot { value: u32::MAX, pending: false };
    assert!(s.notify(TaskNotification::Increment));
    assert_eq!(s.value, 0);
    assert!(s.pending);
}

#[test]
fn set_value_refused_while_pending() {
    let mut s = NotificationSlot::new();
    assert!(s.notify(TaskNotification::SetValue(5)));
    assert!(!s.notify(TaskNotification::SetValue(9)));
    assert_eq!(s.value, 5);
    assert!(s.pending);
    assert_eq!(s.wait(0, 0), Ok(5));
}

#[test]
fn set_value_accepted_when_clear() {
    let mut s = NotificationSlot::new();
    assert!(s.notify(TaskNotification::SetValue(5)));
    assert_eq!(s.wait(0, u32::MAX), Ok(5));
    assert!(s.notify(TaskNotification::SetValue(9)));
    assert_eq!(s.value, 9);
}

#[test]
fn overwrite_value_ignores_pending() {
    let mut s = NotificationSlot::new();
    assert!(s.notify(TaskNotification::SetValue(5)));
    assert!(s.notify(TaskNotification::OverwriteValue(9)));
    assert_eq!(s.value, 9);
}

#[test]
fn no_action_only_marks_pending() {
    let mut s = NotificationSlot { value: 3, pending: false };
    assert!(s.notify(TaskNotification::NoAction));
    assert_eq!(s, NotificationSlot { value: 3, pending: true });
}

#[test]
fn wait_without_notification_times_out() {
    let mut s = NotificationSlot::new();
    assert_eq!(s.wait(0, 0), Err(FreeRtosError::Timeout));
    assert_eq!(s, NotificationSlot { value: 0, pending: false });
}

#[test]
fn wait_clears_entry_bits_only_without_notification() {
    let mut s = NotificationSlot { value: 0b1111, pending: false };
    assert_eq!(s.wait(0b0011, 0b1100), Err(FreeRtosError::Timeout));
    assert_eq!(s.value, 0b1100);
    let mut s = NotificationSlot { value: 0b1111, pending: true };
    assert_eq!(s.wait(0b0011, 0b1100), Ok(0b1111));
    assert_eq!(s, NotificationSlot { value: 0b0011, pending: false });
}

#[test]
fn take_clear_and_count_down() {
    let mut s = NotificationSlot { value: 7, pending: true };
    assert_eq!(s.take(true), 7);
    assert_eq!(s, NotificationSlot { value: 0, pending: false });
    let mut s = NotificationSlot { value: 7, pending: true };
    assert_eq!(s.take(false), 7);
    assert_eq!(s, NotificationSlot { value: 6, pending: false });
}

#[test]
fn take_of_nothing_is_zero() {
    let mut s = NotificationSlot::new();
    assert_eq!(s.take(false), 0);
    assert_eq!(s.take(true), 0);
    assert_eq!(s.value, 0);
}
