//! Tests of the verified ring-buffer state itself, exercised directly and
//! deterministically: order of delivery, the reserved slot, close, and the
//! checked steps that blocking operations take after their wait.

use gabe_channels::application::channel::ApplicationStack;
use gabe_channels::ChannelErrors;

#[test]
fn stack_fifo() {
    let mut stack = ApplicationStack::<u64>::new(6);
    stack.try_write(10).expect("Failed to send");
    stack.try_write(20).expect("Failed to send");
    stack.try_write(30).expect("Failed to send");
    assert_eq!(stack.try_read().expect("Failed to receive"), 10);
    assert_eq!(stack.try_read().expect("Failed to receive"), 20);
    assert_eq!(stack.try_read().expect("Failed to receive"), 30);
    assert!(matches!(
        stack.try_read(),
        Err(ChannelErrors::NoneAvailable)
    ));
}

#[test]
fn stack_wraps_around() {
    let mut stack = ApplicationStack::<u64>::new(4);
    for round in 0..10u64 {
        stack.try_write(3 * round).expect("Failed to send");
        stack.try_write(3 * round + 1).expect("Failed to send");
        stack.try_write(3 * round + 2).expect("Failed to send");
        assert!(matches!(
            stack.try_write(99),
            Err(ChannelErrors::Full)
        ));
        assert_eq!(stack.try_read().expect("Failed to receive"), 3 * round);
        assert_eq!(stack.try_read().expect("Failed to receive"), 3 * round + 1);
        assert_eq!(stack.try_read().expect("Failed to receive"), 3 * round + 2);
    }
}

#[test]
fn stack_capacity_bound() {
    let mut stack = ApplicationStack::<u64>::new(5);
    for v in 0..4u64 {
        stack.try_write(v).expect("Failed to send");
        assert!(stack.is_full() == (v == 3));
    }
    assert!(matches!(stack.try_write(4), Err(ChannelErrors::Full)));
}

#[test]
fn stack_close_discards_buffered_values() {
    let mut stack = ApplicationStack::<u64>::new(4);
    stack.try_write(1).expect("Failed to send");
    stack.try_write(2).expect("Failed to send");
    stack.close();
    assert!(stack.is_empty());
    assert!(matches!(stack.try_read(), Err(ChannelErrors::Closed)));
    assert!(matches!(stack.try_write(3), Err(ChannelErrors::Closed)));
    stack.close();
    assert!(matches!(stack.try_read(), Err(ChannelErrors::Closed)));
}

#[test]
fn stack_checked_steps() {
    let mut stack = ApplicationStack::<u64>::new(3);
    stack.checked_write(5).expect("Failed to send");
    assert_eq!(stack.checked_read().expect("Failed to receive"), 5);
    assert!(matches!(
        stack.checked_read(),
        Err(ChannelErrors::Poisoned)
    ));
    stack.close();
    assert!(matches!(
        stack.checked_write(6),
        Err(ChannelErrors::Closed)
    ));
    assert!(matches!(stack.checked_read(), Err(ChannelErrors::Closed)));
}

#[test]
fn stack_wait_conditions() {
    let mut stack = ApplicationStack::<u64>::new(2);
    assert!(stack.data_wait_needed());
    assert!(!stack.space_wait_needed());
    stack.try_write(1).expect("Failed to send");
    assert!(!stack.data_wait_needed());
    assert!(stack.space_wait_needed());
    stack.close();
    assert!(!stack.data_wait_needed());
    assert!(!stack.space_wait_needed());
}
