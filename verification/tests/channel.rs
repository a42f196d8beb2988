//! Tests of the channel handle: round trips, ordering, capacity, close
//! semantics, construction errors and handle lifetime.

use gabe_channels::{Channel, ChannelErrors, ChannelType, CreationErrors};

#[test]
fn basic_test() {
    let queue = Channel::<i32>::new(ChannelType::Application, 20).unwrap();
    let mut result: i32 = 0;
    println!("1");
    let producer_queue = queue.clone();
    producer_queue.write(1).expect("Failed to send");
    println!("Produced: {}", 1);
    println!("2");
    let consumer_queue = queue.clone();
    *&mut result = consumer_queue.read().expect("Failed to receive");
    println!("3");
    assert_eq!(result, 1)
}

#[test]
fn ordering_under_load() {
    let queue = Channel::<i32>::new(ChannelType::Application, 10).unwrap();
    let producer_queue = queue.clone();
    let consumer_queue = queue.clone();
    let mut sent: i32 = 0;
    while sent < 9 {
        producer_queue.write(sent).expect("Failed to send");
        sent += 1;
    }
    for expected in 0..1000i32 {
        let value = consumer_queue.read().expect("Failed to receive");
        assert_eq!(value, expected);
        if sent < 1000 {
            producer_queue.write(sent).expect("Failed to send");
            sent += 1;
        }
    }
    assert!(matches!(
        consumer_queue.try_read(),
        Err(ChannelErrors::NoneAvailable)
    ));
}

#[test]
fn full_then_drain() {
    let queue = Channel::<i32>::new(ChannelType::Application, 5).unwrap();
    for i in 1..=4i32 {
        queue.try_write(i).expect("Failed to send");
    }
    assert!(matches!(queue.try_write(5), Err(ChannelErrors::Full)));
    assert_eq!(queue.read().expect("Failed to receive"), 1);
    queue.try_write(5).expect("Failed to send");
    for expected in 2..=5i32 {
        assert_eq!(queue.read().expect("Failed to receive"), expected);
    }
}

#[test]
fn close_unblocks_reader() {
    let queue = Channel::<i32>::new(ChannelType::Application, 1).unwrap();
    let closer = queue.clone();
    closer.close().expect("Failed to close");
    assert!(matches!(queue.read(), Err(ChannelErrors::Closed)));
}

#[test]
fn close_finality() {
    let queue = Channel::<i32>::new(ChannelType::Application, 4).unwrap();
    queue.write(7).expect("Failed to send");
    queue.write(8).expect("Failed to send");
    queue.close().expect("Failed to close");
    assert!(matches!(queue.write(9), Err(ChannelErrors::Closed)));
    assert!(matches!(queue.try_write(9), Err(ChannelErrors::Closed)));
    assert!(matches!(queue.read(), Err(ChannelErrors::Closed)));
    assert!(matches!(queue.try_read(), Err(ChannelErrors::Closed)));
    queue.close().expect("Failed to close");
    assert!(matches!(queue.read(), Err(ChannelErrors::Closed)));
}

#[test]
fn try_read_on_empty_open_channel() {
    let queue = Channel::<i32>::new(ChannelType::Application, 3).unwrap();
    assert!(matches!(queue.try_read(), Err(ChannelErrors::NoneAvailable)));
    queue.write(42).expect("Failed to send");
    assert_eq!(queue.try_read().expect("Failed to receive"), 42);
    assert!(matches!(queue.try_read(), Err(ChannelErrors::NoneAvailable)));
}

#[test]
fn creation_errors() {
    assert!(matches!(
        Channel::<i32>::new(ChannelType::Application, 0),
        Err(CreationErrors::ZeroLength)
    ));
    assert!(matches!(
        Channel::<i32>::new(ChannelType::Application, usize::MAX),
        Err(CreationErrors::LengthTooLarge)
    ));
    assert!(Channel::<i32>::new(ChannelType::Application, 1).is_ok());
}

#[test]
fn reserved_slot_means_capacity_one_holds_nothing() {
    let queue = Channel::<i32>::new(ChannelType::Application, 1).unwrap();
    assert!(matches!(queue.try_write(1), Err(ChannelErrors::Full)));
    assert!(matches!(queue.try_read(), Err(ChannelErrors::NoneAvailable)));
}

#[test]
fn handle_lifetime() {
    let queue = Channel::<i32>::new(ChannelType::Application, 8).unwrap();
    let first = queue.clone();
    let second = queue.clone();
    let third = queue.clone();
    first.write(1).expect("Failed to send");
    std::mem::drop(queue);
    std::mem::drop(first);
    std::mem::drop(third);
    second.write(2).expect("Failed to send");
    assert_eq!(second.read().expect("Failed to receive"), 1);
    assert_eq!(second.read().expect("Failed to receive"), 2);
    second.close().expect("Failed to close");
    assert!(matches!(second.read(), Err(ChannelErrors::Closed)));
}
