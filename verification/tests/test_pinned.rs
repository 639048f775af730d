use oze_canopen_viewer::driver::{Connection, Control, ControlCommand, Driver, Event, LinkInfo};
use oze_canopen_viewer::filter::{DataFilter, Flags, GlobalFilter};
use oze_canopen_viewer::inbox::{Inbox, MESSAGES_COUNT};
use oze_canopen_viewer::message_cached::{Frame, MessageCached, MessageType};
use oze_canopen_viewer::pinned_filter::{PinnedFilter, PinnedFilters};
use std::collections::VecDeque;

fn message(index: u64, timestamp: u64, cob_id: u16) -> MessageCached {
    MessageCached::new(index, Frame { timestamp, cob_id, data: [1, 2, 3, 4, 5, 6, 7, 8], dlc: 8 })
}

fn node(n: u8) -> DataFilter {
    DataFilter { regex: None, node_id: Some(n), regex_cob: None }
}

#[test]
fn pin_without_match_follows_later_matches() {
    let mut cache = VecDeque::new();
    cache.push_front(message(0, 10, 0x183));
    cache.push_front(message(1, 20, 0x184));
    let mut pins = PinnedFilters::default();
    pins.pin_filter(&node(5), &cache, 1000);
    assert_eq!(pins.len(), 1);
    assert!(pins.get(0).unwrap().last.is_none());
    assert_eq!(pins.get(0).unwrap().reference, 1000);

    pins.push_data(&message(2, 30, 0x183));
    assert!(pins.get(0).unwrap().last.is_none());
    assert_eq!(pins.get(0).unwrap().reference, 1000);

    pins.push_data(&message(3, 40, 0x585));
    assert_eq!(pins.get(0).unwrap().last.as_ref().unwrap().index, 3);
    assert_eq!(pins.get(0).unwrap().reference, 1000);

    pins.push_data(&message(4, 50, 0x183));
    assert_eq!(pins.get(0).unwrap().last.as_ref().unwrap().index, 3);
    assert_eq!(pins.get(0).unwrap().reference, 1000);

    pins.push_data(&message(5, 60, 0x605));
    assert_eq!(pins.get(0).unwrap().last.as_ref().unwrap().index, 5);
    assert_eq!(pins.get(0).unwrap().reference, 40);

    pins.push_data(&message(6, 70, 0x705));
    assert_eq!(pins.get(0).unwrap().last.as_ref().unwrap().index, 6);
    assert_eq!(pins.get(0).unwrap().reference, 60);
}

#[test]
fn pin_is_seeded_with_the_first_accepted_message() {
    let mut cache = VecDeque::new();
    cache.push_front(message(0, 10, 0x183));
    cache.push_front(message(1, 20, 0x185));
    cache.push_front(message(2, 30, 0x585));
    cache.push_front(message(3, 40, 0x184));
    let pin = PinnedFilter::new(&node(5), &cache, 99);
    assert_eq!(pin.last.as_ref().unwrap().index, 2);
    assert_eq!(pin.reference, 99);
    assert_eq!(pin.filter.node_id, Some(5));
    let pin = PinnedFilter::new(&DataFilter::default(), &cache, 99);
    assert_eq!(pin.last.as_ref().unwrap().index, 3);
    let pin = PinnedFilter::new(&DataFilter::default(), &VecDeque::new(), 99);
    assert!(pin.last.is_none());
}

#[test]
fn pin_is_detached_from_later_edits() {
    let mut live = node(3);
    let mut pins = PinnedFilters::default();
    pins.pin_filter(&live, &VecDeque::new(), 0);
    live.node_id = Some(4);
    pins.push_data(&message(0, 5, 0x183));
    assert_eq!(pins.get(0).unwrap().last.as_ref().unwrap().index, 0);
    pins.push_data(&message(1, 6, 0x184));
    assert_eq!(pins.get(0).unwrap().last.as_ref().unwrap().index, 0);
}

#[test]
fn single_pin_offer() {
    let mut pin = PinnedFilter::new(&node(3), &VecDeque::new(), 7);
    pin.offer(&message(0, 11, 0x184));
    assert!(pin.last.is_none());
    pin.offer(&message(1, 12, 0x183));
    assert_eq!(pin.reference, 7);
    pin.offer(&message(2, 13, 0x203));
    assert_eq!(pin.reference, 12);
    assert_eq!(pin.last.as_ref().unwrap().get_timestamp(), 13);
}

#[test]
fn every_pin_is_offered_each_message() {
    let mut pins = PinnedFilters::default();
    pins.pin_filter(&node(3), &VecDeque::new(), 1);
    pins.pin_filter(&node(5), &VecDeque::new(), 2);
    pins.pin_filter(&DataFilter::default(), &VecDeque::new(), 3);
    pins.push_data(&message(0, 10, 0x183));
    pins.push_data(&message(1, 20, 0x585));
    assert_eq!(pins.get(0).unwrap().last.as_ref().unwrap().index, 0);
    assert_eq!(pins.get(1).unwrap().last.as_ref().unwrap().index, 1);
    assert_eq!(pins.get(2).unwrap().last.as_ref().unwrap().index, 1);
    assert_eq!(pins.get(2).unwrap().reference, 10);
    assert!(pins.get(3).is_none());
    pins.remove(7);
    assert_eq!(pins.len(), 3);
    pins.remove(0);
    assert_eq!(pins.len(), 2);
    assert_eq!(pins.get(0).unwrap().filter.node_id, Some(5));
}

fn control() -> Control {
    Control {
        command: ControlCommand::Process,
        connection: Connection { can_name: "vcan0".to_owned(), bitrate: None },
    }
}

#[test]
fn inbox_takes_each_message_once() {
    let link = LinkInfo { rx_bits: 640, transmitter_socket: false, receiver_socket: true };
    let mut drv = Driver::new(control());
    let mut inbox = Inbox::new(GlobalFilter {
        ignore_type: Flags::of_type(MessageType::Nmt),
        data: DataFilter::default(),
    });
    inbox.pin_filter(&DataFilter::default(), 500);

    let frames = [0x183u16, 0x000, 0x585];
    let mut snapshot = drv.run_cycle(Event::Timeout, None, link).snapshot;
    for (t, cob) in frames.iter().enumerate() {
        let f = Frame { timestamp: 100 + t as u64, cob_id: *cob, data: [0; 8], dlc: 1 };
        snapshot = drv.run_cycle(Event::Frame(f), None, link).snapshot;
        assert!(!inbox.get_data_from_driver(&snapshot));
    }
    assert!(!inbox.get_data_from_driver(&snapshot));
    assert!(!inbox.get_data_from_driver(&snapshot));
    let kept: Vec<u64> = inbox.messages().iter().map(|m| m.index).collect();
    assert_eq!(kept, vec![2, 0]);
    assert_eq!(inbox.link_info(), link);
    let pin = inbox.pinned_filters.get(0).unwrap();
    assert_eq!(pin.last.as_ref().unwrap().index, 2);
    assert_eq!(pin.reference, 101);

    let last = drv.run_cycle(Event::Cancelled, None, link);
    assert!(inbox.get_data_from_driver(&last.snapshot));
}

#[test]
fn inbox_stays_within_capacity() {
    let link = LinkInfo::default();
    let mut drv = Driver::new(control());
    let mut inbox = Inbox::new(GlobalFilter::default());
    for t in 0..4200u64 {
        let f = Frame { timestamp: t, cob_id: 0x183, data: [0; 8], dlc: 0 };
        let cycle = drv.run_cycle(Event::Frame(f), None, link);
        inbox.get_data_from_driver(&cycle.snapshot);
        assert!(inbox.messages().len() <= MESSAGES_COUNT);
    }
    assert_eq!(inbox.messages().len(), 4096);
    assert_eq!(inbox.messages().front().unwrap().index, 4199);
    assert_eq!(inbox.messages().back().unwrap().index, 104);
}
