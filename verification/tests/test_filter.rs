use oze_canopen_viewer::filter::{pattern_excludes, rejects, DataFilter, Flags, GlobalFilter};
use oze_canopen_viewer::message_cached::{Frame, MessageCached, MessageType};

fn frame(cob_id: u16, data: [u8; 8], dlc: usize) -> Frame {
    Frame { timestamp: 0, cob_id, data, dlc }
}

fn pattern(p: &str) -> Option<String> {
    Some(p.to_string())
}

#[test]
fn test_data_filter() {
    let msg183 = frame(0x183, [1, 2, 3, 4, 5, 6, 7, 8], 3);
    let msg585 = frame(0x585, [0xAB, 0xFE, 3, 4, 5, 6, 7, 8], 8);

    let msg183 = &MessageCached::new(0, msg183);
    let msg585 = &MessageCached::new(0, msg585);

    let filt = DataFilter { regex: pattern("^01"), node_id: None, regex_cob: None };
    assert!(!filt.filter(msg183));
    assert!(filt.filter(msg585));

    let filt = DataFilter { regex: pattern("^01 02 03$"), node_id: None, regex_cob: None };
    assert!(!filt.filter(msg183));
    assert!(filt.filter(msg585));

    let filt = DataFilter { regex: pattern("03"), node_id: None, regex_cob: None };
    assert!(!filt.filter(msg183));
    assert!(!filt.filter(msg585));

    let filt = DataFilter { regex: pattern("03"), node_id: Some(3), regex_cob: None };
    assert!(!filt.filter(msg183));
    assert!(filt.filter(msg585));

    let filt = DataFilter { regex: pattern("03"), node_id: Some(5), regex_cob: None };
    assert!(filt.filter(msg183));
    assert!(!filt.filter(msg585));

    let filt = DataFilter { regex: None, node_id: Some(5), regex_cob: pattern("^58") };
    assert!(filt.filter(msg183));
    assert!(!filt.filter(msg585));

    let filt = DataFilter { regex: None, node_id: Some(5), regex_cob: pattern("^18") };
    assert!(filt.filter(msg183));
    assert!(filt.filter(msg585));

    let filt = DataFilter { regex: pattern("AB"), node_id: Some(5), regex_cob: pattern("58") };
    assert!(filt.filter(msg183));
    assert!(!filt.filter(msg585));
}

#[test]
fn test_global_filter() {
    let msg183 = frame(0x183, [1, 2, 3, 4, 5, 6, 7, 8], 3);
    let msg585 = frame(0x585, [0xAB, 0xFE, 3, 4, 5, 6, 7, 8], 8);
    let msg80 = frame(0x080, [0, 0, 0, 0, 0, 0, 0, 0], 0);

    let msg183 = &MessageCached::new(0, msg183);
    let msg585 = &MessageCached::new(0, msg585);
    let msg80 = &MessageCached::new(0, msg80);

    let pdo = Flags::of_type(MessageType::Pdo);
    let sync = Flags::of_type(MessageType::Sync);

    let filt = GlobalFilter {
        ignore_type: Flags::none(),
        data: DataFilter { regex: None, node_id: None, regex_cob: None },
    };
    assert!(!filt.filter(msg183));
    assert!(!filt.filter(msg585));
    assert!(!filt.filter(msg80));

    let filt = GlobalFilter {
        ignore_type: Flags::all().difference(pdo),
        data: DataFilter { regex: None, node_id: Some(3), regex_cob: None },
    };
    assert!(!filt.filter(msg183));
    assert!(filt.filter(msg585));
    assert!(filt.filter(msg80));

    let filt = GlobalFilter {
        ignore_type: Flags::all().difference(pdo),
        data: DataFilter { regex: None, node_id: Some(5), regex_cob: None },
    };
    assert!(filt.filter(msg183));
    assert!(filt.filter(msg585));
    assert!(filt.filter(msg80));

    let filt = GlobalFilter {
        ignore_type: Flags::all().difference(pdo).difference(sync),
        data: DataFilter { regex: None, node_id: None, regex_cob: None },
    };
    assert!(!filt.filter(msg183));
    assert!(filt.filter(msg585));
    assert!(!filt.filter(msg80));

    let filt = GlobalFilter {
        ignore_type: Flags::all(),
        data: DataFilter { regex: None, node_id: None, regex_cob: None },
    };
    assert!(filt.filter(msg183));
    assert!(filt.filter(msg585));
    assert!(filt.filter(msg80));
}

#[test]
fn unset_filter_excludes_nothing() {
    let filt = DataFilter::default();
    assert!(filt.regex.is_none() && filt.node_id.is_none() && filt.regex_cob.is_none());
    for cob in [0x000u16, 0x080, 0x081, 0x183, 0x585, 0x601, 0x6A0, 0x701, 0x7E5, 0x900] {
        let m = MessageCached::new(1, frame(cob, [9, 8, 7, 6, 5, 4, 3, 2], 8));
        assert!(!filt.filter(&m));
        assert!(!GlobalFilter::default().filter(&m));
    }
}

#[test]
fn added_criterion_never_readmits() {
    let msgs: Vec<MessageCached> = [0x183u16, 0x585, 0x080, 0x703]
        .iter()
        .map(|c| MessageCached::new(0, frame(*c, [1, 2, 3, 4, 5, 6, 7, 8], 4)))
        .collect();
    let base = DataFilter { regex: pattern("^01"), node_id: None, regex_cob: None };
    let more = DataFilter { regex: pattern("^01"), node_id: Some(3), regex_cob: pattern("^7") };
    for m in &msgs {
        if base.filter(m) {
            assert!(more.filter(m));
        }
    }
    assert!(!base.filter(&msgs[0]));
    assert!(more.filter(&msgs[0]));
    assert!(!more.filter(&msgs[3]));
}

#[test]
fn node_filter_excludes_message_without_node() {
    let filt = DataFilter { regex: None, node_id: Some(0), regex_cob: None };
    let sync = MessageCached::new(0, frame(0x080, [0; 8], 0));
    assert_eq!(sync.msg.parsed_node_id, None);
    assert!(filt.filter(&sync));
}

#[test]
fn pattern_that_does_not_compile_is_taken_as_unset() {
    let filt = DataFilter { regex: pattern("("), node_id: None, regex_cob: pattern("[") };
    let m = MessageCached::new(0, frame(0x183, [1, 2, 3, 4, 5, 6, 7, 8], 3));
    assert!(!filt.filter(&m));
    assert!(!pattern_excludes(&pattern("("), "01 02"));
}

#[test]
fn pattern_outcomes() {
    assert!(!pattern_excludes(&None, "anything"));
    assert!(!pattern_excludes(&pattern("^0A"), "0A 0B"));
    assert!(pattern_excludes(&pattern("^0B"), "0A 0B"));
    assert!(pattern_excludes(&pattern("0A 0B"), "^0B"));
    assert!(rejects(Some(false)));
    assert!(!rejects(Some(true)));
    assert!(!rejects(None));
}

#[test]
fn ignored_flag_excludes_all_and_only_its_type() {
    let cases = [
        (0x000u16, MessageType::Nmt),
        (0x080, MessageType::Sync),
        (0x085, MessageType::Emcy),
        (0x183, MessageType::Pdo),
        (0x585, MessageType::SdoTx),
        (0x605, MessageType::SdoRx),
        (0x705, MessageType::Guarding),
        (0x7E5, MessageType::Lss),
        (0x690, MessageType::Unknown),
    ];
    for (_, ignored) in cases {
        let filt = GlobalFilter { ignore_type: Flags::of_type(ignored), data: DataFilter::default() };
        for (cob, t) in cases {
            let m = MessageCached::new(0, frame(cob, [0; 8], 8));
            assert_eq!(m.msg.parsed_type, t);
            let same = Flags::of_type(t) == Flags::of_type(ignored);
            assert_eq!(filt.filter(&m), same);
        }
    }
    let sdo = Flags::of_type(MessageType::SdoTx);
    assert_eq!(sdo, Flags::of_type(MessageType::SdoRx));
}

#[test]
fn flags_operations() {
    let pdo = Flags::of_type(MessageType::Pdo);
    let nmt = Flags::of_type(MessageType::Nmt);
    assert!(pdo.pdo && !pdo.nmt && !pdo.sync && !pdo.sdo);
    assert_eq!(Flags::default(), Flags::none());
    assert!(Flags::all().contains(pdo));
    assert!(Flags::none().contains(Flags::none()));
    assert!(!Flags::none().contains(pdo));
    let both = pdo.union(nmt);
    assert!(both.contains(pdo) && both.contains(nmt) && both.contains(both));
    assert!(!pdo.contains(both));
    assert_eq!(both.difference(nmt), pdo);
    assert_eq!(Flags::all().difference(Flags::all()), Flags::none());
    let mut f = Flags::none();
    f.insert(pdo);
    f.insert(nmt);
    assert_eq!(f, both);
    f.remove(pdo);
    assert_eq!(f, nmt);
    f.remove(pdo);
    assert_eq!(f, nmt);
}

#[test]
fn accepted_keeps_survivors_in_order() {
    let mut data = std::collections::VecDeque::new();
    for (i, cob) in [0x183u16, 0x000, 0x585, 0x184, 0x080].iter().enumerate() {
        data.push_back(MessageCached::new(i as u64, frame(*cob, [0; 8], 1)));
    }
    let filt = GlobalFilter {
        ignore_type: Flags::of_type(MessageType::Nmt).union(Flags::of_type(MessageType::Sync)),
        data: DataFilter { regex: None, node_id: None, regex_cob: pattern("^1|^5") },
    };
    let kept: Vec<u64> = filt.accepted(&data).iter().map(|m| m.index).collect();
    assert_eq!(kept, vec![0, 2, 3]);
    let all: Vec<u64> = GlobalFilter::default().accepted(&data).iter().map(|m| m.index).collect();
    assert_eq!(all, vec![0, 1, 2, 3, 4]);
    let c = filt.clone();
    assert_eq!(c.ignore_type, filt.ignore_type);
    assert_eq!(c.data.regex_cob, filt.data.regex_cob);
}
