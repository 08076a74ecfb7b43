use transactional_outbox::postgres::model::delivery::DeliveryStatus;

const ALL: [DeliveryStatus; 7] = [
    DeliveryStatus::Pending,
    DeliveryStatus::Assigned,
    DeliveryStatus::PickedUp,
    DeliveryStatus::InTransit,
    DeliveryStatus::Delivered,
    DeliveryStatus::Failed,
    DeliveryStatus::Cancelled,
];

#[test]
fn allowed_transitions_are_exactly_the_table() {
    let allowed = [
        (DeliveryStatus::Pending, DeliveryStatus::Assigned),
        (DeliveryStatus::Pending, DeliveryStatus::Cancelled),
        (DeliveryStatus::Assigned, DeliveryStatus::PickedUp),
        (DeliveryStatus::Assigned, DeliveryStatus::Cancelled),
        (DeliveryStatus::PickedUp, DeliveryStatus::InTransit),
        (DeliveryStatus::PickedUp, DeliveryStatus::Cancelled),
        (DeliveryStatus::InTransit, DeliveryStatus::Delivered),
        (DeliveryStatus::InTransit, DeliveryStatus::Failed),
        (DeliveryStatus::InTransit, DeliveryStatus::Cancelled),
        (DeliveryStatus::Failed, DeliveryStatus::InTransit),
        (DeliveryStatus::Failed, DeliveryStatus::Cancelled),
    ];
    let mut count = 0;
    for from in ALL.iter() {
        for to in ALL.iter() {
            let expected = allowed.contains(&(*from, *to));
            assert_eq!(from.can_transition_to(to), expected, "{:?} -> {:?}", from, to);
            if expected {
                count += 1;
            }
        }
    }
    assert_eq!(count, 11);
}

#[test]
fn final_statuses_have_no_successor() {
    for next in ALL.iter() {
        assert!(!DeliveryStatus::Delivered.can_transition_to(next));
        assert!(!DeliveryStatus::Cancelled.can_transition_to(next));
    }
}

#[test]
fn no_status_moves_to_itself_or_back_to_pending() {
    for s in ALL.iter() {
        assert!(!s.can_transition_to(s));
        assert!(!s.can_transition_to(&DeliveryStatus::Pending));
    }
}

#[test]
fn open_statuses_can_be_cancelled() {
    for s in ALL.iter() {
        let open = *s != DeliveryStatus::Delivered && *s != DeliveryStatus::Cancelled;
        assert_eq!(s.can_transition_to(&DeliveryStatus::Cancelled), open);
    }
}

#[test]
fn failed_delivery_can_be_retried() {
    assert!(DeliveryStatus::Failed.can_transition_to(&DeliveryStatus::InTransit));
    assert!(!DeliveryStatus::Failed.can_transition_to(&DeliveryStatus::Delivered));
}

#[test]
fn status_names() {
    assert_eq!(DeliveryStatus::Pending.as_str(), "PENDING");
    assert_eq!(DeliveryStatus::Assigned.as_str(), "ASSIGNED");
    assert_eq!(DeliveryStatus::PickedUp.as_str(), "PICKED_UP");
    assert_eq!(DeliveryStatus::InTransit.as_str(), "IN_TRANSIT");
    assert_eq!(DeliveryStatus::Delivered.as_str(), "DELIVERED");
    assert_eq!(DeliveryStatus::Failed.as_str(), "FAILED");
    assert_eq!(DeliveryStatus::Cancelled.as_str(), "CANCELLED");
    assert_eq!(DeliveryStatus::InTransit.to_string(), "IN_TRANSIT");
}

#[test]
fn status_names_read_back() {
    for s in ALL.iter() {
        assert_eq!(DeliveryStatus::try_from(s.as_str()), Ok(*s));
    }
}

#[test]
fn unknown_status_name_is_refused() {
    assert_eq!(
        DeliveryStatus::try_from("SHIPPED"),
        Err("Unknown delivery status: SHIPPED".to_string())
    );
    assert_eq!(
        DeliveryStatus::try_from("pending"),
        Err("Unknown delivery status: pending".to_string())
    );
    assert_eq!(DeliveryStatus::try_from(""), Err("Unknown delivery status: ".to_string()));
}

#[test]
fn every_status_is_reachable_from_pending() {
    let paths: [&[DeliveryStatus]; 3] = [
        &[
            DeliveryStatus::Pending,
            DeliveryStatus::Assigned,
            DeliveryStatus::PickedUp,
            DeliveryStatus::InTransit,
            DeliveryStatus::Failed,
            DeliveryStatus::InTransit,
            DeliveryStatus::Delivered,
        ],
        &[DeliveryStatus::Pending, DeliveryStatus::Cancelled],
        &[
            DeliveryStatus::Pending,
            DeliveryStatus::Assigned,
            DeliveryStatus::PickedUp,
            DeliveryStatus::Cancelled,
        ],
    ];
    let mut seen = Vec::new();
    for path in paths.iter() {
        for pair in path.windows(2) {
            assert!(pair[0].can_transition_to(&pair[1]), "{:?} -> {:?}", pair[0], pair[1]);
        }
        seen.extend_from_slice(path);
    }
    for s in ALL.iter() {
        assert!(seen.contains(s), "{:?} not reached", s);
    }
}
