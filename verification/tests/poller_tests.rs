use imputio::poller::{
    default_interest, fd_registration, tcp_registration, EventRoute, IoAction, IoOp, Operation,
    Poller, RegisterAction, RW_INTERESTS,
};

#[test]
fn first_registration_gets_token_zero() {
    let mut p = Poller::new();
    let a = p.push_token_entry(Operation::RegistrationFdAdd { fd: 5, interest: 1, notify: Some(7) });
    assert_eq!(a, RegisterAction::RegisterFd { fd: 5, token: 0 });
    assert_eq!(p.route_event(0), EventRoute::Notify(7));
    assert_eq!(p.route_event(1), EventRoute::Unknown);
}

#[test]
fn distinct_descriptors_get_distinct_tokens() {
    let mut p = Poller::new();
    let a = p.push_token_entry(fd_registration(3, None, None));
    let b = p.push_token_entry(tcp_registration(4, None, Some(1)));
    assert_eq!(a, RegisterAction::RegisterFd { fd: 3, token: 0 });
    assert_eq!(b, RegisterAction::RegisterTcp { fd: 4, token: 1 });
    assert_eq!(p.route_event(0), EventRoute::Silent);
    assert_eq!(p.route_event(1), EventRoute::Notify(1));
}

#[test]
fn reregistration_keeps_token_and_recorded_notifier() {
    let mut p = Poller::new();
    p.push_token_entry(fd_registration(3, None, Some(9)));
    // a raw descriptor is recorded without notifier: the second
    // registration keeps "no notifier", whatever it carries
    let a = p.push_token_entry(fd_registration(3, Some(1), Some(5)));
    assert_eq!(a, RegisterAction::RegisterFd { fd: 3, token: 0 });
    assert_eq!(p.route_event(0), EventRoute::Silent);
    assert_eq!(
        p.registration(0),
        Some(Operation::RegistrationFdAdd { fd: 3, interest: 1, notify: None })
    );

    // a TCP listener is recorded with its notifier, which a new
    // registration of the same descriptor keeps
    p.push_token_entry(tcp_registration(8, None, Some(2)));
    let b = p.push_token_entry(tcp_registration(8, None, Some(6)));
    assert_eq!(b, RegisterAction::RegisterTcp { fd: 8, token: 1 });
    assert_eq!(p.route_event(1), EventRoute::Notify(2));
}

#[test]
fn modification_records_its_notifier() {
    let mut p = Poller::new();
    p.push_token_entry(fd_registration(3, None, None));
    let a = p.push_token_entry(Operation::ModifyRegistration { fd: 3, interest: 2, notify: Some(4) });
    assert_eq!(a, RegisterAction::Nothing);
    // the stored modification keeps the old (absent) notifier ...
    assert_eq!(p.route_event(0), EventRoute::Unhandled);
    // ... but the descriptor now has notifier 4 on record
    p.push_token_entry(fd_registration(3, None, None));
    assert_eq!(p.route_event(0), EventRoute::Notify(4));
}

#[test]
fn default_interest_is_read_write_priority() {
    assert_eq!(default_interest(), RW_INTERESTS);
    assert_eq!(
        fd_registration(1, None, None),
        Operation::RegistrationFdAdd { fd: 1, interest: RW_INTERESTS, notify: None }
    );
    assert_eq!(
        tcp_registration(1, Some(2), None),
        Operation::RegistrationTcpAdd { fd: 1, interest: 2, notify: None }
    );
}

#[test]
fn poller_requests() {
    let mut p = Poller::new();
    assert_eq!(
        p.handle_op(IoOp::Submit { op: fd_registration(2, None, None) }),
        IoAction::Register(RegisterAction::RegisterFd { fd: 2, token: 0 })
    );
    assert_eq!(p.handle_op(IoOp::Poll), IoAction::PollEvents);
    assert_eq!(p.handle_op(IoOp::PollAndProcess), IoAction::PollEvents);
    assert_eq!(p.handle_op(IoOp::Process), IoAction::Idle);
}
