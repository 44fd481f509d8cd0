use bsreceiver::discipline::SocketDiscipline;

#[test]
fn a_puller_is_fed_by_a_pusher() {
    assert_eq!(SocketDiscipline::Pull.complement(), SocketDiscipline::Push);
}

#[test]
fn a_subscriber_is_fed_by_a_publisher() {
    assert_eq!(SocketDiscipline::Subscribe.complement(), SocketDiscipline::Publish);
}

#[test]
fn every_other_discipline_is_fed_by_a_publisher() {
    assert_eq!(SocketDiscipline::Publish.complement(), SocketDiscipline::Publish);
    assert_eq!(SocketDiscipline::Push.complement(), SocketDiscipline::Publish);
}
