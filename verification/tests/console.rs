use runc::console::{Control, PtyReply, PtyStage, ReceivePtyMaster};
use runc::error::{IoError, IoErrorKind};
use runc::path::HostPath;
use runc::Error;

fn connected() -> ReceivePtyMaster {
    let mut master = ReceivePtyMaster::new(&HostPath::new("/tmp/console"), Ok(())).unwrap();
    assert_eq!(master.stage(), PtyStage::Listening);
    master.receive(PtyReply::Accepted(Ok(()))).unwrap();
    assert_eq!(master.stage(), PtyStage::Connected);
    master
}

#[test]
fn a_terminal_is_received() {
    let mut master = connected();
    assert_eq!(master.console_socket(), HostPath::new("/tmp/console"));
    master.receive(PtyReply::Received { ret: 3, control: Control::Absent }).unwrap();
    assert_eq!(master.stage(), PtyStage::Connected);
    master.receive(PtyReply::Received { ret: 0, control: Control::Descriptor(7) }).unwrap();
    assert_eq!(master.stage(), PtyStage::Holding(7));
    master.receive(PtyReply::Received { ret: 0, control: Control::Descriptor(8) }).unwrap();
    assert_eq!(master.stage(), PtyStage::Holding(7));
}

#[test]
fn sockets_that_fail() {
    let fault = IoError::new(IoErrorKind::AddrInUse, "in use");
    match ReceivePtyMaster::new(&HostPath::new("/tmp/console"), Err(fault.clone())) {
        Err(Error::UnixSocketOpenError(e)) => assert_eq!(e, fault),
        other => panic!("unexpected: {:?}", other),
    }
    let mut master = ReceivePtyMaster::new(&HostPath::new("/tmp/console"), Ok(())).unwrap();
    match master.receive(PtyReply::Accepted(Err(fault.clone()))) {
        Err(Error::UnixSocketConnectError(e)) => assert_eq!(e, fault),
        other => panic!("unexpected: {:?}", other),
    }
    for (ret, control) in [
        (-1, Control::Absent),
        (-1, Control::Descriptor(7)),
        (0, Control::Empty),
    ] {
        assert!(matches!(
            connected().receive(PtyReply::Received { ret, control }),
            Err(Error::UnixSocketReceiveMessageError)
        ));
    }
}

#[test]
fn replies_out_of_turn() {
    let mut master = ReceivePtyMaster::new(&HostPath::new("/tmp/console"), Ok(())).unwrap();
    master.receive(PtyReply::Received { ret: -1, control: Control::Absent }).unwrap();
    assert_eq!(master.stage(), PtyStage::Listening);
    let mut master = connected();
    master.receive(PtyReply::Accepted(Ok(()))).unwrap();
    assert_eq!(master.stage(), PtyStage::Connected);
}
