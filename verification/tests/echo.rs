use stm32f4_rs::echo::{EchoAction, EchoEvent, EchoService, EchoState};
use stm32f4_rs::error::EndpointError;
use stm32f4_rs::usb::{ConnectionState, Packet};

fn packet(bytes: &[u8]) -> Packet {
    Packet::new(bytes).unwrap()
}

fn connected() -> EchoService {
    let mut service = EchoService::new();
    assert_eq!(service.step(EchoEvent::Connected), EchoAction::ReadPacket);
    service
}

#[test]
fn service_starts_by_waiting_for_a_host() {
    let service = EchoService::new();
    assert_eq!(service.pending(), EchoAction::WaitConnection);
    assert_eq!(service.connection_state(), ConnectionState::Disconnected);
}

#[test]
fn service_reads_once_the_host_is_there() {
    let mut service = EchoService::new();
    assert_eq!(service.step(EchoEvent::Connected), EchoAction::ReadPacket);
    assert_eq!(service.connection_state(), ConnectionState::Connected);
    assert_eq!(service.pending(), EchoAction::ReadPacket);
}

#[test]
fn echo_gives_back_every_packet_of_every_length() {
    let mut service = connected();
    for length in 0..=64usize {
        let bytes: Vec<u8> = (0..length).map(|i| (i * 37 + length) as u8).collect();
        let action = service.step(EchoEvent::Received(packet(&bytes)));
        match action {
            EchoAction::WritePacket(reply) => {
                assert_eq!(reply.as_slice(), bytes.as_slice());
                assert_eq!(reply.len(), length);
            }
            other => panic!("expected a write, got {:?}", other),
        }
        assert_eq!(service.step(EchoEvent::Written), EchoAction::ReadPacket);
    }
}

#[test]
fn echo_does_not_care_what_the_bytes_spell() {
    let mut service = connected();
    let bytes = [0xFF, 0xFE, 0x00, 0xC3, 0x28, 0x80];
    assert!(std::str::from_utf8(&bytes).is_err());
    assert_eq!(
        service.step(EchoEvent::Received(packet(&bytes))),
        EchoAction::WritePacket(packet(&bytes))
    );
}

#[test]
fn echo_of_text_is_the_same_text() {
    let mut service = connected();
    assert_eq!(
        service.step(EchoEvent::Received(packet(b"hello\r\n"))),
        EchoAction::WritePacket(packet(b"hello\r\n"))
    );
}

#[test]
fn packet_holds_up_to_64_bytes() {
    assert_eq!(Packet::new(&[]).map(|p| p.len()), Some(0));
    assert_eq!(Packet::new(&[1u8; 64]).map(|p| p.len()), Some(64));
    assert_eq!(Packet::new(&[1u8; 65]), None);
    assert_eq!(Packet::new(&[1u8; 1000]), None);
}

#[test]
fn packet_keeps_its_bytes() {
    let bytes: Vec<u8> = (0..64u8).collect();
    let first = packet(&bytes);
    assert_eq!(first.as_slice(), bytes.as_slice());
    let second = first.clone();
    assert_eq!(second, first);
    assert_eq!(second.as_slice(), bytes.as_slice());
}

#[test]
fn write_stays_pending_until_it_is_done() {
    let mut service = connected();
    service.step(EchoEvent::Received(packet(&[1, 2, 3])));
    assert_eq!(service.pending(), EchoAction::WritePacket(packet(&[1, 2, 3])));
    assert_eq!(service.connection_state(), ConnectionState::Connected);
    assert_eq!(service.step(EchoEvent::Written), EchoAction::ReadPacket);
}

#[test]
fn disabled_endpoint_while_reading_sends_the_service_back_to_waiting() {
    let mut service = connected();
    assert_eq!(
        service.step(EchoEvent::Failed(EndpointError::Disabled)),
        EchoAction::WaitConnection
    );
    assert_eq!(service.connection_state(), ConnectionState::Disconnected);
}

#[test]
fn disabled_endpoint_while_writing_sends_the_service_back_to_waiting() {
    let mut service = connected();
    service.step(EchoEvent::Received(packet(&[9])));
    assert_eq!(
        service.step(EchoEvent::Failed(EndpointError::Disabled)),
        EchoAction::WaitConnection
    );
    assert_eq!(service.connection_state(), ConnectionState::Disconnected);
}

#[test]
fn service_echoes_again_after_the_host_comes_back() {
    let mut service = connected();
    service.step(EchoEvent::Received(packet(&[9])));
    service.step(EchoEvent::Failed(EndpointError::Disabled));
    assert_eq!(service.step(EchoEvent::Connected), EchoAction::ReadPacket);
    assert_eq!(
        service.step(EchoEvent::Received(packet(&[4, 5]))),
        EchoAction::WritePacket(packet(&[4, 5]))
    );
}

#[test]
fn overflow_halts_the_service() {
    let mut service = connected();
    assert_eq!(service.step(EchoEvent::Failed(EndpointError::BufferOverflow)), EchoAction::Halt);
    assert_eq!(service.pending(), EchoAction::Halt);
    assert_eq!(service.connection_state(), ConnectionState::Disconnected);
}

#[test]
fn overflow_halts_the_service_in_every_state() {
    let mut waiting = EchoService::new();
    assert_eq!(waiting.step(EchoEvent::Failed(EndpointError::BufferOverflow)), EchoAction::Halt);
    let mut writing = connected();
    writing.step(EchoEvent::Received(packet(&[1])));
    assert_eq!(writing.step(EchoEvent::Failed(EndpointError::BufferOverflow)), EchoAction::Halt);
}

#[test]
fn halted_service_stays_halted() {
    let mut service = connected();
    service.step(EchoEvent::Failed(EndpointError::BufferOverflow));
    assert_eq!(service.step(EchoEvent::Connected), EchoAction::Halt);
    assert_eq!(service.step(EchoEvent::Received(packet(&[1]))), EchoAction::Halt);
    assert_eq!(service.step(EchoEvent::Written), EchoAction::Halt);
    assert_eq!(service.step(EchoEvent::Failed(EndpointError::Disabled)), EchoAction::Halt);
    assert_eq!(service.step(EchoEvent::Failed(EndpointError::BufferOverflow)), EchoAction::Halt);
}

#[test]
fn event_that_nothing_waits_for_changes_nothing() {
    let mut waiting = EchoService::new();
    assert_eq!(waiting.step(EchoEvent::Written), EchoAction::WaitConnection);
    assert_eq!(waiting.step(EchoEvent::Received(packet(&[1]))), EchoAction::WaitConnection);
    assert_eq!(waiting.step(EchoEvent::Failed(EndpointError::Disabled)), EchoAction::WaitConnection);

    let mut reading = connected();
    assert_eq!(reading.step(EchoEvent::Connected), EchoAction::ReadPacket);
    assert_eq!(reading.step(EchoEvent::Written), EchoAction::ReadPacket);

    let mut writing = connected();
    writing.step(EchoEvent::Received(packet(&[1, 2])));
    assert_eq!(writing.step(EchoEvent::Connected), EchoAction::WritePacket(packet(&[1, 2])));
    assert_eq!(
        writing.step(EchoEvent::Received(packet(&[3]))),
        EchoAction::WritePacket(packet(&[1, 2]))
    );
}

#[test]
fn states_carry_what_is_in_flight() {
    let in_flight = EchoState::AwaitingWrite(packet(&[7]));
    assert_eq!(in_flight, EchoState::AwaitingWrite(packet(&[7])));
    assert_ne!(in_flight, EchoState::AwaitingWrite(packet(&[8])));
    assert_ne!(in_flight, EchoState::AwaitingPacket);
}

#[test]
fn text_of_a_packet_is_its_bytes_read_as_utf8() {
    assert_eq!(packet(b"hello").text(), Some("hello"));
    assert_eq!(packet(b"").text(), Some(""));
    assert_eq!(packet(&[0xC3, 0xA9]).text(), Some("\u{e9}"));
    assert_eq!(packet(&[0xF0, 0x9F, 0x98, 0x80]).text(), Some("\u{1F600}"));
}

#[test]
fn packet_that_is_no_utf8_has_no_text() {
    assert_eq!(packet(&[0xFF]).text(), None);
    assert_eq!(packet(&[0x68, 0x69, 0x80]).text(), None);
    assert_eq!(packet(&[0xC0, 0x80]).text(), None);
    assert_eq!(packet(&[0xED, 0xA0, 0x80]).text(), None);
    assert_eq!(packet(&[0xF4, 0x90, 0x80, 0x80]).text(), None);
    assert_eq!(packet(&[0xC3]).text(), None);
}

#[test]
fn reading_a_packet_as_text_leaves_it_as_it_is() {
    let mut service = connected();
    let received = packet(&[0x68, 0x69, 0xFF]);
    assert_eq!(received.text(), None);
    assert_eq!(
        service.step(EchoEvent::Received(received)),
        EchoAction::WritePacket(packet(&[0x68, 0x69, 0xFF]))
    );
}
