use stm32f4_rs::bus::Command;
use stm32f4_rs::error::BusError;
use stm32f4_rs::helpers::{i2c_scanner, BusScanner, ScanReport, ADDRESS_COUNT};

/// Runs a whole scan on a bus where `present` says which addresses answer.
fn scan(present: fn(u8) -> bool) -> (Vec<u8>, Vec<u8>, ScanReport) {
    let mut scanner: BusScanner<()> = i2c_scanner(());
    let mut probed = Vec::new();
    let mut hits = Vec::new();
    while let Some(command) = scanner.next_probe() {
        assert!(command.opcode.is_empty());
        assert_eq!(command.response_len, 0);
        assert!(command.is_write());
        probed.push(command.address);
        let outcome = if present(command.address) { Ok(()) } else { Err(BusError {}) };
        if let Some(address) = scanner.record(outcome) {
            hits.push(address);
        }
    }
    assert!(scanner.is_complete());
    (probed, hits, scanner.report())
}

#[test]
fn scan_finds_the_two_sensors_and_nothing_else() {
    let (_, hits, report) = scan(|address| address == 0x44 || address == 0x68);
    assert_eq!(report.count, 2);
    assert_eq!(report.addresses, vec![0x44, 0x68]);
    assert_eq!(hits, vec![0x44, 0x68]);
}

#[test]
fn scan_probes_every_address_once_and_in_order() {
    let (probed, _, _) = scan(|_| false);
    let expected: Vec<u8> = (0..=127).collect();
    assert_eq!(probed, expected);
    assert_eq!(ADDRESS_COUNT, 128);
}

#[test]
fn scan_of_an_empty_bus_finds_nothing() {
    let (_, hits, report) = scan(|_| false);
    assert_eq!(report, ScanReport { count: 0, addresses: vec![] });
    assert!(hits.is_empty());
}

#[test]
fn scan_of_a_full_bus_finds_every_address() {
    let (_, _, report) = scan(|_| true);
    let expected: Vec<u8> = (0..=127).collect();
    assert_eq!(report.count, 128);
    assert_eq!(report.addresses, expected);
}

#[test]
fn scan_finds_the_first_and_the_last_address() {
    let (_, _, report) = scan(|address| address == 0 || address == 127);
    assert_eq!(report, ScanReport { count: 2, addresses: vec![0, 127] });
}

#[test]
fn scan_starts_with_an_empty_write_to_address_zero() {
    let scanner = i2c_scanner(());
    assert!(!scanner.is_complete());
    assert_eq!(
        scanner.next_probe(),
        Some(Command { address: 0, opcode: vec![], response_len: 0 })
    );
    assert_eq!(scanner.report(), ScanReport { count: 0, addresses: vec![] });
}

#[test]
fn scan_moves_on_after_each_outcome() {
    let mut scanner = i2c_scanner(());
    assert_eq!(scanner.record(Err(BusError {})), None);
    assert_eq!(scanner.next_probe().map(|command| command.address), Some(1));
    assert_eq!(scanner.record(Ok(())), Some(1));
    assert_eq!(scanner.next_probe().map(|command| command.address), Some(2));
    assert_eq!(scanner.report(), ScanReport { count: 1, addresses: vec![1] });
}

#[test]
fn outcome_after_the_last_address_changes_nothing() {
    let mut scanner = i2c_scanner(());
    for _ in 0..128 {
        scanner.record(Err(BusError {}));
    }
    assert!(scanner.is_complete());
    assert_eq!(scanner.next_probe(), None);
    assert_eq!(scanner.record(Ok(())), None);
    assert_eq!(scanner.record(Ok(())), None);
    assert!(scanner.is_complete());
    assert_eq!(scanner.report(), ScanReport { count: 0, addresses: vec![] });
}

#[test]
fn scanner_holds_the_bus_and_gives_it_back() {
    let mut scanner = i2c_scanner(vec![0u8]);
    scanner.inner_mut().push(1);
    scanner.record(Ok(()));
    scanner.inner_mut().push(2);
    assert_eq!(scanner.report().addresses, vec![0]);
    assert_eq!(scanner.inner(), vec![0, 1, 2]);
}
