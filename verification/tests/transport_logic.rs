use myprotocol::config::TransportConfig;
use myprotocol::decimal::push_decimal;
use myprotocol::error::ProtocolError;
use myprotocol::link::Link;
use myprotocol::tcp::TcpConfig;
use myprotocol::timespan::TimeSpan;
use myprotocol::usb::{
    check_bulk_written, flush_step, select_bulk_endpoints, AltSetting, BulkEndpoints, BulkReader,
    EndpointDirection, EndpointInfo, FlushRead, FlushStep, TransferKind, UsbConfig,
};

fn nanos(t: &TimeSpan) -> u128 {
    t.as_secs() as u128 * 1_000_000_000 + t.subsec_nanos() as u128
}

#[test]
fn decimal_text() {
    let mut s = String::from("n=");
    push_decimal(&mut s, 0);
    assert_eq!(s, "n=0");
    let mut s = String::new();
    push_decimal(&mut s, 1907);
    assert_eq!(s, "1907");
    let mut s = String::new();
    push_decimal(&mut s, u64::MAX);
    assert_eq!(s, "18446744073709551615");
}

#[test]
fn socket_address_joins_host_and_port() {
    let cfg = TcpConfig { address: "192.168.1.100".to_string(), port: 8080, ..Default::default() };
    assert_eq!(cfg.socket_address(), "192.168.1.100:8080");
    let cfg = TcpConfig { address: "host".to_string(), port: 0, ..Default::default() };
    assert_eq!(cfg.socket_address(), "host:0");
    let cfg = TcpConfig { address: String::new(), port: 65535, ..Default::default() };
    assert_eq!(cfg.socket_address(), ":65535");
}

#[test]
fn defaults() {
    let t = TransportConfig::default();
    assert_eq!(nanos(&t.timeout), 30_000_000_000);
    assert_eq!(nanos(&t.close_timeout), 5_000_000_000);

    let c = TcpConfig::default();
    assert_eq!(c.address, "");
    assert_eq!(c.port, 0);
    assert_eq!(c.retry_count, 0);
    assert_eq!(c.timeout.as_secs(), 30);
    assert_eq!(c.close_timeout.as_secs(), 5);
    assert!(c._tls.is_none());

    let u = UsbConfig::default();
    assert_eq!((u.vid, u.pid), (0, 0));
    assert_eq!(nanos(&u.timeout), 30_000_000_000);
    assert_eq!(nanos(&u.close_timeout), 5_000_000_000);
}

#[test]
fn timespan_arithmetic() {
    let a = TimeSpan::from_millis(2_250);
    assert_eq!((a.as_secs(), a.subsec_nanos()), (2, 250_000_000));
    let b = TimeSpan::from_parts(1, 900_000_000);
    let d = a.saturating_sub(&b);
    assert_eq!((d.as_secs(), d.subsec_nanos()), (0, 350_000_000));
    let z = b.saturating_sub(&a);
    assert_eq!(nanos(&z), 0);
    let same = a.saturating_sub(&a);
    assert_eq!(nanos(&same), 0);
}

#[test]
fn bulk_timeout_is_margin_shorter() {
    let u = UsbConfig::default();
    assert_eq!(nanos(&u.bulk_timeout()), 29_900_000_000);
    let u = UsbConfig { timeout: TimeSpan::from_millis(50), ..Default::default() };
    assert_eq!(nanos(&u.bulk_timeout()), 0);
    let u = UsbConfig { timeout: TimeSpan::from_millis(100), ..Default::default() };
    assert_eq!(nanos(&u.bulk_timeout()), 0);
}

use EndpointDirection::{In, Out};
use TransferKind::{Bulk, Interrupt};

fn ep(address: u8, transfer: TransferKind, direction: EndpointDirection) -> EndpointInfo {
    EndpointInfo { address, transfer, direction }
}

#[test]
fn endpoints_from_first_setting_with_both_directions() {
    let ifaces = vec![
        vec![AltSetting { interface_number: 0, endpoints: vec![ep(0x81, Interrupt, In), ep(0x02, Bulk, Out)] }],
        vec![
            AltSetting { interface_number: 1, endpoints: vec![ep(0x83, Bulk, In)] },
            AltSetting {
                interface_number: 1,
                endpoints: vec![ep(0x84, Bulk, In), ep(0x05, Bulk, Out), ep(0x86, Bulk, In)],
            },
        ],
        vec![AltSetting { interface_number: 2, endpoints: vec![ep(0x87, Bulk, In), ep(0x08, Bulk, Out)] }],
    ];
    let picked = select_bulk_endpoints(&ifaces).unwrap();
    assert_eq!(picked, BulkEndpoints { interface_number: 1, in_ep: 0x86, out_ep: 0x05 });
}

#[test]
fn endpoints_not_found() {
    let ifaces = vec![vec![AltSetting {
        interface_number: 0,
        endpoints: vec![ep(0x81, TransferKind::Isochronous, In), ep(0x02, TransferKind::Control, Out)],
    }]];
    assert!(matches!(select_bulk_endpoints(&ifaces), Err(ProtocolError::EndpointNotFound)));
    assert!(matches!(select_bulk_endpoints(&vec![]), Err(ProtocolError::EndpointNotFound)));
}

#[test]
fn bulk_reader_concatenates_short_reads() {
    let mut r = BulkReader::new(5);
    assert_eq!(r.remaining(), 5);
    r.accept(&[1, 2]).unwrap();
    assert!(!r.is_complete());
    assert_eq!(r.remaining(), 3);
    r.accept(&[3]).unwrap();
    r.accept(&[4, 5]).unwrap();
    assert!(r.is_complete());
    assert_eq!(r.into_bytes(), vec![1, 2, 3, 4, 5]);
}

#[test]
fn bulk_reader_empty_transfer_is_early_eof() {
    let mut r = BulkReader::new(3);
    r.accept(&[7]).unwrap();
    match r.accept(&[]) {
        Err(ProtocolError::DecodeError(m)) => assert_eq!(m, "unexpected EOF on USB read"),
        _ => panic!("expected a decode error"),
    }
    assert_eq!(r.remaining(), 2);
    assert!(BulkReader::new(0).is_complete());
}

#[test]
fn short_bulk_write_is_refused() {
    assert!(check_bulk_written(12, 12).is_ok());
    match check_bulk_written(4, 12) {
        Err(ProtocolError::EncodeError(m)) => assert_eq!(m, "write_bulk sent 4 of 12 bytes"),
        _ => panic!("expected an encode error"),
    }
}

#[test]
fn flush_reads_until_timeout() {
    assert_eq!(flush_step(FlushRead::Data), FlushStep::Continue);
    assert_eq!(flush_step(FlushRead::TimedOut), FlushStep::Done);
    assert_eq!(flush_step(FlushRead::Failed), FlushStep::Fail);
}

#[test]
fn link_connect_send_close() {
    let mut link: Link<u32> = Link::new();
    assert!(!link.is_connected());
    assert!(matches!(link.active(), Err(ProtocolError::NotConnected)));
    assert!(link.detach().is_none());

    link.attach(7);
    assert!(link.is_connected());
    *link.active().unwrap() += 1;
    assert_eq!(*link.active().unwrap(), 8);

    assert_eq!(link.detach(), Some(8));
    assert!(!link.is_connected());
    assert!(matches!(link.active(), Err(ProtocolError::NotConnected)));
    assert!(link.detach().is_none());
}

#[test]
fn resends_only_transient_failures_up_to_retry_count() {
    let cfg = TcpConfig { retry_count: 2, ..Default::default() };
    assert_eq!(cfg.next_resend(0, &ProtocolError::Timeout), Some(1));
    let io = ProtocolError::Io(std::io::Error::new(std::io::ErrorKind::ConnectionReset, "reset"));
    assert_eq!(cfg.next_resend(1, &io), Some(2));
    assert_eq!(cfg.next_resend(2, &ProtocolError::Timeout), None);
    assert_eq!(cfg.next_resend(0, &ProtocolError::DecodeError("bad".to_string())), None);
    assert_eq!(cfg.next_resend(0, &ProtocolError::EncodeError("big".to_string())), None);
    assert_eq!(cfg.next_resend(0, &ProtocolError::NotConnected), None);

    let default_cfg = TcpConfig::default();
    assert_eq!(default_cfg.next_resend(0, &ProtocolError::Timeout), None);
}
