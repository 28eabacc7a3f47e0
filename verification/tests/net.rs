use cafe_rs::io::{Error, SocketError};
use cafe_rs::net::addr::{
    resolve_str, resolve_text, IpAddr, Ipv4Addr, Ipv6Addr, SocketAddr, SocketAddrV4, SocketAddrV6,
    ToSocketAddrs,
};
use cafe_rs::net::network::{connect_result, disconnect_result, init_result, AcStatus};
use cafe_rs::net::socket::{
    address_of, call_result, convert_addr, decode_flag, decode_timeout, encode_flag,
    encode_timeout, last_error, send_result, transfer_result, Attempts, RawAddress, LISTEN_BACKLOG,
};

fn v4(a: u8, b: u8, c: u8, d: u8, port: u16) -> SocketAddrV4 {
    SocketAddrV4::new(Ipv4Addr(a, b, c, d), port)
}

#[test]
fn ipv4_numbers() {
    assert_eq!(Ipv4Addr(192, 168, 1, 20).to_bits(), 0xC0A8_0114);
    assert_eq!(Ipv4Addr::from_bits(0x7F00_0001), Ipv4Addr(127, 0, 0, 1));
    let ip = Ipv4Addr(10, 200, 3, 255);
    assert_eq!(Ipv4Addr::from_bits(ip.to_bits()), ip);
}

#[test]
fn raw_address_round_trip() {
    let a = v4(8, 8, 4, 4, 53);
    let raw = convert_addr(a);
    assert_eq!(raw, RawAddress { port: 53, address: 0x0808_0404 });
    assert_eq!(address_of(raw), a);
}

#[test]
fn text_addresses_resolve() {
    assert_eq!(resolve_str("192.168.1.20:8080"), Ok(v4(192, 168, 1, 20, 8080)));
    assert_eq!("10.0.0.1:0".to_socket_addrs(), Ok(v4(10, 0, 0, 1, 0)));
}

#[test]
fn text_falls_back_to_host_and_port_around_the_last_colon() {
    // the socket address parser refuses a signed port; the port parser accepts it
    assert_eq!(resolve_str("1.2.3.4:+80"), Ok(v4(1, 2, 3, 4, 80)));
}

#[test]
fn text_addresses_that_do_not_resolve() {
    // no port
    assert_eq!(resolve_str("1.2.3.4"), Err(Error::InvalidInput));
    // port out of range
    assert_eq!(resolve_str("1.2.3.4:70000"), Err(Error::InvalidInput));
    // host names are not looked up
    assert_eq!(resolve_str("localhost:80"), Err(Error::InvalidInput));
    assert_eq!(resolve_str(""), Err(Error::InvalidInput));
}

#[test]
fn text_resolution_from_parser_results() {
    let a = v4(1, 2, 3, 4, 5);
    assert_eq!(resolve_text(Some(a), None), Ok(a));
    assert_eq!(resolve_text(None, None), Err(Error::InvalidInput));
    assert_eq!(resolve_text(None, Some((Some(Ipv4Addr(9, 9, 9, 9)), Some(7)))), Ok(v4(9, 9, 9, 9, 7)));
    assert_eq!(resolve_text(None, Some((None, Some(7)))), Err(Error::InvalidInput));
    assert_eq!(resolve_text(None, Some((Some(Ipv4Addr(9, 9, 9, 9)), None))), Err(Error::InvalidInput));
}

#[test]
fn other_address_forms() {
    assert_eq!(([127u8, 0, 0, 1], 80u16).to_socket_addrs(), Ok(v4(127, 0, 0, 1, 80)));
    assert_eq!((Ipv4Addr(1, 1, 1, 1), 443u16).to_socket_addrs(), Ok(v4(1, 1, 1, 1, 443)));
    assert_eq!((IpAddr::V4(Ipv4Addr(1, 0, 0, 1)), 53u16).to_socket_addrs(), Ok(v4(1, 0, 0, 1, 53)));
    assert_eq!((IpAddr::V6(Ipv6Addr(1)), 53u16).to_socket_addrs(), Err(Error::AddrNotAvailable));
    assert_eq!(SocketAddr::V4(v4(4, 3, 2, 1, 9)).to_socket_addrs(), Ok(v4(4, 3, 2, 1, 9)));
    let six = SocketAddrV6 { ip: Ipv6Addr(1), port: 9 };
    assert_eq!(SocketAddr::V6(six).to_socket_addrs(), Err(Error::AddrNotAvailable));
    assert_eq!(v4(4, 3, 2, 1, 9).to_socket_addrs(), Ok(v4(4, 3, 2, 1, 9)));
    assert_eq!(("172.16.0.1", 22u16).to_socket_addrs(), Ok(v4(172, 16, 0, 1, 22)));
    assert_eq!(("example", 22u16).to_socket_addrs(), Err(Error::InvalidInput));
}

#[test]
fn auto_connect_results() {
    assert_eq!(init_result(AcStatus::Success), Ok(()));
    assert_eq!(init_result(AcStatus::Processing), Ok(()));
    assert_eq!(init_result(AcStatus::Failed), Err(cafe_rs::net::network::Error::Initialization));
    assert_eq!(connect_result(AcStatus::Failed), Err(cafe_rs::net::network::Error::NetworkConnect));
    assert_eq!(disconnect_result(AcStatus::Failed), Err(cafe_rs::net::network::Error::NetworkDisconnect));
    assert_eq!(disconnect_result(AcStatus::Processing), Ok(()));
    assert_eq!(
        cafe_rs::net::network::Error::NetworkConnect.message(),
        "Cannot connect to auto-configured network"
    );
}

#[test]
fn socket_call_results() {
    assert_eq!(last_error(SocketError::Success), None);
    assert_eq!(last_error(SocketError::Code(5)), Some(SocketError::Code(5)));
    assert_eq!(call_result(3, SocketError::Success), Ok(3));
    assert_eq!(call_result(-1, SocketError::Code(1)), Err(Error::Other));
    assert_eq!(transfer_result(12, SocketError::Success), Ok(12));
    assert_eq!(transfer_result(-1, SocketError::Code(1)), Err(Error::Other));
    assert_eq!(send_result(-1, SocketError::Success), Err(Error::ConnectionAborted));
    assert_eq!(send_result(-1, SocketError::Code(2)), Err(Error::Other));
    assert_eq!(send_result(7, SocketError::Success), Ok(7));
    assert_eq!(Error::from_socket_error(SocketError::Code(9)), Error::Other);
    assert_eq!(LISTEN_BACKLOG, 128);
}

#[test]
fn timeout_options() {
    assert_eq!(encode_timeout(None), (0, 0));
    assert_eq!(encode_timeout(Some((0, 250))), (0, 250));
    assert_eq!(decode_timeout((0, 250)), Some((0, 250)));
    assert_eq!(decode_timeout((0, 0)), None);
    // a timeout of 1.5 s is stored as (1 s, 1500 ms) and reads back as 1 s + 1500 ms
    assert_eq!(encode_timeout(Some((1, 1500))), (1, 1500));
    assert_eq!(decode_timeout((1, 1500)), Some((1, 1500)));
}

#[test]
fn flag_options() {
    assert_eq!(encode_flag(true), 1);
    assert_eq!(encode_flag(false), 0);
    assert_eq!(decode_flag(0), Ok(false));
    assert_eq!(decode_flag(1), Ok(true));
    assert_eq!(decode_flag(2), Err(Error::InvalidData));
}

#[test]
fn attempts_keep_the_last_error() {
    let mut a = Attempts::new();
    assert_eq!(a.error(), Error::AddrNotAvailable);
    assert!(!a.record(Err(Error::ConnectionRefused)));
    assert!(!a.record(Err(Error::TimedOut)));
    assert_eq!(a.error(), Error::TimedOut);
    assert!(a.record(Ok(())));
    assert_eq!(a.error(), Error::TimedOut);
}

#[test]
fn io_error_messages() {
    assert_eq!(Error::NotFound.message(), "An entity was not found, often a file.");
    assert_eq!(Error::Other.message(), "A custom error that does not fall under any other I/O error kind.");
}
