use efi_net::error::to_res;
use efi_net::error::ConfigurationError;
use efi_net::error::EfiError;
use efi_net::error::EfiErrorKind;
use efi_net::error::ProtocolError;
use efi_net::error::STATUS_SUCCESS;
use efi_net::net::IpAddr;
use efi_net::net::IpAddress;
use efi_net::net::Ipv4Addr;
use efi_net::net::Ipv6Addr;
use efi_net::net::SocketAddr;
use efi_net::net::SocketAddrV4;
use efi_net::net::SocketAddrV6;
use efi_net::protocols::dhcp::DhcpOption;
use efi_net::protocols::dhcp::DhcpPacket;
use efi_net::protocols::dhcp::Dhcpv4Packet;
use efi_net::protocols::from_boolean;
use efi_net::protocols::pxe::BootType;
use efi_net::protocols::pxe::DiscoverInfo;
use efi_net::protocols::pxe::Mode;
use efi_net::protocols::pxe::PxeBaseCodeProtocol;
use efi_net::protocols::pxe::PxeRequest;
use efi_net::protocols::pxe::SrvListEntry;
use efi_net::protocols::pxe::BOOT_LAYER_INITIAL;
use efi_net::protocols::to_boolean;

#[test]
fn ipv4_address_is_its_four_bytes() {
    let ip = Ipv4Addr::new(93, 184, 216, 34);
    assert_eq!(ip.octets(), [93, 184, 216, 34]);
    assert_eq!(Ipv4Addr::from_octets([93, 184, 216, 34]), ip);
    assert_ne!(Ipv4Addr::new(93, 184, 216, 35), ip);
    assert_eq!(Ipv4Addr::zero().octets(), [0, 0, 0, 0]);
}

#[test]
fn ipv6_address_stores_each_group_low_byte_first() {
    let ip = Ipv6Addr::new(0x2001, 0x0db8, 0, 0, 0, 0, 0xff00, 0x0042);
    assert_eq!(ip.octets(), [0x01, 0x20, 0xb8, 0x0d, 0, 0, 0, 0, 0, 0, 0, 0, 0x00, 0xff, 0x42, 0x00]);
    assert_eq!(Ipv6Addr::from_octets(ip.octets()), ip);
    assert_eq!(
        Ipv6Addr::new(0x0100, 0x0302, 0x0504, 0x0706, 0x0908, 0x0b0a, 0x0d0c, 0x0f0e).octets(),
        [0, 1, 2, 3, 4, 5, 6, 7, 8, 9, 10, 11, 12, 13, 14, 15]
    );
    assert_eq!(Ipv6Addr::new(0xffff, 0, 0, 0, 0, 0, 0, 0xffff).octets()[..2], [0xff, 0xff]);
}

#[test]
fn endpoints_are_an_address_and_a_port() {
    let v4 = SocketAddrV4::new(Ipv4Addr::new(10, 0, 0, 1), 53);
    assert_eq!(*v4.ip(), Ipv4Addr::new(10, 0, 0, 1));
    assert_eq!(v4.port(), 53);
    let six = Ipv6Addr::new(1, 2, 3, 4, 5, 6, 7, 8);
    let v6 = SocketAddrV6::new(six, 65535);
    assert_eq!(*v6.ip(), six);
    assert_eq!(v6.port(), 65535);
    assert_ne!(SocketAddr::V4(v4), SocketAddr::V6(v6));
    assert_ne!(IpAddr::V4(*v4.ip()), IpAddr::V6(six));
}

#[test]
fn platform_address_is_sixteen_bytes() {
    assert_eq!(IpAddress::zero().octets(), [0; 16]);
    let mut bytes = [0; 16];
    bytes[..4].copy_from_slice(&[192, 168, 0, 1]);
    assert_eq!(IpAddress::new(bytes).octets(), bytes);
}

#[test]
fn status_becomes_a_result() {
    assert_eq!(to_res(17u16, STATUS_SUCCESS), Ok(17));
    assert_eq!(to_res((), 0), Ok(()));
    assert_eq!(to_res(17u16, 1), Err(EfiError::Transport(1)));
    assert_eq!(to_res(17u16, usize::MAX), Err(EfiError::Transport(usize::MAX)));
}

#[test]
fn errors_belong_to_three_families() {
    assert_eq!(EfiError::Configuration(ConfigurationError::NoMode).kind(), EfiErrorKind::Configuration);
    assert_eq!(EfiError::Transport(3).kind(), EfiErrorKind::Transport);
    assert_eq!(EfiError::Protocol(ProtocolError::Malformed).kind(), EfiErrorKind::Protocol);
}

#[test]
fn booleans_are_bytes() {
    assert_eq!(to_boolean(true), 1);
    assert_eq!(to_boolean(false), 0);
    assert!(from_boolean(1));
    assert!(!from_boolean(0));
    assert!(from_boolean(2));
    assert!(from_boolean(to_boolean(true)));
    assert!(!from_boolean(to_boolean(false)));
}

#[test]
fn boot_types_have_their_numbers() {
    assert_eq!(BootType::Bootstrap.code(), 0);
    assert_eq!(BootType::MsWinntRis.code(), 1);
    assert_eq!(BootType::IntelLcm.code(), 2);
    assert_eq!(BootType::Dosundi.code(), 3);
    assert_eq!(BootType::NecEsmpro.code(), 4);
    assert_eq!(BootType::IbmWsod.code(), 5);
    assert_eq!(BootType::IbmLccm.code(), 6);
    assert_eq!(BootType::CaUnicenterTng.code(), 7);
    assert_eq!(BootType::HpOpenview.code(), 8);
    assert_eq!(BootType::Altiris9.code(), 9);
    assert_eq!(BootType::Altiris10.code(), 10);
    assert_eq!(BootType::Altiris11.code(), 11);
    assert_eq!(BootType::NotUsed12.code(), 12);
    assert_eq!(BootType::RedhatInstall.code(), 13);
    assert_eq!(BootType::RedhatBoot.code(), 14);
    assert_eq!(BootType::Rembo.code(), 15);
    assert_eq!(BootType::Beoboot.code(), 16);
    assert_eq!(BootType::Pxetest.code(), 65535);
    assert_eq!(BOOT_LAYER_INITIAL, 0);
}

#[test]
fn server_list_entry_keeps_what_it_was_given() {
    let ip = IpAddress::new([7; 16]);
    let entry = SrvListEntry::new(0x8001, true, 9, ip);
    assert_eq!(entry.type_(), 0x8001);
    assert!(entry.accept_any_response());
    assert_eq!(entry.reserved(), 9);
    assert_eq!(entry.ip_addr(), ip);
}

#[test]
fn discover_info_keeps_what_it_was_given() {
    let entries = [
        SrvListEntry::new(1, false, 0, IpAddress::zero()),
        SrvListEntry::new(2, true, 0, IpAddress::new([1; 16])),
    ];
    let info = DiscoverInfo::new(true, false, true, true, IpAddress::new([2; 16]), Some(&entries));
    assert!(info.use_mcast());
    assert!(!info.use_bcast());
    assert!(info.use_ucast());
    assert!(info.must_use_list());
    assert_eq!(info.server_mcast_ip(), IpAddress::new([2; 16]));
    assert_eq!(info.ip_cnt(), 2);
    assert_eq!(info.srvlist(), Some(&entries[..]));
}

#[test]
fn discover_info_counts_modulo_65536() {
    let entries = vec![SrvListEntry::new(1, false, 0, IpAddress::zero()); 65537];
    let info = DiscoverInfo::new(false, false, false, false, IpAddress::zero(), Some(&entries));
    assert_eq!(info.ip_cnt(), 1);
    let info = DiscoverInfo::new(false, false, false, false, IpAddress::zero(), Some(&entries[..65535]));
    assert_eq!(info.ip_cnt(), 65535);
    let info = DiscoverInfo::new(false, false, false, false, IpAddress::zero(), Some(&entries[..0]));
    assert_eq!(info.ip_cnt(), 0);
}

#[test]
fn discover_info_by_default_broadcasts() {
    let info = DiscoverInfo::default();
    assert!(!info.use_mcast());
    assert!(info.use_bcast());
    assert!(!info.use_ucast());
    assert!(!info.must_use_list());
    assert_eq!(info.server_mcast_ip(), IpAddress::zero());
    assert_eq!(info.ip_cnt(), 0);
    assert_eq!(info.srvlist(), None);
}

#[test]
fn base_code_names_its_requests() {
    let pxe = PxeBaseCodeProtocol::new(None);
    assert_eq!(pxe.start(true), PxeRequest::Start { use_ipv6: true });
    assert_eq!(pxe.start(false), PxeRequest::Start { use_ipv6: false });
    assert_eq!(pxe.stop(), PxeRequest::Stop);
    assert_eq!(pxe.dhcp(true), PxeRequest::Dhcp { sort_offers: true });
    let info = DiscoverInfo::default();
    assert_eq!(
        pxe.discover(BootType::Pxetest, BOOT_LAYER_INITIAL, false, Some(&info)),
        PxeRequest::Discover { boot_type: 65535, layer: 0, use_bis: false, info: Some(info) }
    );
    assert_eq!(
        pxe.discover(BootType::RedhatBoot, 3, true, None),
        PxeRequest::Discover { boot_type: 14, layer: 3, use_bis: true, info: None }
    );
    assert_eq!(to_res(3u16, 0), Ok(3));
}

#[test]
fn base_code_hands_out_its_mode() {
    assert_eq!(PxeBaseCodeProtocol::new(None).mode(), None);
    let pxe = PxeBaseCodeProtocol::new(Some(Mode { started: true, ttl: 64, ..Mode::default() }));
    let mode = pxe.mode().unwrap();
    assert!(mode.started());
    assert_eq!(mode.ttl(), 64);
}

#[test]
fn mode_reports_its_fields() {
    let mode = Mode::default();
    assert!(!mode.started());
    assert!(!mode.ipv6_available());
    assert!(!mode.ipv6_supported());
    assert!(!mode.using_ipv6());
    assert!(!mode.bis_supported());
    assert!(!mode.bis_detected());
    assert!(!mode.auto_arp());
    assert!(!mode.send_guid());
    assert!(!mode.dhcp_discover_valid());
    assert!(!mode.dhcp_ack_received());
    assert!(!mode.proxy_offer_received());
    assert!(!mode.pxe_discover_valid());
    assert!(!mode.pxe_reply_received());
    assert!(!mode.pxe_bis_reply_received());
    assert!(!mode.icmp_error_received());
    assert!(!mode.tftp_error_received());
    assert!(!mode.make_callbacks());
    assert_eq!(mode.ttl(), 0);
    assert_eq!(mode.tos(), 0);
    assert_eq!(mode.station_ip(), IpAddress::zero());
    assert_eq!(mode.subnet_mask(), IpAddress::zero());
    assert_eq!(mode.dhcp_ack(), None);
    let mode = Mode {
        started: true,
        ipv6_available: true,
        ipv6_supported: true,
        using_ipv6: true,
        bis_supported: true,
        bis_detected: true,
        auto_arp: true,
        send_guid: true,
        dhcp_discover_valid: true,
        dhcp_ack_received: true,
        proxy_offer_received: true,
        pxe_discover_valid: true,
        pxe_reply_received: true,
        pxe_bis_reply_received: true,
        icmp_error_received: true,
        tftp_error_received: true,
        make_callbacks: true,
        ttl: 64,
        tos: 16,
        station_ip: IpAddress::new([1; 16]),
        subnet_mask: IpAddress::new([255; 16]),
        ack: DhcpPacket::Dhcpv6,
    };
    assert!(mode.started());
    assert!(mode.ipv6_available());
    assert!(mode.ipv6_supported());
    assert!(mode.using_ipv6());
    assert!(mode.bis_supported());
    assert!(mode.bis_detected());
    assert!(mode.auto_arp());
    assert!(mode.send_guid());
    assert!(mode.dhcp_discover_valid());
    assert!(mode.dhcp_ack_received());
    assert!(mode.proxy_offer_received());
    assert!(mode.pxe_discover_valid());
    assert!(mode.pxe_reply_received());
    assert!(mode.pxe_bis_reply_received());
    assert!(mode.icmp_error_received());
    assert!(mode.tftp_error_received());
    assert!(mode.make_callbacks());
    assert_eq!(mode.ttl(), 64);
    assert_eq!(mode.tos(), 16);
    assert_eq!(mode.station_ip(), IpAddress::new([1; 16]));
    assert_eq!(mode.subnet_mask(), IpAddress::new([255; 16]));
    assert_eq!(mode.dhcp_ack(), Some(&DhcpPacket::Dhcpv6));
    assert_eq!(mode.dhcp_ack().unwrap().as_dhcpv4(), None);
}

#[test]
fn options_are_read_in_order() {
    let packet = Dhcpv4Packet::new(vec![53, 1, 5, 0, 0, 6, 8, 8, 8, 8, 8, 1, 1, 1, 1, 12, 0, 255, 3, 4, 1, 2, 3, 4]);
    assert_eq!(
        packet.dhcp_options(),
        vec![
            DhcpOption::new(53, Some(vec![5])),
            DhcpOption::new(6, Some(vec![8, 8, 8, 8, 1, 1, 1, 1])),
            DhcpOption::new(12, Some(Vec::new())),
        ]
    );
    assert_eq!(packet.raw_options().len(), 24);
    let option = packet.dhcp_option(6).unwrap();
    assert_eq!(option.code(), 6);
    assert_eq!(option.value(), Some(&vec![8, 8, 8, 8, 1, 1, 1, 1]));
    assert_eq!(packet.dhcp_option(12), Some(DhcpOption::new(12, Some(Vec::new()))));
    assert_eq!(packet.dhcp_option(3), None);
    assert_eq!(packet.dhcp_option(0), None);
    assert_eq!(packet.dhcp_option(255), None);
}

#[test]
fn options_end_at_one_that_is_cut_off() {
    let packet = Dhcpv4Packet::new(vec![53, 1, 5, 6, 8, 8, 8, 8, 8]);
    assert_eq!(
        packet.dhcp_options(),
        vec![DhcpOption::new(53, Some(vec![5])), DhcpOption::new(6, None)]
    );
    assert_eq!(packet.dhcp_option(6).unwrap().value(), None);
    let packet = Dhcpv4Packet::new(vec![53, 1, 5, 6]);
    assert_eq!(
        packet.dhcp_options(),
        vec![DhcpOption::new(53, Some(vec![5])), DhcpOption::new(6, None)]
    );
    assert_eq!(Dhcpv4Packet::new(Vec::new()).dhcp_options(), Vec::new());
    assert_eq!(Dhcpv4Packet::new(vec![0, 0, 0]).dhcp_options(), Vec::new());
    let packet = Dhcpv4Packet::new(vec![6, 4, 1, 2, 3, 4]);
    assert_eq!(packet.dhcp_options(), vec![DhcpOption::new(6, Some(vec![1, 2, 3, 4]))]);
}

#[test]
fn packet_is_of_one_version() {
    let packet = DhcpPacket::Dhcpv4(Dhcpv4Packet::new(vec![255]));
    assert_eq!(packet.as_dhcpv4(), Some(&Dhcpv4Packet::new(vec![255])));
    assert_eq!(DhcpPacket::Dhcpv6.as_dhcpv4(), None);
}

#[test]
fn options_follow_the_header_and_the_cookie() {
    let mut raw = vec![0u8; 1472];
    raw[236..240].copy_from_slice(&[99, 130, 83, 99]);
    raw[240..247].copy_from_slice(&[6, 4, 9, 9, 9, 9, 255]);
    let packet = Dhcpv4Packet::from_raw(&raw);
    assert_eq!(packet.raw_options().len(), 1232);
    assert_eq!(packet.raw_options()[..7], [6, 4, 9, 9, 9, 9, 255]);
    assert_eq!(packet.dhcp_options(), vec![DhcpOption::new(6, Some(vec![9, 9, 9, 9]))]);
    assert_eq!(Dhcpv4Packet::from_raw(&raw[..240]), Dhcpv4Packet::new(Vec::new()));
    assert_eq!(Dhcpv4Packet::from_raw(&raw[..239]), Dhcpv4Packet::new(Vec::new()));
    assert_eq!(Dhcpv4Packet::from_raw(&[]), Dhcpv4Packet::new(Vec::new()));
    assert_eq!(Dhcpv4Packet::from_raw(&raw[..242]), Dhcpv4Packet::new(vec![6, 4]));
}
