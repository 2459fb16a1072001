//! The PXE base code: what is asked of it, and the record that it keeps of
//! the network bootstrap.

use vstd::prelude::*;
use crate::error::ConfigurationError;
use crate::error::EfiError;
use crate::error::STATUS_SUCCESS;
use crate::net::IpAddress;
use crate::protocols::dhcp::DhcpPacket;
use crate::protocols::dhcp::Dhcpv4Packet;

verus! {

/// The layer with which a discovery starts.
pub const BOOT_LAYER_INITIAL: u16 = 0;

/// The kind of boot server that a discovery looks for.
#[derive(Debug, Clone, Copy, PartialEq, Eq, Structural)]
pub enum BootType {
    Bootstrap,
    MsWinntRis,
    IntelLcm,
    Dosundi,
    NecEsmpro,
    IbmWsod,
    IbmLccm,
    CaUnicenterTng,
    HpOpenview,
    Altiris9,
    Altiris10,
    Altiris11,
    NotUsed12,
    RedhatInstall,
    RedhatBoot,
    Rembo,
    Beoboot,
    Pxetest,
}

impl BootType {
    /// The number that stands for this kind on the wire. The numbers
    /// from 17 to 65534 are reserved or left to vendors.
    pub open spec fn spec_code(self) -> u16 {
        match self {
            BootType::Bootstrap => 0,
            BootType::MsWinntRis => 1,
            BootType::IntelLcm => 2,
            BootType::Dosundi => 3,
            BootType::NecEsmpro => 4,
            BootType::IbmWsod => 5,
            BootType::IbmLccm => 6,
            BootType::CaUnicenterTng => 7,
            BootType::HpOpenview => 8,
            BootType::Altiris9 => 9,
            BootType::Altiris10 => 10,
            BootType::Altiris11 => 11,
            BootType::NotUsed12 => 12,
            BootType::RedhatInstall => 13,
            BootType::RedhatBoot => 14,
            BootType::Rembo => 15,
            BootType::Beoboot => 16,
            BootType::Pxetest => 65535,
        }
    }

    /// The number that stands for this kind on the wire.
    #[verifier::when_used_as_spec(spec_code)]
    pub fn code(self) -> (code: u16)
        ensures
            code == self.spec_code(),
    {
        match self {
            BootType::Bootstrap => 0,
            BootType::MsWinntRis => 1,
            BootType::IntelLcm => 2,
            BootType::Dosundi => 3,
            BootType::NecEsmpro => 4,
            BootType::IbmWsod => 5,
            BootType::IbmLccm => 6,
            BootType::CaUnicenterTng => 7,
            BootType::HpOpenview => 8,
            BootType::Altiris9 => 9,
            BootType::Altiris10 => 10,
            BootType::Altiris11 => 11,
            BootType::NotUsed12 => 12,
            BootType::RedhatInstall => 13,
            BootType::RedhatBoot => 14,
            BootType::Rembo => 15,
            BootType::Beoboot => 16,
            BootType::Pxetest => 65535,
        }
    }

    /// No two kinds share a number.
    pub proof fn lemma_code_tells_apart(x: BootType, y: BootType)
        requires
            x.spec_code() == y.spec_code(),
        ensures
            x == y,
    {
    }
}

/// An entry of the list of boot servers that a discovery may be held to.
#[derive(Debug, Clone, Copy, PartialEq, Eq)]
pub struct SrvListEntry {
    type_: u16,
    accept_any_response: bool,
    reserved: u8,
    ip_addr: IpAddress,
}

impl SrvListEntry {
    /// The type of boot server that the entry stands for.
    pub closed spec fn spec_type(&self) -> u16 {
        self.type_
    }

    /// Whether a reply from any address is accepted for this type.
    pub closed spec fn spec_accept_any_response(&self) -> bool {
        self.accept_any_response
    }

    /// The byte that the platform keeps in reserve.
    pub closed spec fn spec_reserved(&self) -> u8 {
        self.reserved
    }

    /// The address of the boot server.
    pub closed spec fn spec_ip_addr(&self) -> IpAddress {
        self.ip_addr
    }

    /// The entry with these contents.
    pub fn new(type_: u16, accept_any_response: bool, reserved: u8, ip_addr: IpAddress) -> (entry:
        SrvListEntry)
        ensures
            entry.spec_type() == type_,
            entry.spec_accept_any_response() == accept_any_response,
            entry.spec_reserved() == reserved,
            entry.spec_ip_addr() == ip_addr,
    {
        SrvListEntry { type_, accept_any_response, reserved, ip_addr }
    }

    /// The type of boot server that the entry stands for.
    pub fn type_(&self) -> (type_: u16)
        ensures
            type_ == self.spec_type(),
    {
        self.type_
    }

    /// Whether a reply from any address is accepted for this type.
    pub fn accept_any_response(&self) -> (accept: bool)
        ensures
            accept == self.spec_accept_any_response(),
    {
        self.accept_any_response
    }

    /// The byte that the platform keeps in reserve.
    pub fn reserved(&self) -> (reserved: u8)
        ensures
            reserved == self.spec_reserved(),
    {
        self.reserved
    }

    /// The address of the boot server.
    pub fn ip_addr(&self) -> (ip_addr: IpAddress)
        ensures
            ip_addr == self.spec_ip_addr(),
    {
        self.ip_addr
    }
}

/// The number of entries that the platform is told of: it keeps sixteen
/// bits for it, so of a longer list it is told the length modulo 65536.
pub open spec fn entry_count(srvlist: Option<&[SrvListEntry]>) -> u16 {
    match srvlist {
        Some(list) => (list@.len() % 65536) as u16,
        None => 0,
    }
}

/// How a discovery is to be carried out.
#[derive(Debug, Clone, Copy, PartialEq, Eq)]
pub struct DiscoverInfo<'a> {
    use_mcast: bool,
    use_bcast: bool,
    use_ucast: bool,
    must_use_list: bool,
    server_mcast_ip: IpAddress,
    ip_cnt: u16,
    srvlist: Option<&'a [SrvListEntry]>,
}

impl<'a> DiscoverInfo<'a> {
    /// Whether the discovery goes out by multicast.
    pub closed spec fn spec_use_mcast(&self) -> bool {
        self.use_mcast
    }

    /// Whether the discovery goes out by broadcast.
    pub closed spec fn spec_use_bcast(&self) -> bool {
        self.use_bcast
    }

    /// Whether the discovery goes out by unicast.
    pub closed spec fn spec_use_ucast(&self) -> bool {
        self.use_ucast
    }

    /// Whether only the servers of the list may answer.
    pub closed spec fn spec_must_use_list(&self) -> bool {
        self.must_use_list
    }

    /// The address to which a multicast discovery goes.
    pub closed spec fn spec_server_mcast_ip(&self) -> IpAddress {
        self.server_mcast_ip
    }

    /// The number of entries that the platform is told of.
    pub closed spec fn spec_ip_cnt(&self) -> u16 {
        self.ip_cnt
    }

    /// The list of boot servers, if the discovery has one.
    pub closed spec fn spec_srvlist(&self) -> Option<&'a [SrvListEntry]> {
        self.srvlist
    }

    /// The way of discovery with these settings.
    pub fn new(
        use_mcast: bool,
        use_bcast: bool,
        use_ucast: bool,
        must_use_list: bool,
        server_mcast_ip: IpAddress,
        srvlist: Option<&'a [SrvListEntry]>,
    ) -> (info: DiscoverInfo<'a>)
        ensures
            info.spec_use_mcast() == use_mcast,
            info.spec_use_bcast() == use_bcast,
            info.spec_use_ucast() == use_ucast,
            info.spec_must_use_list() == must_use_list,
            info.spec_server_mcast_ip() == server_mcast_ip,
            info.spec_ip_cnt() == entry_count(srvlist),
            info.spec_srvlist() == srvlist,
    {
        let ip_cnt: u16 = match srvlist {
            Some(list) => (list.len() % 65536) as u16,
            None => 0,
        };
        DiscoverInfo {
            use_mcast,
            use_bcast,
            use_ucast,
            must_use_list,
            server_mcast_ip,
            ip_cnt,
            srvlist,
        }
    }

    /// Whether the discovery goes out by multicast.
    pub fn use_mcast(&self) -> (yes: bool)
        ensures
            yes == self.spec_use_mcast(),
    {
        self.use_mcast
    }

    /// Whether the discovery goes out by broadcast.
    pub fn use_bcast(&self) -> (yes: bool)
        ensures
            yes == self.spec_use_bcast(),
    {
        self.use_bcast
    }

    /// Whether the discovery goes out by unicast.
    pub fn use_ucast(&self) -> (yes: bool)
        ensures
            yes == self.spec_use_ucast(),
    {
        self.use_ucast
    }

    /// Whether only the servers of the list may answer.
    pub fn must_use_list(&self) -> (yes: bool)
        ensures
            yes == self.spec_must_use_list(),
    {
        self.must_use_list
    }

    /// The address to which a multicast discovery goes.
    pub fn server_mcast_ip(&self) -> (ip: IpAddress)
        ensures
            ip == self.spec_server_mcast_ip(),
    {
        self.server_mcast_ip
    }

    /// The number of entries that the platform is told of.
    pub fn ip_cnt(&self) -> (count: u16)
        ensures
            count == self.spec_ip_cnt(),
    {
        self.ip_cnt
    }

    /// The list of boot servers, if the discovery has one.
    pub fn srvlist(&self) -> (list: Option<&'a [SrvListEntry]>)
        ensures
            list == self.spec_srvlist(),
    {
        self.srvlist
    }
}

impl<'a> Default for DiscoverInfo<'a> {
    /// A discovery by broadcast alone, without a list.
    fn default() -> (info: DiscoverInfo<'a>)
        ensures
            !info.spec_use_mcast(),
            info.spec_use_bcast(),
            !info.spec_use_ucast(),
            !info.spec_must_use_list(),
            info.spec_server_mcast_ip()@ == Seq::new(16, |i: int| 0u8),
            info.spec_ip_cnt() == 0,
            info.spec_srvlist() is None,
    {
        DiscoverInfo::new(false, true, false, false, IpAddress::zero(), None)
    }
}

/// One thing asked of the PXE base code. Each is answered with one status.
#[derive(Debug, Clone, Copy, PartialEq, Eq)]
pub enum PxeRequest<'a> {
    /// Start the base code, for IPv6 or for IPv4.
    Start { use_ipv6: bool },
    /// Stop the base code.
    Stop,
    /// Run the DHCP exchange.
    Dhcp { sort_offers: bool },
    /// Look for a boot server of the kind with this number.
    Discover { boot_type: u16, layer: u16, use_bis: bool, info: Option<DiscoverInfo<'a>> },
}

/// The mode of the PXE base code, as the platform last reported it.
#[derive(Debug, PartialEq, Eq)]
pub struct Mode {
    pub started: bool,
    pub ipv6_available: bool,
    pub ipv6_supported: bool,
    pub using_ipv6: bool,
    pub bis_supported: bool,
    pub bis_detected: bool,
    pub auto_arp: bool,
    pub send_guid: bool,
    pub dhcp_discover_valid: bool,
    pub dhcp_ack_received: bool,
    pub proxy_offer_received: bool,
    pub pxe_discover_valid: bool,
    pub pxe_reply_received: bool,
    pub pxe_bis_reply_received: bool,
    pub icmp_error_received: bool,
    pub tftp_error_received: bool,
    pub make_callbacks: bool,
    pub ttl: u8,
    pub tos: u8,
    pub station_ip: IpAddress,
    pub subnet_mask: IpAddress,
    /// The packet kept as the acknowledgement of the DHCP exchange. It
    /// means something only once an acknowledgement has been received.
    pub ack: DhcpPacket,
}

impl Default for Mode {
    /// The mode of a base code that has not been started: every flag is
    /// down, every number and address is zero, and the packet kept as the
    /// acknowledgement has no options.
    fn default() -> (mode: Mode)
        ensures
            !mode.started,
            !mode.ipv6_available,
            !mode.ipv6_supported,
            !mode.using_ipv6,
            !mode.bis_supported,
            !mode.bis_detected,
            !mode.auto_arp,
            !mode.send_guid,
            !mode.dhcp_discover_valid,
            !mode.dhcp_ack_received,
            !mode.proxy_offer_received,
            !mode.pxe_discover_valid,
            !mode.pxe_reply_received,
            !mode.pxe_bis_reply_received,
            !mode.icmp_error_received,
            !mode.tftp_error_received,
            !mode.make_callbacks,
            mode.ttl == 0,
            mode.tos == 0,
            mode.station_ip@ == Seq::new(16, |i: int| 0u8),
            mode.subnet_mask@ == Seq::new(16, |i: int| 0u8),
            mode.ack matches DhcpPacket::Dhcpv4(packet) && packet@ == Seq::<u8>::empty(),
    {
        Mode {
            started: false,
            ipv6_available: false,
            ipv6_supported: false,
            using_ipv6: false,
            bis_supported: false,
            bis_detected: false,
            auto_arp: false,
            send_guid: false,
            dhcp_discover_valid: false,
            dhcp_ack_received: false,
            proxy_offer_received: false,
            pxe_discover_valid: false,
            pxe_reply_received: false,
            pxe_bis_reply_received: false,
            icmp_error_received: false,
            tftp_error_received: false,
            make_callbacks: false,
            ttl: 0,
            tos: 0,
            station_ip: IpAddress::zero(),
            subnet_mask: IpAddress::zero(),
            ack: DhcpPacket::Dhcpv4(Dhcpv4Packet::new(Vec::new())),
        }
    }
}

impl Mode {
    /// Whether the base code has been started.
    pub fn started(&self) -> (yes: bool)
        ensures
            yes == self.started,
    {
        self.started
    }

    /// Whether the network stack offers IPv6.
    pub fn ipv6_available(&self) -> (yes: bool)
        ensures
            yes == self.ipv6_available,
    {
        self.ipv6_available
    }

    /// Whether the base code can use IPv6.
    pub fn ipv6_supported(&self) -> (yes: bool)
        ensures
            yes == self.ipv6_supported,
    {
        self.ipv6_supported
    }

    /// Whether the base code is using IPv6.
    pub fn using_ipv6(&self) -> (yes: bool)
        ensures
            yes == self.using_ipv6,
    {
        self.using_ipv6
    }

    /// Whether the base code can use boot integrity services.
    pub fn bis_supported(&self) -> (yes: bool)
        ensures
            yes == self.bis_supported,
    {
        self.bis_supported
    }

    /// Whether boot integrity services have been found.
    pub fn bis_detected(&self) -> (yes: bool)
        ensures
            yes == self.bis_detected,
    {
        self.bis_detected
    }

    /// Whether addresses are resolved without being asked for.
    pub fn auto_arp(&self) -> (yes: bool)
        ensures
            yes == self.auto_arp,
    {
        self.auto_arp
    }

    /// Whether the system identifier is sent in requests.
    pub fn send_guid(&self) -> (yes: bool)
        ensures
            yes == self.send_guid,
    {
        self.send_guid
    }

    /// Whether the packet kept as the DHCP discover means something.
    pub fn dhcp_discover_valid(&self) -> (yes: bool)
        ensures
            yes == self.dhcp_discover_valid,
    {
        self.dhcp_discover_valid
    }

    /// Whether an acknowledgement of the DHCP exchange has been received.
    pub fn dhcp_ack_received(&self) -> (yes: bool)
        ensures
            yes == self.dhcp_ack_received,
    {
        self.dhcp_ack_received
    }

    /// Whether a proxy offer has been received.
    pub fn proxy_offer_received(&self) -> (yes: bool)
        ensures
            yes == self.proxy_offer_received,
    {
        self.proxy_offer_received
    }

    /// Whether the packet kept as the PXE discover means something.
    pub fn pxe_discover_valid(&self) -> (yes: bool)
        ensures
            yes == self.pxe_discover_valid,
    {
        self.pxe_discover_valid
    }

    /// Whether a PXE reply has been received.
    pub fn pxe_reply_received(&self) -> (yes: bool)
        ensures
            yes == self.pxe_reply_received,
    {
        self.pxe_reply_received
    }

    /// Whether a PXE reply for boot integrity services has been received.
    pub fn pxe_bis_reply_received(&self) -> (yes: bool)
        ensures
            yes == self.pxe_bis_reply_received,
    {
        self.pxe_bis_reply_received
    }

    /// Whether an ICMP error has been received.
    pub fn icmp_error_received(&self) -> (yes: bool)
        ensures
            yes == self.icmp_error_received,
    {
        self.icmp_error_received
    }

    /// Whether a TFTP error has been received.
    pub fn tftp_error_received(&self) -> (yes: bool)
        ensures
            yes == self.tftp_error_received,
    {
        self.tftp_error_received
    }

    /// Whether the base code calls back while it waits.
    pub fn make_callbacks(&self) -> (yes: bool)
        ensures
            yes == self.make_callbacks,
    {
        self.make_callbacks
    }

    /// The time to live of the packets that the base code sends.
    pub fn ttl(&self) -> (ttl: u8)
        ensures
            ttl == self.ttl,
    {
        self.ttl
    }

    /// The type of service of the packets that the base code sends.
    pub fn tos(&self) -> (tos: u8)
        ensures
            tos == self.tos,
    {
        self.tos
    }

    /// The address of this station.
    pub fn station_ip(&self) -> (ip: IpAddress)
        ensures
            ip == self.station_ip,
    {
        self.station_ip
    }

    /// The subnet mask of this station.
    pub fn subnet_mask(&self) -> (mask: IpAddress)
        ensures
            mask == self.subnet_mask,
    {
        self.subnet_mask
    }

    /// The acknowledgement of the DHCP exchange, once one has been
    /// received.
    pub fn dhcp_ack(&self) -> (packet: Option<&DhcpPacket>)
        ensures
            match packet {
                Some(p) => self.dhcp_ack_received && *p == self.ack,
                None => !self.dhcp_ack_received,
            },
    {
        if self.dhcp_ack_received {
            Some(&self.ack)
        } else {
            None
        }
    }
}

/// The PXE base code of the platform: the mode that it last reported, if
/// it reported one.
#[derive(Debug, PartialEq, Eq)]
pub struct PxeBaseCodeProtocol {
    mode: Option<Mode>,
}

impl PxeBaseCodeProtocol {
    /// The mode that the base code last reported.
    pub closed spec fn spec_mode(&self) -> Option<Mode> {
        self.mode
    }

    /// The base code with this mode.
    pub fn new(mode: Option<Mode>) -> (protocol: PxeBaseCodeProtocol)
        ensures
            protocol.spec_mode() == mode,
    {
        PxeBaseCodeProtocol { mode }
    }

    /// What the search for the base code has come to: the base code with
    /// the mode that it reports, if the platform ended the search with
    /// success.
    pub fn located(status: usize, mode: Option<Mode>) -> (r: Result<PxeBaseCodeProtocol, EfiError>)
        ensures
            match r {
                Ok(protocol) => status == STATUS_SUCCESS && protocol.spec_mode() == mode,
                Err(e) => status != STATUS_SUCCESS && e == EfiError::Configuration(
                    ConfigurationError::NoBaseCode(status),
                ),
            },
    {
        if status == STATUS_SUCCESS {
            Ok(PxeBaseCodeProtocol { mode })
        } else {
            Err(EfiError::Configuration(ConfigurationError::NoBaseCode(status)))
        }
    }

    /// The mode that the base code last reported.
    pub fn mode(&self) -> (mode: Option<&Mode>)
        ensures
            match mode {
                Some(m) => self.spec_mode() == Some(*m),
                None => self.spec_mode() is None,
            },
    {
        self.mode.as_ref()
    }

    /// The request that starts the base code. Its status decides as
    /// [`crate::error::to_res`] says.
    pub fn start(&self, use_ipv6: bool) -> (request: PxeRequest<'static>)
        ensures
            request == (PxeRequest::Start { use_ipv6 }),
    {
        PxeRequest::Start { use_ipv6 }
    }

    /// The request that stops the base code.
    pub fn stop(&self) -> (request: PxeRequest<'static>)
        ensures
            request == PxeRequest::Stop,
    {
        PxeRequest::Stop
    }

    /// The request that runs the DHCP exchange.
    pub fn dhcp(&self, sort_offers: bool) -> (request: PxeRequest<'static>)
        ensures
            request == (PxeRequest::Dhcp { sort_offers }),
    {
        PxeRequest::Dhcp { sort_offers }
    }

    /// The request that looks for a boot server of this kind. When the
    /// platform answers it with success, the discovery gives `layer` back.
    pub fn discover<'a>(
        &self,
        boot_type: BootType,
        layer: u16,
        use_bis: bool,
        info: Option<&DiscoverInfo<'a>>,
    ) -> (request: PxeRequest<'a>)
        ensures
            request == (PxeRequest::Discover {
                boot_type: boot_type.spec_code(),
                layer,
                use_bis,
                info: match info {
                    Some(i) => Some(*i),
                    None => None,
                },
            }),
    {
        let info = match info {
            Some(i) => Some(*i),
            None => None,
        };
        PxeRequest::Discover { boot_type: boot_type.code(), layer, use_bis, info }
    }
}

} // verus!
