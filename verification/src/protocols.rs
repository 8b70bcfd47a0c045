//! IANA-assigned IP protocol numbers.

use vstd::prelude::*;

use crate::parsing_error::ParsingError;

verus! {

/// An IP protocol number, as assigned by the IANA.
///
/// PCP carries the protocol of a mapping in one byte; the value 0
/// (`Hopopt`) doubles as "all protocols" in MAP requests.
#[derive(Clone, Copy, Debug, PartialEq, Eq, Structural)]
pub enum ProtocolNumber {
    /// IANA protocol number 0.
    Hopopt,
    /// IANA protocol number 1.
    Icmp,
    /// IANA protocol number 2.
    Igmp,
    /// IANA protocol number 3.
    Ggp,
    /// IANA protocol number 4.
    Ipv4,
    /// IANA protocol number 5.
    St,
    /// IANA protocol number 6.
    Tcp,
    /// IANA protocol number 7.
    Cbt,
    /// IANA protocol number 8.
    Egp,
    /// IANA protocol number 9.
    Igp,
    /// IANA protocol number 10.
    BbnRccMon,
    /// IANA protocol number 11.
    NvpII,
    /// IANA protocol number 12.
    Pup,
    /// IANA protocol number 13.
    Argus,
    /// IANA protocol number 14.
    Emcon,
    /// IANA protocol number 15.
    Xnet,
    /// IANA protocol number 16.
    Chaos,
    /// IANA protocol number 17.
    Udp,
    /// IANA protocol number 18.
    Mux,
    /// IANA protocol number 19.
    DcnMeas,
    /// IANA protocol number 20.
    Hmp,
    /// IANA protocol number 21.
    Prm,
    /// IANA protocol number 22.
    XnsIdp,
    /// IANA protocol number 23.
    Trunk1,
    /// IANA protocol number 24.
    Trunk2,
    /// IANA protocol number 25.
    Leaf1,
    /// IANA protocol number 26.
    Leaf2,
    /// IANA protocol number 27.
    Rdp,
    /// IANA protocol number 28.
    Irtp,
    /// IANA protocol number 29.
    IsoTp4,
    /// IANA protocol number 30.
    Netblt,
    /// IANA protocol number 31.
    MfeNsp,
    /// IANA protocol number 32.
    MeritInp,
    /// IANA protocol number 33.
    Dccp,
    /// IANA protocol number 34.
    ThreePc,
    /// IANA protocol number 35.
    Idpr,
    /// IANA protocol number 36.
    Xtp,
    /// IANA protocol number 37.
    Ddp,
    /// IANA protocol number 38.
    IdprCmtp,
    /// IANA protocol number 39.
    TpPlusPlus,
    /// IANA protocol number 40.
    Il,
    /// IANA protocol number 41.
    Ipv6,
    /// IANA protocol number 42.
    Sdrp,
    /// IANA protocol number 43.
    Ipv6Route,
    /// IANA protocol number 44.
    Ipv6Frag,
    /// IANA protocol number 45.
    Idrp,
    /// IANA protocol number 46.
    Rsvp,
    /// IANA protocol number 47.
    Gre,
    /// IANA protocol number 48.
    Dsr,
    /// IANA protocol number 49.
    Bna,
    /// IANA protocol number 50.
    Esp,
    /// IANA protocol number 51.
    Ah,
    /// IANA protocol number 52.
    INlsp,
    /// IANA protocol number 53.
    Swipe,
    /// IANA protocol number 54.
    Narp,
    /// IANA protocol number 55.
    Mobile,
    /// IANA protocol number 56.
    Tlsp,
    /// IANA protocol number 57.
    Skip,
    /// IANA protocol number 58.
    Ipv6Icmp,
    /// IANA protocol number 59.
    Ipv6NoNxt,
    /// IANA protocol number 60.
    Ipv6Opts,
    /// IANA protocol number 61.
    HostInternal,
    /// IANA protocol number 62.
    Cftp,
    /// IANA protocol number 63.
    LocalNetwork,
    /// IANA protocol number 64.
    SatExpak,
    /// IANA protocol number 65.
    Kryptolan,
    /// IANA protocol number 66.
    Rvd,
    /// IANA protocol number 67.
    Ippc,
    /// IANA protocol number 68.
    DistributedFs,
    /// IANA protocol number 69.
    SatMon,
    /// IANA protocol number 70.
    Visa,
    /// IANA protocol number 71.
    Ipcv,
    /// IANA protocol number 72.
    Cpnx,
    /// IANA protocol number 73.
    Cphb,
    /// IANA protocol number 74.
    Wsn,
    /// IANA protocol number 75.
    Pvp,
    /// IANA protocol number 76.
    BrSatMon,
    /// IANA protocol number 77.
    SunNd,
    /// IANA protocol number 78.
    WbMon,
    /// IANA protocol number 79.
    WbExpak,
    /// IANA protocol number 80.
    IsoIp,
    /// IANA protocol number 81.
    Vmtp,
    /// IANA protocol number 82.
    SecureVmtp,
    /// IANA protocol number 83.
    Vines,
    /// IANA protocol number 84.
    TtpOrIptm,
    /// IANA protocol number 85.
    NsfnetIgp,
    /// IANA protocol number 86.
    Dgp,
    /// IANA protocol number 87.
    Tcf,
    /// IANA protocol number 88.
    Eigrp,
    /// IANA protocol number 89.
    OspfigP,
    /// IANA protocol number 90.
    SpriteRpc,
    /// IANA protocol number 91.
    Larp,
    /// IANA protocol number 92.
    Mtp,
    /// IANA protocol number 93.
    Ax25,
    /// IANA protocol number 94.
    IpIp,
    /// IANA protocol number 95.
    Micp,
    /// IANA protocol number 96.
    SccSp,
    /// IANA protocol number 97.
    Etherip,
    /// IANA protocol number 98.
    Encap,
    /// IANA protocol number 99.
    PrivEncryption,
    /// IANA protocol number 100.
    Gmtp,
    /// IANA protocol number 101.
    Ifmp,
    /// IANA protocol number 102.
    Pnni,
    /// IANA protocol number 103.
    Pim,
    /// IANA protocol number 104.
    Aris,
    /// IANA protocol number 105.
    Scps,
    /// IANA protocol number 106.
    Qnx,
    /// IANA protocol number 107.
    AN,
    /// IANA protocol number 108.
    IpComp,
    /// IANA protocol number 109.
    Snp,
    /// IANA protocol number 110.
    CompaqPeer,
    /// IANA protocol number 111.
    IpxInIp,
    /// IANA protocol number 112.
    Vrrp,
    /// IANA protocol number 113.
    Pgm,
    /// IANA protocol number 114.
    ZeroHop,
    /// IANA protocol number 115.
    L2tp,
    /// IANA protocol number 116.
    Ddx,
    /// IANA protocol number 117.
    Iatp,
    /// IANA protocol number 118.
    Stp,
    /// IANA protocol number 119.
    Srp,
    /// IANA protocol number 120.
    Uti,
    /// IANA protocol number 121.
    Smp,
    /// IANA protocol number 122.
    Sm,
    /// IANA protocol number 123.
    Ptp,
    /// IANA protocol number 124.
    IsisOverIpv4,
    /// IANA protocol number 125.
    Fire,
    /// IANA protocol number 126.
    Crtp,
    /// IANA protocol number 127.
    Crudp,
    /// IANA protocol number 128.
    Sscopmce,
    /// IANA protocol number 129.
    Iplt,
    /// IANA protocol number 130.
    Sps,
    /// IANA protocol number 131.
    Pipe,
    /// IANA protocol number 132.
    Sctp,
    /// IANA protocol number 133.
    Fc,
    /// IANA protocol number 134.
    RsvpE2eIgnore,
    /// IANA protocol number 135.
    MobilityHeader,
    /// IANA protocol number 136.
    UdpLite,
    /// IANA protocol number 137.
    MplsInIp,
    /// IANA protocol number 138.
    Manet,
    /// IANA protocol number 139.
    Hip,
    /// IANA protocol number 140.
    Shim6,
    /// IANA protocol number 141.
    Wesp,
    /// IANA protocol number 142.
    Rohc,
    /// IANA protocol number 143.
    Ethernet,
    /// IANA protocol number 253.
    Test1,
    /// IANA protocol number 254.
    Test2,
}

/// Wire value of a protocol number.
pub open spec fn protocol_value(p: ProtocolNumber) -> u8 {
    match p {
        ProtocolNumber::Hopopt => 0,
        ProtocolNumber::Icmp => 1,
        ProtocolNumber::Igmp => 2,
        ProtocolNumber::Ggp => 3,
        ProtocolNumber::Ipv4 => 4,
        ProtocolNumber::St => 5,
        ProtocolNumber::Tcp => 6,
        ProtocolNumber::Cbt => 7,
        ProtocolNumber::Egp => 8,
        ProtocolNumber::Igp => 9,
        ProtocolNumber::BbnRccMon => 10,
        ProtocolNumber::NvpII => 11,
        ProtocolNumber::Pup => 12,
        ProtocolNumber::Argus => 13,
        ProtocolNumber::Emcon => 14,
        ProtocolNumber::Xnet => 15,
        ProtocolNumber::Chaos => 16,
        ProtocolNumber::Udp => 17,
        ProtocolNumber::Mux => 18,
        ProtocolNumber::DcnMeas => 19,
        ProtocolNumber::Hmp => 20,
        ProtocolNumber::Prm => 21,
        ProtocolNumber::XnsIdp => 22,
        ProtocolNumber::Trunk1 => 23,
        ProtocolNumber::Trunk2 => 24,
        ProtocolNumber::Leaf1 => 25,
        ProtocolNumber::Leaf2 => 26,
        ProtocolNumber::Rdp => 27,
        ProtocolNumber::Irtp => 28,
        ProtocolNumber::IsoTp4 => 29,
        ProtocolNumber::Netblt => 30,
        ProtocolNumber::MfeNsp => 31,
        ProtocolNumber::MeritInp => 32,
        ProtocolNumber::Dccp => 33,
        ProtocolNumber::ThreePc => 34,
        ProtocolNumber::Idpr => 35,
        ProtocolNumber::Xtp => 36,
        ProtocolNumber::Ddp => 37,
        ProtocolNumber::IdprCmtp => 38,
        ProtocolNumber::TpPlusPlus => 39,
        ProtocolNumber::Il => 40,
        ProtocolNumber::Ipv6 => 41,
        ProtocolNumber::Sdrp => 42,
        ProtocolNumber::Ipv6Route => 43,
        ProtocolNumber::Ipv6Frag => 44,
        ProtocolNumber::Idrp => 45,
        ProtocolNumber::Rsvp => 46,
        ProtocolNumber::Gre => 47,
        ProtocolNumber::Dsr => 48,
        ProtocolNumber::Bna => 49,
        ProtocolNumber::Esp => 50,
        ProtocolNumber::Ah => 51,
        ProtocolNumber::INlsp => 52,
        ProtocolNumber::Swipe => 53,
        ProtocolNumber::Narp => 54,
        ProtocolNumber::Mobile => 55,
        ProtocolNumber::Tlsp => 56,
        ProtocolNumber::Skip => 57,
        ProtocolNumber::Ipv6Icmp => 58,
        ProtocolNumber::Ipv6NoNxt => 59,
        ProtocolNumber::Ipv6Opts => 60,
        ProtocolNumber::HostInternal => 61,
        ProtocolNumber::Cftp => 62,
        ProtocolNumber::LocalNetwork => 63,
        ProtocolNumber::SatExpak => 64,
        ProtocolNumber::Kryptolan => 65,
        ProtocolNumber::Rvd => 66,
        ProtocolNumber::Ippc => 67,
        ProtocolNumber::DistributedFs => 68,
        ProtocolNumber::SatMon => 69,
        ProtocolNumber::Visa => 70,
        ProtocolNumber::Ipcv => 71,
        ProtocolNumber::Cpnx => 72,
        ProtocolNumber::Cphb => 73,
        ProtocolNumber::Wsn => 74,
        ProtocolNumber::Pvp => 75,
        ProtocolNumber::BrSatMon => 76,
        ProtocolNumber::SunNd => 77,
        ProtocolNumber::WbMon => 78,
        ProtocolNumber::WbExpak => 79,
        ProtocolNumber::IsoIp => 80,
        ProtocolNumber::Vmtp => 81,
        ProtocolNumber::SecureVmtp => 82,
        ProtocolNumber::Vines => 83,
        ProtocolNumber::TtpOrIptm => 84,
        ProtocolNumber::NsfnetIgp => 85,
        ProtocolNumber::Dgp => 86,
        ProtocolNumber::Tcf => 87,
        ProtocolNumber::Eigrp => 88,
        ProtocolNumber::OspfigP => 89,
        ProtocolNumber::SpriteRpc => 90,
        ProtocolNumber::Larp => 91,
        ProtocolNumber::Mtp => 92,
        ProtocolNumber::Ax25 => 93,
        ProtocolNumber::IpIp => 94,
        ProtocolNumber::Micp => 95,
        ProtocolNumber::SccSp => 96,
        ProtocolNumber::Etherip => 97,
        ProtocolNumber::Encap => 98,
        ProtocolNumber::PrivEncryption => 99,
        ProtocolNumber::Gmtp => 100,
        ProtocolNumber::Ifmp => 101,
        ProtocolNumber::Pnni => 102,
        ProtocolNumber::Pim => 103,
        ProtocolNumber::Aris => 104,
        ProtocolNumber::Scps => 105,
        ProtocolNumber::Qnx => 106,
        ProtocolNumber::AN => 107,
        ProtocolNumber::IpComp => 108,
        ProtocolNumber::Snp => 109,
        ProtocolNumber::CompaqPeer => 110,
        ProtocolNumber::IpxInIp => 111,
        ProtocolNumber::Vrrp => 112,
        ProtocolNumber::Pgm => 113,
        ProtocolNumber::ZeroHop => 114,
        ProtocolNumber::L2tp => 115,
        ProtocolNumber::Ddx => 116,
        ProtocolNumber::Iatp => 117,
        ProtocolNumber::Stp => 118,
        ProtocolNumber::Srp => 119,
        ProtocolNumber::Uti => 120,
        ProtocolNumber::Smp => 121,
        ProtocolNumber::Sm => 122,
        ProtocolNumber::Ptp => 123,
        ProtocolNumber::IsisOverIpv4 => 124,
        ProtocolNumber::Fire => 125,
        ProtocolNumber::Crtp => 126,
        ProtocolNumber::Crudp => 127,
        ProtocolNumber::Sscopmce => 128,
        ProtocolNumber::Iplt => 129,
        ProtocolNumber::Sps => 130,
        ProtocolNumber::Pipe => 131,
        ProtocolNumber::Sctp => 132,
        ProtocolNumber::Fc => 133,
        ProtocolNumber::RsvpE2eIgnore => 134,
        ProtocolNumber::MobilityHeader => 135,
        ProtocolNumber::UdpLite => 136,
        ProtocolNumber::MplsInIp => 137,
        ProtocolNumber::Manet => 138,
        ProtocolNumber::Hip => 139,
        ProtocolNumber::Shim6 => 140,
        ProtocolNumber::Wesp => 141,
        ProtocolNumber::Rohc => 142,
        ProtocolNumber::Ethernet => 143,
        ProtocolNumber::Test1 => 253,
        ProtocolNumber::Test2 => 254,
    }
}

/// Whether a byte is an assigned IANA protocol number.
pub open spec fn is_protocol_byte(b: u8) -> bool {
    b < 144 || b == 253 || b == 254
}

/// Protocol number denoted by a wire byte, if any.
pub open spec fn spec_protocol_from(b: u8) -> Option<ProtocolNumber> {
    if b == 0 {
        Some(ProtocolNumber::Hopopt)
    } else if b == 1 {
        Some(ProtocolNumber::Icmp)
    } else if b == 2 {
        Some(ProtocolNumber::Igmp)
    } else if b == 3 {
        Some(ProtocolNumber::Ggp)
    } else if b == 4 {
        Some(ProtocolNumber::Ipv4)
    } else if b == 5 {
        Some(ProtocolNumber::St)
    } else if b == 6 {
        Some(ProtocolNumber::Tcp)
    } else if b == 7 {
        Some(ProtocolNumber::Cbt)
    } else if b == 8 {
        Some(ProtocolNumber::Egp)
    } else if b == 9 {
        Some(ProtocolNumber::Igp)
    } else if b == 10 {
        Some(ProtocolNumber::BbnRccMon)
    } else if b == 11 {
        Some(ProtocolNumber::NvpII)
    } else if b == 12 {
        Some(ProtocolNumber::Pup)
    } else if b == 13 {
        Some(ProtocolNumber::Argus)
    } else if b == 14 {
        Some(ProtocolNumber::Emcon)
    } else if b == 15 {
        Some(ProtocolNumber::Xnet)
    } else if b == 16 {
        Some(ProtocolNumber::Chaos)
    } else if b == 17 {
        Some(ProtocolNumber::Udp)
    } else if b == 18 {
        Some(ProtocolNumber::Mux)
    } else if b == 19 {
        Some(ProtocolNumber::DcnMeas)
    } else if b == 20 {
        Some(ProtocolNumber::Hmp)
    } else if b == 21 {
        Some(ProtocolNumber::Prm)
    } else if b == 22 {
        Some(ProtocolNumber::XnsIdp)
    } else if b == 23 {
        Some(ProtocolNumber::Trunk1)
    } else if b == 24 {
        Some(ProtocolNumber::Trunk2)
    } else if b == 25 {
        Some(ProtocolNumber::Leaf1)
    } else if b == 26 {
        Some(ProtocolNumber::Leaf2)
    } else if b == 27 {
        Some(ProtocolNumber::Rdp)
    } else if b == 28 {
        Some(ProtocolNumber::Irtp)
    } else if b == 29 {
        Some(ProtocolNumber::IsoTp4)
    } else if b == 30 {
        Some(ProtocolNumber::Netblt)
    } else if b == 31 {
        Some(ProtocolNumber::MfeNsp)
    } else if b == 32 {
        Some(ProtocolNumber::MeritInp)
    } else if b == 33 {
        Some(ProtocolNumber::Dccp)
    } else if b == 34 {
        Some(ProtocolNumber::ThreePc)
    } else if b == 35 {
        Some(ProtocolNumber::Idpr)
    } else if b == 36 {
        Some(ProtocolNumber::Xtp)
    } else if b == 37 {
        Some(ProtocolNumber::Ddp)
    } else if b == 38 {
        Some(ProtocolNumber::IdprCmtp)
    } else if b == 39 {
        Some(ProtocolNumber::TpPlusPlus)
    } else if b == 40 {
        Some(ProtocolNumber::Il)
    } else if b == 41 {
        Some(ProtocolNumber::Ipv6)
    } else if b == 42 {
        Some(ProtocolNumber::Sdrp)
    } else if b == 43 {
        Some(ProtocolNumber::Ipv6Route)
    } else if b == 44 {
        Some(ProtocolNumber::Ipv6Frag)
    } else if b == 45 {
        Some(ProtocolNumber::Idrp)
    } else if b == 46 {
        Some(ProtocolNumber::Rsvp)
    } else if b == 47 {
        Some(ProtocolNumber::Gre)
    } else if b == 48 {
        Some(ProtocolNumber::Dsr)
    } else if b == 49 {
        Some(ProtocolNumber::Bna)
    } else if b == 50 {
        Some(ProtocolNumber::Esp)
    } else if b == 51 {
        Some(ProtocolNumber::Ah)
    } else if b == 52 {
        Some(ProtocolNumber::INlsp)
    } else if b == 53 {
        Some(ProtocolNumber::Swipe)
    } else if b == 54 {
        Some(ProtocolNumber::Narp)
    } else if b == 55 {
        Some(ProtocolNumber::Mobile)
    } else if b == 56 {
        Some(ProtocolNumber::Tlsp)
    } else if b == 57 {
        Some(ProtocolNumber::Skip)
    } else if b == 58 {
        Some(ProtocolNumber::Ipv6Icmp)
    } else if b == 59 {
        Some(ProtocolNumber::Ipv6NoNxt)
    } else if b == 60 {
        Some(ProtocolNumber::Ipv6Opts)
    } else if b == 61 {
        Some(ProtocolNumber::HostInternal)
    } else if b == 62 {
        Some(ProtocolNumber::Cftp)
    } else if b == 63 {
        Some(ProtocolNumber::LocalNetwork)
    } else if b == 64 {
        Some(ProtocolNumber::SatExpak)
    } else if b == 65 {
        Some(ProtocolNumber::Kryptolan)
    } else if b == 66 {
        Some(ProtocolNumber::Rvd)
    } else if b == 67 {
        Some(ProtocolNumber::Ippc)
    } else if b == 68 {
        Some(ProtocolNumber::DistributedFs)
    } else if b == 69 {
        Some(ProtocolNumber::SatMon)
    } else if b == 70 {
        Some(ProtocolNumber::Visa)
    } else if b == 71 {
        Some(ProtocolNumber::Ipcv)
    } else if b == 72 {
        Some(ProtocolNumber::Cpnx)
    } else if b == 73 {
        Some(ProtocolNumber::Cphb)
    } else if b == 74 {
        Some(ProtocolNumber::Wsn)
    } else if b == 75 {
        Some(ProtocolNumber::Pvp)
    } else if b == 76 {
        Some(ProtocolNumber::BrSatMon)
    } else if b == 77 {
        Some(ProtocolNumber::SunNd)
    } else if b == 78 {
        Some(ProtocolNumber::WbMon)
    } else if b == 79 {
        Some(ProtocolNumber::WbExpak)
    } else if b == 80 {
        Some(ProtocolNumber::IsoIp)
    } else if b == 81 {
        Some(ProtocolNumber::Vmtp)
    } else if b == 82 {
        Some(ProtocolNumber::SecureVmtp)
    } else if b == 83 {
        Some(ProtocolNumber::Vines)
    } else if b == 84 {
        Some(ProtocolNumber::TtpOrIptm)
    } else if b == 85 {
        Some(ProtocolNumber::NsfnetIgp)
    } else if b == 86 {
        Some(ProtocolNumber::Dgp)
    } else if b == 87 {
        Some(ProtocolNumber::Tcf)
    } else if b == 88 {
        Some(ProtocolNumber::Eigrp)
    } else if b == 89 {
        Some(ProtocolNumber::OspfigP)
    } else if b == 90 {
        Some(ProtocolNumber::SpriteRpc)
    } else if b == 91 {
        Some(ProtocolNumber::Larp)
    } else if b == 92 {
        Some(ProtocolNumber::Mtp)
    } else if b == 93 {
        Some(ProtocolNumber::Ax25)
    } else if b == 94 {
        Some(ProtocolNumber::IpIp)
    } else if b == 95 {
        Some(ProtocolNumber::Micp)
    } else if b == 96 {
        Some(ProtocolNumber::SccSp)
    } else if b == 97 {
        Some(ProtocolNumber::Etherip)
    } else if b == 98 {
        Some(ProtocolNumber::Encap)
    } else if b == 99 {
        Some(ProtocolNumber::PrivEncryption)
    } else if b == 100 {
        Some(ProtocolNumber::Gmtp)
    } else if b == 101 {
        Some(ProtocolNumber::Ifmp)
    } else if b == 102 {
        Some(ProtocolNumber::Pnni)
    } else if b == 103 {
        Some(ProtocolNumber::Pim)
    } else if b == 104 {
        Some(ProtocolNumber::Aris)
    } else if b == 105 {
        Some(ProtocolNumber::Scps)
    } else if b == 106 {
        Some(ProtocolNumber::Qnx)
    } else if b == 107 {
        Some(ProtocolNumber::AN)
    } else if b == 108 {
        Some(ProtocolNumber::IpComp)
    } else if b == 109 {
        Some(ProtocolNumber::Snp)
    } else if b == 110 {
        Some(ProtocolNumber::CompaqPeer)
    } else if b == 111 {
        Some(ProtocolNumber::IpxInIp)
    } else if b == 112 {
        Some(ProtocolNumber::Vrrp)
    } else if b == 113 {
        Some(ProtocolNumber::Pgm)
    } else if b == 114 {
        Some(ProtocolNumber::ZeroHop)
    } else if b == 115 {
        Some(ProtocolNumber::L2tp)
    } else if b == 116 {
        Some(ProtocolNumber::Ddx)
    } else if b == 117 {
        Some(ProtocolNumber::Iatp)
    } else if b == 118 {
        Some(ProtocolNumber::Stp)
    } else if b == 119 {
        Some(ProtocolNumber::Srp)
    } else if b == 120 {
        Some(ProtocolNumber::Uti)
    } else if b == 121 {
        Some(ProtocolNumber::Smp)
    } else if b == 122 {
        Some(ProtocolNumber::Sm)
    } else if b == 123 {
        Some(ProtocolNumber::Ptp)
    } else if b == 124 {
        Some(ProtocolNumber::IsisOverIpv4)
    } else if b == 125 {
        Some(ProtocolNumber::Fire)
    } else if b == 126 {
        Some(ProtocolNumber::Crtp)
    } else if b == 127 {
        Some(ProtocolNumber::Crudp)
    } else if b == 128 {
        Some(ProtocolNumber::Sscopmce)
    } else if b == 129 {
        Some(ProtocolNumber::Iplt)
    } else if b == 130 {
        Some(ProtocolNumber::Sps)
    } else if b == 131 {
        Some(ProtocolNumber::Pipe)
    } else if b == 132 {
        Some(ProtocolNumber::Sctp)
    } else if b == 133 {
        Some(ProtocolNumber::Fc)
    } else if b == 134 {
        Some(ProtocolNumber::RsvpE2eIgnore)
    } else if b == 135 {
        Some(ProtocolNumber::MobilityHeader)
    } else if b == 136 {
        Some(ProtocolNumber::UdpLite)
    } else if b == 137 {
        Some(ProtocolNumber::MplsInIp)
    } else if b == 138 {
        Some(ProtocolNumber::Manet)
    } else if b == 139 {
        Some(ProtocolNumber::Hip)
    } else if b == 140 {
        Some(ProtocolNumber::Shim6)
    } else if b == 141 {
        Some(ProtocolNumber::Wesp)
    } else if b == 142 {
        Some(ProtocolNumber::Rohc)
    } else if b == 143 {
        Some(ProtocolNumber::Ethernet)
    } else if b == 253 {
        Some(ProtocolNumber::Test1)
    } else if b == 254 {
        Some(ProtocolNumber::Test2)
    } else {
        None
    }
}

/// Every protocol number's wire value parses back to it.
pub proof fn lemma_protocol_round_trip(p: ProtocolNumber)
    ensures
        spec_protocol_from(protocol_value(p)) == Some(p),
{
}

impl ProtocolNumber {
    /// Returns the wire value of this protocol number.
    pub fn code(&self) -> (r: u8)
        ensures
            r == protocol_value(*self),
    {
        match self {
            ProtocolNumber::Hopopt => 0,
            ProtocolNumber::Icmp => 1,
            ProtocolNumber::Igmp => 2,
            ProtocolNumber::Ggp => 3,
            ProtocolNumber::Ipv4 => 4,
            ProtocolNumber::St => 5,
            ProtocolNumber::Tcp => 6,
            ProtocolNumber::Cbt => 7,
            ProtocolNumber::Egp => 8,
            ProtocolNumber::Igp => 9,
            ProtocolNumber::BbnRccMon => 10,
            ProtocolNumber::NvpII => 11,
            ProtocolNumber::Pup => 12,
            ProtocolNumber::Argus => 13,
            ProtocolNumber::Emcon => 14,
            ProtocolNumber::Xnet => 15,
            ProtocolNumber::Chaos => 16,
            ProtocolNumber::Udp => 17,
            ProtocolNumber::Mux => 18,
            ProtocolNumber::DcnMeas => 19,
            ProtocolNumber::Hmp => 20,
            ProtocolNumber::Prm => 21,
            ProtocolNumber::XnsIdp => 22,
            ProtocolNumber::Trunk1 => 23,
            ProtocolNumber::Trunk2 => 24,
            ProtocolNumber::Leaf1 => 25,
            ProtocolNumber::Leaf2 => 26,
            ProtocolNumber::Rdp => 27,
            ProtocolNumber::Irtp => 28,
            ProtocolNumber::IsoTp4 => 29,
            ProtocolNumber::Netblt => 30,
            ProtocolNumber::MfeNsp => 31,
            ProtocolNumber::MeritInp => 32,
            ProtocolNumber::Dccp => 33,
            ProtocolNumber::ThreePc => 34,
            ProtocolNumber::Idpr => 35,
            ProtocolNumber::Xtp => 36,
            ProtocolNumber::Ddp => 37,
            ProtocolNumber::IdprCmtp => 38,
            ProtocolNumber::TpPlusPlus => 39,
            ProtocolNumber::Il => 40,
            ProtocolNumber::Ipv6 => 41,
            ProtocolNumber::Sdrp => 42,
            ProtocolNumber::Ipv6Route => 43,
            ProtocolNumber::Ipv6Frag => 44,
            ProtocolNumber::Idrp => 45,
            ProtocolNumber::Rsvp => 46,
            ProtocolNumber::Gre => 47,
            ProtocolNumber::Dsr => 48,
            ProtocolNumber::Bna => 49,
            ProtocolNumber::Esp => 50,
            ProtocolNumber::Ah => 51,
            ProtocolNumber::INlsp => 52,
            ProtocolNumber::Swipe => 53,
            ProtocolNumber::Narp => 54,
            ProtocolNumber::Mobile => 55,
            ProtocolNumber::Tlsp => 56,
            ProtocolNumber::Skip => 57,
            ProtocolNumber::Ipv6Icmp => 58,
            ProtocolNumber::Ipv6NoNxt => 59,
            ProtocolNumber::Ipv6Opts => 60,
            ProtocolNumber::HostInternal => 61,
            ProtocolNumber::Cftp => 62,
            ProtocolNumber::LocalNetwork => 63,
            ProtocolNumber::SatExpak => 64,
            ProtocolNumber::Kryptolan => 65,
            ProtocolNumber::Rvd => 66,
            ProtocolNumber::Ippc => 67,
            ProtocolNumber::DistributedFs => 68,
            ProtocolNumber::SatMon => 69,
            ProtocolNumber::Visa => 70,
            ProtocolNumber::Ipcv => 71,
            ProtocolNumber::Cpnx => 72,
            ProtocolNumber::Cphb => 73,
            ProtocolNumber::Wsn => 74,
            ProtocolNumber::Pvp => 75,
            ProtocolNumber::BrSatMon => 76,
            ProtocolNumber::SunNd => 77,
            ProtocolNumber::WbMon => 78,
            ProtocolNumber::WbExpak => 79,
            ProtocolNumber::IsoIp => 80,
            ProtocolNumber::Vmtp => 81,
            ProtocolNumber::SecureVmtp => 82,
            ProtocolNumber::Vines => 83,
            ProtocolNumber::TtpOrIptm => 84,
            ProtocolNumber::NsfnetIgp => 85,
            ProtocolNumber::Dgp => 86,
            ProtocolNumber::Tcf => 87,
            ProtocolNumber::Eigrp => 88,
            ProtocolNumber::OspfigP => 89,
            ProtocolNumber::SpriteRpc => 90,
            ProtocolNumber::Larp => 91,
            ProtocolNumber::Mtp => 92,
            ProtocolNumber::Ax25 => 93,
            ProtocolNumber::IpIp => 94,
            ProtocolNumber::Micp => 95,
            ProtocolNumber::SccSp => 96,
            ProtocolNumber::Etherip => 97,
            ProtocolNumber::Encap => 98,
            ProtocolNumber::PrivEncryption => 99,
            ProtocolNumber::Gmtp => 100,
            ProtocolNumber::Ifmp => 101,
            ProtocolNumber::Pnni => 102,
            ProtocolNumber::Pim => 103,
            ProtocolNumber::Aris => 104,
            ProtocolNumber::Scps => 105,
            ProtocolNumber::Qnx => 106,
            ProtocolNumber::AN => 107,
            ProtocolNumber::IpComp => 108,
            ProtocolNumber::Snp => 109,
            ProtocolNumber::CompaqPeer => 110,
            ProtocolNumber::IpxInIp => 111,
            ProtocolNumber::Vrrp => 112,
            ProtocolNumber::Pgm => 113,
            ProtocolNumber::ZeroHop => 114,
            ProtocolNumber::L2tp => 115,
            ProtocolNumber::Ddx => 116,
            ProtocolNumber::Iatp => 117,
            ProtocolNumber::Stp => 118,
            ProtocolNumber::Srp => 119,
            ProtocolNumber::Uti => 120,
            ProtocolNumber::Smp => 121,
            ProtocolNumber::Sm => 122,
            ProtocolNumber::Ptp => 123,
            ProtocolNumber::IsisOverIpv4 => 124,
            ProtocolNumber::Fire => 125,
            ProtocolNumber::Crtp => 126,
            ProtocolNumber::Crudp => 127,
            ProtocolNumber::Sscopmce => 128,
            ProtocolNumber::Iplt => 129,
            ProtocolNumber::Sps => 130,
            ProtocolNumber::Pipe => 131,
            ProtocolNumber::Sctp => 132,
            ProtocolNumber::Fc => 133,
            ProtocolNumber::RsvpE2eIgnore => 134,
            ProtocolNumber::MobilityHeader => 135,
            ProtocolNumber::UdpLite => 136,
            ProtocolNumber::MplsInIp => 137,
            ProtocolNumber::Manet => 138,
            ProtocolNumber::Hip => 139,
            ProtocolNumber::Shim6 => 140,
            ProtocolNumber::Wesp => 141,
            ProtocolNumber::Rohc => 142,
            ProtocolNumber::Ethernet => 143,
            ProtocolNumber::Test1 => 253,
            ProtocolNumber::Test2 => 254,
        }
    }

    /// Parses a protocol number from its wire byte.
    pub fn from_byte(b: u8) -> (r: Result<ProtocolNumber, ParsingError>)
        ensures
            r == (match spec_protocol_from(b) {
                Some(p) => Ok::<ProtocolNumber, ParsingError>(p),
                None => Err::<ProtocolNumber, ParsingError>(ParsingError::NotAProtocolNumber(b)),
            }),
            r is Ok <==> is_protocol_byte(b),
    {
        match b {
            0 => Ok(ProtocolNumber::Hopopt),
            1 => Ok(ProtocolNumber::Icmp),
            2 => Ok(ProtocolNumber::Igmp),
            3 => Ok(ProtocolNumber::Ggp),
            4 => Ok(ProtocolNumber::Ipv4),
            5 => Ok(ProtocolNumber::St),
            6 => Ok(ProtocolNumber::Tcp),
            7 => Ok(ProtocolNumber::Cbt),
            8 => Ok(ProtocolNumber::Egp),
            9 => Ok(ProtocolNumber::Igp),
            10 => Ok(ProtocolNumber::BbnRccMon),
            11 => Ok(ProtocolNumber::NvpII),
            12 => Ok(ProtocolNumber::Pup),
            13 => Ok(ProtocolNumber::Argus),
            14 => Ok(ProtocolNumber::Emcon),
            15 => Ok(ProtocolNumber::Xnet),
            16 => Ok(ProtocolNumber::Chaos),
            17 => Ok(ProtocolNumber::Udp),
            18 => Ok(ProtocolNumber::Mux),
            19 => Ok(ProtocolNumber::DcnMeas),
            20 => Ok(ProtocolNumber::Hmp),
            21 => Ok(ProtocolNumber::Prm),
            22 => Ok(ProtocolNumber::XnsIdp),
            23 => Ok(ProtocolNumber::Trunk1),
            24 => Ok(ProtocolNumber::Trunk2),
            25 => Ok(ProtocolNumber::Leaf1),
            26 => Ok(ProtocolNumber::Leaf2),
            27 => Ok(ProtocolNumber::Rdp),
            28 => Ok(ProtocolNumber::Irtp),
            29 => Ok(ProtocolNumber::IsoTp4),
            30 => Ok(ProtocolNumber::Netblt),
            31 => Ok(ProtocolNumber::MfeNsp),
            32 => Ok(ProtocolNumber::MeritInp),
            33 => Ok(ProtocolNumber::Dccp),
            34 => Ok(ProtocolNumber::ThreePc),
            35 => Ok(ProtocolNumber::Idpr),
            36 => Ok(ProtocolNumber::Xtp),
            37 => Ok(ProtocolNumber::Ddp),
            38 => Ok(ProtocolNumber::IdprCmtp),
            39 => Ok(ProtocolNumber::TpPlusPlus),
            40 => Ok(ProtocolNumber::Il),
            41 => Ok(ProtocolNumber::Ipv6),
            42 => Ok(ProtocolNumber::Sdrp),
            43 => Ok(ProtocolNumber::Ipv6Route),
            44 => Ok(ProtocolNumber::Ipv6Frag),
            45 => Ok(ProtocolNumber::Idrp),
            46 => Ok(ProtocolNumber::Rsvp),
            47 => Ok(ProtocolNumber::Gre),
            48 => Ok(ProtocolNumber::Dsr),
            49 => Ok(ProtocolNumber::Bna),
            50 => Ok(ProtocolNumber::Esp),
            51 => Ok(ProtocolNumber::Ah),
            52 => Ok(ProtocolNumber::INlsp),
            53 => Ok(ProtocolNumber::Swipe),
            54 => Ok(ProtocolNumber::Narp),
            55 => Ok(ProtocolNumber::Mobile),
            56 => Ok(ProtocolNumber::Tlsp),
            57 => Ok(ProtocolNumber::Skip),
            58 => Ok(ProtocolNumber::Ipv6Icmp),
            59 => Ok(ProtocolNumber::Ipv6NoNxt),
            60 => Ok(ProtocolNumber::Ipv6Opts),
            61 => Ok(ProtocolNumber::HostInternal),
            62 => Ok(ProtocolNumber::Cftp),
            63 => Ok(ProtocolNumber::LocalNetwork),
            64 => Ok(ProtocolNumber::SatExpak),
            65 => Ok(ProtocolNumber::Kryptolan),
            66 => Ok(ProtocolNumber::Rvd),
            67 => Ok(ProtocolNumber::Ippc),
            68 => Ok(ProtocolNumber::DistributedFs),
            69 => Ok(ProtocolNumber::SatMon),
            70 => Ok(ProtocolNumber::Visa),
            71 => Ok(ProtocolNumber::Ipcv),
            72 => Ok(ProtocolNumber::Cpnx),
            73 => Ok(ProtocolNumber::Cphb),
            74 => Ok(ProtocolNumber::Wsn),
            75 => Ok(ProtocolNumber::Pvp),
            76 => Ok(ProtocolNumber::BrSatMon),
            77 => Ok(ProtocolNumber::SunNd),
            78 => Ok(ProtocolNumber::WbMon),
            79 => Ok(ProtocolNumber::WbExpak),
            80 => Ok(ProtocolNumber::IsoIp),
            81 => Ok(ProtocolNumber::Vmtp),
            82 => Ok(ProtocolNumber::SecureVmtp),
            83 => Ok(ProtocolNumber::Vines),
            84 => Ok(ProtocolNumber::TtpOrIptm),
            85 => Ok(ProtocolNumber::NsfnetIgp),
            86 => Ok(ProtocolNumber::Dgp),
            87 => Ok(ProtocolNumber::Tcf),
            88 => Ok(ProtocolNumber::Eigrp),
            89 => Ok(ProtocolNumber::OspfigP),
            90 => Ok(ProtocolNumber::SpriteRpc),
            91 => Ok(ProtocolNumber::Larp),
            92 => Ok(ProtocolNumber::Mtp),
            93 => Ok(ProtocolNumber::Ax25),
            94 => Ok(ProtocolNumber::IpIp),
            95 => Ok(ProtocolNumber::Micp),
            96 => Ok(ProtocolNumber::SccSp),
            97 => Ok(ProtocolNumber::Etherip),
            98 => Ok(ProtocolNumber::Encap),
            99 => Ok(ProtocolNumber::PrivEncryption),
            100 => Ok(ProtocolNumber::Gmtp),
            101 => Ok(ProtocolNumber::Ifmp),
            102 => Ok(ProtocolNumber::Pnni),
            103 => Ok(ProtocolNumber::Pim),
            104 => Ok(ProtocolNumber::Aris),
            105 => Ok(ProtocolNumber::Scps),
            106 => Ok(ProtocolNumber::Qnx),
            107 => Ok(ProtocolNumber::AN),
            108 => Ok(ProtocolNumber::IpComp),
            109 => Ok(ProtocolNumber::Snp),
            110 => Ok(ProtocolNumber::CompaqPeer),
            111 => Ok(ProtocolNumber::IpxInIp),
            112 => Ok(ProtocolNumber::Vrrp),
            113 => Ok(ProtocolNumber::Pgm),
            114 => Ok(ProtocolNumber::ZeroHop),
            115 => Ok(ProtocolNumber::L2tp),
            116 => Ok(ProtocolNumber::Ddx),
            117 => Ok(ProtocolNumber::Iatp),
            118 => Ok(ProtocolNumber::Stp),
            119 => Ok(ProtocolNumber::Srp),
            120 => Ok(ProtocolNumber::Uti),
            121 => Ok(ProtocolNumber::Smp),
            122 => Ok(ProtocolNumber::Sm),
            123 => Ok(ProtocolNumber::Ptp),
            124 => Ok(ProtocolNumber::IsisOverIpv4),
            125 => Ok(ProtocolNumber::Fire),
            126 => Ok(ProtocolNumber::Crtp),
            127 => Ok(ProtocolNumber::Crudp),
            128 => Ok(ProtocolNumber::Sscopmce),
            129 => Ok(ProtocolNumber::Iplt),
            130 => Ok(ProtocolNumber::Sps),
            131 => Ok(ProtocolNumber::Pipe),
            132 => Ok(ProtocolNumber::Sctp),
            133 => Ok(ProtocolNumber::Fc),
            134 => Ok(ProtocolNumber::RsvpE2eIgnore),
            135 => Ok(ProtocolNumber::MobilityHeader),
            136 => Ok(ProtocolNumber::UdpLite),
            137 => Ok(ProtocolNumber::MplsInIp),
            138 => Ok(ProtocolNumber::Manet),
            139 => Ok(ProtocolNumber::Hip),
            140 => Ok(ProtocolNumber::Shim6),
            141 => Ok(ProtocolNumber::Wesp),
            142 => Ok(ProtocolNumber::Rohc),
            143 => Ok(ProtocolNumber::Ethernet),
            253 => Ok(ProtocolNumber::Test1),
            254 => Ok(ProtocolNumber::Test2),
            _ => Err(ParsingError::NotAProtocolNumber(b)),
        }
    }
}

} // verus!
