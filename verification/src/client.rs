//! The client service: a pure state machine over the mapping table.
//!
//! The service owns the table of mapping records and the stored
//! epoch. It consumes one event at a time and appends the I/O it
//! wants — datagrams, timer arms and cancels, notifications — to an
//! action list; a thin runtime performs them. Nothing here blocks,
//! sleeps or touches a socket.

use vstd::prelude::*;

use crate::addr::{addr_eq, nonce_eq, Ipv6Address};
use crate::epoch::{spec_epoch_valid, Epoch, EpochSnapshot};
use crate::event::{Action, ClientEvent, MapEvent, MapEventKind, ServerEvent};
use crate::handle::RequestType;
use crate::headers::{OptionHeader, RequestHeader};
use crate::map::{Filter, InboundMap, OutboundMap};
use crate::op_code::OpCode;
use crate::option_code::OptionCode;
use crate::packet::{
    request_packet_bytes, request_wf, OptionPayload, PacketOption, RequestPacket, RequestPayload,
};
use crate::parsing_error::ParsingError;
use crate::payloads::{FilterOptionPayload, MapRequestPayload, PeerRequestPayload, ThirdPartyOptionPayload};
use crate::protocols::ProtocolNumber;
use crate::wire::zero_bytes;
use crate::response::{spec_matches, ResponsePacket, ResponsePayload};
use crate::result_code::ResultCode;
use crate::state::{is_terminal, MappingState, State};
use crate::timeout::{irt, renew, renew_lo, renew_width, rt, rt_base, REASONABLE_LIFETIME};

verus! {

/// Whether some response could match both requests: the duplicate
/// fingerprint relation of the mapping table. Two MAP requests
/// collide when they share nonce and internal port (a response
/// protocol of 0 matches any protocol); two PEER requests collide
/// when they share nonce, protocol, internal port and remote peer,
/// and their external ports are equal or either left the choice to
/// the server.
pub open spec fn requests_conflict(r1: RequestPacket, r2: RequestPacket) -> bool {
    match (r1.payload, r2.payload) {
        (RequestPayload::Mapping(a), RequestPayload::Mapping(b)) => {
            &&& a.nonce@ == b.nonce@
            &&& a.internal_port == b.internal_port
        },
        (RequestPayload::Peer(a), RequestPayload::Peer(b)) => {
            &&& a.nonce@ == b.nonce@
            &&& a.protocol == b.protocol
            &&& a.internal_port == b.internal_port
            &&& a.remote_port == b.remote_port
            &&& a.remote_addr.0@ == b.remote_addr.0@
            &&& (a.external_port == b.external_port || a.external_port == 0 || b.external_port
                == 0)
        },
        _ => false,
    }
}

/// Decides [`requests_conflict`].
fn conflict(r1: &RequestPacket, r2: &RequestPacket) -> (r: bool)
    ensures
        r == requests_conflict(*r1, *r2),
{
    match (&r1.payload, &r2.payload) {
        (RequestPayload::Mapping(a), RequestPayload::Mapping(b)) => nonce_eq(&a.nonce, &b.nonce)
            && a.internal_port == b.internal_port,
        (RequestPayload::Peer(a), RequestPayload::Peer(b)) => nonce_eq(&a.nonce, &b.nonce)
            && a.protocol == b.protocol && a.internal_port == b.internal_port && a.remote_port
            == b.remote_port && addr_eq(&a.remote_addr, &b.remote_addr) && (a.external_port
            == b.external_port || a.external_port == 0 || b.external_port == 0),
        _ => false,
    }
}


/// The packet option a filter of an inbound mapping request becomes.
pub open spec fn filter_option(f: Filter) -> PacketOption {
    PacketOption {
        header: OptionHeader { code: OptionCode::Filter, length: 20u16 },
        payload: OptionPayload::Filter(
            FilterOptionPayload {
                prefix: f.prefix,
                remote_port: f.remote_port,
                remote_addr: f.remote_addr,
            },
        ),
    }
}

/// The packet option a third-party address becomes.
pub open spec fn third_party_option(a: Ipv6Address) -> PacketOption {
    PacketOption {
        header: OptionHeader { code: OptionCode::ThirdParty, length: 16u16 },
        payload: OptionPayload::ThirdParty(ThirdPartyOptionPayload { address: a }),
    }
}

/// The option list an inbound mapping request is sent with: its
/// filters in order, then PREFER_FAILURE if set, then THIRD_PARTY if
/// given.
pub open spec fn inbound_options(m: InboundMap) -> Seq<PacketOption> {
    m.filters@.map_values(|f: Filter| filter_option(f)) + (if m.prefer_failure {
        seq![
            PacketOption {
                header: OptionHeader { code: OptionCode::PreferFailure, length: 0u16 },
                payload: OptionPayload::PreferFailure,
            },
        ]
    } else {
        Seq::<PacketOption>::empty()
    }) + (match m.third_party {
        Some(a) => seq![third_party_option(a)],
        None => Seq::<PacketOption>::empty(),
    })
}

/// The option list an outbound mapping request is sent with:
/// THIRD_PARTY if given, nothing else.
pub open spec fn outbound_options(m: OutboundMap) -> Seq<PacketOption> {
    match m.third_party {
        Some(a) => seq![third_party_option(a)],
        None => Seq::<PacketOption>::empty(),
    }
}


/// What revocation leaves behind: the record's stored lifetime is 0
/// with everything else of the request kept, its timer is cancelled,
/// the zero-lifetime request is sent, and the record is `Revoked`.
pub open spec fn revoked_post(c0: Client, c1: Client, out0: Seq<Action>, out1: Seq<Action>, id: int) -> bool {
    &&& c1.addr == c0.addr
    &&& c1.epoch == c0.epoch
    &&& c1.mappings@.len() == c0.mappings@.len()
    &&& forall|j: int| 0 <= j < c0.mappings@.len() && j != id ==> c1.mappings@[j] == c0.mappings@[j]
    &&& c1.mappings@[id].state == State::Revoked
    &&& c1.mappings@[id].request.header.lifetime == 0
    &&& c1.mappings@[id].request.payload == c0.mappings@[id].request.payload
    &&& c1.mappings@[id].request.options@ == c0.mappings@[id].request.options@
    &&& out1.len() == out0.len() + 2
    &&& forall|k: int| 0 <= k < out0.len() ==> out1[k] == out0[k]
    &&& out1[out0.len() as int] == Action::Cancel(id as usize)
    &&& out1[out0.len() + 1int] is Send
    &&& out1[out0.len() + 1int]->Send_0@ == request_packet_bytes(c1.mappings@[id].request)
}

/// What renewal of a mapping leaves behind. A record already in a
/// terminal state is left alone: reviving it could duplicate a
/// fingerprint a fresh record has meanwhile taken over. A live
/// record takes the new lifetime, its timer is cancelled, the
/// request is resent, and retransmission starts over at the initial
/// retransmission time.
pub open spec fn renewed_post(
    c0: Client,
    c1: Client,
    out0: Seq<Action>,
    out1: Seq<Action>,
    id: int,
    lifetime: u32,
) -> bool {
    if is_terminal(c0.mappings@[id].state) {
        c1 == c0 && out1 == out0
    } else {
        &&& c1.addr == c0.addr
        &&& c1.epoch == c0.epoch
        &&& c1.mappings@.len() == c0.mappings@.len()
        &&& forall|j: int|
            0 <= j < c0.mappings@.len() && j != id ==> c1.mappings@[j] == c0.mappings@[j]
        &&& c1.mappings@[id].state == State::Starting(0usize)
        &&& c1.mappings@[id].request.header.lifetime == lifetime
        &&& c1.mappings@[id].request.payload == c0.mappings@[id].request.payload
        &&& c1.mappings@[id].rem == (lifetime as u64) * 1000
        &&& out1.len() == out0.len() + 3
        &&& forall|k: int| 0 <= k < out0.len() ==> out1[k] == out0[k]
        &&& out1[out0.len() as int] == Action::Cancel(id as usize)
        &&& out1[out0.len() + 1int] is Send
        &&& out1[out0.len() + 1int]->Send_0@ == request_packet_bytes(c1.mappings@[id].request)
        &&& out1[out0.len() + 2int] is Arm
        &&& out1[out0.len() + 2int]->Arm_0 == id
        &&& 2700 <= out1[out0.len() + 2int]->Arm_1 <= 3300
    }
}

/// What a timer firing for mapping `id` after waiting `waited`
/// milliseconds leaves behind: a starting record is retransmitted
/// byte-identically with the doubled-and-capped backoff armed; a
/// running record expires (with its owner told) or enters the
/// renewal path, by its kind; an updating record continues the
/// renewal path; a terminal record ignores the firing.
pub open spec fn delay_post(
    c0: Client,
    c1: Client,
    out0: Seq<Action>,
    out1: Seq<Action>,
    id: int,
    waited: u64,
) -> bool {
    &&& c1.addr == c0.addr
    &&& c1.epoch == c0.epoch
    &&& c1.mappings@.len() == c0.mappings@.len()
    &&& forall|j: int| 0 <= j < c0.mappings@.len() && j != id ==> c1.mappings@[j] == c0.mappings@[j]
    &&& out0.is_prefix_of(out1)
    &&& (match c0.mappings@[id].state {
        State::Starting(n) => {
            &&& c1.mappings@[id].state == State::Starting(
                (if n < usize::MAX {
                    n + 1
                } else {
                    n as int
                }) as usize,
            )
            &&& c1.mappings@[id].request == c0.mappings@[id].request
            &&& exists|k: int|
                out0.len() <= k < out1.len() && (#[trigger] out1[k]) is Send && out1[k]->Send_0@
                    == request_packet_bytes(c0.mappings@[id].request)
            &&& exists|k: int|
                out0.len() <= k < out1.len() && (#[trigger] out1[k]) is Arm && out1[k]->Arm_0
                    == id && (900 * rt_base(waited)) / 1000 <= out1[k]->Arm_1 <= (1100 * rt_base(
                    waited,
                )) / 1000
        },
        State::Running => (match c0.mappings@[id].kind {
            RequestType::Once => c1.mappings@[id].state == State::Expired && out1.len()
                == out0.len() + 1 && out1[out0.len() as int] == Action::Notify(
                ClientEvent::Mapping(
                    MapEvent { id: id as usize, kind: MapEventKind::Expired },
                ),
            ),
            RequestType::Repeat(k) => if k == 0 {
                c1.mappings@[id].state == State::Expired && out1.len() == out0.len() + 1
                    && out1[out0.len() as int] == Action::Notify(
                    ClientEvent::Mapping(
                        MapEvent { id: id as usize, kind: MapEventKind::Expired },
                    ),
                )
            } else {
                renewal_applied(
                    MappingState {
                        kind: RequestType::Repeat((k - 1) as usize),
                        ..c0.mappings@[id]
                    },
                    c1.mappings@[id],
                    out0,
                    out1,
                    id,
                    0usize,
                )
            },
            RequestType::KeepAlive => renewal_applied(
                c0.mappings@[id],
                c1.mappings@[id],
                out0,
                out1,
                id,
                0usize,
            ),
        }),
        State::Updating(n, _) => renewal_applied(
            c0.mappings@[id],
            c1.mappings@[id],
            out0,
            out1,
            id,
            (if n < usize::MAX {
                n + 1
            } else {
                n as int
            }) as usize,
        ),
        _ => c1.mappings@[id] == c0.mappings@[id] && out1 == out0,
    })
}

/// What a matched MAP or PEER response leaves behind. When no live
/// record matches, nothing changes at all. Otherwise, on the first
/// matching record: the assigned external address and port are
/// stored back into the request (retransmissions carry the
/// assignment), the pending timer is cancelled, and the record
/// either parks in `Error` with its owner told, or runs with the
/// response lifetime, the 24-hour clamp on the stored request, an
/// `Accepted` notification on the first success, and the next wait
/// armed: the (clamped) response lifetime for a mapping left to
/// expire, or a draw from the first renewal window otherwise.
pub open spec fn response_applied(
    c0: Client,
    c1: Client,
    out0: Seq<Action>,
    out1: Seq<Action>,
    packet: ResponsePacket,
    addr: Ipv6Address,
    port: u16,
) -> bool {
    &&& c1.addr == c0.addr
    &&& c1.epoch == c0.epoch
    &&& c1.mappings@.len() == c0.mappings@.len()
    &&& ((forall|j: int|
        0 <= j < c0.mappings@.len() ==> !(!is_terminal((#[trigger] c0.mappings@[j]).state)
            && spec_matches(packet, c0.mappings@[j].request))) ==> c1 == c0 && out1 == out0)
    &&& forall|idx: int|
        0 <= idx < c0.mappings@.len() && !is_terminal(c0.mappings@[idx].state) && spec_matches(
            packet,
            c0.mappings@[idx].request,
        ) && (forall|j: int|
            0 <= j < idx ==> !(!is_terminal((#[trigger] c0.mappings@[j]).state) && spec_matches(
                packet,
                c0.mappings@[j].request,
            ))) ==> {
            let m0 = c0.mappings@[idx];
            let m1 = #[trigger] c1.mappings@[idx];
            let rem1 = ((packet.header.lifetime as u64) * 1000) as u64;
            let clamped = if packet.header.lifetime < REASONABLE_LIFETIME {
                packet.header.lifetime
            } else {
                REASONABLE_LIFETIME
            };
            &&& (forall|j: int|
                0 <= j < c0.mappings@.len() && j != idx ==> c1.mappings@[j] == c0.mappings@[j])
            &&& m1.kind == m0.kind
            &&& m1.request.options@ == m0.request.options@
            &&& (match (m0.request.payload, m1.request.payload) {
                (RequestPayload::Mapping(p0), RequestPayload::Mapping(p1)) => p1 == (
                MapRequestPayload { external_port: port, external_addr: addr, ..p0 }),
                (RequestPayload::Peer(p0), RequestPayload::Peer(p1)) => p1 == (PeerRequestPayload {
                    external_port: port,
                    external_addr: addr,
                    ..p0
                }),
                _ => false,
            })
            &&& (packet.header.result != ResultCode::Success ==> {
                &&& m1.state == State::Error(packet.header.result)
                &&& m1.request.header == m0.request.header
                &&& m1.rem == m0.rem
                &&& m1.renew == m0.renew
                &&& out1.len() == out0.len() + 2
                &&& out1[out0.len() as int] == Action::Cancel(idx as usize)
                &&& out1[out0.len() + 1int] == Action::Notify(
                    ClientEvent::Mapping(MapEvent { id: idx as usize, kind: MapEventKind::Error }),
                )
            })
            &&& (packet.header.result == ResultCode::Success ==> {
                &&& m1.state == State::Running
                &&& m1.rem == rem1
                &&& m1.request.header == (RequestHeader { lifetime: clamped, ..m0.request.header })
                &&& (match m0.kind {
                    RequestType::Once => m1.renew == (clamped as u64) * 1000,
                    RequestType::Repeat(n) => if n == 0 {
                        m1.renew == (clamped as u64) * 1000
                    } else {
                        renewal_window_wait(rem1, m1.renew)
                    },
                    RequestType::KeepAlive => renewal_window_wait(rem1, m1.renew),
                })
                &&& out1.len() == out0.len() + (if m0.state is Starting {
                    3int
                } else {
                    2int
                })
                &&& out1[out0.len() as int] == Action::Cancel(idx as usize)
                &&& (m0.state is Starting ==> out1[out0.len() + 1int] == Action::Notify(
                    ClientEvent::Mapping(
                        MapEvent {
                            id: idx as usize,
                            kind: MapEventKind::Accepted {
                                lifetime: packet.header.lifetime,
                                external_ip: addr,
                                external_port: port,
                            },
                        },
                    ),
                ))
                &&& out1[out1.len() - 1] == Action::Arm(idx as usize, m1.renew)
            })
        }
}

/// A wait drawn from the first renewal window for a remaining
/// lifetime `rem`: inside the RFC window [rem/2, 5·rem/8] and at
/// least four seconds, or 0 when the draw came below the floor,
/// which arms an immediate renewal attempt.
pub open spec fn renewal_window_wait(rem: u64, w: u64) -> bool {
    ||| (renew_lo(rem, 0) <= w <= renew_lo(rem, 0) + renew_width(rem, 0) && w >= 4000)
    ||| (w == 0 && renew_lo(rem, 0) < 4000)
}

/// What the renewal path leaves on the record it ran for: the
/// elapsed renewal wait is charged against the remaining lifetime;
/// then either the request is resent verbatim and the next wait,
/// drawn from the RFC renewal window, is armed and the record enters
/// `Updating`, or the window has shrunk below the four-second floor
/// and the record expires with its owner told. A window whose lower
/// end still clears the floor cannot expire the record.
pub open spec fn renewal_applied(
    m0: MappingState,
    m1: MappingState,
    out0: Seq<Action>,
    out1: Seq<Action>,
    id: int,
    times: usize,
) -> bool {
    let rem1 = if m0.rem >= m0.renew {
        (m0.rem - m0.renew) as u64
    } else {
        0u64
    };
    let t32 = if times > 0xffff_ffffusize {
        0xffff_ffffu32
    } else {
        times as u32
    };
    &&& m1.request == m0.request
    &&& m1.kind == m0.kind
    &&& m1.rem == rem1
    &&& (m1.state == State::Updating(times, m0.request.header.lifetime) || m1.state
        == State::Expired)
    &&& (renew_lo(rem1, t32) >= 4000 ==> m1.state == State::Updating(
        times,
        m0.request.header.lifetime,
    ))
    &&& (m1.state == State::Expired ==> renew_lo(rem1, t32) < 4000)
    &&& (m1.state is Updating ==> {
        &&& 4000 <= m1.renew
        &&& renew_lo(rem1, t32) <= m1.renew <= renew_lo(rem1, t32) + renew_width(rem1, t32)
        &&& out1.len() == out0.len() + 2
        &&& out1[out0.len() as int] is Send
        &&& out1[out0.len() as int]->Send_0@ == request_packet_bytes(m0.request)
        &&& out1[out0.len() + 1int] == Action::Arm(id as usize, m1.renew)
    })
    &&& (m1.state == State::Expired ==> {
        &&& m1.renew == m0.renew
        &&& out1.len() == out0.len() + 1
        &&& out1[out0.len() as int] == Action::Notify(
            ClientEvent::Mapping(MapEvent { id: id as usize, kind: MapEventKind::Expired }),
        )
    })
}

/// What recovery leaves behind: every non-terminal record is reset
/// to `Starting(0)` with its request kept verbatim, terminal records
/// are untouched, and the appended actions are exactly resends of
/// non-terminal records' bytes and fresh initial-retransmission
/// timers for non-terminal records — in particular, no terminal
/// record is resent or rearmed.
pub open spec fn recovery_post(c0: Client, c1: Client, out0: Seq<Action>, out1: Seq<Action>) -> bool {
    &&& c1.addr == c0.addr
    &&& c1.epoch == c0.epoch
    &&& c1.mappings@.len() == c0.mappings@.len()
    &&& forall|i: int|
        0 <= i < c0.mappings@.len() ==> {
            let m0 = #[trigger] c0.mappings@[i];
            let m1 = c1.mappings@[i];
            if is_terminal(m0.state) {
                m1 == m0
            } else {
                m1.request == m0.request && m1.state == State::Starting(0usize) && m1.kind
                    == m0.kind && m1.rem == m0.rem && m1.renew == m0.renew
            }
        }
    &&& out0.is_prefix_of(out1)
    &&& forall|i: int|
        0 <= i < c0.mappings@.len() && !is_terminal((#[trigger] c0.mappings@[i]).state) ==> (
        exists|k: int|
            out0.len() <= k < out1.len() && (#[trigger] out1[k]) is Send && out1[k]->Send_0@
                == request_packet_bytes(c0.mappings@[i].request)) && (exists|k: int|
            out0.len() <= k < out1.len() && (#[trigger] out1[k]) is Arm && out1[k]->Arm_0 == i
                && 2700 <= out1[k]->Arm_1 <= 3300)
    &&& forall|k: int|
        out0.len() <= k < out1.len() ==> {
            let a = #[trigger] out1[k];
            ||| (a is Send && exists|i: int|
                0 <= i < c0.mappings@.len() && !is_terminal((#[trigger] c0.mappings@[i]).state)
                    && a->Send_0@ == request_packet_bytes(c0.mappings@[i].request))
            ||| (a is Arm && 0 <= a->Arm_0 < c0.mappings@.len() && !is_terminal(
                c0.mappings@[a->Arm_0 as int].state,
            ) && 2700 <= a->Arm_1 <= 3300)
        }
}

/// The error the MAP request builder returns for an inbound mapping
/// request, independent of the drawn nonce: the first failing option
/// check, or the size cap. `None` means the builder accepts.
pub open spec fn inbound_build_error(m: InboundMap) -> Option<ParsingError> {
    match crate::packet::first_bad_option(OpCode::Mapping, inbound_options(m)) {
        Some(e) => Some(e),
        None => if 24 + 36 + crate::packet::options_len(inbound_options(m)) > 1100 {
            Some(
                ParsingError::PacketTooBig(
                    (24 + 36 + crate::packet::options_len(inbound_options(m))) as usize,
                ),
            )
        } else {
            None
        },
    }
}

/// The error the PEER request builder returns for an outbound
/// mapping request, independent of the drawn nonce. `None` means the
/// builder accepts.
pub open spec fn outbound_build_error(m: OutboundMap) -> Option<ParsingError> {
    match crate::packet::first_bad_option(OpCode::Peer, outbound_options(m)) {
        Some(e) => Some(e),
        None => if m.remote_port == 0 {
            Some(ParsingError::ZeroRemotePeerPort)
        } else if 24 + 56 + crate::packet::options_len(outbound_options(m)) > 1100 {
            Some(
                ParsingError::PacketTooBig(
                    (24 + 56 + crate::packet::options_len(outbound_options(m))) as usize,
                ),
            )
        } else {
            None
        },
    }
}

/// What handling a mapping request leaves behind on success: slot
/// `nid` freshly holds a `Starting(0)` record of the given kind,
/// every other slot is untouched, and the new request was sent and
/// its first retransmission timer armed.
pub open spec fn stored_new_request(
    c0: Client,
    c1: Client,
    out0: Seq<Action>,
    out1: Seq<Action>,
    kind: RequestType,
    hint: int,
    nid: int,
) -> bool {
    &&& 0 <= nid < c1.mappings@.len()
    // The slot is the first reusable one: a Dropped record in place,
    // or a fresh slot at the end when no record is Dropped.
    &&& c1.mappings@.len() == (if nid < c0.mappings@.len() {
        c0.mappings@.len()
    } else {
        c0.mappings@.len() + 1
    })
    &&& (nid < c0.mappings@.len() ==> c0.mappings@[nid].state == State::Dropped)
    &&& forall|j: int| 0 <= j < nid ==> (#[trigger] c0.mappings@[j]).state != State::Dropped
    &&& forall|j: int|
        0 <= j < c0.mappings@.len() && j != nid ==> c1.mappings@[j] == c0.mappings@[j]
    &&& c1.mappings@[nid].state == State::Starting(0usize)
    &&& c1.mappings@[nid].kind == kind
    &&& c1.mappings@[nid].rem == 0
    &&& c1.mappings@[nid].renew == 0
    // The appended actions, exactly: a NewId notification when and
    // only when the slot differs from the caller's hint, then the
    // send of the new request, then its first retransmission timer.
    &&& out1.len() == out0.len() + (if nid != hint {
        3int
    } else {
        2int
    })
    &&& (nid != hint ==> out1[out0.len() as int] == Action::Notify(
        ClientEvent::Mapping(MapEvent { id: hint as usize, kind: MapEventKind::NewId(nid as usize) }),
    ))
    &&& out1[out1.len() - 2] is Send
    &&& out1[out1.len() - 2]->Send_0@ == request_packet_bytes(c1.mappings@[nid].request)
    &&& out1[out1.len() - 1] is Arm
    &&& out1[out1.len() - 1]->Arm_0 == nid
    &&& 2700 <= out1[out1.len() - 1]->Arm_1 <= 3300
}

/// The MAP request an inbound mapping request builds, up to its
/// random nonce.
pub open spec fn inbound_request_shape(m: InboundMap, addr: Ipv6Address, r: RequestPacket) -> bool {
    &&& r.header == (RequestHeader {
        version: 2u8,
        opcode: OpCode::Mapping,
        lifetime: m.lifetime,
        address: addr,
    })
    &&& (match r.payload {
        RequestPayload::Mapping(p) => {
            &&& p.protocol == (match m.protocol {
                Some(x) => x,
                None => ProtocolNumber::Hopopt,
            })
            &&& p.internal_port == m.internal_port
            &&& p.external_port == (match m.external_port {
                Some(x) => x,
                None => 0u16,
            })
            &&& p.external_addr.0@ == (match m.external_addr {
                Some(a) => a.0@,
                None => zero_bytes(16),
            })
        },
        _ => false,
    })
    &&& r.options@ == inbound_options(m)
}

/// The PEER request an outbound mapping request builds, up to its
/// random nonce.
pub open spec fn outbound_request_shape(
    m: OutboundMap,
    addr: Ipv6Address,
    r: RequestPacket,
) -> bool {
    &&& r.header == (RequestHeader {
        version: 2u8,
        opcode: OpCode::Peer,
        lifetime: m.lifetime,
        address: addr,
    })
    &&& (match r.payload {
        RequestPayload::Peer(p) => {
            &&& p.protocol == (match m.protocol {
                Some(x) => x,
                None => ProtocolNumber::Hopopt,
            })
            &&& p.internal_port == m.internal_port
            &&& p.external_port == (match m.external_port {
                Some(x) => x,
                None => 0u16,
            })
            &&& p.external_addr.0@ == (match m.external_addr {
                Some(a) => a.0@,
                None => zero_bytes(16),
            })
            &&& p.remote_port == m.remote_port
            &&& p.remote_addr == m.remote_addr
        },
        _ => false,
    })
    &&& r.options@ == outbound_options(m)
}

/// The PCP client service: the mapping table, the stored epoch, and
/// the client's own address.
pub struct Client {
    /// The client's own address, written into every request header.
    pub addr: Ipv6Address,
    /// The mapping table; slots of `Dropped` records are reused.
    pub mappings: Vec<MappingState>,
    /// The last accepted server epoch, with its receipt time.
    pub epoch: Option<EpochSnapshot>,
}

/// The service invariant: every record is well formed and holds a
/// MAP or PEER request, and no two non-terminal records match the
/// same response fingerprint.
pub open spec fn client_wf(c: Client) -> bool {
    &&& forall|i: int|
        0 <= i < c.mappings@.len() ==> (#[trigger] c.mappings@[i]).wf() && !(c.mappings@[i].request.payload
            is Announce)
    &&& forall|i: int, j: int|
        0 <= i < j < c.mappings@.len() && !is_terminal(c.mappings@[i].state) && !is_terminal(
            c.mappings@[j].state,
        ) ==> !#[trigger] requests_conflict(c.mappings@[i].request, c.mappings@[j].request)
}

/// No two distinct non-terminal records of a well-formed table are
/// matched by one and the same response: the table never holds
/// duplicate mappings.
pub proof fn lemma_no_duplicate_match(c: Client, resp: ResponsePacket, i: int, j: int)
    requires
        client_wf(c),
        0 <= i < c.mappings@.len(),
        0 <= j < c.mappings@.len(),
        i != j,
        !is_terminal(c.mappings@[i].state),
        !is_terminal(c.mappings@[j].state),
        spec_matches(resp, c.mappings@[i].request),
    ensures
        !spec_matches(resp, c.mappings@[j].request),
{
    if spec_matches(resp, c.mappings@[j].request) {
        assert(requests_conflict(c.mappings@[i].request, c.mappings@[j].request));
        if i < j {
            assert(!requests_conflict(c.mappings@[i].request, c.mappings@[j].request));
        } else {
            assert(!requests_conflict(c.mappings@[j].request, c.mappings@[i].request));
        }
    }
}

/// Client-side seconds elapsed between two millisecond clock
/// readings, saturating in both directions.
pub open spec fn elapsed_secs(now: u64, before: u64) -> u32 {
    if now < before {
        0u32
    } else if (now - before) / 1000 > u32::MAX {
        u32::MAX
    } else {
        ((now - before) / 1000) as u32
    }
}

/// What a request for an inbound mapping leaves behind: either a
/// fresh record of the right shape was stored, sent and armed; or
/// the builder rejected the mapping and exactly that rejection was
/// reported, nothing stored; or every drawn nonce collided with a
/// live record and the failure was reported. When the builder
/// accepts and the table holds no live record, storing is owed.
pub open spec fn inbound_post(
    c0: Client,
    c1: Client,
    out0: Seq<Action>,
    out1: Seq<Action>,
    map: InboundMap,
    kind: RequestType,
    hint: int,
) -> bool {
    &&& c1.addr == c0.addr
    &&& c1.epoch == c0.epoch
    &&& out0.is_prefix_of(out1)
    &&& ({
        ||| exists|nid: int|
            stored_new_request(c0, c1, out0, out1, kind, hint, nid) && inbound_request_shape(
                map,
                c0.addr,
                #[trigger] c1.mappings@[nid].request,
            )
        ||| (inbound_build_error(map) is None && c1.mappings@ == c0.mappings@ && out1.len()
            == out0.len() + 1 && out1[out0.len() as int] == Action::Notify(
            ClientEvent::Mapping(MapEvent { id: hint as usize, kind: MapEventKind::Error }),
        ) && (exists|i: int|
            0 <= i < c0.mappings@.len() && !is_terminal((#[trigger] c0.mappings@[i]).state)))
        ||| (inbound_build_error(map) is Some && c1.mappings@ == c0.mappings@ && out1.len()
            == out0.len() + 1)
    })
    &&& (match inbound_build_error(map) {
        Some(e) => c1.mappings@ == c0.mappings@ && out1.len() == out0.len() + 1 && out1[out0.len() as int]
            == Action::Notify(ClientEvent::Service(crate::handle::Error::Parsing(e))),
        None => true,
    })
    &&& (inbound_build_error(map) is None && (forall|i: int|
        0 <= i < c0.mappings@.len() ==> is_terminal((#[trigger] c0.mappings@[i]).state))
        ==> exists|nid: int|
        stored_new_request(c0, c1, out0, out1, kind, hint, nid) && inbound_request_shape(
            map,
            c0.addr,
            #[trigger] c1.mappings@[nid].request,
        ))
}

/// What a request for an outbound mapping leaves behind, with the
/// same outcomes as [`inbound_post`].
pub open spec fn outbound_post(
    c0: Client,
    c1: Client,
    out0: Seq<Action>,
    out1: Seq<Action>,
    map: OutboundMap,
    kind: RequestType,
    hint: int,
) -> bool {
    &&& c1.addr == c0.addr
    &&& c1.epoch == c0.epoch
    &&& out0.is_prefix_of(out1)
    &&& ({
        ||| exists|nid: int|
            stored_new_request(c0, c1, out0, out1, kind, hint, nid) && outbound_request_shape(
                map,
                c0.addr,
                #[trigger] c1.mappings@[nid].request,
            )
        ||| (outbound_build_error(map) is None && c1.mappings@ == c0.mappings@ && out1.len()
            == out0.len() + 1 && out1[out0.len() as int] == Action::Notify(
            ClientEvent::Mapping(MapEvent { id: hint as usize, kind: MapEventKind::Error }),
        ) && (exists|i: int|
            0 <= i < c0.mappings@.len() && !is_terminal((#[trigger] c0.mappings@[i]).state)))
        ||| (outbound_build_error(map) is Some && c1.mappings@ == c0.mappings@ && out1.len()
            == out0.len() + 1)
    })
    &&& (match outbound_build_error(map) {
        Some(e) => c1.mappings@ == c0.mappings@ && out1.len() == out0.len() + 1 && out1[out0.len() as int]
            == Action::Notify(ClientEvent::Service(crate::handle::Error::Parsing(e))),
        None => true,
    })
    &&& (outbound_build_error(map) is None && (forall|i: int|
        0 <= i < c0.mappings@.len() ==> is_terminal((#[trigger] c0.mappings@[i]).state))
        ==> exists|nid: int|
        stored_new_request(c0, c1, out0, out1, kind, hint, nid) && outbound_request_shape(
            map,
            c0.addr,
            #[trigger] c1.mappings@[nid].request,
        ))
}

/// What a decoded server datagram leaves behind. The epoch is
/// checked first: the first epoch is taken as the baseline; a valid
/// one replaces the stored snapshot and the response is applied — a
/// successful ANNOUNCE runs recovery, an ANNOUNCE error is ignored,
/// MAP and PEER responses go to their owning record; an invalid one
/// runs recovery with the snapshot kept and the response discarded.
pub open spec fn response_event_post(
    c0: Client,
    c1: Client,
    out0: Seq<Action>,
    out1: Seq<Action>,
    packet: ResponsePacket,
    when: u64,
) -> bool {
    let mid = Client {
        epoch: Some(EpochSnapshot { epoch: Epoch(packet.header.epoch), received_at: when }),
        ..c0
    };
    &&& c1.addr == c0.addr
    &&& c1.mappings@.len() == c0.mappings@.len()
    &&& out0.is_prefix_of(out1)
    &&& (if !epoch_accepted(c0, packet.header.epoch, when) {
        recovery_post(c0, c1, out0, out1)
    } else {
        match packet.payload {
            ResponsePayload::Announce => if packet.header.result == ResultCode::Success {
                recovery_post(mid, c1, out0, out1)
            } else {
                c1 == mid && out1 == out0
            },
            ResponsePayload::Mapping(mp) => response_applied(
                mid,
                c1,
                out0,
                out1,
                packet,
                mp.external_addr,
                mp.external_port,
            ),
            ResponsePayload::Peer(pp) => response_applied(
                mid,
                c1,
                out0,
                out1,
                packet,
                pp.external_addr,
                pp.external_port,
            ),
        }
    })
}

/// Whether a response's epoch passes validation against the state of
/// the service: the first epoch is always taken as a baseline.
pub open spec fn epoch_accepted(c: Client, epoch_value: u32, when: u64) -> bool {
    match c.epoch {
        None => true,
        Some(prev) => spec_epoch_valid(epoch_value, prev.epoch.0, elapsed_secs(when, prev.received_at)),
    }
}

impl Client {
    /// A fresh service for a client with the given address: an empty
    /// table and no stored epoch.
    pub fn new(addr: Ipv6Address) -> (r: Client)
        ensures
            r.addr == addr,
            r.mappings@.len() == 0,
            r.epoch is None,
            client_wf(r),
    {
        Client { addr, mappings: Vec::new(), epoch: None }
    }

    /// The slot a fresh mapping will get: the first slot holding a
    /// `Dropped` record, or a new slot at the end of the table.
    pub fn next_index(&self) -> (r: usize)
        ensures
            r <= self.mappings@.len(),
            r < self.mappings@.len() ==> self.mappings@[r as int].state == State::Dropped,
            forall|j: int| 0 <= j < r ==> (#[trigger] self.mappings@[j]).state != State::Dropped,
            r == self.mappings@.len() ==> forall|j: int|
                0 <= j < self.mappings@.len() ==> (#[trigger] self.mappings@[j]).state
                    != State::Dropped,
    {
        let n = self.mappings.len();
        let mut i: usize = 0;
        while i < n
            invariant
                i <= n == self.mappings@.len(),
                forall|j: int|
                    0 <= j < i ==> (#[trigger] self.mappings@[j]).state != State::Dropped,
            decreases n - i,
        {
            if matches!(self.mappings[i].state, State::Dropped) {
                return i;
            }
            i += 1;
        }
        n
    }

    /// The first non-terminal record the response matches, if any;
    /// by [`lemma_no_duplicate_match`] it is the only one.
    pub fn find_match(&self, packet: &ResponsePacket) -> (r: Option<usize>)
        ensures
            (match r {
                Some(i) => i < self.mappings@.len() && !is_terminal(self.mappings@[i as int].state)
                    && spec_matches(*packet, self.mappings@[i as int].request) && forall|j: int|
                    0 <= j < i ==> !(!is_terminal((#[trigger] self.mappings@[j]).state)
                        && spec_matches(*packet, self.mappings@[j].request)),
                None => forall|j: int|
                    0 <= j < self.mappings@.len() ==> !(!is_terminal(
                        (#[trigger] self.mappings@[j]).state,
                    ) && spec_matches(*packet, self.mappings@[j].request)),
            }),
    {
        let n = self.mappings.len();
        let mut i: usize = 0;
        while i < n
            invariant
                i <= n == self.mappings@.len(),
                forall|j: int|
                    0 <= j < i ==> !(!is_terminal((#[trigger] self.mappings@[j]).state)
                        && spec_matches(*packet, self.mappings@[j].request)),
            decreases n - i,
        {
            let m = &self.mappings[i];
            let terminal = matches!(
                m.state,
                State::Error(_) | State::Expired | State::Revoked | State::Dropped
            );
            if !terminal && packet.matches(&m.request) {
                return Some(i);
            }
            i += 1;
        }
        None
    }

    /// Whether the request would collide with a live record's
    /// fingerprint.
    fn conflicts_any(&self, request: &RequestPacket) -> (r: bool)
        ensures
            r <==> exists|i: int|
                0 <= i < self.mappings@.len() && !is_terminal(
                    (#[trigger] self.mappings@[i]).state,
                ) && requests_conflict(*request, self.mappings@[i].request),
    {
        let n = self.mappings.len();
        let mut i: usize = 0;
        while i < n
            invariant
                i <= n == self.mappings@.len(),
                forall|j: int|
                    0 <= j < i ==> !(!is_terminal((#[trigger] self.mappings@[j]).state)
                        && requests_conflict(*request, self.mappings@[j].request)),
            decreases n - i,
        {
            let m = &self.mappings[i];
            let terminal = matches!(
                m.state,
                State::Error(_) | State::Expired | State::Revoked | State::Dropped
            );
            if !terminal && conflict(request, &m.request) {
                return true;
            }
            i += 1;
        }
        false
    }

    /// Recovery after the server lost state: every non-terminal
    /// record is resent byte-identically, reset to `Starting(0)`,
    /// and its timer is rearmed to the initial retransmission time.
    /// Terminal records are left alone.
    pub fn server_lost_state(&mut self, out: &mut Vec<Action>)
        requires
            client_wf(*old(self)),
        ensures
            client_wf(*final(self)),
            recovery_post(*old(self), *final(self), old(out)@, final(out)@),
    {
        let n = self.mappings.len();
        let mut i: usize = 0;
        while i < n
            invariant
                client_wf(*old(self)),
                i <= n == self.mappings@.len() == old(self).mappings@.len(),
                self.addr == old(self).addr,
                self.epoch == old(self).epoch,
                forall|j: int| i <= j < n ==> self.mappings@[j] == old(self).mappings@[j],
                forall|j: int|
                    0 <= j < i ==> {
                        let m0 = #[trigger] old(self).mappings@[j];
                        let m1 = self.mappings@[j];
                        if is_terminal(m0.state) {
                            m1 == m0
                        } else {
                            m1.request == m0.request && m1.state == State::Starting(0usize)
                                && m1.kind == m0.kind && m1.rem == m0.rem && m1.renew == m0.renew
                                && m1.wf()
                        }
                    },
                old(out)@.is_prefix_of(out@),
                forall|j: int|
                    0 <= j < i && !is_terminal((#[trigger] old(self).mappings@[j]).state) ==> (
                    exists|k: int|
                        old(out)@.len() <= k < out@.len() && (#[trigger] out@[k]) is Send
                            && out@[k]->Send_0@ == request_packet_bytes(
                            old(self).mappings@[j].request,
                        )) && (exists|k: int|
                        old(out)@.len() <= k < out@.len() && (#[trigger] out@[k]) is Arm
                            && out@[k]->Arm_0 == j && 2700 <= out@[k]->Arm_1 <= 3300),
                forall|k: int|
                    old(out)@.len() <= k < out@.len() ==> {
                        let a = #[trigger] out@[k];
                        ||| (a is Send && exists|i2: int|
                            0 <= i2 < old(self).mappings@.len() && !is_terminal(
                                (#[trigger] old(self).mappings@[i2]).state,
                            ) && a->Send_0@ == request_packet_bytes(
                                old(self).mappings@[i2].request,
                            ))
                        ||| (a is Arm && 0 <= a->Arm_0 < old(self).mappings@.len()
                            && !is_terminal(old(self).mappings@[a->Arm_0 as int].state) && 2700
                            <= a->Arm_1 <= 3300)
                    },
            decreases n - i,
        {
            proof {
                assert(self.mappings@[i as int] == old(self).mappings@[i as int]);
                assert(old(self).mappings@[i as int].wf());
            }
            let ghost out_before = out@;
            let m = &mut self.mappings[i];
            let terminal = matches!(
                m.state,
                State::Error(_) | State::Expired | State::Revoked | State::Dropped
            );
            if !terminal {
                let b = m.bytes();
                m.state = State::Starting(0);
                out.push(Action::Send(b));
                let t = irt();
                out.push(Action::Arm(i, t));
                proof {
                    let n2 = out@.len() as int;
                    assert(out@[n2 - 2] is Send && out@[n2 - 2]->Send_0@ == request_packet_bytes(
                        old(self).mappings@[i as int].request,
                    ));
                    assert(out@[n2 - 1] is Arm && out@[n2 - 1]->Arm_0 == i && 2700 <= out@[n2
                        - 1]->Arm_1 <= 3300);
                    assert(forall|k: int| 0 <= k < out_before.len() ==> out@[k] == out_before[k]);
                    assert(!is_terminal(old(self).mappings@[i as int].state));
                }
            }
            i += 1;
        }
        proof {
            assert forall|i1: int|
                0 <= i1 < self.mappings@.len() implies (#[trigger] self.mappings@[i1]).wf() && !(
            self.mappings@[i1].request.payload is Announce) by {
                assert(old(self).mappings@[i1].wf());
                if is_terminal(old(self).mappings@[i1].state) {
                    assert(self.mappings@[i1] == old(self).mappings@[i1]);
                }
            }
            assert forall|i1: int, j1: int|
                0 <= i1 < j1 < self.mappings@.len() && !is_terminal(self.mappings@[i1].state)
                    && !is_terminal(self.mappings@[j1].state) implies !#[trigger] requests_conflict(
                self.mappings@[i1].request,
                self.mappings@[j1].request,
            ) by {
                if is_terminal(old(self).mappings@[i1].state) {
                    assert(self.mappings@[i1] == old(self).mappings@[i1]);
                }
                if is_terminal(old(self).mappings@[j1].state) {
                    assert(self.mappings@[j1] == old(self).mappings@[j1]);
                }
                assert(self.mappings@[i1].request == old(self).mappings@[i1].request);
                assert(self.mappings@[j1].request == old(self).mappings@[j1].request);
                assert(!is_terminal(old(self).mappings@[i1].state));
                assert(!is_terminal(old(self).mappings@[j1].state));
                assert(!requests_conflict(
                    old(self).mappings@[i1].request,
                    old(self).mappings@[j1].request,
                ));
            }
        }
    }

    /// Stores a fresh record for a built request in the slot
    /// [`Client::next_index`] names, sends it, and arms its first
    /// retransmission timer. When the slot differs from the caller's
    /// guess, a `NewId` notification reports the assigned slot.
    /// Returns the slot.
    fn new_mapping(
        &mut self,
        request: RequestPacket,
        kind: RequestType,
        id: usize,
        out: &mut Vec<Action>,
    ) -> (nid: usize)
        requires
            client_wf(*old(self)),
            request_wf(request),
            !(request.payload is Announce),
            forall|i: int|
                0 <= i < old(self).mappings@.len() && !is_terminal(
                    (#[trigger] old(self).mappings@[i]).state,
                ) ==> !requests_conflict(request, old(self).mappings@[i].request),
        ensures
            client_wf(*final(self)),
            final(self).addr == old(self).addr,
            final(self).epoch == old(self).epoch,
            stored_new_request(
                *old(self),
                *final(self),
                old(out)@,
                final(out)@,
                kind,
                id as int,
                nid as int,
            ),
            final(self).mappings@[nid as int].request == request,
            old(out)@.is_prefix_of(final(out)@),
    {
        let nid = self.next_index();
        if nid != id {
            out.push(
                Action::Notify(ClientEvent::Mapping(MapEvent::new(id, MapEventKind::NewId(nid)))),
            );
        }
        let mut record = MappingState::new(request, kind);
        let b = record.bytes();
        if nid < self.mappings.len() {
            let slot = &mut self.mappings[nid];
            *slot = record;
        } else {
            self.mappings.push(record);
        }
        out.push(Action::Send(b));
        let t = irt();
        out.push(Action::Arm(nid, t));
        proof {
            let n2 = final(out)@.len() as int;
            assert(final(out)@[n2 - 2] is Send && final(out)@[n2 - 2]->Send_0@
                == request_packet_bytes(request));
            assert(final(out)@[n2 - 1] is Arm && final(out)@[n2 - 1]->Arm_0 == nid && 2700
                <= final(out)@[n2 - 1]->Arm_1 <= 3300);
        }
        nid
    }

    /// Handles a request for an inbound mapping: builds the MAP
    /// request with a fresh nonce (options in the order filters,
    /// prefer-failure, third-party), stores and sends it. A request
    /// the builder rejects — an over-narrow filter prefix — is
    /// reported as a parsing failure and nothing is stored; the same
    /// happens in the vanishingly unlikely case that fresh nonces
    /// kept colliding with live records.
    pub fn new_inbound(
        &mut self,
        map: InboundMap,
        kind: RequestType,
        id: usize,
        out: &mut Vec<Action>,
    )
        requires
            client_wf(*old(self)),
        ensures
            client_wf(*final(self)),
            inbound_post(
                *old(self),
                *final(self),
                old(out)@,
                final(out)@,
                map,
                kind,
                id as int,
            ),
    {
        // Assemble the options in the specified order.
        let ghost base = map.filters@.map_values(|f: Filter| filter_option(f));
        let mut options: Vec<PacketOption> = Vec::new();
        let nf = map.filters.len();
        let mut fi: usize = 0;
        while fi < nf
            invariant
                fi <= nf == map.filters@.len(),
                base == map.filters@.map_values(|f: Filter| filter_option(f)),
                options@ =~= map.filters@.take(fi as int).map_values(
                    |f: Filter| filter_option(f),
                ),
            decreases nf - fi,
        {
            let f = &map.filters[fi];
            options.push(PacketOption::filter(f.prefix, f.remote_port, f.remote_addr));
            proof {
                assert(options@ =~= map.filters@.take(fi + 1).map_values(
                    |f2: Filter| filter_option(f2),
                ));
            }
            fi += 1;
        }
        proof {
            assert(map.filters@.take(nf as int) =~= map.filters@);
            assert(options@ =~= base);
        }
        if map.prefer_failure {
            options.push(PacketOption::prefer_failure());
        }
        match &map.third_party {
            Some(addr) => options.push(PacketOption::third_party(*addr)),
            None => {},
        }
        proof {
            assert(options@ =~= inbound_options(map));
        }
        let external_port = match map.external_port {
            Some(p) => p,
            None => 0,
        };
        let external_addr = match map.external_addr {
            Some(a) => a,
            None => Ipv6Address::unspecified(),
        };
        // Draw nonces until the request collides with no live
        // record; the collision check keeps the table free of
        // duplicate fingerprints.
        let mut tries: usize = 0;
        while tries < 16
            invariant
                client_wf(*self),
                *self == *old(self),
                out@ == old(out)@,
                options@ == inbound_options(map),
                tries > 0 ==> inbound_build_error(map) is None && exists|i: int|
                    0 <= i < old(self).mappings@.len() && !is_terminal(
                        (#[trigger] old(self).mappings@[i]).state,
                    ),
                (match map.external_addr {
                    Some(a) => external_addr == a,
                    None => external_addr.0@ == zero_bytes(16),
                }),
                external_port == (match map.external_port {
                    Some(p) => p,
                    None => 0u16,
                }),
            decreases 16 - tries,
        {
            let nonce = crate::timeout::random_nonce();
            let built = RequestPacket::map(
                2,
                map.lifetime,
                self.addr,
                nonce,
                map.protocol,
                map.internal_port,
                external_port,
                external_addr,
                options,
            );
            match built {
                Err(e) => {
                    proof {
                        assert(inbound_build_error(map) == Some(e));
                    }
                    out.push(
                        Action::Notify(
                            ClientEvent::Service(crate::handle::Error::Parsing(e)),
                        ),
                    );
                    return ;
                },
                Ok(request) => {
                    proof {
                        assert(inbound_build_error(map) is None);
                    }
                    if !self.conflicts_any(&request) {
                        let nid = self.new_mapping(request, kind, id, out);
                        proof {
                            assert(inbound_request_shape(
                                map,
                                old(self).addr,
                                final(self).mappings@[nid as int].request,
                            ));
                            assert(stored_new_request(
                                *old(self),
                                *final(self),
                                old(out)@,
                                final(out)@,
                                kind,
                                id as int,
                                nid as int,
                            ));
                        }
                        return ;
                    }
                    options = request.options;
                },
            }
            tries += 1;
        }
        out.push(
            Action::Notify(ClientEvent::Mapping(MapEvent::new(id, MapEventKind::Error))),
        );
    }

    /// Handles a request for an outbound mapping: builds the PEER
    /// request with a fresh nonce (a third-party option if one was
    /// given), stores and sends it, with the same failure reporting
    /// as [`Client::new_inbound`].
    pub fn new_outbound(
        &mut self,
        map: OutboundMap,
        kind: RequestType,
        id: usize,
        out: &mut Vec<Action>,
    )
        requires
            client_wf(*old(self)),
        ensures
            client_wf(*final(self)),
            outbound_post(
                *old(self),
                *final(self),
                old(out)@,
                final(out)@,
                map,
                kind,
                id as int,
            ),
    {
        let mut options: Vec<PacketOption> = Vec::new();
        match &map.third_party {
            Some(addr) => options.push(PacketOption::third_party(*addr)),
            None => {},
        }
        proof {
            assert(options@ =~= outbound_options(map));
        }
        let external_port = match map.external_port {
            Some(p) => p,
            None => 0,
        };
        let external_addr = match map.external_addr {
            Some(a) => a,
            None => Ipv6Address::unspecified(),
        };
        let mut tries: usize = 0;
        while tries < 16
            invariant
                client_wf(*self),
                *self == *old(self),
                out@ == old(out)@,
                options@ == outbound_options(map),
                tries > 0 ==> outbound_build_error(map) is None && exists|i: int|
                    0 <= i < old(self).mappings@.len() && !is_terminal(
                        (#[trigger] old(self).mappings@[i]).state,
                    ),
                (match map.external_addr {
                    Some(a) => external_addr == a,
                    None => external_addr.0@ == zero_bytes(16),
                }),
                external_port == (match map.external_port {
                    Some(p) => p,
                    None => 0u16,
                }),
            decreases 16 - tries,
        {
            let nonce = crate::timeout::random_nonce();
            let built = RequestPacket::peer(
                2,
                map.lifetime,
                self.addr,
                nonce,
                map.protocol,
                map.internal_port,
                external_port,
                external_addr,
                map.remote_port,
                map.remote_addr,
                options,
            );
            match built {
                Err(e) => {
                    proof {
                        assert(outbound_build_error(map) == Some(e));
                    }
                    out.push(
                        Action::Notify(
                            ClientEvent::Service(crate::handle::Error::Parsing(e)),
                        ),
                    );
                    return ;
                },
                Ok(request) => {
                    proof {
                        assert(outbound_build_error(map) is None);
                    }
                    if !self.conflicts_any(&request) {
                        let nid = self.new_mapping(request, kind, id, out);
                        proof {
                            assert(outbound_request_shape(
                                map,
                                old(self).addr,
                                final(self).mappings@[nid as int].request,
                            ));
                            assert(stored_new_request(
                                *old(self),
                                *final(self),
                                old(out)@,
                                final(out)@,
                                kind,
                                id as int,
                                nid as int,
                            ));
                        }
                        return ;
                    }
                    options = request.options;
                },
            }
            tries += 1;
        }
        out.push(
            Action::Notify(ClientEvent::Mapping(MapEvent::new(id, MapEventKind::Error))),
        );
    }

    /// Revokes a mapping: its stored lifetime becomes 0, its timer is
    /// cancelled, the zero-lifetime request is sent, and the record
    /// becomes `Revoked`. The server may still keep the mapping until
    /// its idle timeout; the client does not wait for confirmation.
    pub fn revoke(&mut self, id: usize, out: &mut Vec<Action>)
        requires
            client_wf(*old(self)),
            id < old(self).mappings@.len(),
        ensures
            client_wf(*final(self)),
            revoked_post(*old(self), *final(self), old(out)@, final(out)@, id as int),
    {
        proof {
            assert(old(self).mappings@[id as int].wf());
        }
        out.push(Action::Cancel(id));
        let m = &mut self.mappings[id];
        m.request.header.lifetime = 0;
        m.clear();
        let b = m.bytes();
        m.state = State::Revoked;
        out.push(Action::Send(b));
        proof {
            lemma_payload_only_wf(*old(self), *self, id as int);
        }
    }

    /// Renews a mapping with a new lifetime, in seconds: the stored
    /// request takes the lifetime, the timer is cancelled, the
    /// request is resent, and retransmission starts over. A record
    /// already in a terminal state is left alone: reviving it could
    /// duplicate a fingerprint that a fresh record has meanwhile
    /// taken over.
    pub fn renew_mapping(&mut self, id: usize, lifetime: u32, out: &mut Vec<Action>)
        requires
            client_wf(*old(self)),
            id < old(self).mappings@.len(),
        ensures
            client_wf(*final(self)),
            renewed_post(*old(self), *final(self), old(out)@, final(out)@, id as int, lifetime),
    {
        proof {
            assert(old(self).mappings@[id as int].wf());
        }
        let terminal = matches!(
            self.mappings[id].state,
            State::Error(_) | State::Expired | State::Revoked | State::Dropped
        );
        if terminal {
            return ;
        }
        out.push(Action::Cancel(id));
        let m = &mut self.mappings[id];
        m.rem = (lifetime as u64) * 1000;
        m.request.header.lifetime = lifetime;
        m.clear();
        let b = m.bytes();
        m.state = State::Starting(0);
        out.push(Action::Send(b));
        let t = irt();
        out.push(Action::Arm(id, t));
        proof {
            lemma_payload_only_wf(*old(self), *self, id as int);
        }
    }

    /// The renewal path: charges the elapsed renewal wait against the
    /// remaining lifetime, then either resends the request and arms
    /// the next renewal from the RFC's window, or lets the mapping
    /// expire when the window has shrunk below four seconds.
    fn update_mapping(&mut self, id: usize, times: usize, out: &mut Vec<Action>)
        requires
            client_wf(*old(self)),
            id < old(self).mappings@.len(),
            !is_terminal(old(self).mappings@[id as int].state),
        ensures
            client_wf(*final(self)),
            final(self).addr == old(self).addr,
            final(self).epoch == old(self).epoch,
            final(self).mappings@.len() == old(self).mappings@.len(),
            forall|j: int|
                0 <= j < old(self).mappings@.len() && j != id ==> final(self).mappings@[j] == old(self).mappings@[j],
            old(out)@.is_prefix_of(final(out)@),
            renewal_applied(
                old(self).mappings@[id as int],
                final(self).mappings@[id as int],
                old(out)@,
                final(out)@,
                id as int,
                times,
            ),
    {
        proof {
            assert(old(self).mappings@[id as int].wf());
        }
        let rem_now: u64;
        {
            let m = &mut self.mappings[id];
            rem_now = if m.rem >= m.renew {
                m.rem - m.renew
            } else {
                0
            };
            m.rem = rem_now;
        }
        let t32: u32 = if times > 0xffff_ffff {
            0xffff_ffff
        } else {
            times as u32
        };
        match renew(rem_now, t32) {
            Some(d) => {
                let m = &mut self.mappings[id];
                m.renew = d;
                let b = m.bytes();
                let lt = m.request.header.lifetime;
                m.state = State::Updating(times, lt);
                out.push(Action::Send(b));
                out.push(Action::Arm(id, d));
                proof {
                    let n2 = final(out)@.len() as int;
                    assert(final(out)@[n2 - 2] is Send);
                    assert(final(out)@[n2 - 1] is Arm && final(out)@[n2 - 1]->Arm_0 == id);
                    lemma_payload_only_wf(*old(self), *self, id as int);
                }
            },
            None => {
                let m = &mut self.mappings[id];
                m.state = State::Expired;
                out.push(
                    Action::Notify(
                        ClientEvent::Mapping(MapEvent::new(id, MapEventKind::Expired)),
                    ),
                );
                proof {
                    lemma_payload_only_wf(*old(self), *self, id as int);
                }
            },
        }
    }

    /// A timer fired for a mapping after waiting `waited`
    /// milliseconds. A starting record is retransmitted with the
    /// doubled-and-capped backoff; a running record either expires
    /// or enters the renewal path, depending on its kind; an
    /// updating record continues the renewal path; terminal records
    /// ignore the firing.
    pub fn delay_expired(&mut self, id: usize, waited: u64, out: &mut Vec<Action>)
        requires
            client_wf(*old(self)),
            id < old(self).mappings@.len(),
        ensures
            client_wf(*final(self)),
            delay_post(*old(self), *final(self), old(out)@, final(out)@, id as int, waited),
    {
        proof {
            assert(old(self).mappings@[id as int].wf());
        }
        let state_now = self.mappings[id].state;
        match state_now {
            State::Starting(n) => {
                let m = &mut self.mappings[id];
                let n2: usize = if n < usize::MAX {
                    n + 1
                } else {
                    n
                };
                m.state = State::Starting(n2);
                let b = m.bytes();
                out.push(Action::Send(b));
                let t = rt(waited);
                out.push(Action::Arm(id, t));
                proof {
                    let n3 = final(out)@.len() as int;
                    assert(final(out)@[n3 - 2] is Send);
                    assert(final(out)@[n3 - 1] is Arm && final(out)@[n3 - 1]->Arm_0 == id);
                    lemma_payload_only_wf(*old(self), *self, id as int);
                }
            },
            State::Running => {
                let kind_now = self.mappings[id].kind;
                match kind_now {
                    RequestType::Once => {
                        let m = &mut self.mappings[id];
                        m.state = State::Expired;
                        out.push(
                            Action::Notify(
                                ClientEvent::Mapping(MapEvent::new(id, MapEventKind::Expired)),
                            ),
                        );
                        proof {
                            lemma_payload_only_wf(*old(self), *self, id as int);
                        }
                    },
                    RequestType::Repeat(k) => {
                        if k == 0 {
                            let m = &mut self.mappings[id];
                            m.state = State::Expired;
                            out.push(
                                Action::Notify(
                                    ClientEvent::Mapping(
                                        MapEvent::new(id, MapEventKind::Expired),
                                    ),
                                ),
                            );
                            proof {
                                lemma_payload_only_wf(*old(self), *self, id as int);
                            }
                        } else {
                            {
                                let m = &mut self.mappings[id];
                                m.kind = RequestType::Repeat(k - 1);
                                proof {
                                    lemma_payload_only_wf(*old(self), *self, id as int);
                                }
                            }
                            self.update_mapping(id, 0, out);
                        }
                    },
                    RequestType::KeepAlive => {
                        self.update_mapping(id, 0, out);
                    },
                }
            },
            State::Updating(n, _) => {
                let n2: usize = if n < usize::MAX {
                    n + 1
                } else {
                    n
                };
                self.update_mapping(id, n2, out);
            },
            _ => {},
        }
    }

    /// Applies a matched MAP or PEER response to its owning record:
    /// the assigned external address and port are stored back into
    /// the request (so that retransmissions carry the assignment),
    /// an error result parks the record in `Error`, and a success
    /// makes it `Running` with the next renewal armed. The first
    /// successful response is reported to the owner as `Accepted`.
    /// A response no live record matches is ignored.
    pub fn mapping_response(
        &mut self,
        packet: &ResponsePacket,
        addr: Ipv6Address,
        port: u16,
        out: &mut Vec<Action>,
    )
        requires
            client_wf(*old(self)),
            (match packet.payload {
                ResponsePayload::Mapping(mp) => port == mp.external_port,
                ResponsePayload::Peer(pp) => port == pp.external_port,
                ResponsePayload::Announce => false,
            }),
        ensures
            client_wf(*final(self)),
            old(out)@.is_prefix_of(final(out)@),
            response_applied(
                *old(self),
                *final(self),
                old(out)@,
                final(out)@,
                *packet,
                addr,
                port,
            ),
    {
        let found = self.find_match(packet);
        match found {
            None => {},
            Some(idx) => {
                proof {
                    assert(old(self).mappings@[idx as int].wf());
                }
                let ghost c0 = *self;
                {
                    let m = &mut self.mappings[idx];
                    match &mut m.request.payload {
                        RequestPayload::Mapping(p) => {
                            p.external_addr = addr;
                            p.external_port = port;
                        },
                        RequestPayload::Peer(p) => {
                            p.external_addr = addr;
                            p.external_port = port;
                        },
                        RequestPayload::Announce => {},
                    }
                    m.clear();
                }
                proof {
                    assert(self.mappings@[idx as int].wf());
                    lemma_assigned_external_wf(c0, *self, idx as int, *packet);
                }
                let result = packet.header.result;
                if !matches!(result, ResultCode::Success) {
                    out.push(Action::Cancel(idx));
                    let ghost c_mid = *self;
                    let m = &mut self.mappings[idx];
                    m.state = State::Error(result);
                    out.push(
                        Action::Notify(
                            ClientEvent::Mapping(MapEvent::new(idx, MapEventKind::Error)),
                        ),
                    );
                    proof {
                        lemma_payload_only_wf(c_mid, *self, idx as int);
                    }
                    return ;
                }
                let p_lifetime = packet.header.lifetime;
                let clamped: u32 = if p_lifetime < REASONABLE_LIFETIME {
                    p_lifetime
                } else {
                    REASONABLE_LIFETIME
                };
                out.push(Action::Cancel(idx));
                let was_starting = matches!(self.mappings[idx].state, State::Starting(_));
                let kind_now = self.mappings[idx].kind;
                let wait: u64 = match kind_now {
                    RequestType::Once => (clamped as u64) * 1000,
                    RequestType::Repeat(n) => if n == 0 {
                        (clamped as u64) * 1000
                    } else {
                        match renew((p_lifetime as u64) * 1000, 0) {
                            Some(d) => d,
                            None => 0,
                        }
                    },
                    RequestType::KeepAlive => match renew((p_lifetime as u64) * 1000, 0) {
                        Some(d) => d,
                        None => 0,
                    },
                };
                let ghost c1 = *self;
                {
                    let m = &mut self.mappings[idx];
                    m.rem = (p_lifetime as u64) * 1000;
                    m.request.header.lifetime = clamped;
                    m.clear();
                    m.state = State::Running;
                    m.renew = wait;
                }
                proof {
                    lemma_payload_only_wf(c1, *self, idx as int);
                }
                if was_starting {
                    out.push(
                        Action::Notify(
                            ClientEvent::Mapping(
                                MapEvent::new(
                                    idx,
                                    MapEventKind::Accepted {
                                        lifetime: p_lifetime,
                                        external_ip: addr,
                                        external_port: port,
                                    },
                                ),
                            ),
                        ),
                    );
                }
                out.push(Action::Arm(idx, wait));
                proof {
                    let n2 = final(out)@.len() as int;
                    assert(final(out)@[n2 - 1] is Arm && final(out)@[n2 - 1]->Arm_0 == idx
                        && final(out)@[n2 - 1]->Arm_1 == wait);
                }
            },
        }
    }

    /// Handles a decoded server datagram, received at client clock
    /// `when` (milliseconds). The epoch is validated first: the
    /// first epoch is taken as the baseline, a valid one replaces
    /// the stored snapshot, and an invalid one triggers recovery and
    /// discards the response. A successful ANNOUNCE triggers
    /// recovery; an ANNOUNCE error is ignored; MAP and PEER
    /// responses go to their owning record.
    pub fn server_response(&mut self, packet: &ResponsePacket, when: u64, out: &mut Vec<Action>)
        requires
            client_wf(*old(self)),
        ensures
            client_wf(*final(self)),
            response_event_post(
                *old(self),
                *final(self),
                old(out)@,
                final(out)@,
                *packet,
                when,
            ),
    {
        let valid: bool;
        match &self.epoch {
            None => {
                valid = true;
            },
            Some(prev) => {
                let elapsed: u32 = if when < prev.received_at {
                    0
                } else {
                    let secs = (when - prev.received_at) / 1000;
                    if secs > 0xffff_ffff {
                        0xffff_ffff
                    } else {
                        secs as u32
                    }
                };
                valid = Epoch(packet.header.epoch).validate_epoch(prev.epoch, elapsed);
            },
        }
        if !valid {
            self.server_lost_state(out);
            return ;
        }
        self.epoch = Some(EpochSnapshot { epoch: Epoch(packet.header.epoch), received_at: when });
        proof {
            assert(*self == (Client {
                epoch: Some(
                    EpochSnapshot { epoch: Epoch(packet.header.epoch), received_at: when },
                ),
                ..*old(self)
            }));
        }
        match &packet.payload {
            ResponsePayload::Announce => {
                if matches!(packet.header.result, ResultCode::Success) {
                    self.server_lost_state(out);
                }
            },
            ResponsePayload::Mapping(mp) => {
                let a = mp.external_addr;
                let p = mp.external_port;
                self.mapping_response(packet, a, p, out);
            },
            ResponsePayload::Peer(pp) => {
                let a = pp.external_addr;
                let p = pp.external_port;
                self.mapping_response(packet, a, p, out);
            },
        }
    }

    /// Consumes one event: the service's single dispatch point.
    /// Returns whether the service should keep running; only
    /// `Shutdown` stops it. Events naming a mapping slot must name
    /// one inside the table, and a renewal must name a live record.
    pub fn handle_event(&mut self, ev: ServerEvent, out: &mut Vec<Action>) -> (cont: bool)
        requires
            client_wf(*old(self)),
            (match ev {
                ServerEvent::Revoke(id) => id < old(self).mappings@.len(),
                ServerEvent::Renew(id, _) => id < old(self).mappings@.len(),
                ServerEvent::Delay(id, _) => id < old(self).mappings@.len(),
                _ => true,
            }),
        ensures
            client_wf(*final(self)),
            final(self).addr == old(self).addr,
            cont == !(ev is Shutdown),
            (match ev {
                ServerEvent::InboundMap { map, kind, id } => inbound_post(
                    *old(self),
                    *final(self),
                    old(out)@,
                    final(out)@,
                    map,
                    kind,
                    id as int,
                ),
                ServerEvent::OutboundMap { map, kind, id } => outbound_post(
                    *old(self),
                    *final(self),
                    old(out)@,
                    final(out)@,
                    map,
                    kind,
                    id as int,
                ),
                ServerEvent::Revoke(id) => revoked_post(
                    *old(self),
                    *final(self),
                    old(out)@,
                    final(out)@,
                    id as int,
                ),
                ServerEvent::Renew(id, lifetime) => renewed_post(
                    *old(self),
                    *final(self),
                    old(out)@,
                    final(out)@,
                    id as int,
                    lifetime,
                ),
                ServerEvent::Delay(id, waited) => delay_post(
                    *old(self),
                    *final(self),
                    old(out)@,
                    final(out)@,
                    id as int,
                    waited,
                ),
                ServerEvent::ServerResponse(when, packet) => response_event_post(
                    *old(self),
                    *final(self),
                    old(out)@,
                    final(out)@,
                    packet,
                    when,
                ),
                ServerEvent::Shutdown => *final(self) == *old(self) && final(out)@ == old(out)@,
            }),
    {
        match ev {
            ServerEvent::InboundMap { map, kind, id } => {
                self.new_inbound(map, kind, id, out);
                true
            },
            ServerEvent::OutboundMap { map, kind, id } => {
                self.new_outbound(map, kind, id, out);
                true
            },
            ServerEvent::Revoke(id) => {
                self.revoke(id, out);
                true
            },
            ServerEvent::Renew(id, lifetime) => {
                self.renew_mapping(id, lifetime, out);
                true
            },
            ServerEvent::Delay(id, waited) => {
                self.delay_expired(id, waited, out);
                true
            },
            ServerEvent::ServerResponse(when, packet) => {
                self.server_response(&packet, when, out);
                true
            },
            ServerEvent::Shutdown => false,
        }
    }
}

/// Two tables that agree everywhere except that one record changed
/// only outside its payload's match-relevant fields stay well
/// formed: the fingerprint relation reads only the payload.
proof fn lemma_payload_only_wf(c0: Client, c1: Client, id: int)
    requires
        client_wf(c0),
        0 <= id < c0.mappings@.len(),
        c1.mappings@.len() == c0.mappings@.len(),
        forall|j: int| 0 <= j < c0.mappings@.len() && j != id ==> c1.mappings@[j] == c0.mappings@[j],
        c1.mappings@[id].wf(),
        c1.mappings@[id].request.payload == c0.mappings@[id].request.payload,
        !is_terminal(c1.mappings@[id].state) ==> !is_terminal(c0.mappings@[id].state),
    ensures
        client_wf(c1),
{
    assert forall|i: int|
        0 <= i < c1.mappings@.len() implies (#[trigger] c1.mappings@[i]).wf() && !(
    c1.mappings@[i].request.payload is Announce) by {
        assert(c0.mappings@[i].wf() && !(c0.mappings@[i].request.payload is Announce));
    }
    assert forall|i: int, j: int|
        0 <= i < j < c1.mappings@.len() && !is_terminal(c1.mappings@[i].state) && !is_terminal(
            c1.mappings@[j].state,
        ) implies !#[trigger] requests_conflict(
        c1.mappings@[i].request,
        c1.mappings@[j].request,
    ) by {
        if i != id && j != id {
            assert(!requests_conflict(c0.mappings@[i].request, c0.mappings@[j].request));
            assert(requests_conflict(c1.mappings@[i].request, c1.mappings@[j].request)
                == requests_conflict(c0.mappings@[i].request, c0.mappings@[j].request));
        } else {
            if !is_terminal(c0.mappings@[i].state) && !is_terminal(c0.mappings@[j].state) {
                assert(!requests_conflict(c0.mappings@[i].request, c0.mappings@[j].request));
                assert(requests_conflict(c1.mappings@[i].request, c1.mappings@[j].request)
                    == requests_conflict(c0.mappings@[i].request, c0.mappings@[j].request));
            }
        }
    }
}

/// Storing the externals a matching response assigned into the
/// matched record cannot create a duplicate fingerprint: for a MAP
/// request the fingerprint ignores the externals, and for a PEER
/// request the assignment either repeats the suggested port or
/// resolves a server-chosen one, which already collided with
/// everything sharing the rest of the fingerprint.
proof fn lemma_assigned_external_wf(c0: Client, c1: Client, id: int, resp: ResponsePacket)
    requires
        client_wf(c0),
        0 <= id < c0.mappings@.len(),
        c1.mappings@.len() == c0.mappings@.len(),
        forall|j: int| 0 <= j < c0.mappings@.len() && j != id ==> c1.mappings@[j] == c0.mappings@[j],
        c1.mappings@[id].wf(),
        c1.mappings@[id].state == c0.mappings@[id].state,
        !is_terminal(c0.mappings@[id].state),
        spec_matches(resp, c0.mappings@[id].request),
        (match (c0.mappings@[id].request.payload, c1.mappings@[id].request.payload) {
            (RequestPayload::Mapping(p0), RequestPayload::Mapping(p1)) => p1.nonce@ == p0.nonce@
                && p1.internal_port == p0.internal_port,
            (RequestPayload::Peer(p0), RequestPayload::Peer(p1)) => {
                &&& p1.nonce@ == p0.nonce@
                &&& p1.protocol == p0.protocol
                &&& p1.internal_port == p0.internal_port
                &&& p1.remote_port == p0.remote_port
                &&& p1.remote_addr.0@ == p0.remote_addr.0@
                &&& (match resp.payload {
                    ResponsePayload::Peer(rp) => p1.external_port == rp.external_port,
                    _ => false,
                })
            },
            _ => c1.mappings@[id].request.payload == c0.mappings@[id].request.payload,
        }),
    ensures
        client_wf(c1),
{
    assert forall|i: int|
        0 <= i < c1.mappings@.len() implies (#[trigger] c1.mappings@[i]).wf() && !(
    c1.mappings@[i].request.payload is Announce) by {
        assert(c0.mappings@[i].wf() && !(c0.mappings@[i].request.payload is Announce));
    }
    assert forall|i: int, j: int|
        0 <= i < j < c1.mappings@.len() && !is_terminal(c1.mappings@[i].state) && !is_terminal(
            c1.mappings@[j].state,
        ) implies !#[trigger] requests_conflict(
        c1.mappings@[i].request,
        c1.mappings@[j].request,
    ) by {
        assert(!is_terminal(c0.mappings@[i].state) && !is_terminal(c0.mappings@[j].state));
        assert(!requests_conflict(c0.mappings@[i].request, c0.mappings@[j].request));
        if i == id || j == id {
            let other = if i == id {
                j
            } else {
                i
            };
            if other != id {
                let q0 = c0.mappings@[id].request;
                let q1 = c1.mappings@[id].request;
                let w = c0.mappings@[other].request;
                assert(c1.mappings@[other].request == w);
                match (q0.payload, q1.payload) {
                    (RequestPayload::Peer(p0), RequestPayload::Peer(p1)) => {
                        if requests_conflict(q1, w) || requests_conflict(w, q1) {
                            match w.payload {
                                RequestPayload::Peer(pw) => {
                                    if p0.external_port == 0 {
                                        assert(requests_conflict(q0, w) && requests_conflict(
                                            w,
                                            q0,
                                        ));
                                    } else {
                                        match resp.payload {
                                            ResponsePayload::Peer(rp) => {
                                                assert(rp.external_port == p0.external_port);
                                                assert(p1.external_port == p0.external_port);
                                                assert(requests_conflict(q0, w)
                                                    && requests_conflict(w, q0));
                                            },
                                            _ => {
                                                assert(false);
                                            },
                                        }
                                    }
                                },
                                _ => {},
                            }
                        }
                    },
                    _ => {},
                }
            }
        }
    }
}

} // verus!
