//! The decisions a QUIC connection takes from plain facts about its state:
//! what it makes of the peer's transport parameters, which version it moves
//! to on a version negotiation packet, in which packet number space it
//! sends next, and how much a server may send before the client's address
//! is verified.

use vstd::prelude::*;

use crate::error::Error;
use crate::packet::{is_supported_version, version_is_supported};
use crate::transport_params::{decode_params, TransportParams, TransportParamsModel};

verus! {

/// The TLS alert sent when no application protocol could be negotiated.
pub const NO_APPLICATION_PROTOCOL: u64 = 0x178;

/// The packet number space of Initial packets.
pub const EPOCH_INITIAL: usize = 0;

/// The packet number space of Handshake packets.
pub const EPOCH_HANDSHAKE: usize = 1;

/// The packet number space of 0-RTT and 1-RTT packets.
pub const EPOCH_APPLICATION: usize = 2;

/// How many times the bytes received from an unverified client a server
/// may send back.
pub const MAX_AMPLIFICATION_FACTOR: usize = 3;

/// The encryption level that TLS writes at.
#[derive(Clone, Copy, Debug, PartialEq, Eq, Structural)]
pub enum Level {
    Initial,
    ZeroRTT,
    Handshake,
    OneRTT,
}

/// Whether two byte strings are equal.
pub fn bytes_equal(a: &[u8], b: &[u8]) -> (r: bool)
    ensures
        r == (a@ == b@),
{
    if a.len() != b.len() {
        return false;
    }
    let mut i: usize = 0;
    while i < a.len()
        invariant
            a@.len() == b@.len(),
            i <= a@.len(),
            forall|j: int| 0 <= j < i ==> a@[j] == b@[j],
        decreases a@.len() - i,
    {
        if a[i] != b[i] {
            return false;
        }
        i = i + 1;
    }
    assert(a@ =~= b@);
    true
}

/// A borrowed byte string, if any, as a sequence.
pub open spec fn slice_view(o: Option<&[u8]>) -> Option<Seq<u8>> {
    match o {
        Some(s) => Some(s@),
        None => None,
    }
}

/// What a connection makes of the handshake's outcome: with no negotiated
/// application protocol it fails with `TlsFail` and sends the
/// no-application-protocol alert; otherwise it takes the peer's transport
/// parameters as `decode_params` reads them, and refuses them with
/// `InvalidTransportParam` when the original destination connection ID
/// they carry is not the one the connection knows.
pub open spec fn peer_params_outcome(
    alpn: Seq<u8>,
    raw: Seq<u8>,
    is_server: bool,
    odcid: Option<Seq<u8>>,
) -> Result<TransportParamsModel, (Error, Option<u64>)> {
    if alpn.len() == 0 {
        Err((Error::TlsFail, Some(NO_APPLICATION_PROTOCOL)))
    } else {
        match decode_params(raw, is_server) {
            Err(e) => Err((e, None)),
            Ok(tp) => if tp.original_connection_id == odcid {
                Ok(tp)
            } else {
                Err((Error::InvalidTransportParam, None))
            },
        }
    }
}

/// Checks the outcome of a TLS handshake step that completed: `alpn` is
/// the negotiated application protocol (empty when none was), `raw` the
/// peer's transport parameters, `odcid` the original destination
/// connection ID the connection expects to see in them.
///
/// On an error the second value is the alert to send, if any.
pub fn accept_peer_params(alpn: &[u8], raw: &[u8], is_server: bool, odcid: Option<&[u8]>) -> (r:
    Result<TransportParams, (Error, Option<u64>)>)
    ensures
        match peer_params_outcome(alpn@, raw@, is_server, slice_view(odcid)) {
            Ok(tp) => r is Ok && r->Ok_0@ == tp,
            Err(e) => r == Err::<TransportParams, (Error, Option<u64>)>(e),
        },
{
    if alpn.len() == 0 {
        return Err((Error::TlsFail, Some(NO_APPLICATION_PROTOCOL)));
    }
    let tp = match TransportParams::decode(raw, is_server) {
        Ok(tp) => tp,
        Err(e) => {
            return Err((e, None));
        },
    };
    let same = match &tp.original_connection_id {
        Some(a) => match odcid {
            Some(b) => bytes_equal(a.as_slice(), b),
            None => false,
        },
        None => odcid.is_none(),
    };
    if same {
        Ok(tp)
    } else {
        Err((Error::InvalidTransportParam, None))
    }
}

/// Whether `v` is the highest version in `versions` that is supported.
pub open spec fn is_highest_supported(versions: Seq<u32>, v: u32) -> bool {
    &&& is_supported_version(v)
    &&& versions.contains(v)
    &&& forall|i: int|
        0 <= i < versions.len() && is_supported_version(#[trigger] versions[i]) ==> versions[i]
            <= v
}

/// Whether `versions` holds a supported version.
pub open spec fn offers_supported(versions: Seq<u32>) -> bool {
    exists|i: int| 0 <= i < versions.len() && is_supported_version(#[trigger] versions[i])
}

/// The highest supported version among `versions`, or `UnknownVersion`
/// when none of them is supported.
pub fn highest_supported_version(versions: &[u32]) -> (r: Result<u32, Error>)
    ensures
        r is Ok <==> offers_supported(versions@),
        r is Ok ==> is_highest_supported(versions@, r->Ok_0),
        r is Err ==> r == Err::<u32, Error>(Error::UnknownVersion),
{
    let mut best: Option<u32> = None;
    let mut i: usize = 0;
    while i < versions.len()
        invariant
            i <= versions@.len(),
            match best {
                Some(b) => is_highest_supported(versions@.subrange(0, i as int), b),
                None => !offers_supported(versions@.subrange(0, i as int)),
            },
        decreases versions@.len() - i,
    {
        let v = versions[i];
        let ghost pre = versions@.subrange(0, i as int);
        let ghost cur = versions@.subrange(0, i + 1);
        assert(cur =~= pre.push(v));
        if version_is_supported(v) {
            match best {
                Some(b) => {
                    if v > b {
                        best = Some(v);
                        assert(cur[i as int] == v);
                    } else {
                        assert(pre.contains(b));
                        let ghost k = choose|k: int| 0 <= k < pre.len() && pre[k] == b;
                        assert(cur[k] == b);
                    }
                },
                None => {
                    best = Some(v);
                    assert(cur[i as int] == v);
                },
            }
        } else {
            match best {
                Some(b) => {
                    assert(pre.contains(b));
                    let ghost k = choose|k: int| 0 <= k < pre.len() && pre[k] == b;
                    assert(cur[k] == b);
                },
                None => {
                    assert(!offers_supported(cur)) by {
                        if offers_supported(cur) {
                            let k = choose|k: int|
                                0 <= k < cur.len() && is_supported_version(#[trigger] cur[k]);
                            assert(pre[k] == cur[k]);
                        }
                    }
                },
            }
        }
        i = i + 1;
    }
    assert(versions@.subrange(0, versions@.len() as int) =~= versions@);
    match best {
        Some(b) => {
            assert(versions@.contains(b));
            let ghost k = choose|k: int| 0 <= k < versions@.len() && versions@[k] == b;
            assert(is_supported_version(versions@[k]));
            Ok(b)
        },
        None => Err(Error::UnknownVersion),
    }
}

/// What a client makes of a version negotiation packet: it ignores one
/// after an earlier negotiation, or one whose connection IDs are not its
/// own swapped (`Done`); it refuses one without a version list
/// (`InvalidPacket`); otherwise it moves to the highest supported version
/// offered, or fails with `UnknownVersion` when none is.
pub open spec fn version_negotiation_outcome(
    did_version_negotiation: bool,
    hdr_dcid: Seq<u8>,
    hdr_scid: Seq<u8>,
    scid: Seq<u8>,
    dcid: Seq<u8>,
    versions: Option<Seq<u32>>,
) -> Result<(), Error> {
    if did_version_negotiation || hdr_dcid != scid || hdr_scid != dcid {
        Err(Error::Done)
    } else {
        match versions {
            None => Err(Error::InvalidPacket),
            Some(vs) => if offers_supported(vs) {
                Ok(())
            } else {
                Err(Error::UnknownVersion)
            },
        }
    }
}

/// A version list, if any, as a sequence.
pub open spec fn versions_view(o: Option<&[u32]>) -> Option<Seq<u32>> {
    match o {
        Some(s) => Some(s@),
        None => None,
    }
}

/// Handles a version negotiation packet received by a client whose own
/// connection IDs are `scid` and `dcid`; the packet's are `hdr_dcid` and
/// `hdr_scid`, and `versions` its version list. Returns the version to
/// move to.
pub fn select_version(
    did_version_negotiation: bool,
    hdr_dcid: &[u8],
    hdr_scid: &[u8],
    scid: &[u8],
    dcid: &[u8],
    versions: Option<&[u32]>,
) -> (r: Result<u32, Error>)
    ensures
        match version_negotiation_outcome(
            did_version_negotiation,
            hdr_dcid@,
            hdr_scid@,
            scid@,
            dcid@,
            versions_view(versions),
        ) {
            Ok(_) => r is Ok && is_highest_supported(versions.unwrap()@, r->Ok_0),
            Err(e) => r == Err::<u32, Error>(e),
        },
{
    if did_version_negotiation {
        return Err(Error::Done);
    }
    if !bytes_equal(hdr_dcid, scid) {
        return Err(Error::Done);
    }
    if !bytes_equal(hdr_scid, dcid) {
        return Err(Error::Done);
    }
    match versions {
        None => Err(Error::InvalidPacket),
        Some(vs) => highest_supported_version(vs),
    }
}

/// The packet number space in which a connection sends next.
///
/// After an error it sends at the level TLS writes at, but in the
/// Handshake space instead of the application one while the handshake is
/// not complete. Otherwise it takes the first space that is ready to send,
/// has lost frames or owes a probe, passing over the application space
/// until the handshake is complete; then the application space when the
/// handshake is complete and stream or flow control data is pending; else
/// there is nothing to send.
pub open spec fn write_epoch_outcome(
    error_set: bool,
    level: Level,
    established: bool,
    ready: Seq<bool>,
    lost: Seq<bool>,
    probes: Seq<bool>,
    app_pending: bool,
) -> Result<usize, Error> {
    let wants = |e: int| (e != EPOCH_APPLICATION || established) && (ready[e] || lost[e] || probes[e]);
    if error_set {
        match level {
            Level::Handshake => Ok(EPOCH_HANDSHAKE),
            Level::OneRTT => if established {
                Ok(EPOCH_APPLICATION)
            } else {
                Ok(EPOCH_HANDSHAKE)
            },
            _ => Ok(EPOCH_INITIAL),
        }
    } else if wants(0) {
        Ok(EPOCH_INITIAL)
    } else if wants(1) {
        Ok(EPOCH_HANDSHAKE)
    } else if wants(2) {
        Ok(EPOCH_APPLICATION)
    } else if established && app_pending {
        Ok(EPOCH_APPLICATION)
    } else {
        Err(Error::Done)
    }
}

/// The order in which a connection picks the space to send in, over all
/// states: after an error the Initial level sends in the Initial space,
/// the Handshake level in the Handshake space, and the 1-RTT level in the
/// application space once the handshake is complete, in the Handshake
/// space before. Without an error, an Initial space with something to
/// send (ready, lost frames or a probe owed) comes first; then a Handshake
/// space with something to send, whether or not the handshake is
/// complete; the application space is chosen only once the handshake is
/// complete, when it has something to send or data is pending; and
/// otherwise there is nothing to send.
pub proof fn lemma_write_epoch_order(
    error_set: bool,
    level: Level,
    established: bool,
    ready: Seq<bool>,
    lost: Seq<bool>,
    probes: Seq<bool>,
    app_pending: bool,
)
    requires
        ready.len() == 3,
        lost.len() == 3,
        probes.len() == 3,
    ensures
        ({
            let r = write_epoch_outcome(
                error_set,
                level,
                established,
                ready,
                lost,
                probes,
                app_pending,
            );
            let wants_initial = ready[0] || lost[0] || probes[0];
            let wants_handshake = ready[1] || lost[1] || probes[1];
            let wants_application = ready[2] || lost[2] || probes[2];
            &&& error_set && level == Level::Initial ==> r == Ok::<usize, Error>(0)
            &&& error_set && level == Level::Handshake ==> r == Ok::<usize, Error>(1)
            &&& error_set && level == Level::OneRTT && established ==> r == Ok::<usize, Error>(2)
            &&& error_set && level == Level::OneRTT && !established ==> r == Ok::<usize, Error>(1)
            &&& !error_set && wants_initial ==> r == Ok::<usize, Error>(0)
            &&& !error_set && !wants_initial && wants_handshake ==> r == Ok::<usize, Error>(1)
            &&& !error_set && !wants_initial && !wants_handshake && established && (
            wants_application || app_pending) ==> r == Ok::<usize, Error>(2)
            &&& !error_set && !wants_initial && !wants_handshake && !(established && (
            wants_application || app_pending)) ==> r == Err::<usize, Error>(Error::Done)
        }),
{
}

/// Selects the packet number space for outgoing packets. `ready`, `lost`
/// and `probes` say, for each space, whether it is ready to send, has lost
/// frames, and owes probe packets; `app_pending` whether flow control
/// updates or stream data wait to be sent.
pub fn select_write_epoch(
    error_set: bool,
    level: Level,
    established: bool,
    ready: [bool; 3],
    lost: [bool; 3],
    probes: [bool; 3],
    app_pending: bool,
) -> (r: Result<usize, Error>)
    requires
        error_set ==> level != Level::ZeroRTT,
    ensures
        r == write_epoch_outcome(
            error_set,
            level,
            established,
            ready@,
            lost@,
            probes@,
            app_pending,
        ),
{
    if error_set {
        let epoch = match level {
            Level::Initial => EPOCH_INITIAL,
            Level::ZeroRTT => EPOCH_INITIAL,
            Level::Handshake => EPOCH_HANDSHAKE,
            Level::OneRTT => EPOCH_APPLICATION,
        };
        if epoch == EPOCH_APPLICATION && !established {
            return Ok(EPOCH_HANDSHAKE);
        }
        return Ok(epoch);
    }
    let mut epoch: usize = 0;
    while epoch < 3
        invariant
            epoch <= 3,
            ready@.len() == 3,
            lost@.len() == 3,
            probes@.len() == 3,
            !error_set,
            forall|e: int|
                0 <= e < epoch ==> !((e != EPOCH_APPLICATION || established) && (ready@[e]
                    || lost@[e] || probes@[e])),
        decreases 3 - epoch,
    {
        if epoch == EPOCH_APPLICATION && !established {
            epoch = epoch + 1;
            continue;
        }
        if ready[epoch] || lost[epoch] || probes[epoch] {
            return Ok(epoch);
        }
        epoch = epoch + 1;
    }
    if established && app_pending {
        return Ok(EPOCH_APPLICATION);
    }
    Err(Error::Done)
}

/// A server's sending credit after it received `received` bytes: while
/// the client's address is not verified, each byte received lets it send
/// `MAX_AMPLIFICATION_FACTOR` more.
pub open spec fn credit_after_receive(max_send_bytes: int, verified_peer_address: bool, received: int) -> int {
    if verified_peer_address {
        max_send_bytes
    } else {
        max_send_bytes + received * MAX_AMPLIFICATION_FACTOR
    }
}

/// The room left in a packet once the sending credit is taken into
/// account: a server with an unverified client sends at most its credit.
pub open spec fn send_room(left: int, verified_peer_address: bool, is_server: bool, max_send_bytes: int) -> int {
    if !verified_peer_address && is_server && max_send_bytes < left {
        max_send_bytes
    } else {
        left
    }
}

/// The sending credit after `written` bytes went out; it does not go below
/// zero.
pub open spec fn credit_after_send(max_send_bytes: int, written: int) -> int {
    if written <= max_send_bytes {
        max_send_bytes - written
    } else {
        0
    }
}

/// Adds the credit that `received` bytes from the peer bring.
pub fn amplification_credit(max_send_bytes: usize, verified_peer_address: bool, received: usize) -> (r:
    usize)
    requires
        !verified_peer_address ==> max_send_bytes + received * MAX_AMPLIFICATION_FACTOR
            <= usize::MAX,
    ensures
        r == credit_after_receive(max_send_bytes as int, verified_peer_address, received as int),
{
    if !verified_peer_address {
        max_send_bytes + received * MAX_AMPLIFICATION_FACTOR
    } else {
        max_send_bytes
    }
}

/// Limits the room `left` in a packet by the sending credit.
pub fn amplification_limit(left: usize, verified_peer_address: bool, is_server: bool, max_send_bytes: usize) -> (r: usize)
    ensures
        r == send_room(left as int, verified_peer_address, is_server, max_send_bytes as int),
{
    if !verified_peer_address && is_server && max_send_bytes < left {
        max_send_bytes
    } else {
        left
    }
}

/// Takes the `written` bytes of a packet sent off the sending credit.
pub fn amplification_debit(max_send_bytes: usize, written: usize) -> (r: usize)
    ensures
        r == credit_after_send(max_send_bytes as int, written as int),
{
    max_send_bytes.saturating_sub(written)
}

/// A server that has received `received` bytes and sent `sent` from an
/// unverified client, with the credit that this leaves, and that sends a
/// packet within the room the credit allows, keeps its credit equal to
/// three times what it received less what it sent, so never sends more
/// than three times what it received.
pub proof fn lemma_amplification_bound(received: int, sent: int, left: int, written: int)
    requires
        0 <= sent <= received * MAX_AMPLIFICATION_FACTOR,
        0 <= written <= send_room(
            left,
            false,
            true,
            received * MAX_AMPLIFICATION_FACTOR - sent,
        ),
    ensures
        MAX_AMPLIFICATION_FACTOR == 3,
        credit_after_send(received * MAX_AMPLIFICATION_FACTOR - sent, written) == received
            * MAX_AMPLIFICATION_FACTOR - (sent + written),
        sent + written <= received * MAX_AMPLIFICATION_FACTOR,
{
}

/// Receiving bytes from an unverified client raises the credit by three
/// times their number, so the credit stays three times what was received
/// less what was sent.
pub proof fn lemma_amplification_credit(received: int, sent: int, more: int)
    requires
        0 <= more,
    ensures
        credit_after_receive(received * MAX_AMPLIFICATION_FACTOR - sent, false, more) == (
        received + more) * MAX_AMPLIFICATION_FACTOR - sent,
{
}

} // verus!
