//! QUIC transport parameters and their wire encoding.

use vstd::prelude::*;

use crate::error::Error;
use crate::octets::{
    lemma_u16_roundtrip, lemma_varint_roundtrip, be16, get_u16, get_varint, parse_varint, put_bytes, put_u16, put_varint, u16_be, varint_bytes,
    varint_len, varint_size, MAX_VARINT,
};

verus! {

/// The transport parameters that an endpoint advertises to its peer.
#[derive(Clone, Debug, PartialEq, Eq)]
pub struct TransportParams {
    pub original_connection_id: Option<Vec<u8>>,
    pub max_idle_timeout: u64,
    pub stateless_reset_token: Option<Vec<u8>>,
    pub max_packet_size: u64,
    pub initial_max_data: u64,
    pub initial_max_stream_data_bidi_local: u64,
    pub initial_max_stream_data_bidi_remote: u64,
    pub initial_max_stream_data_uni: u64,
    pub initial_max_streams_bidi: u64,
    pub initial_max_streams_uni: u64,
    pub ack_delay_exponent: u64,
    pub max_ack_delay: u64,
    pub disable_active_migration: bool,
    pub active_conn_id_limit: u64,
}

/// The transport parameters as mathematical values: the byte strings are
/// sequences.
#[verifier::ext_equal]
pub struct TransportParamsModel {
    pub original_connection_id: Option<Seq<u8>>,
    pub max_idle_timeout: u64,
    pub stateless_reset_token: Option<Seq<u8>>,
    pub max_packet_size: u64,
    pub initial_max_data: u64,
    pub initial_max_stream_data_bidi_local: u64,
    pub initial_max_stream_data_bidi_remote: u64,
    pub initial_max_stream_data_uni: u64,
    pub initial_max_streams_bidi: u64,
    pub initial_max_streams_uni: u64,
    pub ack_delay_exponent: u64,
    pub max_ack_delay: u64,
    pub disable_active_migration: bool,
    pub active_conn_id_limit: u64,
}

pub open spec fn bytes_view(o: Option<Vec<u8>>) -> Option<Seq<u8>> {
    match o {
        Some(v) => Some(v@),
        None => None,
    }
}

impl View for TransportParams {
    type V = TransportParamsModel;

    open spec fn view(&self) -> TransportParamsModel {
        TransportParamsModel {
            original_connection_id: bytes_view(self.original_connection_id),
            max_idle_timeout: self.max_idle_timeout,
            stateless_reset_token: bytes_view(self.stateless_reset_token),
            max_packet_size: self.max_packet_size,
            initial_max_data: self.initial_max_data,
            initial_max_stream_data_bidi_local: self.initial_max_stream_data_bidi_local,
            initial_max_stream_data_bidi_remote: self.initial_max_stream_data_bidi_remote,
            initial_max_stream_data_uni: self.initial_max_stream_data_uni,
            initial_max_streams_bidi: self.initial_max_streams_bidi,
            initial_max_streams_uni: self.initial_max_streams_uni,
            ack_delay_exponent: self.ack_delay_exponent,
            max_ack_delay: self.max_ack_delay,
            disable_active_migration: self.disable_active_migration,
            active_conn_id_limit: self.active_conn_id_limit,
        }
    }
}

/// The parameters that an endpoint assumes when its peer sends none.
pub open spec fn default_params() -> TransportParamsModel {
    TransportParamsModel {
        original_connection_id: None,
        max_idle_timeout: 0,
        stateless_reset_token: None,
        max_packet_size: 65527,
        initial_max_data: 0,
        initial_max_stream_data_bidi_local: 0,
        initial_max_stream_data_bidi_remote: 0,
        initial_max_stream_data_uni: 0,
        initial_max_streams_bidi: 0,
        initial_max_streams_uni: 0,
        ack_delay_exponent: 3,
        max_ack_delay: 25,
        disable_active_migration: false,
        active_conn_id_limit: 0,
    }
}

impl Default for TransportParams {
    fn default() -> (tp: TransportParams)
        ensures
            tp@ == default_params(),
    {
        TransportParams {
            original_connection_id: None,
            max_idle_timeout: 0,
            stateless_reset_token: None,
            max_packet_size: 65527,
            initial_max_data: 0,
            initial_max_stream_data_bidi_local: 0,
            initial_max_stream_data_bidi_remote: 0,
            initial_max_stream_data_uni: 0,
            initial_max_streams_bidi: 0,
            initial_max_streams_uni: 0,
            ack_delay_exponent: 3,
            max_ack_delay: 25,
            disable_active_migration: false,
            active_conn_id_limit: 0,
        }
    }
}

/// The largest stream count a peer may announce.
pub open spec fn max_stream_count() -> u64 {
    0x1000_0000_0000_0000
}

/// The effect of one received parameter with identifier `id` and value
/// bytes `val` on the parameters `tp` decoded so far. A server refuses the
/// parameters that only a server may send.
pub open spec fn apply_param(
    tp: TransportParamsModel,
    id: u16,
    val: Seq<u8>,
    is_server: bool,
) -> Result<TransportParamsModel, Error> {
    if id == 0x0000 {
        if is_server {
            Err(Error::InvalidTransportParam)
        } else {
            Ok(TransportParamsModel { original_connection_id: Some(val), ..tp })
        }
    } else if id == 0x0002 {
        if is_server {
            Err(Error::InvalidTransportParam)
        } else if val.len() < 16 {
            Err(Error::BufferTooShort)
        } else {
            Ok(TransportParamsModel { stateless_reset_token: Some(val.take(16)), ..tp })
        }
    } else if id == 0x000c {
        Ok(TransportParamsModel { disable_active_migration: true, ..tp })
    } else if id == 0x000d {
        if is_server {
            Err(Error::InvalidTransportParam)
        } else {
            Ok(tp)
        }
    } else if id == 0x0001 || (0x0003 <= id <= 0x000b) || id == 0x000e {
        match parse_varint(val) {
            None => Err(Error::BufferTooShort),
            Some((v, _)) => apply_varint_param(tp, id, v),
        }
    } else {
        Ok(tp)
    }
}

/// The effect of a parameter whose value is the integer `v`.
pub open spec fn apply_varint_param(tp: TransportParamsModel, id: u16, v: u64) -> Result<
    TransportParamsModel,
    Error,
> {
    if id == 0x0001 {
        Ok(TransportParamsModel { max_idle_timeout: v, ..tp })
    } else if id == 0x0003 {
        if v < 1200 {
            Err(Error::InvalidTransportParam)
        } else {
            Ok(TransportParamsModel { max_packet_size: v, ..tp })
        }
    } else if id == 0x0004 {
        Ok(TransportParamsModel { initial_max_data: v, ..tp })
    } else if id == 0x0005 {
        Ok(TransportParamsModel { initial_max_stream_data_bidi_local: v, ..tp })
    } else if id == 0x0006 {
        Ok(TransportParamsModel { initial_max_stream_data_bidi_remote: v, ..tp })
    } else if id == 0x0007 {
        Ok(TransportParamsModel { initial_max_stream_data_uni: v, ..tp })
    } else if id == 0x0008 {
        if v > max_stream_count() {
            Err(Error::StreamLimit)
        } else {
            Ok(TransportParamsModel { initial_max_streams_bidi: v, ..tp })
        }
    } else if id == 0x0009 {
        if v > max_stream_count() {
            Err(Error::StreamLimit)
        } else {
            Ok(TransportParamsModel { initial_max_streams_uni: v, ..tp })
        }
    } else if id == 0x000a {
        if v > 20 {
            Err(Error::InvalidTransportParam)
        } else {
            Ok(TransportParamsModel { ack_delay_exponent: v, ..tp })
        }
    } else if id == 0x000b {
        if v >= 0x4000 {
            Err(Error::InvalidTransportParam)
        } else {
            Ok(TransportParamsModel { max_ack_delay: v, ..tp })
        }
    } else {
        Ok(TransportParamsModel { active_conn_id_limit: v, ..tp })
    }
}

/// Decodes the list of parameters `s` (each a 16-bit identifier, a 16-bit
/// length and that many bytes of value) on top of `tp`.
pub open spec fn decode_entries(s: Seq<u8>, is_server: bool, tp: TransportParamsModel) -> Result<
    TransportParamsModel,
    Error,
>
    decreases s.len(),
{
    if s.len() == 0 {
        Ok(tp)
    } else if s.len() < 4 {
        Err(Error::BufferTooShort)
    } else {
        let id = be16(s[0], s[1]);
        let n = be16(s[2], s[3]) as int;
        if n > s.len() - 4 {
            Err(Error::BufferTooShort)
        } else {
            match apply_param(tp, id, s.subrange(4, 4 + n), is_server) {
                Ok(tp2) => decode_entries(s.subrange(4 + n, s.len() as int), is_server, tp2),
                Err(e) => Err(e),
            }
        }
    }
}

/// Decodes transport parameters: a 16-bit length, then that many bytes of
/// parameters. Bytes after them are ignored.
pub open spec fn decode_params(buf: Seq<u8>, is_server: bool) -> Result<
    TransportParamsModel,
    Error,
> {
    if buf.len() < 2 {
        Err(Error::BufferTooShort)
    } else {
        let n = be16(buf[0], buf[1]) as int;
        if n > buf.len() - 2 {
            Err(Error::BufferTooShort)
        } else {
            decode_entries(buf.subrange(2, 2 + n), is_server, default_params())
        }
    }
}

/// Copies `buf[start..end]` into a new vector.
fn copy_range(buf: &[u8], start: usize, end: usize) -> (v: Vec<u8>)
    requires
        start <= end <= buf@.len(),
    ensures
        v@ == buf@.subrange(start as int, end as int),
{
    vstd::slice::slice_to_vec(vstd::slice::slice_subrange(buf, start, end))
}

impl TransportParams {
    /// Applies the parameter `id`, whose value is `buf[start..end]`.
    fn apply(&mut self, id: u16, buf: &[u8], start: usize, end: usize, is_server: bool) -> (res:
        Result<(), Error>)
        requires
            start <= end <= buf@.len(),
        ensures
            match apply_param(old(self)@, id, buf@.subrange(start as int, end as int), is_server) {
                Ok(tp) => res is Ok && final(self)@ == tp,
                Err(e) => res == Err::<(), Error>(e),
            },
    {
        let ghost val = buf@.subrange(start as int, end as int);
        if id == 0x0000 {
            if is_server {
                return Err(Error::InvalidTransportParam);
            }
            self.original_connection_id = Some(copy_range(buf, start, end));
            return Ok(());
        }
        if id == 0x0002 {
            if is_server {
                return Err(Error::InvalidTransportParam);
            }
            if end - start < 16 {
                return Err(Error::BufferTooShort);
            }
            let token = copy_range(buf, start, start + 16);
            assert(token@ =~= val.take(16));
            self.stateless_reset_token = Some(token);
            return Ok(());
        }
        if id == 0x000c {
            self.disable_active_migration = true;
            return Ok(());
        }
        if id == 0x000d {
            if is_server {
                return Err(Error::InvalidTransportParam);
            }
            return Ok(());
        }
        if !(id == 0x0001 || (0x0003 <= id && id <= 0x000b) || id == 0x000e) {
            return Ok(());
        }
        let (v, _) = get_varint(buf, start, end)?;
        if id == 0x0001 {
            self.max_idle_timeout = v;
        } else if id == 0x0003 {
            if v < 1200 {
                return Err(Error::InvalidTransportParam);
            }
            self.max_packet_size = v;
        } else if id == 0x0004 {
            self.initial_max_data = v;
        } else if id == 0x0005 {
            self.initial_max_stream_data_bidi_local = v;
        } else if id == 0x0006 {
            self.initial_max_stream_data_bidi_remote = v;
        } else if id == 0x0007 {
            self.initial_max_stream_data_uni = v;
        } else if id == 0x0008 {
            if v > 0x1000_0000_0000_0000 {
                return Err(Error::StreamLimit);
            }
            self.initial_max_streams_bidi = v;
        } else if id == 0x0009 {
            if v > 0x1000_0000_0000_0000 {
                return Err(Error::StreamLimit);
            }
            self.initial_max_streams_uni = v;
        } else if id == 0x000a {
            if v > 20 {
                return Err(Error::InvalidTransportParam);
            }
            self.ack_delay_exponent = v;
        } else if id == 0x000b {
            if v >= 0x4000 {
                return Err(Error::InvalidTransportParam);
            }
            self.max_ack_delay = v;
        } else {
            self.active_conn_id_limit = v;
        }
        Ok(())
    }

    /// Decodes the transport parameters that the peer sent. `is_server`
    /// tells whether this endpoint is the server.
    pub fn decode(buf: &[u8], is_server: bool) -> (res: Result<TransportParams, Error>)
        ensures
            match decode_params(buf@, is_server) {
                Ok(tp) => res is Ok && res->Ok_0@ == tp,
                Err(e) => res == Err::<TransportParams, Error>(e),
            },
    {
        if buf.len() < 2 {
            return Err(Error::BufferTooShort);
        }
        let n = get_u16(buf, 0) as usize;
        if n > buf.len() - 2 {
            return Err(Error::BufferTooShort);
        }
        let end = 2 + n;
        let ghost whole = buf@.subrange(2, end as int);
        assert(decode_params(buf@, is_server) == decode_entries(whole, is_server, default_params()));
        let mut tp = TransportParams::default();
        let mut off: usize = 2;
        while off < end
            invariant
                2 <= off <= end <= buf@.len(),
                whole == buf@.subrange(2, end as int),
                decode_params(buf@, is_server) == decode_entries(whole, is_server, default_params()),
                decode_entries(whole, is_server, default_params()) == decode_entries(
                    buf@.subrange(off as int, end as int),
                    is_server,
                    tp@,
                ),
            decreases end - off,
        {
            let ghost s = buf@.subrange(off as int, end as int);
            if end - off < 4 {
                return Err(Error::BufferTooShort);
            }
            let id = get_u16(buf, off);
            let len = get_u16(buf, off + 2) as usize;
            assert(s[0] == buf@[off as int] && s[1] == buf@[off + 1] && s[2] == buf@[off + 2]
                && s[3] == buf@[off + 3]);
            if len > end - off - 4 {
                return Err(Error::BufferTooShort);
            }
            let vstart = off + 4;
            let vend = vstart + len;
            assert(s.subrange(4, 4 + len as int) =~= buf@.subrange(vstart as int, vend as int));
            assert(s.subrange(4 + len as int, s.len() as int) =~= buf@.subrange(
                vend as int,
                end as int,
            ));
            tp.apply(id, buf, vstart, vend, is_server)?;
            off = vend;
        }
        assert(buf@.subrange(off as int, end as int).len() == 0);
        Ok(tp)
    }
}


/// The room that the encoded parameters may take.
pub const PARAMS_CAP: usize = 128;

/// One transport parameter as it is written on the wire.
pub enum Param<'a> {
    /// A parameter whose value is a variable-length integer.
    Varint(u16, u64),
    /// A parameter whose value is a byte string.
    Bytes(u16, &'a [u8]),
}

/// A transport parameter as a mathematical value.
pub enum ParamModel {
    Varint(u16, u64),
    Bytes(u16, Seq<u8>),
}

pub open spec fn param_model(p: Param) -> ParamModel {
    match p {
        Param::Varint(id, v) => ParamModel::Varint(id, v),
        Param::Bytes(id, b) => ParamModel::Bytes(id, b@),
    }
}

/// The wire form of one parameter: its identifier, the length of its value
/// and its value, the lengths in 16 big-endian bits.
pub open spec fn param_bytes(p: ParamModel) -> Seq<u8> {
    match p {
        ParamModel::Varint(id, v) => u16_be(id) + u16_be(varint_size(v) as u16) + varint_bytes(v),
        ParamModel::Bytes(id, b) => u16_be(id) + u16_be(b.len() as u16) + b,
    }
}

/// The wire form of a list of parameters, one after the other.
pub open spec fn params_bytes(es: Seq<ParamModel>) -> Seq<u8>
    decreases es.len(),
{
    if es.len() == 0 {
        Seq::empty()
    } else {
        params_bytes(es.drop_last()) + param_bytes(es.last())
    }
}

/// A parameter whose value is too large for a variable-length integer.
pub open spec fn param_too_large(p: ParamModel) -> bool {
    p matches ParamModel::Varint(_, v) && v > MAX_VARINT
}

/// Encoding `es` reaches a value too large for a variable-length integer
/// while the parameters before it, and its identifier, still fit.
pub open spec fn encode_panics(es: Seq<ParamModel>) -> bool {
    exists|i: int|
        0 <= i < es.len() && param_too_large(#[trigger] es[i]) && params_bytes(es.take(i)).len()
            + 2 <= PARAMS_CAP
}

/// The bytes held by `o`, or none.
pub open spec fn bytes_or_empty(o: Option<Seq<u8>>) -> Seq<u8> {
    match o {
        Some(b) => b,
        None => Seq::empty(),
    }
}

#[verifier::opaque]
pub open spec fn push_if(s: Seq<ParamModel>, c: bool, p: ParamModel) -> Seq<ParamModel> {
    if c {
        s.push(p)
    } else {
        s
    }
}

/// Whether the `i`-th parameter, in the order in which parameters are sent,
/// is sent: the ones that differ from zero, and the connection ID and
/// reset token only from a server.
pub open spec fn slot_sent(tp: TransportParamsModel, is_server: bool, i: int) -> bool {
    if i == 0 {
        is_server && tp.original_connection_id is Some
    } else if i == 1 {
        tp.max_idle_timeout != 0
    } else if i == 2 {
        is_server && tp.stateless_reset_token is Some
    } else if i == 3 {
        tp.max_packet_size != 0
    } else if i == 4 {
        tp.initial_max_data != 0
    } else if i == 5 {
        tp.initial_max_stream_data_bidi_local != 0
    } else if i == 6 {
        tp.initial_max_stream_data_bidi_remote != 0
    } else if i == 7 {
        tp.initial_max_stream_data_uni != 0
    } else if i == 8 {
        tp.initial_max_streams_bidi != 0
    } else if i == 9 {
        tp.initial_max_streams_uni != 0
    } else if i == 10 {
        tp.ack_delay_exponent != 0
    } else if i == 11 {
        tp.max_ack_delay != 0
    } else if i == 12 {
        tp.disable_active_migration
    } else {
        tp.active_conn_id_limit != 0
    }
}

/// The `i`-th parameter, in the order in which parameters are sent.
pub open spec fn slot_param(tp: TransportParamsModel, i: int) -> ParamModel {
    if i == 0 {
        ParamModel::Bytes(0x0000, bytes_or_empty(tp.original_connection_id))
    } else if i == 1 {
        ParamModel::Varint(0x0001, tp.max_idle_timeout)
    } else if i == 2 {
        ParamModel::Bytes(0x0002, bytes_or_empty(tp.stateless_reset_token))
    } else if i == 3 {
        ParamModel::Varint(0x0003, tp.max_packet_size)
    } else if i == 4 {
        ParamModel::Varint(0x0004, tp.initial_max_data)
    } else if i == 5 {
        ParamModel::Varint(0x0005, tp.initial_max_stream_data_bidi_local)
    } else if i == 6 {
        ParamModel::Varint(0x0006, tp.initial_max_stream_data_bidi_remote)
    } else if i == 7 {
        ParamModel::Varint(0x0007, tp.initial_max_stream_data_uni)
    } else if i == 8 {
        ParamModel::Varint(0x0008, tp.initial_max_streams_bidi)
    } else if i == 9 {
        ParamModel::Varint(0x0009, tp.initial_max_streams_uni)
    } else if i == 10 {
        ParamModel::Varint(0x000a, tp.ack_delay_exponent)
    } else if i == 11 {
        ParamModel::Varint(0x000b, tp.max_ack_delay)
    } else if i == 12 {
        ParamModel::Bytes(0x000c, Seq::empty())
    } else {
        ParamModel::Varint(0x000e, tp.active_conn_id_limit)
    }
}

/// The first `k` parameters that are sent, in order.
pub open spec fn list_upto(tp: TransportParamsModel, is_server: bool, k: int) -> Seq<ParamModel>
    decreases k,
{
    if k <= 0 {
        Seq::empty()
    } else {
        push_if(list_upto(tp, is_server, k - 1), slot_sent(tp, is_server, k - 1), slot_param(tp, k - 1))
    }
}

/// The parameters that are sent, in the order in which they are sent.
pub open spec fn param_list(tp: TransportParamsModel, is_server: bool) -> Seq<ParamModel> {
    list_upto(tp, is_server, 14)
}

/// The encoded transport parameters: the length of the parameters in 16
/// big-endian bits, then the parameters.
pub open spec fn encoded_params(tp: TransportParamsModel, is_server: bool) -> Seq<u8> {
    let p = params_bytes(param_list(tp, is_server));
    u16_be(p.len() as u16) + p
}

proof fn lemma_prefix_len(es: Seq<ParamModel>, j: int)
    requires
        0 <= j <= es.len(),
    ensures
        params_bytes(es.take(j)).len() <= params_bytes(es).len(),
    decreases es.len(),
{
    if j == es.len() {
        assert(es.take(j) =~= es);
    } else {
        assert(es.drop_last().take(j) =~= es.take(j));
        lemma_prefix_len(es.drop_last(), j);
    }
}

/// Appends the wire form of `p`, unless that would take the parameters past
/// `PARAMS_CAP` bytes.
fn put_param(params: &mut Vec<u8>, p: &Param) -> (res: Result<(), Error>)
    requires
        old(params)@.len() <= PARAMS_CAP,
        param_too_large(param_model(*p)) ==> old(params)@.len() + 2 > PARAMS_CAP,
    ensures
        match res {
            Ok(()) => final(params)@ == old(params)@ + param_bytes(param_model(*p))
                && final(params)@.len() <= PARAMS_CAP,
            Err(e) => e == Error::BufferTooShort && old(params)@.len() + param_bytes(
                param_model(*p),
            ).len() > PARAMS_CAP,
        },
{
    if params.len() + 2 > PARAMS_CAP {
        return Err(Error::BufferTooShort);
    }
    match p {
        Param::Varint(id, v) => {
            let n = varint_len(*v);
            if params.len() + 4 + n > PARAMS_CAP {
                return Err(Error::BufferTooShort);
            }
            put_u16(params, *id);
            put_u16(params, n as u16);
            put_varint(params, *v);
        },
        Param::Bytes(id, b) => {
            if params.len() + 4 > PARAMS_CAP || b.len() > PARAMS_CAP - 4 - params.len() {
                return Err(Error::BufferTooShort);
            }
            put_u16(params, *id);
            put_u16(params, b.len() as u16);
            put_bytes(params, b);
        },
    }
    Ok(())
}

/// The mathematical values of a list of parameters.
#[verifier::opaque]
pub open spec fn param_models(es: Seq<Param>) -> Seq<ParamModel> {
    es.map_values(|p: Param| param_model(p))
}

/// Appends `p` to `es` when `c` holds.
fn push_param_if<'a>(es: Vec<Param<'a>>, c: bool, p: Param<'a>) -> (res: Vec<Param<'a>>)
    ensures
        param_models(res@) === push_if(param_models(es@), c, param_model(p)),
{
    reveal(push_if);
    reveal(param_models);
    let mut res = es;
    if c {
        res.push(p);
        assert(param_models(res@) =~= param_models(es@).push(param_model(p)));
    }
    res
}

impl TransportParams {
    /// The first seven parameters that are sent, in order.
    fn param_list_head(&self, is_server: bool) -> (es: Vec<Param<'_>>)
        ensures
            param_models(es@) === list_upto(self@, is_server, 7),
    {
        let ghost t = self@;
        let mut es: Vec<Param> = Vec::new();
        assert(param_models(es@) =~= Seq::<ParamModel>::empty()) by {
            reveal(param_models);
        }
        assert(param_models(es@) === list_upto(t, is_server, 0));
        let odcid: &[u8] = match &self.original_connection_id {
            Some(v) => v.as_slice(),
            None => &[],
        };
        assert(odcid@ == bytes_or_empty(self@.original_connection_id));
        assert(self.original_connection_id.is_some() == self@.original_connection_id is Some);
        assert(self.stateless_reset_token.is_some() == self@.stateless_reset_token is Some);
        es = push_param_if(
            es,
            is_server && self.original_connection_id.is_some(),
            Param::Bytes(0x0000, odcid),
        );
        assert(param_models(es@) === list_upto(t, is_server, 1));
        es = push_param_if(
            es,
            self.max_idle_timeout != 0,
            Param::Varint(0x0001, self.max_idle_timeout),
        );
        assert(param_models(es@) === list_upto(t, is_server, 2));
        let token: &[u8] = match &self.stateless_reset_token {
            Some(v) => v.as_slice(),
            None => &[],
        };
        assert(token@ == bytes_or_empty(self@.stateless_reset_token));
        es = push_param_if(
            es,
            is_server && self.stateless_reset_token.is_some(),
            Param::Bytes(0x0002, token),
        );
        assert(param_models(es@) === list_upto(t, is_server, 3));
        es = push_param_if(es, self.max_packet_size != 0, Param::Varint(0x0003, self.max_packet_size));
        assert(param_models(es@) === list_upto(t, is_server, 4));
        es = push_param_if(
            es,
            self.initial_max_data != 0,
            Param::Varint(0x0004, self.initial_max_data),
        );
        assert(param_models(es@) === list_upto(t, is_server, 5));
        es = push_param_if(
            es,
            self.initial_max_stream_data_bidi_local != 0,
            Param::Varint(0x0005, self.initial_max_stream_data_bidi_local),
        );
        assert(param_models(es@) === list_upto(t, is_server, 6));
        es = push_param_if(
            es,
            self.initial_max_stream_data_bidi_remote != 0,
            Param::Varint(0x0006, self.initial_max_stream_data_bidi_remote),
        );
        assert(param_models(es@) === list_upto(t, is_server, 7));
        es
    }

    /// The parameters that are sent, in order.
    fn param_list(&self, is_server: bool) -> (es: Vec<Param<'_>>)
        ensures
            param_models(es@) === param_list(self@, is_server),
    {
        let ghost t = self@;
        let mut es = self.param_list_head(is_server);
        es = push_param_if(
            es,
            self.initial_max_stream_data_uni != 0,
            Param::Varint(0x0007, self.initial_max_stream_data_uni),
        );
        assert(param_models(es@) === list_upto(t, is_server, 8));
        es = push_param_if(
            es,
            self.initial_max_streams_bidi != 0,
            Param::Varint(0x0008, self.initial_max_streams_bidi),
        );
        assert(param_models(es@) === list_upto(t, is_server, 9));
        es = push_param_if(
            es,
            self.initial_max_streams_uni != 0,
            Param::Varint(0x0009, self.initial_max_streams_uni),
        );
        assert(param_models(es@) === list_upto(t, is_server, 10));
        es = push_param_if(
            es,
            self.ack_delay_exponent != 0,
            Param::Varint(0x000a, self.ack_delay_exponent),
        );
        assert(param_models(es@) === list_upto(t, is_server, 11));
        es = push_param_if(es, self.max_ack_delay != 0, Param::Varint(0x000b, self.max_ack_delay));
        assert(param_models(es@) === list_upto(t, is_server, 12));
        let empty: &[u8] = &[];
        assert(empty@ =~= Seq::<u8>::empty());
        es = push_param_if(es, self.disable_active_migration, Param::Bytes(0x000c, empty));
        assert(param_models(es@) === list_upto(t, is_server, 13));
        es = push_param_if(
            es,
            self.active_conn_id_limit != 0,
            Param::Varint(0x000e, self.active_conn_id_limit),
        );
        assert(param_models(es@) === list_upto(t, is_server, 14));
        es
    }

    /// Encodes the transport parameters `tp` into `out`, as sent by a server
    /// when `is_server` holds and by a client otherwise. Returns the number
    /// of bytes written, or `BufferTooShort` when the parameters take more
    /// than `PARAMS_CAP` bytes, leaving `out` as it was, or do not fit in
    /// `out`; then only their length, when `out` has room for it, has been
    /// written.
    pub fn encode(tp: &TransportParams, is_server: bool, out: &mut [u8]) -> (res: Result<
        usize,
        Error,
    >)
        requires
            !encode_panics(param_list(tp@, is_server)),
        ensures
            ({
                let p = params_bytes(param_list(tp@, is_server));
                match res {
                    Ok(n) => p.len() <= PARAMS_CAP && n == p.len() + 2 && n <= old(out)@.len()
                        && final(out)@ == encoded_params(tp@, is_server) + old(out)@.skip(
                        n as int,
                    ),
                    Err(e) => e == Error::BufferTooShort && (p.len() > PARAMS_CAP || old(
                        out,
                    )@.len() < p.len() + 2) && if p.len() <= PARAMS_CAP && old(out)@.len()
                        >= 2 {
                        final(out)@ == u16_be(p.len() as u16) + old(out)@.skip(2)
                    } else {
                        final(out)@ == old(out)@
                    },
                }
            }),
    {
        let ghost list = param_list(tp@, is_server);
        let es = tp.param_list(is_server);
        assert(es@.len() == list.len()) by {
            reveal(param_models);
        }
        assert forall|j: int| 0 <= j < es@.len() implies param_model(#[trigger] es@[j]) == list[j] by {
            reveal(param_models);
            assert(param_models(es@)[j] == param_model(es@[j]));
        }
        let mut params: Vec<u8> = Vec::new();
        let mut i: usize = 0;
        assert(list.take(0) =~= Seq::<ParamModel>::empty());
        while i < es.len()
            invariant
                i <= es@.len(),
                es@.len() == list.len(),
                param_models(es@) == list,
                list == param_list(tp@, is_server),
                forall|j: int| 0 <= j < es@.len() ==> param_model(#[trigger] es@[j]) == list[j],
                params@ == params_bytes(list.take(i as int)),
                params@.len() <= PARAMS_CAP,
                !encode_panics(list),
                out@ == old(out)@,
            decreases es@.len() - i,
        {
            assert(param_model(es@[i as int]) == list[i as int]);
            match put_param(&mut params, &es[i]) {
                Ok(()) => {},
                Err(e) => {
                    assert(list.take(i + 1).drop_last() =~= list.take(i as int));
                    proof { lemma_prefix_len(list, i + 1); }
                    return Err(e);
                },
            }
            assert(list.take(i + 1).drop_last() =~= list.take(i as int));
            i += 1;
        }
        assert(list.take(i as int) =~= list);
        let plen = params.len();
        if out.len() < 2 {
            return Err(Error::BufferTooShort);
        }
        let ghost enc = encoded_params(tp@, is_server);
        assert(enc =~= u16_be(plen as u16) + params@);
        out[0] = ((plen as u16) >> 8u16) as u8;
        out[1] = (plen as u16) as u8;
        if plen > out.len() - 2 {
            assert(out@ =~= u16_be(plen as u16) + old(out)@.skip(2));
            return Err(Error::BufferTooShort);
        }
        let mut j: usize = 0;
        while j < plen
            invariant
                j <= plen,
                plen == params@.len(),
                2 + plen <= usize::MAX,
                2 + plen <= out@.len(),
                out@.len() == old(out)@.len(),
                enc == u16_be(plen as u16) + params@,
                forall|k: int| 0 <= k < 2 + j ==> out@[k] == enc[k],
                forall|k: int| 2 + j <= k < out@.len() ==> out@[k] == old(out)@[k],
            decreases plen - j,
        {
            out[2 + j] = params[j];
            j += 1;
        }
        assert(out@ =~= enc + old(out)@.skip(2 + plen));
        Ok(2 + plen)
    }
}


/// The identifier of a parameter.
pub open spec fn param_id(p: ParamModel) -> u16 {
    match p {
        ParamModel::Varint(id, _) => id,
        ParamModel::Bytes(id, _) => id,
    }
}

/// The value bytes of a parameter.
pub open spec fn param_value(p: ParamModel) -> Seq<u8> {
    match p {
        ParamModel::Varint(_, v) => varint_bytes(v),
        ParamModel::Bytes(_, b) => b,
    }
}

/// Applies the parameters `es`, in order, on top of `tp`.
pub open spec fn apply_all(es: Seq<ParamModel>, is_server: bool, tp: TransportParamsModel) -> Result<
    TransportParamsModel,
    Error,
>
    decreases es.len(),
{
    if es.len() == 0 {
        Ok(tp)
    } else {
        match apply_all(es.drop_last(), is_server, tp) {
            Ok(tp2) => apply_param(tp2, param_id(es.last()), param_value(es.last()), is_server),
            Err(e) => Err(e),
        }
    }
}

/// Parameters that decode back to themselves: each holds a value that the
/// peer accepts and that differs from the default that the peer assumes
/// for an absent parameter, and only a server sends the connection ID and
/// the reset token.
pub open spec fn roundtrip_valid(tp: TransportParamsModel, is_server: bool) -> bool {
    &&& !is_server ==> tp.original_connection_id is None && tp.stateless_reset_token is None
    &&& tp.stateless_reset_token matches Some(t) ==> t.len() == 16
    &&& tp.max_idle_timeout <= MAX_VARINT
    &&& 1200 <= tp.max_packet_size <= MAX_VARINT
    &&& tp.initial_max_data <= MAX_VARINT
    &&& tp.initial_max_stream_data_bidi_local <= MAX_VARINT
    &&& tp.initial_max_stream_data_bidi_remote <= MAX_VARINT
    &&& tp.initial_max_stream_data_uni <= MAX_VARINT
    &&& tp.initial_max_streams_bidi <= max_stream_count()
    &&& tp.initial_max_streams_uni <= max_stream_count()
    &&& 1 <= tp.ack_delay_exponent <= 20
    &&& 1 <= tp.max_ack_delay < 0x4000
    &&& tp.active_conn_id_limit <= MAX_VARINT
}

proof fn lemma_param_bytes_shape(p: ParamModel)
    ensures
        param_value(p).len() < 0x1_0000 ==> param_bytes(p) == u16_be(param_id(p)) + u16_be(
            param_value(p).len() as u16,
        ) + param_value(p),
{
    match p {
        ParamModel::Varint(_, v) => {
            if v <= MAX_VARINT {
                lemma_varint_roundtrip(v, Seq::empty());
            }
        },
        ParamModel::Bytes(_, _) => {},
    }
}

proof fn lemma_decode_one(p: ParamModel, rest: Seq<u8>, is_server: bool, tp: TransportParamsModel)
    requires
        param_value(p).len() < 0x1_0000,
    ensures
        decode_entries(param_bytes(p) + rest, is_server, tp) == match apply_param(
            tp,
            param_id(p),
            param_value(p),
            is_server,
        ) {
            Ok(tp2) => decode_entries(rest, is_server, tp2),
            Err(e) => Err(e),
        },
{
    lemma_param_bytes_shape(p);
    let id = param_id(p);
    let val = param_value(p);
    let n = val.len();
    let s = param_bytes(p) + rest;
    lemma_u16_roundtrip(id);
    lemma_u16_roundtrip(n as u16);
    assert(s[0] == u16_be(id)[0] && s[1] == u16_be(id)[1]);
    assert(s[2] == u16_be(n as u16)[0] && s[3] == u16_be(n as u16)[1]);
    assert(s.subrange(4, 4 + n as int) =~= val);
    assert(s.subrange(4 + n as int, s.len() as int) =~= rest);
}

proof fn lemma_decode_all(es: Seq<ParamModel>, rest: Seq<u8>, is_server: bool, tp: TransportParamsModel)
    requires
        params_bytes(es).len() <= PARAMS_CAP,
    ensures
        decode_entries(params_bytes(es) + rest, is_server, tp) == match apply_all(
            es,
            is_server,
            tp,
        ) {
            Ok(tp2) => decode_entries(rest, is_server, tp2),
            Err(e) => Err(e),
        },
    decreases es.len(),
{
    if es.len() == 0 {
        assert(params_bytes(es) + rest =~= rest);
    } else {
        let dl = es.drop_last();
        let last = es.last();
        lemma_param_bytes_len(last);
        assert(params_bytes(es) + rest =~= params_bytes(dl) + (param_bytes(last) + rest));
        lemma_decode_all(dl, param_bytes(last) + rest, is_server, tp);
        match apply_all(dl, is_server, tp) {
            Ok(tp2) => {
                lemma_decode_one(last, rest, is_server, tp2);
            },
            Err(_) => {},
        }
    }
}

proof fn lemma_param_bytes_len(p: ParamModel)
    ensures
        param_bytes(p).len() >= param_value(p).len(),
{
    match p {
        ParamModel::Varint(_, v) => {
            if v <= MAX_VARINT {
                lemma_varint_roundtrip(v, Seq::empty());
            } else {
                assert(varint_bytes(v).len() == 8);
            }
        },
        ParamModel::Bytes(_, _) => {},
    }
}

proof fn lemma_apply_push_if(
    s: Seq<ParamModel>,
    c: bool,
    p: ParamModel,
    is_server: bool,
    tp: TransportParamsModel,
)
    ensures
        apply_all(push_if(s, c, p), is_server, tp) == if c {
            match apply_all(s, is_server, tp) {
                Ok(tp2) => apply_param(tp2, param_id(p), param_value(p), is_server),
                Err(e) => Err(e),
            }
        } else {
            apply_all(s, is_server, tp)
        },
{
    reveal(push_if);
    if c {
        assert(s.push(p).drop_last() =~= s);
    }
}

proof fn lemma_apply_varint(tp: TransportParamsModel, id: u16, v: u64, is_server: bool)
    requires
        v <= MAX_VARINT,
        id == 0x0001 || (0x0003 <= id <= 0x000b) || id == 0x000e,
    ensures
        apply_param(tp, id, varint_bytes(v), is_server) == apply_varint_param(tp, id, v),
{
    lemma_varint_roundtrip(v, Seq::empty());
    assert(varint_bytes(v) + Seq::<u8>::empty() =~= varint_bytes(v));
}

/// The parameters `tp` in their first `k` fields, in the order in which they
/// are sent, and the defaults in the others: what the decoder holds once it
/// has read the first `k` parameters of `tp`.
pub open spec fn params_upto(tp: TransportParamsModel, k: int) -> TransportParamsModel {
    let d = default_params();
    TransportParamsModel {
        original_connection_id: if k > 0 { tp.original_connection_id } else { d.original_connection_id },
        max_idle_timeout: if k > 1 { tp.max_idle_timeout } else { d.max_idle_timeout },
        stateless_reset_token: if k > 2 { tp.stateless_reset_token } else { d.stateless_reset_token },
        max_packet_size: if k > 3 { tp.max_packet_size } else { d.max_packet_size },
        initial_max_data: if k > 4 { tp.initial_max_data } else { d.initial_max_data },
        initial_max_stream_data_bidi_local: if k > 5 { tp.initial_max_stream_data_bidi_local } else { d.initial_max_stream_data_bidi_local },
        initial_max_stream_data_bidi_remote: if k > 6 { tp.initial_max_stream_data_bidi_remote } else { d.initial_max_stream_data_bidi_remote },
        initial_max_stream_data_uni: if k > 7 { tp.initial_max_stream_data_uni } else { d.initial_max_stream_data_uni },
        initial_max_streams_bidi: if k > 8 { tp.initial_max_streams_bidi } else { d.initial_max_streams_bidi },
        initial_max_streams_uni: if k > 9 { tp.initial_max_streams_uni } else { d.initial_max_streams_uni },
        ack_delay_exponent: if k > 10 { tp.ack_delay_exponent } else { d.ack_delay_exponent },
        max_ack_delay: if k > 11 { tp.max_ack_delay } else { d.max_ack_delay },
        disable_active_migration: if k > 12 { tp.disable_active_migration } else { d.disable_active_migration },
        active_conn_id_limit: if k > 13 { tp.active_conn_id_limit } else { d.active_conn_id_limit },
    }
}

/// Applying the `i`-th parameter of `tp`, when it is sent, to
/// `params_upto(tp, i)` gives `params_upto(tp, i + 1)`; when it is not sent,
/// the two are the same.
proof fn lemma_apply_slot(tp: TransportParamsModel, is_server: bool, i: int)
    requires
        roundtrip_valid(tp, is_server),
        0 <= i < 14,
    ensures
        if slot_sent(tp, is_server, i) {
            apply_param(
                params_upto(tp, i),
                param_id(slot_param(tp, i)),
                param_value(slot_param(tp, i)),
                !is_server,
            ) == Ok::<TransportParamsModel, Error>(params_upto(tp, i + 1))
        } else {
            params_upto(tp, i) == params_upto(tp, i + 1)
        },
{
    match slot_param(tp, i) {
        ParamModel::Varint(id, v) => {
            lemma_apply_varint(params_upto(tp, i), id, v, !is_server);
        },
        ParamModel::Bytes(_, _) => {
            if i == 2 && tp.stateless_reset_token is Some {
                let t = tp.stateless_reset_token.unwrap();
                assert(t.take(16) =~= t);
            }
        },
    }
    assert(params_upto(tp, i + 1) =~= params_upto(tp, i + 1));
}

/// Applying the first `k` parameters that `tp` sends to the defaults gives
/// `params_upto(tp, k)`.
proof fn lemma_apply_upto(tp: TransportParamsModel, is_server: bool, k: int)
    requires
        roundtrip_valid(tp, is_server),
        0 <= k <= 14,
    ensures
        apply_all(list_upto(tp, is_server, k), !is_server, default_params()) == Ok::<
            TransportParamsModel,
            Error,
        >(params_upto(tp, k)),
    decreases k,
{
    if k == 0 {
        assert(params_upto(tp, 0) =~= default_params());
    } else {
        lemma_apply_upto(tp, is_server, k - 1);
        lemma_apply_push_if(
            list_upto(tp, is_server, k - 1),
            slot_sent(tp, is_server, k - 1),
            slot_param(tp, k - 1),
            !is_server,
            default_params(),
        );
        lemma_apply_slot(tp, is_server, k - 1);
    }
}

/// Applying all the parameters that `tp` sends to the defaults gives `tp`.
proof fn lemma_apply_list(tp: TransportParamsModel, is_server: bool)
    requires
        roundtrip_valid(tp, is_server),
    ensures
        apply_all(param_list(tp, is_server), !is_server, default_params()) == Ok::<
            TransportParamsModel,
            Error,
        >(tp),
{
    lemma_apply_upto(tp, is_server, 14);
    assert(params_upto(tp, 14) =~= tp);
}

/// Encoding then decoding the transport parameters gives them back: what
/// one endpoint encodes, the peer decodes to the same parameters, whatever
/// bytes follow the encoding. This holds whenever the encoding fits in
/// `PARAMS_CAP` bytes and the parameters satisfy `roundtrip_valid`; their
/// encoding then never reaches a value too large to encode.
pub proof fn lemma_params_roundtrip(tp: TransportParamsModel, is_server: bool, rest: Seq<u8>)
    requires
        roundtrip_valid(tp, is_server),
        params_bytes(param_list(tp, is_server)).len() <= PARAMS_CAP,
    ensures
        !encode_panics(param_list(tp, is_server)),
        decode_params(encoded_params(tp, is_server) + rest, !is_server) == Ok::<
            TransportParamsModel,
            Error,
        >(tp),
{
    let es = param_list(tp, is_server);
    let p = params_bytes(es);
    lemma_no_large_varint(tp, is_server);
    let buf = encoded_params(tp, is_server) + rest;
    lemma_u16_roundtrip(p.len() as u16);
    assert(buf[0] == u16_be(p.len() as u16)[0] && buf[1] == u16_be(p.len() as u16)[1]);
    assert(buf.subrange(2, 2 + p.len() as int) =~= p + Seq::<u8>::empty());
    lemma_decode_all(es, Seq::empty(), !is_server, default_params());
    lemma_apply_list(tp, is_server);
}

/// No parameter in `es` is too large for a variable-length integer.
pub open spec fn no_large_varint(es: Seq<ParamModel>) -> bool {
    forall|i: int| 0 <= i < es.len() ==> !param_too_large(#[trigger] es[i])
}

proof fn lemma_push_if_small(s: Seq<ParamModel>, c: bool, p: ParamModel)
    requires
        no_large_varint(s),
        c ==> !param_too_large(p),
    ensures
        no_large_varint(push_if(s, c, p)),
{
    reveal(push_if);
    if c {
        assert forall|i: int| 0 <= i < s.push(p).len() implies !param_too_large(
            #[trigger] s.push(p)[i],
        ) by {
            if i < s.len() {
                assert(s.push(p)[i] == s[i]);
            }
        }
    }
}

proof fn lemma_no_large_upto(tp: TransportParamsModel, is_server: bool, k: int)
    requires
        roundtrip_valid(tp, is_server),
        0 <= k <= 14,
    ensures
        no_large_varint(list_upto(tp, is_server, k)),
    decreases k,
{
    if k > 0 {
        lemma_no_large_upto(tp, is_server, k - 1);
        lemma_push_if_small(
            list_upto(tp, is_server, k - 1),
            slot_sent(tp, is_server, k - 1),
            slot_param(tp, k - 1),
        );
    }
}

proof fn lemma_no_large_varint(tp: TransportParamsModel, is_server: bool)
    requires
        roundtrip_valid(tp, is_server),
    ensures
        !encode_panics(param_list(tp, is_server)),
{
    lemma_no_large_upto(tp, is_server, 14);
    let es = param_list(tp, is_server);
    if encode_panics(es) {
        let i = choose|i: int|
            0 <= i < es.len() && param_too_large(#[trigger] es[i]) && params_bytes(es.take(i)).len()
                + 2 <= PARAMS_CAP;
        assert(!param_too_large(es[i]));
    }
}


/// What one received parameter does, for every identifier and value
/// bytes: 0x0000 sets the original destination connection ID to the value
/// (refused at a server), 0x0002 the stateless reset token to its first 16
/// bytes (refused at a server), 0x000c turns on `disable_active_migration`,
/// 0x000d (the preferred address) is skipped (refused at a server), and
/// the integer parameters set their fields from the variable-length
/// integer the value starts with: 0x0001 `max_idle_timeout`, 0x0003
/// `max_packet_size` (at least 1200), 0x0004 `initial_max_data`, 0x0005
/// `initial_max_stream_data_bidi_local`, 0x0006
/// `initial_max_stream_data_bidi_remote`, 0x0007
/// `initial_max_stream_data_uni`, 0x0008 `initial_max_streams_bidi` and
/// 0x0009 `initial_max_streams_uni` (at most 2^60), 0x000a
/// `ack_delay_exponent` (at most 20), 0x000b `max_ack_delay` (below 2^14),
/// 0x000e `active_conn_id_limit`. Decoding then goes on with the
/// parameters that follow.
pub proof fn lemma_param_table(
    id: u16,
    val: Seq<u8>,
    rest: Seq<u8>,
    is_server: bool,
    tp: TransportParamsModel,
)
    requires
        val.len() < 0x1_0000,
    ensures
        ({
            let d = decode_entries(u16_be(id) + u16_be(val.len() as u16) + val + rest, is_server, tp);
            let next = |t: TransportParamsModel| decode_entries(rest, is_server, t);
            let v = parse_varint(val)->Some_0.0;
            let int_param = id == 0x0001 || id == 0x0003 || id == 0x0004 || id == 0x0005 || id
                == 0x0006 || id == 0x0007 || id == 0x0008 || id == 0x0009 || id == 0x000a || id
                == 0x000b || id == 0x000e;
            &&& (id == 0x0000 || id == 0x0002 || id == 0x000d) && is_server ==> d == Err::<
                TransportParamsModel,
                Error,
            >(Error::InvalidTransportParam)
            &&& id == 0x0000 && !is_server ==> d == next(
                TransportParamsModel { original_connection_id: Some(val), ..tp },
            )
            &&& id == 0x0002 && !is_server && val.len() < 16 ==> d == Err::<
                TransportParamsModel,
                Error,
            >(Error::BufferTooShort)
            &&& id == 0x0002 && !is_server && val.len() >= 16 ==> d == next(
                TransportParamsModel { stateless_reset_token: Some(val.take(16)), ..tp },
            )
            &&& id == 0x000c ==> d == next(
                TransportParamsModel { disable_active_migration: true, ..tp },
            )
            &&& id == 0x000d && !is_server ==> d == next(tp)
            &&& id > 0x000e ==> d == next(tp)
            &&& int_param && parse_varint(val) is None ==> d == Err::<TransportParamsModel, Error>(
                Error::BufferTooShort,
            )
            &&& int_param && parse_varint(val) is Some ==> {
                &&& id == 0x0001 ==> d == next(TransportParamsModel { max_idle_timeout: v, ..tp })
                &&& id == 0x0003 && v < 1200 ==> d == Err::<TransportParamsModel, Error>(
                    Error::InvalidTransportParam,
                )
                &&& id == 0x0003 && v >= 1200 ==> d == next(
                    TransportParamsModel { max_packet_size: v, ..tp },
                )
                &&& id == 0x0004 ==> d == next(TransportParamsModel { initial_max_data: v, ..tp })
                &&& id == 0x0005 ==> d == next(
                    TransportParamsModel { initial_max_stream_data_bidi_local: v, ..tp },
                )
                &&& id == 0x0006 ==> d == next(
                    TransportParamsModel { initial_max_stream_data_bidi_remote: v, ..tp },
                )
                &&& id == 0x0007 ==> d == next(
                    TransportParamsModel { initial_max_stream_data_uni: v, ..tp },
                )
                &&& (id == 0x0008 || id == 0x0009) && v > 0x1000_0000_0000_0000 ==> d == Err::<
                    TransportParamsModel,
                    Error,
                >(Error::StreamLimit)
                &&& id == 0x0008 && v <= 0x1000_0000_0000_0000 ==> d == next(
                    TransportParamsModel { initial_max_streams_bidi: v, ..tp },
                )
                &&& id == 0x0009 && v <= 0x1000_0000_0000_0000 ==> d == next(
                    TransportParamsModel { initial_max_streams_uni: v, ..tp },
                )
                &&& id == 0x000a && v > 20 ==> d == Err::<TransportParamsModel, Error>(
                    Error::InvalidTransportParam,
                )
                &&& id == 0x000a && v <= 20 ==> d == next(
                    TransportParamsModel { ack_delay_exponent: v, ..tp },
                )
                &&& id == 0x000b && v >= 0x4000 ==> d == Err::<TransportParamsModel, Error>(
                    Error::InvalidTransportParam,
                )
                &&& id == 0x000b && v < 0x4000 ==> d == next(
                    TransportParamsModel { max_ack_delay: v, ..tp },
                )
                &&& id == 0x000e ==> d == next(
                    TransportParamsModel { active_conn_id_limit: v, ..tp },
                )
            }
        }),
{
    let p = ParamModel::Bytes(id, val);
    lemma_decode_one(p, rest, is_server, tp);
    assert(param_bytes(p) + rest =~= u16_be(id) + u16_be(val.len() as u16) + val + rest);
}

/// A `list_upto` holds every parameter that a shorter one holds.
proof fn lemma_list_upto_grows(tp: TransportParamsModel, is_server: bool, k: int, j: int, x: ParamModel)
    requires
        0 <= k <= j,
        list_upto(tp, is_server, k).contains(x),
    ensures
        list_upto(tp, is_server, j).contains(x),
    decreases j - k,
{
    if k < j {
        reveal(push_if);
        let l = list_upto(tp, is_server, k);
        let l2 = list_upto(tp, is_server, k + 1);
        let i = choose|i: int| 0 <= i < l.len() && l[i] == x;
        if slot_sent(tp, is_server, k) {
            assert(l2 == l.push(slot_param(tp, k)));
            assert(l2[i] == x);
        } else {
            assert(l2 == l);
        }
        lemma_list_upto_grows(tp, is_server, k + 1, j, x);
    }
}

/// Every parameter that is sent is in the list of parameters.
proof fn lemma_slot_listed(tp: TransportParamsModel, is_server: bool, i: int)
    requires
        0 <= i < 14,
        slot_sent(tp, is_server, i),
    ensures
        param_list(tp, is_server).contains(slot_param(tp, i)),
{
    reveal(push_if);
    let l = list_upto(tp, is_server, i);
    let l2 = list_upto(tp, is_server, i + 1);
    assert(l2 == l.push(slot_param(tp, i)));
    assert(l2[l.len() as int] == slot_param(tp, i));
    lemma_list_upto_grows(tp, is_server, i + 1, 14, slot_param(tp, i));
}

/// What is sent: each integer parameter that is not zero, under its own
/// identifier (0x0001 `max_idle_timeout`, 0x0003 `max_packet_size`, 0x0004
/// `initial_max_data`, 0x0005 `initial_max_stream_data_bidi_local`, 0x0006
/// `initial_max_stream_data_bidi_remote`, 0x0007
/// `initial_max_stream_data_uni`, 0x0008 `initial_max_streams_bidi`, 0x0009
/// `initial_max_streams_uni`, 0x000a `ack_delay_exponent`, 0x000b
/// `max_ack_delay`, 0x000e `active_conn_id_limit`); 0x000c with an empty
/// value when active migration is disabled; and, from a server, the
/// original destination connection ID under 0x0000 and the stateless
/// reset token under 0x0002.
pub proof fn lemma_param_ids(tp: TransportParamsModel, is_server: bool)
    ensures
        ({
            let l = param_list(tp, is_server);
            &&& is_server && tp.original_connection_id is Some ==> l.contains(
                ParamModel::Bytes(0x0000, tp.original_connection_id->Some_0),
            )
            &&& tp.max_idle_timeout != 0 ==> l.contains(ParamModel::Varint(0x0001, tp.max_idle_timeout))
            &&& is_server && tp.stateless_reset_token is Some ==> l.contains(
                ParamModel::Bytes(0x0002, tp.stateless_reset_token->Some_0),
            )
            &&& tp.max_packet_size != 0 ==> l.contains(ParamModel::Varint(0x0003, tp.max_packet_size))
            &&& tp.initial_max_data != 0 ==> l.contains(ParamModel::Varint(0x0004, tp.initial_max_data))
            &&& tp.initial_max_stream_data_bidi_local != 0 ==> l.contains(
                ParamModel::Varint(0x0005, tp.initial_max_stream_data_bidi_local),
            )
            &&& tp.initial_max_stream_data_bidi_remote != 0 ==> l.contains(
                ParamModel::Varint(0x0006, tp.initial_max_stream_data_bidi_remote),
            )
            &&& tp.initial_max_stream_data_uni != 0 ==> l.contains(
                ParamModel::Varint(0x0007, tp.initial_max_stream_data_uni),
            )
            &&& tp.initial_max_streams_bidi != 0 ==> l.contains(
                ParamModel::Varint(0x0008, tp.initial_max_streams_bidi),
            )
            &&& tp.initial_max_streams_uni != 0 ==> l.contains(
                ParamModel::Varint(0x0009, tp.initial_max_streams_uni),
            )
            &&& tp.ack_delay_exponent != 0 ==> l.contains(ParamModel::Varint(0x000a, tp.ack_delay_exponent))
            &&& tp.max_ack_delay != 0 ==> l.contains(ParamModel::Varint(0x000b, tp.max_ack_delay))
            &&& tp.disable_active_migration ==> l.contains(ParamModel::Bytes(0x000c, Seq::empty()))
            &&& tp.active_conn_id_limit != 0 ==> l.contains(
                ParamModel::Varint(0x000e, tp.active_conn_id_limit),
            )
        }),
{
    assert forall|j: int| 0 <= j < 14 && slot_sent(tp, is_server, j) implies param_list(
        tp,
        is_server,
    ).contains(#[trigger] slot_param(tp, j)) by {
        lemma_slot_listed(tp, is_server, j);
    }
    assert(slot_sent(tp, is_server, 0) ==> param_list(tp, is_server).contains(slot_param(tp, 0)));
    assert(slot_sent(tp, is_server, 1) ==> param_list(tp, is_server).contains(slot_param(tp, 1)));
    assert(slot_sent(tp, is_server, 2) ==> param_list(tp, is_server).contains(slot_param(tp, 2)));
    assert(slot_sent(tp, is_server, 3) ==> param_list(tp, is_server).contains(slot_param(tp, 3)));
    assert(slot_sent(tp, is_server, 4) ==> param_list(tp, is_server).contains(slot_param(tp, 4)));
    assert(slot_sent(tp, is_server, 5) ==> param_list(tp, is_server).contains(slot_param(tp, 5)));
    assert(slot_sent(tp, is_server, 6) ==> param_list(tp, is_server).contains(slot_param(tp, 6)));
    assert(slot_sent(tp, is_server, 7) ==> param_list(tp, is_server).contains(slot_param(tp, 7)));
    assert(slot_sent(tp, is_server, 8) ==> param_list(tp, is_server).contains(slot_param(tp, 8)));
    assert(slot_sent(tp, is_server, 9) ==> param_list(tp, is_server).contains(slot_param(tp, 9)));
    assert(slot_sent(tp, is_server, 10) ==> param_list(tp, is_server).contains(slot_param(tp, 10)));
    assert(slot_sent(tp, is_server, 11) ==> param_list(tp, is_server).contains(slot_param(tp, 11)));
    assert(slot_sent(tp, is_server, 12) ==> param_list(tp, is_server).contains(slot_param(tp, 12)));
    assert(slot_sent(tp, is_server, 13) ==> param_list(tp, is_server).contains(slot_param(tp, 13)));
}

/// The limits that every decoded set of parameters keeps; at a server also
/// the absence of the parameters that only a server may send.
pub open spec fn decoded_limits(tp: TransportParamsModel, is_server: bool) -> bool {
    &&& tp.max_packet_size >= 1200
    &&& tp.initial_max_streams_bidi <= max_stream_count()
    &&& tp.initial_max_streams_uni <= max_stream_count()
    &&& tp.ack_delay_exponent <= 20
    &&& tp.max_ack_delay < 0x4000
    &&& tp.stateless_reset_token matches Some(t) ==> t.len() == 16
    &&& is_server ==> tp.original_connection_id is None && tp.stateless_reset_token is None
}

proof fn lemma_decode_entries_limits(s: Seq<u8>, is_server: bool, tp: TransportParamsModel)
    requires
        decoded_limits(tp, is_server),
    ensures
        decode_entries(s, is_server, tp) matches Ok(tp2) ==> decoded_limits(tp2, is_server),
    decreases s.len(),
{
    if s.len() >= 4 {
        let id = be16(s[0], s[1]);
        let n = be16(s[2], s[3]) as int;
        if n <= s.len() - 4 {
            let val = s.subrange(4, 4 + n);
            if let Ok(tp2) = apply_param(tp, id, val, is_server) {
                lemma_decode_entries_limits(s.subrange(4 + n, s.len() as int), is_server, tp2);
            }
        }
    }
}

/// Whatever the bytes, transport parameters that decode successfully keep
/// the limits that the decoder checks: a packet size of at least 1200, at
/// most 2^60 streams of each kind, an ACK delay exponent of at most 20, a
/// maximum ACK delay below 2^14, and a reset token of 16 bytes; and a server
/// never accepts an original connection ID or a reset token.
pub proof fn lemma_decoded_params_valid(buf: Seq<u8>, is_server: bool)
    ensures
        decode_params(buf, is_server) matches Ok(tp) ==> decoded_limits(tp, is_server),
{
    if buf.len() >= 2 {
        let n = be16(buf[0], buf[1]) as int;
        if n <= buf.len() - 2 {
            lemma_decode_entries_limits(buf.subrange(2, 2 + n), is_server, default_params());
        }
    }
}


/// A well-formed parameter whose identifier is above `0x000e` is ignored:
/// decoding it followed by any bytes gives what decoding those bytes gives,
/// at a client and at a server alike.
pub proof fn lemma_unknown_param_ignored(
    id: u16,
    val: Seq<u8>,
    rest: Seq<u8>,
    is_server: bool,
    tp: TransportParamsModel,
)
    requires
        id > 0x000e,
        val.len() < 0x1_0000,
    ensures
        decode_entries(u16_be(id) + u16_be(val.len() as u16) + val + rest, is_server, tp)
            == decode_entries(rest, is_server, tp),
{
    let p = ParamModel::Bytes(id, val);
    lemma_decode_one(p, rest, is_server, tp);
}

} // verus!
