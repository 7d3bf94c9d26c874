//! Configuration shared between multiple connections.

use vstd::prelude::*;

use crate::cc::{algorithm_named, Algorithm};
use crate::error::Error;
use crate::scheduler::{scheduler_named, SchedulerType};
use crate::transport_params::{default_params, TransportParams, TransportParamsModel};

verus! {

/// Stores configuration shared between multiple connections.
pub struct Config {
    local_transport_params: TransportParams,
    version: u32,
    application_protos: Vec<Vec<u8>>,
    grease: bool,
    cc_algorithm: Algorithm,
    /// Send an ACK when the packet number is a multiple of this ratio.
    init_data_ack_ratio: u64,
    scheduler_type: SchedulerType,
    /// The state of the SM2/SM4 key exchange: 0 off, 1 on (the default).
    gm_on: u64,
}

/// The configuration as mathematical values.
#[verifier::ext_equal]
pub struct ConfigModel {
    pub local_transport_params: TransportParamsModel,
    pub version: u32,
    pub application_protos: Seq<Seq<u8>>,
    pub grease: bool,
    pub cc_algorithm: Algorithm,
    pub init_data_ack_ratio: u64,
    pub scheduler_type: SchedulerType,
    pub gm_on: u64,
}

impl View for Config {
    type V = ConfigModel;

    closed spec fn view(&self) -> ConfigModel {
        ConfigModel {
            local_transport_params: self.local_transport_params@,
            version: self.version,
            application_protos: self.application_protos.deep_view(),
            grease: self.grease,
            cc_algorithm: self.cc_algorithm,
            init_data_ack_ratio: self.init_data_ack_ratio,
            scheduler_type: self.scheduler_type,
            gm_on: self.gm_on,
        }
    }
}

/// Splits a list of protocols in wire format (each a length in one byte,
/// then that many bytes) into the protocols. The list ends at the first
/// length that runs past the end of `s`.
pub open spec fn parse_protos(s: Seq<u8>) -> Seq<Seq<u8>>
    decreases s.len(),
{
    if s.len() == 0 {
        Seq::empty()
    } else {
        let n = s[0] as int;
        if n + 1 > s.len() {
            Seq::empty()
        } else {
            seq![s.subrange(1, n + 1)] + parse_protos(s.subrange(n + 1, s.len() as int))
        }
    }
}

/// A list of protocols in wire format: each protocol after its length in
/// one byte.
pub open spec fn protos_wire(list: Seq<Seq<u8>>) -> Seq<u8>
    decreases list.len(),
{
    if list.len() == 0 {
        Seq::empty()
    } else {
        seq![list[0].len() as u8] + list[0] + protos_wire(list.drop_first())
    }
}

/// Reading a list of protocols in wire format gives back the protocols,
/// when each is shorter than 256 bytes.
pub proof fn lemma_protos_roundtrip(list: Seq<Seq<u8>>)
    requires
        forall|i: int| 0 <= i < list.len() ==> #[trigger] list[i].len() < 256,
    ensures
        parse_protos(protos_wire(list)) == list,
    decreases list.len(),
{
    if list.len() > 0 {
        let s = protos_wire(list);
        let p = list[0];
        let n = p.len() as int;
        assert(list[0].len() < 256);
        assert((n as u8) as int == n);
        assert(s[0] == n as u8);
        assert(s.subrange(1, n + 1) =~= p);
        assert(s.subrange(n + 1, s.len() as int) =~= protos_wire(list.drop_first()));
        assert forall|i: int| 0 <= i < list.drop_first().len() implies #[trigger] list.drop_first()[i].len()
            < 256 by {
            assert(list.drop_first()[i] == list[i + 1]);
        }
        lemma_protos_roundtrip(list.drop_first());
        assert(seq![p] + list.drop_first() =~= list);
    }
}

/// Splits a list of protocols in wire format into the protocols, up to the
/// first length that runs past the end of `protos`.
pub fn parse_application_protos(protos: &[u8]) -> (list: Vec<Vec<u8>>)
    ensures
        list.deep_view() == parse_protos(protos@),
{
        let mut list: Vec<Vec<u8>> = Vec::new();
        let mut off: usize = 0;
        let len = protos.len();
        assert(protos@.subrange(0, len as int) =~= protos@);
        while off < len
            invariant
                off <= len,
                len == protos@.len(),
                parse_protos(protos@) == list.deep_view() + parse_protos(
                    protos@.subrange(off as int, len as int),
                ),
            decreases len - off,
        {
            let ghost s = protos@.subrange(off as int, len as int);
            let n = protos[off] as usize;
            assert(s[0] == protos@[off as int]);
            if n >= len - off {
                assert(parse_protos(s) =~= Seq::<Seq<u8>>::empty());
                assert(list.deep_view() + parse_protos(s) =~= list.deep_view());
                assert(protos@.subrange(len as int, len as int) =~= Seq::<u8>::empty());
                assert(list.deep_view() + parse_protos(Seq::<u8>::empty()) =~= list.deep_view());
                off = len;
            } else {
                let p = vstd::slice::slice_to_vec(
                    vstd::slice::slice_subrange(protos, off + 1, off + 1 + n),
                );
                let ghost old_list = list.deep_view();
                let ghost old_vec = list@;
                assert(p.deep_view() =~= p@);
                list.push(p);
                assert(list.deep_view() =~= old_list.push(p@)) by {
                    assert forall|i: int| 0 <= i < old_list.len() implies list.deep_view()[i]
                        == old_list[i] by {
                        assert(list@[i] == old_vec[i]);
                    }
                }
                assert(s.subrange(1, n + 1) =~= p@);
                assert(s.subrange(n + 1, s.len() as int) =~= protos@.subrange(
                    (off + 1 + n) as int,
                    len as int,
                ));
                assert(old_list + parse_protos(s) =~= list.deep_view() + parse_protos(
                    protos@.subrange((off + 1 + n) as int, len as int),
                ));
                off = off + 1 + n;
            }
        }
        assert(parse_protos(protos@.subrange(off as int, len as int)) =~= Seq::<Seq<u8>>::empty());
        assert(list.deep_view() + Seq::<Seq<u8>>::empty() =~= list.deep_view());
        list
}

impl Config {
    /// Creates a config object with the given version: default transport
    /// parameters, no application protocols, GREASE on, Reno congestion
    /// control, an ACK every four packets, the dynamic stream scheduler, and
    /// the SM2/SM4 key exchange on.
    pub fn new(version: u32) -> (res: Result<Config, Error>)
        ensures
            res is Ok,
            res->Ok_0@ == (ConfigModel {
                local_transport_params: default_params(),
                version,
                application_protos: Seq::empty(),
                grease: true,
                cc_algorithm: Algorithm::Reno,
                init_data_ack_ratio: 4,
                scheduler_type: SchedulerType::Dynamic,
                gm_on: 1,
            }),
    {
        let protos: Vec<Vec<u8>> = Vec::new();
        let c = Config {
            local_transport_params: TransportParams::default(),
            version,
            application_protos: protos,
            grease: true,
            cc_algorithm: Algorithm::Reno,
            init_data_ack_ratio: 4,
            scheduler_type: SchedulerType::Dynamic,
            gm_on: 1,
        };
        assert(c@.application_protos =~= Seq::<Seq<u8>>::empty());
        Ok(c)
    }

    /// Configures whether to send GREASE values.
    pub fn grease(&mut self, grease: bool)
        ensures
            final(self)@ == (ConfigModel { grease, ..old(self)@ }),
    {
        self.grease = grease;
    }

    /// Configures the list of supported application protocols.
    ///
    /// The list of protocols `protos` must be in wire-format (i.e. a series
    /// of non-empty, 8-bit length-prefixed strings); it is read up to the
    /// first length that runs past its end.
    pub fn set_application_protos(&mut self, protos: &[u8]) -> (res: Result<(), Error>)
        ensures
            res is Ok,
            final(self)@ == (ConfigModel {
                application_protos: parse_protos(protos@),
                ..old(self)@
            }),
    {
        self.application_protos = parse_application_protos(protos);
        Ok(())
    }

    /// Sets the `max_idle_timeout` transport parameter.
    ///
    /// The default value is infinite, that is, no timeout is used.
    pub fn set_max_idle_timeout(&mut self, v: u64)
        ensures
            final(self)@ == (ConfigModel {
                local_transport_params: TransportParamsModel {
                    max_idle_timeout: v,
                    ..old(self)@.local_transport_params
                },
                ..old(self)@
            }),
    {
        self.local_transport_params.max_idle_timeout = v;
    }

    /// Sets the `max_packet_size` transport parameter.
    ///
    /// The default value is `65527`.
    pub fn set_max_packet_size(&mut self, v: u64)
        ensures
            final(self)@ == (ConfigModel {
                local_transport_params: TransportParamsModel {
                    max_packet_size: v,
                    ..old(self)@.local_transport_params
                },
                ..old(self)@
            }),
    {
        self.local_transport_params.max_packet_size = v;
    }

    /// Sets the `initial_max_data` transport parameter.
    ///
    /// The default value is `0`.
    pub fn set_initial_max_data(&mut self, v: u64)
        ensures
            final(self)@ == (ConfigModel {
                local_transport_params: TransportParamsModel {
                    initial_max_data: v,
                    ..old(self)@.local_transport_params
                },
                ..old(self)@
            }),
    {
        self.local_transport_params.initial_max_data = v;
    }

    /// Sets the `initial_max_stream_data_bidi_local` transport parameter.
    ///
    /// The default value is `0`.
    pub fn set_initial_max_stream_data_bidi_local(&mut self, v: u64)
        ensures
            final(self)@ == (ConfigModel {
                local_transport_params: TransportParamsModel {
                    initial_max_stream_data_bidi_local: v,
                    ..old(self)@.local_transport_params
                },
                ..old(self)@
            }),
    {
        self.local_transport_params.initial_max_stream_data_bidi_local = v;
    }

    /// Turns the SM2/SM4 key exchange on (`1`) or off (`0`). Returns `1`
    /// when `v` is one of these, and `0`, changing nothing, otherwise.
    pub fn set_gmssl(&mut self, v: u64) -> (res: i32)
        ensures
            (v == 0 || v == 1) ==> res == 1 && final(self)@ == (ConfigModel {
                gm_on: v,
                ..old(self)@
            }),
            !(v == 0 || v == 1) ==> res == 0 && final(self)@ == old(self)@,
    {
        if v == 1 || v == 0 {
            self.gm_on = v;
            1
        } else {
            0
        }
    }

    /// Sets the `initial_max_stream_data_bidi_remote` transport parameter.
    ///
    /// The default value is `0`.
    pub fn set_initial_max_stream_data_bidi_remote(&mut self, v: u64)
        ensures
            final(self)@ == (ConfigModel {
                local_transport_params: TransportParamsModel {
                    initial_max_stream_data_bidi_remote: v,
                    ..old(self)@.local_transport_params
                },
                ..old(self)@
            }),
    {
        self.local_transport_params.initial_max_stream_data_bidi_remote = v;
    }

    /// Sets the `initial_max_stream_data_uni` transport parameter.
    ///
    /// The default value is `0`.
    pub fn set_initial_max_stream_data_uni(&mut self, v: u64)
        ensures
            final(self)@ == (ConfigModel {
                local_transport_params: TransportParamsModel {
                    initial_max_stream_data_uni: v,
                    ..old(self)@.local_transport_params
                },
                ..old(self)@
            }),
    {
        self.local_transport_params.initial_max_stream_data_uni = v;
    }

    /// Sets the `initial_max_streams_bidi` transport parameter.
    ///
    /// The default value is `0`.
    pub fn set_initial_max_streams_bidi(&mut self, v: u64)
        ensures
            final(self)@ == (ConfigModel {
                local_transport_params: TransportParamsModel {
                    initial_max_streams_bidi: v,
                    ..old(self)@.local_transport_params
                },
                ..old(self)@
            }),
    {
        self.local_transport_params.initial_max_streams_bidi = v;
    }

    /// Sets the `initial_max_streams_uni` transport parameter.
    ///
    /// The default value is `0`.
    pub fn set_initial_max_streams_uni(&mut self, v: u64)
        ensures
            final(self)@ == (ConfigModel {
                local_transport_params: TransportParamsModel {
                    initial_max_streams_uni: v,
                    ..old(self)@.local_transport_params
                },
                ..old(self)@
            }),
    {
        self.local_transport_params.initial_max_streams_uni = v;
    }

    /// Sets the `ack_delay_exponent` transport parameter.
    ///
    /// The default value is `3`.
    pub fn set_ack_delay_exponent(&mut self, v: u64)
        ensures
            final(self)@ == (ConfigModel {
                local_transport_params: TransportParamsModel {
                    ack_delay_exponent: v,
                    ..old(self)@.local_transport_params
                },
                ..old(self)@
            }),
    {
        self.local_transport_params.ack_delay_exponent = v;
    }

    /// Sets the `max_ack_delay` transport parameter.
    ///
    /// The default value is `25`.
    pub fn set_max_ack_delay(&mut self, v: u64)
        ensures
            final(self)@ == (ConfigModel {
                local_transport_params: TransportParamsModel {
                    max_ack_delay: v,
                    ..old(self)@.local_transport_params
                },
                ..old(self)@
            }),
    {
        self.local_transport_params.max_ack_delay = v;
    }

    /// Sets the `disable_active_migration` transport parameter.
    ///
    /// The default value is `false`.
    pub fn set_disable_active_migration(&mut self, v: bool)
        ensures
            final(self)@ == (ConfigModel {
                local_transport_params: TransportParamsModel {
                    disable_active_migration: v,
                    ..old(self)@.local_transport_params
                },
                ..old(self)@
            }),
    {
        self.local_transport_params.disable_active_migration = v;
    }

    /// Sets the ratio of data packets and ack frames.
    ///
    /// The default value is `4`.
    pub fn set_data_ack_ratio(&mut self, ratio: u64)
        ensures
            final(self)@ == (ConfigModel { init_data_ack_ratio: ratio, ..old(self)@ }),
    {
        self.init_data_ack_ratio = ratio;
    }

    /// Sets the congestion control algorithm by its name.
    ///
    /// The default is Reno. A name that no algorithm has gives
    /// `Error::CongestionControl` and leaves the configuration as it was.
    pub fn set_cc_algorithm_name(&mut self, name: &str) -> (res: Result<(), Error>)
        ensures
            match algorithm_named(name@) {
                Some(a) => res == Ok::<(), Error>(()) && final(self)@ == (ConfigModel {
                    cc_algorithm: a,
                    ..old(self)@
                }),
                None => res == Err::<(), Error>(Error::CongestionControl) && final(self)@
                    == old(self)@,
            },
    {
        let a = Algorithm::from_name(name)?;
        self.cc_algorithm = a;
        Ok(())
    }

    /// Sets the stream scheduler by its name: "Basic" or "basic"; "DTP",
    /// "Dtp" or "dtp"; "C" or "c"; "Dynamic", "dynamic", "dyn" or "Dyn".
    ///
    /// Another name gives `Error::SchedulerType` and leaves the
    /// configuration as it was.
    pub fn set_scheduler_by_name(&mut self, name: &str) -> (res: Result<(), Error>)
        ensures
            match scheduler_named(name@) {
                Some(t) => res == Ok::<(), Error>(()) && final(self)@ == (ConfigModel {
                    scheduler_type: t,
                    ..old(self)@
                }),
                None => res == Err::<(), Error>(Error::SchedulerType) && final(self)@ == old(
                    self,
                )@,
            },
    {
        let t = SchedulerType::from_name(name)?;
        self.scheduler_type = t;
        Ok(())
    }

    /// Sets the stream scheduler.
    ///
    /// The default is `SchedulerType::Dynamic`.
    pub fn set_scheduler_type(&mut self, sche: SchedulerType)
        ensures
            final(self)@ == (ConfigModel { scheduler_type: sche, ..old(self)@ }),
    {
        self.scheduler_type = sche;
    }
}

} // verus!
