//! Packet-forwarder state machine: tokens, counters, acks and the downlink
//! acceptance policy. All clocks are injected.
use crate::bounded::SmallMap;
use crate::gateway::eui;
use crate::gateway::scheduler;
use crate::gateway::scheduler::{classify, Classify};
use crate::gateway::udp_protocol;
use crate::gateway::udp_protocol::{
    build_pull_data, build_push_data_rxpk, build_push_data_stat, build_tx_ack, parse_datagram,
    parse_txpk, Downstream, RxMeta, StatCounters, TxAckError, TxPacket, TxSpec, Txpk,
};
use crate::gateway::{DownlinkJob, JobSpec};
use crate::lora::airtime;
use crate::lora::airtime::time_on_air_ms_ext;
use crate::lora::duty_cycle;
use crate::lora::duty_cycle::{eu_band_key, Budget, DutyCycleLimiter};
use crate::lora::traits::{LoraConfig, SyncWord};
use crate::octets;
use vstd::prelude::*;

verus! {

/// The radio's TX power ceiling; server requests above it are clamped, not
/// refused (erroring would kill every 27 dBm RX2 downlink request).
pub const MAX_TX_POWER_DBM: i8 = 22;

/// EU sub-bands tracked for downlink duty cycle: all there are between 863
/// and 870 MHz, so that none escapes its budget.
pub const MAX_BANDS: usize = 5;

/// What the UDP task should do with a received datagram.
#[derive(PartialEq)]
pub enum DatagramOutcome {
    /// Nothing to send back (ack consumed, or unusable input).
    Nothing,
    /// A rejection TX_ACK was written into `ack_out`; send these bytes.
    Reply(usize),
    /// The downlink passed policy. Queue the job, then send the TX_ACK built
    /// with [`GatewayForwarder::tx_ack`] (no error if queued,
    /// COLLISION_PACKET if the queue was full).
    Accepted {
        /// The downlink to transmit.
        job: DownlinkJob,
        /// Token of the PULL_RESP.
        token: u16,
    },
}

/// The forwarder.
pub struct GatewayForwarder {
    eui: [u8; 8],
    token: u16,
    stats: StatCounters,
    duty: SmallMap<DutyCycleLimiter, 5>,
}

/// The forwarder as a mathematical value.
pub struct ForwarderSpec {
    /// Gateway EUI.
    pub eui: Seq<u8>,
    /// The last token used.
    pub token: u16,
    /// Counters.
    pub stats: StatCounters,
    /// The airtime budget of each sub-band that was used.
    pub duty: Map<u8, Budget>,
}

impl View for GatewayForwarder {
    type V = ForwarderSpec;

    closed spec fn view(&self) -> ForwarderSpec {
        ForwarderSpec {
            eui: self.eui@,
            token: self.token,
            stats: self.stats,
            duty: Map::new(
                |k: u8| self.duty@.contains_key(k as u16),
                |k: u8| self.duty@[k as u16]@,
            ),
        }
    }
}

impl ForwarderSpec {
    /// The budget that a transmission at a frequency draws on.
    pub open spec fn budget(self, freq_hz: int) -> Budget {
        if self.duty.contains_key(duty_cycle::band_of(freq_hz)) {
            self.duty[duty_cycle::band_of(freq_hz)]
        } else {
            Budget::fresh(freq_hz)
        }
    }

    /// A forwarder that has not done anything yet.
    pub open spec fn fresh(mac: Seq<u8>) -> ForwarderSpec {
        ForwarderSpec {
            eui: eui::eui_of(mac),
            token: octets::from_le16(mac[5], mac[4]),
            stats: StatCounters::zero(),
            duty: Map::empty(),
        }
    }

    /// The forwarder after a packet was sent upstream.
    pub open spec fn after_uplink(self) -> ForwarderSpec {
        ForwarderSpec {
            token: self.next_token(),
            stats: StatCounters {
                rxnb: (self.stats.rxnb + 1) as u32,
                rxok: (self.stats.rxok + 1) as u32,
                rxfw: (self.stats.rxfw + 1) as u32,
                push_sent: (self.stats.push_sent + 1) as u32,
                ..self.stats
            },
            ..self
        }
    }

    /// The forwarder after a report was sent.
    pub open spec fn after_stat(self) -> ForwarderSpec {
        ForwarderSpec {
            token: self.next_token(),
            stats: StatCounters { push_sent: (self.stats.push_sent + 1) as u32, ..self.stats },
            ..self
        }
    }

    /// The forwarder after a downlink that passed policy was acknowledged.
    pub open spec fn after_ack(self, error: TxAckError) -> ForwarderSpec {
        if error == TxAckError::NoError {
            ForwarderSpec {
                stats: StatCounters { txnb: (self.stats.txnb + 1) as u32, ..self.stats },
                ..self
            }
        } else {
            self
        }
    }

    /// The next token, wrapping.
    pub open spec fn next_token(self) -> u16 {
        if self.token == u16::MAX {
            0
        } else {
            (self.token + 1) as u16
        }
    }
}

/// The airtime of a downlink, which goes out without a payload CRC.
pub open spec fn downlink_airtime(txpk: TxSpec) -> int {
    airtime::airtime_ms(
        txpk.spreading_factor as int,
        txpk.bandwidth_khz as int,
        txpk.coding_rate as int,
        txpk.payload.len() as int,
        txpk.preamble as int,
        false,
    )
}

/// The job that an accepted downlink becomes: power clamped to the radio's
/// ceiling, public sync word, no payload CRC.
pub open spec fn job_of(txpk: TxSpec) -> JobSpec {
    JobSpec {
        target_tmst: if txpk.immediate {
            None
        } else {
            txpk.tmst
        },
        config: LoraConfig {
            frequency_hz: txpk.freq_hz,
            spreading_factor: txpk.spreading_factor,
            bandwidth_khz: txpk.bandwidth_khz,
            coding_rate: txpk.coding_rate,
            tx_power_dbm: if txpk.power_dbm > MAX_TX_POWER_DBM {
                MAX_TX_POWER_DBM
            } else {
                txpk.power_dbm
            },
            sync_word: SyncWord::Public,
            iq_inverted: txpk.iq_inverted,
            crc_on: false,
            preamble_len: txpk.preamble,
        },
        payload: txpk.payload,
    }
}

/// Whether a downlink's frequency lies in the band of the gateway.
pub open spec fn in_band(freq_hz: int) -> bool {
    863_000_000 <= freq_hz <= 870_000_000
}

/// The downlink acceptance policy: frequency, window, airtime budget, in that
/// order.
pub open spec fn refusal(
    state: ForwarderSpec,
    now_us: int,
    now_ms: int,
    txpk: TxSpec,
) -> Option<TxAckError> {
    let window = scheduler::classified(now_us, txpk.immediate, txpk.tmst);
    if !in_band(txpk.freq_hz as int) {
        Some(TxAckError::TxFreq)
    } else if window is TooLate {
        Some(TxAckError::TooLate)
    } else if window is TooEarly {
        Some(TxAckError::TooEarly)
    } else if !state.budget(txpk.freq_hz as int).grants(now_ms, downlink_airtime(txpk)) {
        Some(TxAckError::DutyCycleOverflow)
    } else {
        None
    }
}

/// The forwarder after a downlink was judged: only the budget of the sub-band
/// is drawn on, and only once frequency and window are in order.
pub open spec fn judged(
    state: ForwarderSpec,
    now_us: int,
    now_ms: int,
    txpk: TxSpec,
) -> ForwarderSpec {
    let why = refusal(state, now_us, now_ms, txpk);
    if why is None || why == Some(TxAckError::DutyCycleOverflow) {
        ForwarderSpec {
            duty: state.duty.insert(
                duty_cycle::band_of(txpk.freq_hz as int),
                state.budget(txpk.freq_hz as int).after_claim(now_ms, downlink_airtime(txpk)),
            ),
            ..state
        }
    } else {
        state
    }
}

impl GatewayForwarder {
    /// What holds of every forwarder: it tracks sub-bands between 863 and
    /// 870 MHz only, each with its own limit.
    pub closed spec fn valid(self) -> bool {
        forall|k: u16| #[trigger] self.duty@.contains_key(k) ==> 1 <= k <= 5
    }

    /// A forwarder for the gateway with this MAC address.
    pub fn new(mac: &[u8; 6]) -> (r: Self)
        ensures
            r.valid(),
            r@ == ForwarderSpec::fresh(mac@),
    {
        let r: GatewayForwarder = GatewayForwarder {
            eui: eui::gateway_eui(mac),
            // Seed the token from the MAC so gateways do not collide.
            token: octets::join_be16(mac[4], mac[5]),
            stats: StatCounters::default(),
            duty: SmallMap::new(),
        };
        assert(r@.duty =~= Map::<u8, Budget>::empty());
        r
    }

    /// The counters.
    pub fn stats(&self) -> (r: &StatCounters)
        ensures
            *r == self@.stats,
    {
        &self.stats
    }

    fn next_token(&mut self) -> (r: u16)
        requires
            old(self).valid(),
        ensures
            r == old(self)@.next_token(),
            final(self).valid(),
            final(self)@ == (ForwarderSpec { token: old(self)@.next_token(), ..old(self)@ }),
    {
        self.token = self.token.wrapping_add(1);
        self.token
    }

    /// A received uplink becomes a PUSH_DATA datagram in `out`.
    pub fn on_uplink(&mut self, out: &mut [u8], meta: &RxMeta, payload: &[u8]) -> (r: usize)
        requires
            old(self).valid(),
            old(self)@.stats.rxnb < u32::MAX,
            old(self)@.stats.rxok < u32::MAX,
            old(self)@.stats.rxfw < u32::MAX,
            old(self)@.stats.push_sent < u32::MAX,
        ensures
            final(self).valid(),
            final(self)@ == old(self)@.after_uplink(),
            udp_protocol::built(
                udp_protocol::rxpk_datagram(
                    old(self)@.next_token(),
                    old(self)@.eui,
                    *meta,
                    payload@,
                ),
                old(out)@,
                final(out)@,
                r as int,
            ),
            payload@.len() <= 256 && old(out)@.len() >= udp_protocol::PUSH_BUF ==> r
                == udp_protocol::rxpk_datagram(
                old(self)@.next_token(),
                old(self)@.eui,
                *meta,
                payload@,
            ).bytes().len(),
    {
        self.stats.rxnb = self.stats.rxnb + 1;
        self.stats.rxok = self.stats.rxok + 1;
        self.stats.rxfw = self.stats.rxfw + 1;
        self.stats.push_sent = self.stats.push_sent + 1;
        let token: u16 = self.next_token();
        build_push_data_rxpk(out, token, &self.eui, meta, payload)
    }

    /// The PULL_DATA keepalive; send every ~10 s to hold the downlink path.
    pub fn on_keepalive(&mut self, out: &mut [u8]) -> (r: usize)
        requires
            old(self).valid(),
        ensures
            final(self).valid(),
            final(self)@ == (ForwarderSpec { token: old(self)@.next_token(), ..old(self)@ }),
            udp_protocol::built(
                udp_protocol::pull_datagram(old(self)@.next_token(), old(self)@.eui),
                old(out)@,
                final(out)@,
                r as int,
            ),
    {
        let token: u16 = self.next_token();
        build_pull_data(out, token, &self.eui)
    }

    /// The periodic stat PUSH_DATA; send every ~30 s.
    pub fn on_stat(&mut self, out: &mut [u8]) -> (r: usize)
        requires
            old(self).valid(),
            old(self)@.stats.push_sent < u32::MAX,
        ensures
            final(self).valid(),
            final(self)@ == old(self)@.after_stat(),
            udp_protocol::built(
                udp_protocol::stat_datagram(
                    old(self)@.next_token(),
                    old(self)@.eui,
                    final(self)@.stats,
                ),
                old(out)@,
                final(out)@,
                r as int,
            ),
    {
        self.stats.push_sent = self.stats.push_sent + 1;
        let token: u16 = self.next_token();
        build_push_data_stat(out, token, &self.eui, &self.stats)
    }

    /// Build a TX_ACK for a previously accepted downlink.
    pub fn tx_ack(&mut self, out: &mut [u8], token: u16, error: TxAckError) -> (r: usize)
        requires
            old(self).valid(),
            error == TxAckError::NoError ==> old(self)@.stats.txnb < u32::MAX,
        ensures
            final(self).valid(),
            final(self)@ == old(self)@.after_ack(error),
            udp_protocol::built(
                udp_protocol::ack_datagram(token, old(self)@.eui, error),
                old(out)@,
                final(out)@,
                r as int,
            ),
    {
        if error == TxAckError::NoError {
            // Counted at queue time; the radio task fires it unconditionally
            // unless its window has already passed.
            self.stats.txnb = self.stats.txnb + 1;
        }
        build_tx_ack(out, token, &self.eui, error)
    }

    /// The downlink acceptance policy.
    fn accept(&mut self, now_us: u32, now_ms: u64, txpk: &TxPacket) -> (r: Result<
        DownlinkJob,
        TxAckError,
    >)
        requires
            old(self).valid(),
        ensures
            final(self).valid(),
            final(self)@ == judged(old(self)@, now_us as int, now_ms as int, txpk@),
            match r {
                Ok(job) => refusal(old(self)@, now_us as int, now_ms as int, txpk@) is None && job@
                    == job_of(txpk@),
                Err(error) => refusal(old(self)@, now_us as int, now_ms as int, txpk@) == Some(
                    error,
                ),
            },
    {
        let ghost before = self@;
        if txpk.freq_hz < 863_000_000 || txpk.freq_hz > 870_000_000 {
            return Err(TxAckError::TxFreq);
        }
        let target_tmst: Option<u32> = match classify(now_us, txpk.immediate, txpk.tmst) {
            Classify::Immediate => None,
            Classify::At { .. } => txpk.tmst,
            Classify::TooLate => {
                return Err(TxAckError::TooLate);
            },
            Classify::TooEarly => {
                return Err(TxAckError::TooEarly);
            },
        };
        let payload_len: usize = txpk.payload.len();
        let airtime_ms: u32 = time_on_air_ms_ext(
            txpk.spreading_factor,
            txpk.bandwidth_khz,
            txpk.coding_rate,
            payload_len,
            txpk.preamble,
            false,
        );
        let band: u16 = eu_band_key(txpk.freq_hz) as u16;
        if !self.duty.contains_key(band) {
            proof {
                let all = set![1u16, 2u16, 3u16, 4u16, 5u16];
                assert(self.duty@.dom().subset_of(all.remove(band)));
                vstd::set_lib::lemma_len_subset(self.duty@.dom(), all.remove(band));
            }
            let _ = self.duty.insert(band, DutyCycleLimiter::for_frequency(txpk.freq_hz));
        }
        assert(self.duty@.contains_key(band));
        assert(self.duty@[band]@ == before.budget(txpk.freq_hz as int));
        let claim: Result<(), duty_cycle::DutyCycleExceeded> = match self.duty.get_mut(band) {
            Some(limiter) => limiter.try_claim(now_ms, airtime_ms),
            None => Ok(()),
        };
        assert(self@.duty =~= before.duty.insert(
            duty_cycle::band_of(txpk.freq_hz as int),
            before.budget(txpk.freq_hz as int).after_claim(
                now_ms as int,
                downlink_airtime(txpk@),
            ),
        ));
        if claim.is_err() {
            return Err(TxAckError::DutyCycleOverflow);
        }
        let power: i8 = if txpk.power_dbm > MAX_TX_POWER_DBM {
            MAX_TX_POWER_DBM
        } else {
            txpk.power_dbm
        };
        Ok(
            DownlinkJob {
                target_tmst,
                config: LoraConfig {
                    frequency_hz: txpk.freq_hz,
                    spreading_factor: txpk.spreading_factor,
                    bandwidth_khz: txpk.bandwidth_khz,
                    coding_rate: txpk.coding_rate,
                    tx_power_dbm: power,
                    sync_word: SyncWord::Public,
                    iq_inverted: txpk.iq_inverted,
                    // LoRa downlinks always go out without a payload CRC;
                    // ChirpStack never sends ncrc and relies on this.
                    crc_on: false,
                    preamble_len: txpk.preamble,
                },
                payload: txpk.payload.clone(),
            },
        )
    }

    /// Process one datagram from the server. `now_us` is the tmst counter,
    /// `now_ms` feeds the duty cycle budget. `txpk` is the JSON payload of a
    /// PULL_RESP as read, or `None` when it could not be read; it is not
    /// looked at for other datagrams.
    pub fn on_datagram(
        &mut self,
        now_us: u32,
        now_ms: u64,
        data: &[u8],
        txpk: Option<&Txpk>,
        ack_out: &mut [u8],
    ) -> (r: DatagramOutcome)
        requires
            old(self).valid(),
            is_push_ack(data@) ==> old(self)@.stats.push_acked < u32::MAX,
            is_pull_resp(data@) ==> old(self)@.stats.dwnb < u32::MAX,
        ensures
            final(self).valid(),
            is_push_ack(data@) ==> final(self)@ == acked(old(self)@),
            is_pull_resp(data@) ==> match txpk_of(txpk) {
                Some(request) => final(self)@ == judged(
                    pulled(old(self)@),
                    now_us as int,
                    now_ms as int,
                    request,
                ),
                None => final(self)@ == pulled(old(self)@),
            },
            !is_push_ack(data@) && !is_pull_resp(data@) ==> final(self)@ == old(self)@,
            match answer_to(old(self)@, now_us as int, now_ms as int, data@, txpk_of(txpk)) {
                Answer::Nothing => r is Nothing && final(ack_out)@ == old(ack_out)@,
                Answer::Refused(error) => r is Reply && udp_protocol::built(
                    udp_protocol::ack_datagram(
                        udp_protocol::token_of(data@),
                        old(self)@.eui,
                        error,
                    ),
                    old(ack_out)@,
                    final(ack_out)@,
                    r->Reply_0 as int,
                ),
                Answer::Accepted(wanted) => r is Accepted && r->job@ == wanted && r->token
                    == udp_protocol::token_of(data@) && final(ack_out)@ == old(ack_out)@,
            },
    {
        let downstream: Downstream = match parse_datagram(data) {
            Ok(downstream) => downstream,
            Err(_) => {
                return DatagramOutcome::Nothing;
            },
        };
        match downstream {
            Downstream::PushAck { .. } => {
                self.stats.push_acked = self.stats.push_acked + 1;
                DatagramOutcome::Nothing
            },
            Downstream::PullAck { .. } => DatagramOutcome::Nothing,
            Downstream::PullResp { token, .. } => {
                self.stats.dwnb = self.stats.dwnb + 1;
                let request: TxPacket = match parse_txpk(txpk) {
                    Ok(request) => request,
                    // Unusable request: nothing sensible to ack.
                    Err(_) => {
                        return DatagramOutcome::Nothing;
                    },
                };
                match self.accept(now_us, now_ms, &request) {
                    Ok(job) => DatagramOutcome::Accepted { job, token },
                    Err(error) => DatagramOutcome::Reply(
                        build_tx_ack(ack_out, token, &self.eui, error),
                    ),
                }
            },
        }
    }
}

/// Whether a datagram acknowledges a PUSH_DATA.
pub open spec fn is_push_ack(data: Seq<u8>) -> bool {
    udp_protocol::has_header(data) && data[3] == udp_protocol::PUSH_ACK
}

/// Whether a datagram brings a downlink.
pub open spec fn is_pull_resp(data: Seq<u8>) -> bool {
    udp_protocol::has_header(data) && data[3] == udp_protocol::PULL_RESP
}

/// The downlink request behind a txpk, if it can be used.
pub open spec fn txpk_of(txpk: Option<&Txpk>) -> Option<TxSpec> {
    match txpk {
        Some(txpk) => udp_protocol::normalised(*txpk),
        None => None,
    }
}

/// The forwarder after a PUSH_ACK.
pub open spec fn acked(state: ForwarderSpec) -> ForwarderSpec {
    ForwarderSpec {
        stats: StatCounters { push_acked: (state.stats.push_acked + 1) as u32, ..state.stats },
        ..state
    }
}

/// The forwarder after a PULL_RESP was counted.
pub open spec fn pulled(state: ForwarderSpec) -> ForwarderSpec {
    ForwarderSpec {
        stats: StatCounters { dwnb: (state.stats.dwnb + 1) as u32, ..state.stats },
        ..state
    }
}

/// What a datagram is answered with.
pub enum Answer {
    /// Nothing.
    Nothing,
    /// A TX_ACK with an error.
    Refused(TxAckError),
    /// The job goes to the radio.
    Accepted(JobSpec),
}

/// What a datagram is answered with: only a usable downlink request is.
pub open spec fn answer_to(
    state: ForwarderSpec,
    now_us: int,
    now_ms: int,
    data: Seq<u8>,
    request: Option<TxSpec>,
) -> Answer {
    match request {
        Some(txpk) => if is_pull_resp(data) {
            match refusal(state, now_us, now_ms, txpk) {
                Some(error) => Answer::Refused(error),
                None => Answer::Accepted(job_of(txpk)),
            }
        } else {
            Answer::Nothing
        },
        None => Answer::Nothing,
    }
}

/// A TX_ACK echoes the token of the PULL_RESP that it answers.
pub proof fn tx_ack_echoes_the_token(token: u16, eui: Seq<u8>, error: TxAckError)
    ensures
        udp_protocol::token_of(udp_protocol::ack_datagram(token, eui, error).bytes()) == token,
{
    octets::le16_round_trip(token);
    let d = udp_protocol::ack_datagram(token, eui, error).bytes();
    assert(d[1] == octets::be16(token)[0]);
    assert(d[2] == octets::be16(token)[1]);
}

/// Sub-band budgets are independent: judging a downlink in one leaves what is
/// left of every other as it was.
pub proof fn budgets_are_independent(
    state: ForwarderSpec,
    now_us: int,
    now_ms: int,
    txpk: TxSpec,
    other_hz: int,
)
    requires
        duty_cycle::band_of(other_hz) != duty_cycle::band_of(txpk.freq_hz as int),
    ensures
        judged(state, now_us, now_ms, txpk).budget(other_hz) == state.budget(other_hz),
{
}

/// A downlink is accepted only against the budget of its own sub-band, and its
/// airtime is then charged there; a refused one is charged nowhere: what was
/// spent in any sub-band can only have expired.
pub proof fn accepted_downlinks_are_charged(
    state: ForwarderSpec,
    now_us: int,
    now_ms: int,
    txpk: TxSpec,
    other_hz: int,
)
    requires
        0 <= now_ms,
        state.budget(other_hz).valid(),
    ensures
        refusal(state, now_us, now_ms, txpk) is None ==> state.budget(
            txpk.freq_hz as int,
        ).claim_result(now_ms, downlink_airtime(txpk)) is Ok && judged(
            state,
            now_us,
            now_ms,
            txpk,
        ).budget(txpk.freq_hz as int) == state.budget(txpk.freq_hz as int).after_claim(
            now_ms,
            downlink_airtime(txpk),
        ),
        refusal(state, now_us, now_ms, txpk) is Some ==> judged(
            state,
            now_us,
            now_ms,
            txpk,
        ).budget(other_hz).spent() <= state.budget(other_hz).spent(),
{
    duty_cycle::lemma_advanced(state.budget(other_hz), now_ms);
    if duty_cycle::band_of(other_hz) == duty_cycle::band_of(txpk.freq_hz as int) {
        duty_cycle::one_limit_per_band(other_hz, txpk.freq_hz as int);
        assert(state.budget(other_hz) == state.budget(txpk.freq_hz as int));
    }
}

/// Power above the radio's ceiling is clamped, never refused for itself: a
/// request is judged alike whatever power it asks for.
pub proof fn power_is_clamped_not_refused(
    state: ForwarderSpec,
    now_us: int,
    now_ms: int,
    txpk: TxSpec,
    power_dbm: i8,
)
    ensures
        refusal(state, now_us, now_ms, (TxSpec { power_dbm, ..txpk })) == refusal(
            state,
            now_us,
            now_ms,
            txpk,
        ),
        job_of(txpk).config.tx_power_dbm <= MAX_TX_POWER_DBM,
{
}

/// A downlink request with the times at which it came.
pub struct Request {
    /// Microsecond counter.
    pub now_us: int,
    /// Milliseconds since boot.
    pub now_ms: u64,
    /// What is asked for.
    pub txpk: TxSpec,
}

/// The forwarder after a run of downlink requests.
pub open spec fn after_requests(state: ForwarderSpec, requests: Seq<Request>) -> ForwarderSpec
    decreases requests.len(),
{
    if requests.len() == 0 {
        state
    } else {
        let last = requests.last();
        judged(
            after_requests(state, requests.drop_last()),
            last.now_us,
            last.now_ms as int,
            last.txpk,
        )
    }
}

/// Whether a request gets as far as the airtime budget: its frequency and its
/// window are in order.
pub open spec fn reaches_budget(request: Request) -> bool {
    let window = scheduler::classified(
        request.now_us,
        request.txpk.immediate,
        request.txpk.tmst,
    );
    in_band(request.txpk.freq_hz as int) && !(window is TooLate) && !(window is TooEarly)
}

/// The airtime that a run of requests claims in a sub-band, in order.
pub open spec fn claims_in(requests: Seq<Request>, band: u8) -> Seq<(u64, u32)>
    decreases requests.len(),
{
    if requests.len() == 0 {
        Seq::empty()
    } else {
        let last = requests.last();
        let before = claims_in(requests.drop_last(), band);
        if reaches_budget(last) && duty_cycle::band_of(last.txpk.freq_hz as int) == band {
            before.push((last.now_ms, downlink_airtime(last.txpk) as u32))
        } else {
            before
        }
    }
}

/// Requests that LoRa can carry, with timestamps that never run backwards.
pub open spec fn in_order(requests: Seq<Request>) -> bool {
    &&& forall|i: int, j: int|
        0 <= i <= j < requests.len() ==> requests[i].now_ms <= requests[j].now_ms
    &&& forall|i: int| 0 <= i < requests.len() ==> requests[i].txpk.payload.len() <= 256
}

/// The budget of a sub-band after a run of requests is what the claims in that
/// sub-band make of a fresh one.
proof fn lemma_budget_follows_claims(state: ForwarderSpec, requests: Seq<Request>, freq_hz: int)
    requires
        state.duty == Map::<u8, Budget>::empty(),
        in_order(requests),
    ensures
        after_requests(state, requests).budget(freq_hz) == duty_cycle::budget_after(
            Budget::fresh(freq_hz),
            claims_in(requests, duty_cycle::band_of(freq_hz)),
        ),
    decreases requests.len(),
{
    let band = duty_cycle::band_of(freq_hz);
    if requests.len() > 0 {
        let last = requests.last();
        let shorter = requests.drop_last();
        let hz = last.txpk.freq_hz as int;
        lemma_budget_follows_claims(state, shorter, freq_hz);
        lemma_budget_follows_claims(state, shorter, hz);
        airtime::lora_packets_fit(
            last.txpk.spreading_factor as int,
            last.txpk.bandwidth_khz as int,
            last.txpk.coding_rate as int,
            last.txpk.payload.len() as int,
            last.txpk.preamble as int,
            false,
        );
        if reaches_budget(last) && duty_cycle::band_of(hz) == band {
            duty_cycle::one_limit_per_band(hz, freq_hz);
            assert(Budget::fresh(hz) == Budget::fresh(freq_hz));
            let before = claims_in(shorter, band);
            let claim = (last.now_ms, downlink_airtime(last.txpk) as u32);
            assert(before.push(claim).drop_last() =~= before);
        }
    }
}

/// The claims of a run in order are in order.
proof fn lemma_claims_monotone(requests: Seq<Request>, band: u8)
    requires
        in_order(requests),
    ensures
        duty_cycle::monotone(claims_in(requests, band)),
        forall|i: int|
            0 <= i < claims_in(requests, band).len() ==> requests.len() > 0 && (
            #[trigger] claims_in(requests, band)[i]).0 <= requests.last().now_ms,
    decreases requests.len(),
{
    if requests.len() > 0 {
        let shorter = requests.drop_last();
        lemma_claims_monotone(shorter, band);
        if shorter.len() > 0 {
            assert(shorter.last() == requests[requests.len() - 2]);
        }
    }
}

/// Downlinks obey the EU duty cycle per sub-band: whatever a server asks for,
/// the airtime accepted in a sub-band within the hour before the last claim
/// there, and within any one hour wherever it begins, never exceeds the
/// allowance of the sub-band.
pub proof fn downlinks_obey_the_duty_cycle(
    state: ForwarderSpec,
    requests: Seq<Request>,
    freq_hz: u32,
    from: int,
)
    requires
        state.duty == Map::<u8, Budget>::empty(),
        in_order(requests),
        in_band(freq_hz as int),
    ensures
        ({
            let fresh = Budget::fresh(freq_hz as int);
            let claims = claims_in(requests, duty_cycle::band_of(freq_hz as int));
            let accepted = duty_cycle::grants_of(fresh, claims);
            let allowance = duty_cycle::permille_at(freq_hz as int)->Some_0
                * duty_cycle::PERMILLE_OF_HOUR_MS;
            &&& after_requests(state, requests).budget(freq_hz as int)
                == duty_cycle::budget_after(fresh, claims)
            &&& claims.len() > 0 ==> duty_cycle::granted_since(
                accepted,
                claims.last().0 - 3_600_000 + 1,
            ) <= allowance
            &&& duty_cycle::granted_within(accepted, from, from + 3_600_000) <= allowance
        }),
{
    let claims = claims_in(requests, duty_cycle::band_of(freq_hz as int));
    lemma_budget_follows_claims(state, requests, freq_hz as int);
    lemma_claims_monotone(requests, duty_cycle::band_of(freq_hz as int));
    if claims.len() > 0 {
        duty_cycle::granted_airtime_stays_within_allowance(freq_hz, claims);
    }
    duty_cycle::any_hour_stays_within_allowance(freq_hz, claims, from);
}

/// An accepted downlink goes out as the server asked for it: at its frequency,
/// data rate, coding rate, polarity and preamble, with its payload and at the
/// requested power up to 22 dBm, the radio's ceiling; as LoRaWAN downlinks do,
/// on the public network and without a checksum; at its target unless it is
/// immediate.
pub proof fn accepted_downlinks_go_out_as_asked(
    state: ForwarderSpec,
    now_us: int,
    now_ms: int,
    data: Seq<u8>,
    request: TxSpec,
)
    ensures
        answer_to(state, now_us, now_ms, data, Some(request)) matches Answer::Accepted(job) ==> {
            &&& request.power_dbm <= 22 ==> job.config.tx_power_dbm == request.power_dbm
            &&& request.power_dbm > 22 ==> job.config.tx_power_dbm == 22
            &&& job.config.frequency_hz == request.freq_hz
            &&& job.config.spreading_factor == request.spreading_factor
            &&& job.config.bandwidth_khz == request.bandwidth_khz
            &&& job.config.coding_rate == request.coding_rate
            &&& job.config.iq_inverted == request.iq_inverted
            &&& job.config.preamble_len == request.preamble
            &&& job.config.sync_word == SyncWord::Public
            &&& !job.config.crc_on
            &&& job.payload == request.payload
            &&& request.immediate ==> job.target_tmst is None
            &&& !request.immediate ==> job.target_tmst == request.tmst
        },
{
}

/// A usable downlink request is refused for the first of these that holds: its
/// frequency lies outside 863-870 MHz; it has to be sent within 20 ms, or has no
/// time; it lies more than 30 s ahead; its airtime does not fit what its
/// sub-band has left. If none holds it is accepted. Other datagrams are not
/// answered.
pub proof fn downlinks_are_refused_for_a_reason(
    state: ForwarderSpec,
    now_us: int,
    now_ms: int,
    data: Seq<u8>,
    request: TxSpec,
)
    requires
        data.len() >= 4,
        data[0] == 2,
        data[3] == 3,
    ensures
        ({
            let answer = answer_to(state, now_us, now_ms, data, Some(request));
            let in_band = 863_000_000 <= request.freq_hz <= 870_000_000;
            let ahead = scheduler::delta(now_us, request.tmst->Some_0 as int);
            let late = !request.immediate && (request.tmst is None || ahead < 20_000);
            let early = !request.immediate && request.tmst is Some && ahead > 30_000_000;
            let affordable = state.budget(request.freq_hz as int).claim_result(
                now_ms,
                airtime::airtime_ms(
                    request.spreading_factor as int,
                    request.bandwidth_khz as int,
                    request.coding_rate as int,
                    request.payload.len() as int,
                    request.preamble as int,
                    false,
                ),
            ) is Ok;
            &&& answer == Answer::Refused(TxAckError::TxFreq) <==> !in_band
            &&& answer == Answer::Refused(TxAckError::TooLate) <==> in_band && late
            &&& answer == Answer::Refused(TxAckError::TooEarly) <==> in_band && !late && early
            &&& answer == Answer::Refused(TxAckError::DutyCycleOverflow) <==> in_band && !late
                && !early && !affordable
            &&& answer is Accepted <==> in_band && !late && !early && affordable
        }),
{
}

/// Only a PULL_RESP of protocol version 2 brings a downlink, and only a PUSH_ACK
/// counts as one.
pub proof fn datagrams_are_told_apart(
    state: ForwarderSpec,
    now_us: int,
    now_ms: int,
    data: Seq<u8>,
    request: Option<TxSpec>,
)
    ensures
        is_push_ack(data) <==> data.len() >= 4 && data[0] == 2 && data[3] == 1,
        is_pull_resp(data) <==> data.len() >= 4 && data[0] == 2 && data[3] == 3,
        !(data.len() >= 4 && data[0] == 2 && data[3] == 3) || request is None ==> answer_to(
            state,
            now_us,
            now_ms,
            data,
            request,
        ) is Nothing,
        acked(state).stats.push_acked == (state.stats.push_acked + 1) as u32,
        pulled(state).stats.dwnb == (state.stats.dwnb + 1) as u32,
        acked(state).duty == state.duty && pulled(state).duty == state.duty,
{
}

/// A new forwarder has nothing counted, no airtime spent, the EUI of its MAC
/// address, and the last two bytes of that as the token before its first.
pub proof fn forwarders_start_from_their_mac(mac: Seq<u8>, freq_hz: int)
    requires
        mac.len() == 6,
    ensures
        ForwarderSpec::fresh(mac).token == 256 * mac[4] + mac[5],
        ForwarderSpec::fresh(mac).eui == seq![
            mac[0],
            mac[1],
            mac[2],
            0xFFu8,
            0xFE,
            mac[3],
            mac[4],
            mac[5],
        ],
        ForwarderSpec::fresh(mac).budget(freq_hz).spent() == 0,
        ({
            let s = ForwarderSpec::fresh(mac).stats;
            s.rxnb == 0 && s.rxok == 0 && s.rxfw == 0 && s.push_acked == 0 && s.push_sent == 0
                && s.dwnb == 0 && s.txnb == 0
        }),
{
    assert(eui::eui_of(mac) =~= seq![
        mac[0],
        mac[1],
        mac[2],
        0xFFu8,
        0xFE,
        mac[3],
        mac[4],
        mac[5],
    ]);
}

/// Every event is counted where it belongs, and nowhere else, and each datagram
/// that is sent on the gateway's own account has the next token.
pub proof fn events_are_counted_once(state: ForwarderSpec, error: TxAckError)
    requires
        state.stats.rxnb < u32::MAX,
        state.stats.rxok < u32::MAX,
        state.stats.rxfw < u32::MAX,
        state.stats.push_sent < u32::MAX,
        state.stats.txnb < u32::MAX,
    ensures
        ({
            let (s, t) = (state.stats, state.after_uplink().stats);
            &&& t.rxnb == s.rxnb + 1 && t.rxok == s.rxok + 1 && t.rxfw == s.rxfw + 1
            &&& t.push_sent == s.push_sent + 1
            &&& t.push_acked == s.push_acked && t.dwnb == s.dwnb && t.txnb == s.txnb
            &&& state.after_uplink().token == (state.token + 1) % 65_536
            &&& state.after_uplink().eui == state.eui && state.after_uplink().duty == state.duty
        }),
        ({
            let (s, t) = (state.stats, state.after_stat().stats);
            &&& t.rxnb == s.rxnb && t.rxok == s.rxok && t.rxfw == s.rxfw
            &&& t.push_sent == s.push_sent + 1
            &&& t.push_acked == s.push_acked && t.dwnb == s.dwnb && t.txnb == s.txnb
            &&& state.after_stat().token == (state.token + 1) % 65_536
            &&& state.after_stat().eui == state.eui && state.after_stat().duty == state.duty
        }),
        ({
            let (s, t) = (state.stats, state.after_ack(error).stats);
            &&& t.rxnb == s.rxnb && t.rxok == s.rxok && t.rxfw == s.rxfw
            &&& t.push_sent == s.push_sent && t.push_acked == s.push_acked && t.dwnb == s.dwnb
            &&& error == TxAckError::NoError ==> t.txnb == s.txnb + 1
            &&& error != TxAckError::NoError ==> t.txnb == s.txnb
            &&& state.after_ack(error).token == state.token
            &&& state.after_ack(error).eui == state.eui && state.after_ack(error).duty == state.duty
        }),
        state.next_token() == (state.token + 1) % 65_536,
{
}

/// Only a PULL_RESP is answered. One that is accepted comes with its own token and the
/// downlink as it was asked for; one that is refused is answered with a TX_ACK under its
/// own token.
pub proof fn downlink_requests_are_answered(
    forwarder: &mut GatewayForwarder,
    now_us: u32,
    now_ms: u64,
    data: &[u8],
    txpk: Option<&Txpk>,
    ack_out: &mut [u8],
    r: DatagramOutcome,
)
    requires
        call_ensures(
            GatewayForwarder::on_datagram,
            (forwarder, now_us, now_ms, data, txpk, ack_out),
            r,
        ),
        old(forwarder)@.eui.len() == 8,
        old(ack_out)@.len() >= 64,
    ensures
        !(r is Nothing) ==> data@.len() >= 4 && data@[0] == 2 && data@[3] == 3 && txpk_of(
            txpk,
        ) is Some,
        r matches DatagramOutcome::Accepted { job, token } ==> {
            let request = txpk_of(txpk)->Some_0;
            &&& token == 256 * data@[1] + data@[2]
            &&& job@.config.frequency_hz == request.freq_hz
            &&& job@.config.tx_power_dbm == (if request.power_dbm <= 22 {
                request.power_dbm as int
            } else {
                22
            })
            &&& job@.config.spreading_factor == request.spreading_factor
            &&& job@.config.bandwidth_khz == request.bandwidth_khz
            &&& job@.config.coding_rate == request.coding_rate
            &&& job@.config.iq_inverted == request.iq_inverted
            &&& job@.config.preamble_len == request.preamble
            &&& job@.payload == request.payload
            &&& job@.target_tmst == (if request.immediate {
                None
            } else {
                request.tmst
            })
        },
        r matches DatagramOutcome::Reply(len) ==> {
            &&& 12 <= len <= 64
            &&& final(ack_out)@[0] == 2
            &&& final(ack_out)@[1] == data@[1]
            &&& final(ack_out)@[2] == data@[2]
            &&& final(ack_out)@[3] == 5
            &&& final(ack_out)@.subrange(4, 12) == old(forwarder)@.eui
        },
        !(r is Reply) ==> final(ack_out)@ == old(ack_out)@,
{
    if r is Reply {
        let answer = answer_to(
            old(forwarder)@,
            now_us as int,
            now_ms as int,
            data@,
            txpk_of(txpk),
        );
        let token = udp_protocol::token_of(data@);
        let eui = old(forwarder)@.eui;
        let datagram = udp_protocol::ack_datagram(token, eui, answer->Refused_0);
        let len = r->Reply_0 as int;
        udp_protocol::tx_ack_fits_its_buffer(token, eui, answer->Refused_0);
        udp_protocol::datagrams_stand_at_the_front(datagram, old(ack_out)@, final(ack_out)@, len);
        let head = final(ack_out)@.take(12);
        assert(datagram.head =~= udp_protocol::header(token, 5, eui));
        assert(head =~= datagram.head);
        assert(final(ack_out)@[0] == head[0] && final(ack_out)@[1] == head[1] && final(ack_out)@[2]
            == head[2] && final(ack_out)@[3] == head[3]);
        assert(final(ack_out)@.subrange(4, 12) =~= head.skip(4));
        assert(datagram.head.skip(4) =~= eui);
    }
}

/// A received packet is reported under the next token and the gateway's EUI, and counted
/// as received, good, forwarded and sent.
pub proof fn uplinks_are_forwarded(
    forwarder: &mut GatewayForwarder,
    out: &mut [u8],
    meta: &RxMeta,
    payload: &[u8],
    r: usize,
)
    requires
        call_ensures(GatewayForwarder::on_uplink, (forwarder, out, meta, payload), r),
        old(forwarder)@.stats.rxnb < 4_294_967_295,
        old(forwarder)@.stats.rxok < 4_294_967_295,
        old(forwarder)@.stats.rxfw < 4_294_967_295,
        old(forwarder)@.stats.push_sent < 4_294_967_295,
    ensures
        ({
            let token = (old(forwarder)@.token + 1) % 65_536;
            &&& final(forwarder)@.token == token
            &&& udp_protocol::built(
                udp_protocol::rxpk_datagram(token as u16, old(forwarder)@.eui, *meta, payload@),
                old(out)@,
                final(out)@,
                r as int,
            )
        }),
        final(forwarder)@.stats.rxnb == old(forwarder)@.stats.rxnb + 1,
        final(forwarder)@.stats.rxok == old(forwarder)@.stats.rxok + 1,
        final(forwarder)@.stats.rxfw == old(forwarder)@.stats.rxfw + 1,
        final(forwarder)@.stats.push_sent == old(forwarder)@.stats.push_sent + 1,
        final(forwarder)@.stats.push_acked == old(forwarder)@.stats.push_acked,
        final(forwarder)@.stats.dwnb == old(forwarder)@.stats.dwnb,
        final(forwarder)@.stats.txnb == old(forwarder)@.stats.txnb,
{
}

/// A keepalive goes out under the next token and changes nothing else; a report goes out
/// under the next token, counts as sent and tells the counters with that.
pub proof fn keepalives_and_reports_go_out(
    alive: &mut GatewayForwarder,
    out: &mut [u8],
    n: usize,
    telling: &mut GatewayForwarder,
    report: &mut [u8],
    m: usize,
)
    requires
        call_ensures(GatewayForwarder::on_keepalive, (alive, out), n),
        call_ensures(GatewayForwarder::on_stat, (telling, report), m),
        old(telling)@.stats.push_sent < 4_294_967_295,
    ensures
        final(alive)@.token == (old(alive)@.token + 1) % 65_536,
        final(alive)@.stats == old(alive)@.stats,
        udp_protocol::built(
            udp_protocol::pull_datagram(final(alive)@.token, old(alive)@.eui),
            old(out)@,
            final(out)@,
            n as int,
        ),
        final(telling)@.token == (old(telling)@.token + 1) % 65_536,
        final(telling)@.stats.push_sent == old(telling)@.stats.push_sent + 1,
        final(telling)@.stats.rxnb == old(telling)@.stats.rxnb,
        udp_protocol::built(
            udp_protocol::stat_datagram(
                final(telling)@.token,
                old(telling)@.eui,
                final(telling)@.stats,
            ),
            old(report)@,
            final(report)@,
            m as int,
        ),
{
}

} // verus!
