//! The duty cycle lockout check: spend the hourly airtime budget, then see that
//! further transmissions are refused at any spreading factor.
use crate::host_protocol::ResponseId;
use crate::octets;
use vstd::prelude::*;

verus! {

/// Generous ceiling on sends: the 10% band fits about 110 packets of the
/// largest size at SF11.
pub const MAX_SF11_SENDS: u32 = 130;

/// Draining the leftover headroom at SF7 takes at most a handful of packets.
pub const MAX_SF7_DRAIN: u32 = 25;

/// Airtime of one packet of the largest size at SF11, in milliseconds.
pub const SF11_PACKET_MS: u32 = 3247;

/// The spreading factor in a RadioConfig payload, behind the frequency; `None`
/// when the payload is too short.
pub fn reported_spreading_factor(payload: &[u8]) -> (r: Option<u8>)
    ensures
        r == (if payload@.len() > 4 {
            Some(payload@[4])
        } else {
            None
        }),
{
    if payload.len() > 4 {
        Some(payload[4])
    } else {
        None
    }
}

/// The retry hint of a TxRefused payload, which is four bytes, lowest first.
pub fn parse_retry_secs(payload: &[u8]) -> (r: Result<u32, usize>)
    ensures
        match r {
            Ok(secs) => payload@.len() == 4 && secs == octets::from_le32(
                payload@[0],
                payload@[1],
                payload@[2],
                payload@[3],
            ),
            Err(len) => payload@.len() != 4 && len == payload@.len(),
        },
{
    if payload.len() != 4 {
        return Err(payload.len());
    }
    Ok(octets::join_le32(payload[0], payload[1], payload[2], payload[3]))
}

/// Whether a retry hint points into the coming hour.
pub open spec fn hint_in_order(secs: u32) -> bool {
    0 < secs <= 3_600
}

/// Why the check failed.
#[derive(Debug, Clone, Copy, PartialEq, Eq, Structural)]
pub enum LockoutFailure {
    /// A packet was neither transmitted nor refused.
    Unexpected(ResponseId),
    /// A TxRefused payload has the wrong length.
    BadHint(usize),
    /// Nothing was refused within the ceiling on sends.
    NeverRefused,
    /// The refusal came after this many packets, which does not fit the budget
    /// of the band.
    WrongBudget(u32),
    /// The retry hint does not point into the coming hour.
    HintOutOfRange(u32),
}

/// What to do after a packet.
#[derive(Debug, Clone, Copy, PartialEq, Eq, Structural)]
pub enum SpendStep {
    /// Send another one.
    Send,
    /// The budget is spent: how many packets were transmitted, and the retry
    /// hint.
    Spent(u32, u32),
    /// The check failed.
    Failed(LockoutFailure),
}

/// Sending until the budget refuses, up to a ceiling.
pub struct Spending {
    ceiling: u32,
    sent: u32,
}

impl View for Spending {
    type V = (u32, u32);

    /// The ceiling and how many packets were transmitted.
    closed spec fn view(&self) -> (u32, u32) {
        (self.ceiling, self.sent)
    }
}

/// What to do after the response to a packet, with this many transmitted before.
pub open spec fn spend_step(
    ceiling: u32,
    sent: u32,
    id: ResponseId,
    payload: Seq<u8>,
) -> SpendStep {
    match id {
        ResponseId::TxComplete => if sent + 1 >= ceiling {
            SpendStep::Failed(LockoutFailure::NeverRefused)
        } else {
            SpendStep::Send
        },
        ResponseId::TxRefused => if payload.len() != 4 {
            SpendStep::Failed(LockoutFailure::BadHint(payload.len() as usize))
        } else {
            SpendStep::Spent(
                sent,
                octets::from_le32(payload[0], payload[1], payload[2], payload[3]),
            )
        },
        _ => SpendStep::Failed(LockoutFailure::Unexpected(id)),
    }
}

impl Spending {
    #[verifier::type_invariant]
    spec fn under_ceiling(self) -> bool {
        self.sent <= self.ceiling
    }

    /// Nothing sent yet.
    pub fn new(ceiling: u32) -> (r: Self)
        ensures
            r@ == (ceiling, 0u32),
    {
        Spending { ceiling, sent: 0 }
    }

    /// The response to a packet came: what to do next.
    pub fn on_response(&mut self, id: ResponseId, payload: &[u8]) -> (r: SpendStep)
        requires
            old(self)@.1 < old(self)@.0,
        ensures
            r == spend_step(old(self)@.0, old(self)@.1, id, payload@),
            final(self)@ == (
                old(self)@.0,
                if id == ResponseId::TxComplete {
                    (old(self)@.1 + 1) as u32
                } else {
                    old(self)@.1
                },
            ),
    {
        match id {
            ResponseId::TxComplete => {
                self.sent = self.sent + 1;
                if self.sent >= self.ceiling {
                    SpendStep::Failed(LockoutFailure::NeverRefused)
                } else {
                    SpendStep::Send
                }
            },
            ResponseId::TxRefused => match parse_retry_secs(payload) {
                Ok(secs) => SpendStep::Spent(self.sent, secs),
                Err(len) => SpendStep::Failed(LockoutFailure::BadHint(len)),
            },
            _ => SpendStep::Failed(LockoutFailure::Unexpected(id)),
        }
    }
}

/// Why a spent SF11 budget is not the expected one, if so: about 110 packets
/// fill the allowance of the 10% band, and the hint lies within the hour.
pub fn judge_spent(sent: u32, retry_secs: u32) -> (r: Option<LockoutFailure>)
    ensures
        r == (if !(100 <= sent <= 115) {
            Some(LockoutFailure::WrongBudget(sent))
        } else if !hint_in_order(retry_secs) {
            Some(LockoutFailure::HintOutOfRange(retry_secs))
        } else {
            None
        }),
{
    if sent < 100 || sent > 115 {
        Some(LockoutFailure::WrongBudget(sent))
    } else if retry_secs == 0 || retry_secs > 3_600 {
        Some(LockoutFailure::HintOutOfRange(retry_secs))
    } else {
        None
    }
}

/// Why a drained SF7 headroom is not in order, if so.
pub fn judge_drained(retry_secs: u32) -> (r: Option<LockoutFailure>)
    ensures
        r == (if !hint_in_order(retry_secs) {
            Some(LockoutFailure::HintOutOfRange(retry_secs))
        } else {
            None
        }),
{
    if retry_secs == 0 || retry_secs > 3_600 {
        Some(LockoutFailure::HintOutOfRange(retry_secs))
    } else {
        None
    }
}

/// The spreading factor is the fifth byte of a radio configuration, and a retry hint is
/// a number in four bytes, low byte first, and nothing else.
pub proof fn reports_are_read(
    payload: &[u8],
    sf: Option<u8>,
    secs: Result<u32, usize>,
)
    requires
        call_ensures(reported_spreading_factor, (payload,), sf),
        call_ensures(parse_retry_secs, (payload,), secs),
    ensures
        payload@.len() >= 5 ==> sf == Some(payload@[4]),
        payload@.len() < 5 ==> sf is None,
        payload@.len() == 4 ==> (secs matches Ok(n) && n == payload@[0] + 256 * payload@[1] + 65_536
            * payload@[2] + 16_777_216 * payload@[3]),
        payload@.len() != 4 ==> (secs matches Err(len) && len == payload@.len()),
{
}

/// Packets are sent until one is refused: each that went out is counted, the refusal
/// ends the spending with that count and its hint, and anything else fails the check, as
/// does reaching the ceiling.
pub proof fn spending_goes_on_until_refused(
    spending: &mut Spending,
    id: ResponseId,
    payload: &[u8],
    r: SpendStep,
)
    requires
        call_ensures(Spending::on_response, (spending, id, payload), r),
        old(spending)@.1 < old(spending)@.0,
    ensures
        id == ResponseId::TxComplete ==> final(spending)@.1 == old(spending)@.1 + 1 && r == (
        if old(spending)@.1 + 1 < old(spending)@.0 {
            SpendStep::Send
        } else {
            SpendStep::Failed(LockoutFailure::NeverRefused)
        }),
        id == ResponseId::TxRefused && payload@.len() == 4 ==> (r matches SpendStep::Spent(
            sent,
            secs,
        ) && sent == old(spending)@.1 && secs == payload@[0] + 256 * payload@[1] + 65_536
            * payload@[2] + 16_777_216 * payload@[3]),
        id == ResponseId::TxRefused && payload@.len() != 4 ==> (r matches SpendStep::Failed(
            LockoutFailure::BadHint(len),
        ) && len == payload@.len() as usize),
        id != ResponseId::TxComplete && id != ResponseId::TxRefused ==> r == SpendStep::Failed(
            LockoutFailure::Unexpected(id),
        ),
        id != ResponseId::TxComplete ==> final(spending)@.1 == old(spending)@.1,
        final(spending)@.0 == old(spending)@.0,
{
}

/// A spent budget is in order with 100 to 115 packets and a hint of 1 to 3600 seconds,
/// a drained one with such a hint.
pub proof fn budgets_are_judged(
    sent: u32,
    retry_secs: u32,
    spent: Option<LockoutFailure>,
    drained: Option<LockoutFailure>,
)
    requires
        call_ensures(judge_spent, (sent, retry_secs), spent),
        call_ensures(judge_drained, (retry_secs,), drained),
    ensures
        spent is None <==> 100 <= sent <= 115 && 1 <= retry_secs <= 3_600,
        sent < 100 || sent > 115 ==> spent == Some(LockoutFailure::WrongBudget(sent)),
        100 <= sent <= 115 && (retry_secs == 0 || retry_secs > 3_600) ==> spent == Some(
            LockoutFailure::HintOutOfRange(retry_secs),
        ),
        drained is None <==> 1 <= retry_secs <= 3_600,
        drained is Some ==> drained == Some(LockoutFailure::HintOutOfRange(retry_secs)),
{
}

/// Spending begins with nothing sent.
pub proof fn spending_begins_with_nothing(ceiling: u32, r: Spending)
    requires
        call_ensures(Spending::new, (ceiling,), r),
    ensures
        r@.0 == ceiling,
        r@.1 == 0,
{
}

} // verus!
