//! Nodle-specific transaction configuration: the two signed extensions that
//! Nodle adds to the generic set, and the builder of the parameters that the
//! ordered extension tuple consumes when a transaction is signed.
use scale_info::PortableRegistry;
use subxt::utils::Era;
use vstd::arithmetic::power2::{lemma2_to64, lemma_pow2_strictly_increases, pow2};
use vstd::prelude::*;
use vstd::string::StringSliceAdditionalSpecFns;

verus! {

/// The shortest validity window a mortal transaction can have.
pub const MIN_MORTAL_PERIOD: u64 = 4;

/// The longest validity window a mortal transaction can have.
pub const MAX_MORTAL_PERIOD: u64 = 65536;

#[verifier::external_type_specification]
#[verifier::external_body]
pub struct ExPortableRegistry(scale_info::PortableRegistry);

/// Whether two byte strings are equal.
fn bytes_equal(a: &[u8], b: &[u8]) -> (res: bool)
    ensures
        res == (a@ == b@),
{
    if a.len() != b.len() {
        return false;
    }
    let mut i: usize = 0;
    while i < a.len()
        invariant
            a@.len() == b@.len(),
            i <= a@.len(),
            a@.subrange(0, i as int) == b@.subrange(0, i as int),
        decreases a@.len() - i,
    {
        if a[i] != b[i] {
            assert(a@.subrange(0, i as int + 1)[i as int] != b@.subrange(0, i as int + 1)[i as int]);
            return false;
        }
        assert(a@.subrange(0, i as int + 1) =~= a@.subrange(0, i as int).push(a@[i as int]));
        assert(b@.subrange(0, i as int + 1) =~= b@.subrange(0, i as int).push(b@[i as int]));
        i = i + 1;
    }
    assert(a@ =~= a@.subrange(0, i as int));
    assert(b@ =~= b@.subrange(0, i as int));
    true
}

/// The signed extension that accounts for a transaction's weight. It carries
/// no bytes on the wire.
pub struct CheckWeight;

impl CheckWeight {
    /// Whether a signed extension that the chain declares is this one.
    pub fn matches(identifier: &str, _type_id: u32, _types: &PortableRegistry) -> (res: bool)
        ensures
            res == (identifier.spec_bytes() == "CheckWeight".spec_bytes()),
    {
        bytes_equal(identifier.as_bytes(), "CheckWeight".as_bytes())
    }
}

/// Nodle's signed extension that lets a sponsor pay for a transaction. It
/// carries no bytes on the wire.
pub struct ChargeSponsor;

impl ChargeSponsor {
    /// Whether a signed extension that the chain declares is this one.
    pub fn matches(identifier: &str, _type_id: u32, _types: &PortableRegistry) -> (res: bool)
        ensures
            res == (identifier.spec_bytes() == "ChargeSponsor".spec_bytes()),
    {
        bytes_equal(identifier.as_bytes(), "ChargeSponsor".as_bytes())
    }
}

/// The exponent of the validity window that a requested period rounds to:
/// the smallest `k >= from` with `period <= 2^k`, and at most 16.
pub open spec fn era_period_exp_from(period: u64, from: nat) -> nat
    decreases 16 - from,
{
    if from >= 16 || period <= pow2(from) {
        from
    } else {
        era_period_exp_from(period, from + 1)
    }
}

/// The validity window that a requested period rounds to: the next power of
/// two, and at least 4 and at most 65536.
pub open spec fn era_period(period: u64) -> u64 {
    pow2(era_period_exp_from(period, 2)) as u64
}

/// The phase in the window of the block that a mortal transaction starts
/// from, coarsened to a multiple of `window / 4096` for windows over 4096.
pub open spec fn era_phase(period: u64, current: u64) -> u64 {
    let window = era_period(period);
    let quantum = if window / 4096 == 0 { 1 } else { window / 4096 };
    ((current % window) / quantum * quantum) as u64
}

proof fn lemma_era_period_exp_bounds(period: u64, from: nat)
    requires
        2 <= from <= 16,
    ensures
        from <= era_period_exp_from(period, from) <= 16,
        era_period_exp_from(period, from) < 16 ==> period <= pow2(era_period_exp_from(period, from)),
        era_period_exp_from(period, from) > from ==> pow2((era_period_exp_from(period, from) - 1) as nat) < period,
    decreases 16 - from,
{
    if from < 16 && period > pow2(from) {
        lemma_era_period_exp_bounds(period, from + 1);
    }
}

/// The window rule for a positive requested period: the window is a power
/// of two between 4 and 65536; it is the smallest such power that is at
/// least the requested period, or 65536 when the request is larger. The
/// start block's phase lies inside the window.
pub proof fn lemma_era_period_rounding(period: u64, current: u64)
    ensures
        exists|k: nat| 2 <= k <= 16 && era_period(period) == pow2(k),
        MIN_MORTAL_PERIOD <= era_period(period) <= MAX_MORTAL_PERIOD,
        period <= MAX_MORTAL_PERIOD ==> period <= era_period(period),
        era_period(period) > MIN_MORTAL_PERIOD ==> era_period(period) / 2 < period,
        period > MAX_MORTAL_PERIOD ==> era_period(period) == MAX_MORTAL_PERIOD,
        era_phase(period, current) < era_period(period),
{
    let k = era_period_exp_from(period, 2);
    lemma_era_period_exp_bounds(period, 2);
    lemma2_to64();
    if k < 16 {
        lemma_pow2_strictly_increases(k, 16);
    }
    if 2 < k {
        lemma_pow2_strictly_increases(2, k);
        lemma_pow2_strictly_increases((k - 1) as nat, k);
        assert(pow2(k) == 2 * pow2((k - 1) as nat)) by {
            vstd::arithmetic::power2::lemma_pow2_unfold(k);
        }
    }
    if k == 2 {
        assert(era_period(period) == 4);
    }
    if period > MAX_MORTAL_PERIOD {
        if k < 16 {
            assert(period <= pow2(k));
        }
    }
    assert(exists|j: nat| 2 <= j <= 16 && era_period(period) == pow2(j)) by {
        assert(2 <= k <= 16 && era_period(period) == pow2(k));
    }
    let window = era_period(period);
    let quantum: int = if window / 4096 == 0 { 1 } else { (window / 4096) as int };
    let phase: int = (current % window) as int;
    assert(phase < window);
    assert((phase / quantum) * quantum <= phase) by (nonlinear_arith)
        requires
            quantum > 0,
            phase >= 0,
    {
        vstd::arithmetic::div_mod::lemma_fundamental_div_mod(phase as int, quantum);
    }
}

/// Relies on `subxt::utils::Era::mortal`: a mortal era whose window is the
/// requested period rounded up to a power of two and clamped to `4..=65536`,
/// and whose phase is the start block number modulo the window, rounded down
/// to a multiple of `window >> 12` when that is above 1.
#[verifier::external_body]
fn era_mortal(period: u64, current: u64) -> (res: Option<(u64, u64)>)
    ensures
        res == Some((era_period(period), era_phase(period, current))),
{
    match Era::mortal(period, current) {
        Era::Mortal { period, phase } => Some((period, phase)),
        Era::Immortal => None,
    }
}

/// What the parameter builder reads of a block header.
#[derive(Clone, Copy, Debug)]
pub struct BlockHeader {
    pub hash: [u8; 32],
    pub number: u64,
}

/// A requested validity window.
#[derive(Clone, Copy, Debug)]
pub struct Mortality {
    /// Block hash that mortality starts from.
    pub checkpoint_hash: [u8; 32],
    /// Block number that mortality starts from; it must point to the same
    /// block as the hash.
    pub checkpoint_number: u64,
    /// How many blocks the transaction is mortal for, before rounding.
    pub period: u64,
}

/// The mortality slot of the parameter tuple.
#[derive(Clone, Copy, Debug)]
pub enum MortalityParams {
    /// The transaction is valid forever.
    Immortal,
    /// The transaction expires `period` blocks after the checkpoint.
    Mortal { period: u64, phase: u64, checkpoint_number: u64, checkpoint_hash: [u8; 32] },
}

/// The parameters of the ordered signed-extension tuple: spec version, tx
/// version, genesis, mortality, nonce (`None` lets the signing layer fetch
/// it), weight, tip in base units, sponsor.
pub type ExtrasParams = ((), (), (), MortalityParams, Option<u64>, (), u128, ());

/// A builder of the parameters that a Nodle transaction is signed with.
pub struct NodleExtrinsicParamsBuilder {
    /// `None` means the transaction will be immortal.
    mortality: Option<Mortality>,
    tip: u128,
    nonce: Option<u64>,
}

impl View for NodleExtrinsicParamsBuilder {
    /// The requested mortality, tip and nonce.
    type V = (Option<Mortality>, u128, Option<u64>);

    closed spec fn view(&self) -> Self::V {
        (self.mortality, self.tip, self.nonce)
    }
}

/// The mortality slot for a request. A period of zero asks for no expiry at
/// all, and so gives an immortal transaction.
pub open spec fn mortality_params_of(m: Option<Mortality>) -> MortalityParams {
    match m {
        None => MortalityParams::Immortal,
        Some(m) => if m.period == 0 {
            MortalityParams::Immortal
        } else {
            MortalityParams::Mortal {
            period: era_period(m.period),
            phase: era_phase(m.period, m.checkpoint_number),
            checkpoint_number: m.checkpoint_number,
            checkpoint_hash: m.checkpoint_hash,
            }
        },
    }
}

/// The parameter tuple that a builder in a given state produces.
pub open spec fn build_spec(b: (Option<Mortality>, u128, Option<u64>)) -> ExtrasParams {
    ((), (), (), mortality_params_of(b.0), b.2, (), b.1, ())
}

impl Default for NodleExtrinsicParamsBuilder {
    fn default() -> (res: Self)
        ensures
            res@ == (None::<Mortality>, 0u128, None::<u64>),
    {
        NodleExtrinsicParamsBuilder { mortality: None, tip: 0, nonce: None }
    }
}

impl NodleExtrinsicParamsBuilder {
    /// Makes the transaction mortal from the given block, for roughly
    /// `for_n_blocks` blocks (rounded to a power of two when built).
    pub fn mortal(self, from_block: &BlockHeader, for_n_blocks: u64) -> (res: Self)
        ensures
            res@ == (
                Some(
                    Mortality {
                        checkpoint_hash: from_block.hash,
                        checkpoint_number: from_block.number,
                        period: for_n_blocks,
                    },
                ),
                self@.1,
                self@.2,
            ),
    {
        NodleExtrinsicParamsBuilder {
            mortality: Some(
                Mortality {
                    checkpoint_hash: from_block.hash,
                    checkpoint_number: from_block.number,
                    period: for_n_blocks,
                },
            ),
            ..self
        }
    }

    /// Provides a tip to the block author in the chain's native token.
    pub fn tip(self, tip: u128) -> (res: Self)
        ensures
            res@ == (self@.0, tip, self@.2),
    {
        NodleExtrinsicParamsBuilder { tip, ..self }
    }

    /// Sets the nonce explicitly.
    pub fn nonce(self, nonce: u64) -> (res: Self)
        ensures
            res@ == (self@.0, self@.1, Some(nonce)),
    {
        NodleExtrinsicParamsBuilder { nonce: Some(nonce), ..self }
    }

    /// Builds the extrinsic parameters.
    pub fn build(self) -> (res: ExtrasParams)
        ensures
            res == build_spec(self@),
    {
        let check_mortality_params = match self.mortality {
            Some(m) => if m.period == 0 {
                MortalityParams::Immortal
            } else {
                match era_mortal(m.period, m.checkpoint_number) {
                Some((period, phase)) => MortalityParams::Mortal {
                    period,
                    phase,
                    checkpoint_number: m.checkpoint_number,
                    checkpoint_hash: m.checkpoint_hash,
                },
                None => MortalityParams::Immortal,
                }
            },
            None => MortalityParams::Immortal,
        };
        ((), (), (), check_mortality_params, self.nonce, (), self.tip, ())
    }
}

/// A builder on which no mortality, tip or nonce was set builds an immortal
/// transaction with no tip and a nonce left to the signing layer.
pub proof fn lemma_unset_builder_builds_defaults(b: NodleExtrinsicParamsBuilder)
    requires
        b@ == (None::<Mortality>, 0u128, None::<u64>),
    ensures
        build_spec(b@).3 == MortalityParams::Immortal,
        build_spec(b@).4 == None::<u64>,
        build_spec(b@).6 == 0,
{
}

/// A requested mortality period of zero builds an immortal transaction. A
/// positive one builds a mortal transaction from the requested checkpoint,
/// whose window is the smallest power of two from 4 to 65536 that holds the
/// period (65536 for longer periods), and whose phase lies in the window.
pub proof fn lemma_mortality_slot(m: Mortality)
    ensures
        m.period == 0 ==> mortality_params_of(Some(m)) == MortalityParams::Immortal,
        m.period > 0 ==> mortality_params_of(Some(m)) is Mortal,
        mortality_params_of(Some(m)) matches MortalityParams::Mortal {
            period,
            phase,
            checkpoint_number,
            checkpoint_hash,
        } ==> {
            &&& exists|k: nat| 2 <= k <= 16 && period == pow2(k)
            &&& MIN_MORTAL_PERIOD <= period <= MAX_MORTAL_PERIOD
            &&& (m.period <= MAX_MORTAL_PERIOD ==> m.period <= period)
            &&& (period > MIN_MORTAL_PERIOD ==> period / 2 < m.period)
            &&& (m.period > MAX_MORTAL_PERIOD ==> period == MAX_MORTAL_PERIOD)
            &&& phase < period
            &&& checkpoint_number == m.checkpoint_number
            &&& checkpoint_hash == m.checkpoint_hash
        },
{
    lemma_era_period_rounding(m.period, m.checkpoint_number);
}

} // verus!
