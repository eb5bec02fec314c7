//! Debug security policies: the pair of words (`CC_SOCU_PIN` and
//! `CC_SOCU_DFLT`) that fix or open each debug access.
use crate::bytes;
use vstd::prelude::*;

verus! {

/// What is allowed for one debug access.
#[derive(Clone, Copy, Debug, PartialEq, Eq, Hash, PartialOrd, Ord)]
pub enum DebugSecurityPolicy {
    EnableWithDap,
    Disabled,
    Enabled,
}

impl Default for DebugSecurityPolicy {
    fn default() -> (r: Self)
        ensures
            r == DebugSecurityPolicy::EnableWithDap,
    {
        DebugSecurityPolicy::EnableWithDap
    }
}

/// The policy of a "fixed" bit and a "set" bit: not fixed means it can be enabled
/// through the debug mailbox; fixed means the set bit decides.
pub open spec fn debug_policy_of(fix: bool, set: bool) -> DebugSecurityPolicy {
    if !fix {
        DebugSecurityPolicy::EnableWithDap
    } else if !set {
        DebugSecurityPolicy::Disabled
    } else {
        DebugSecurityPolicy::Enabled
    }
}

/// The "fixed" bit a policy is written with.
pub open spec fn debug_policy_fixed_bit(policy: DebugSecurityPolicy) -> u32 {
    match policy {
        DebugSecurityPolicy::EnableWithDap => 0u32,
        _ => 1u32,
    }
}

/// The "set" bit a policy is written with.
pub open spec fn debug_policy_enabled_bit(policy: DebugSecurityPolicy) -> u32 {
    match policy {
        DebugSecurityPolicy::Enabled => 1u32,
        _ => 0u32,
    }
}

impl DebugSecurityPolicy {
    fn fixed_bit(&self) -> (r: u32)
        ensures
            r == debug_policy_fixed_bit(*self),
    {
        match *self {
            DebugSecurityPolicy::EnableWithDap => 0,
            _ => 1,
        }
    }

    fn enabled_bit(&self) -> (r: u32)
        ensures
            r == debug_policy_enabled_bit(*self),
    {
        match *self {
            DebugSecurityPolicy::Enabled => 1,
            _ => 0,
        }
    }
}

impl From<[bool; 2]> for DebugSecurityPolicy {
    fn from(bits: [bool; 2]) -> (r: Self) {
        let fix = bits[0];
        let set = bits[1];
        match (fix, set) {
            (false, _) => DebugSecurityPolicy::EnableWithDap,
            (true, false) => DebugSecurityPolicy::Disabled,
            (true, true) => DebugSecurityPolicy::Enabled,
        }
    }
}

impl vstd::std_specs::convert::FromSpecImpl<[bool; 2]> for DebugSecurityPolicy {
    open spec fn obeys_from_spec() -> bool {
        true
    }

    open spec fn from_spec(bits: [bool; 2]) -> DebugSecurityPolicy {
        debug_policy_of(bits[0], bits[1])
    }
}

/// A policy's own bits give the policy back.
pub proof fn lemma_debug_policy_of_bits(policy: DebugSecurityPolicy)
    ensures
        debug_policy_of(
            debug_policy_fixed_bit(policy) != 0,
            debug_policy_enabled_bit(policy) != 0,
        ) == policy,
{
}

/// The policy of every debug access, and whether debug authentication checks the
/// device UUID.
#[derive(Clone, Copy, Debug, Default, PartialEq, Eq, Hash, PartialOrd, Ord)]
pub struct DebugSecurityPolicies {
    pub nonsecure_noninvasive: DebugSecurityPolicy,
    pub nonsecure_invasive: DebugSecurityPolicy,
    pub secure_noninvasive: DebugSecurityPolicy,
    pub secure_invasive: DebugSecurityPolicy,
    pub cm33_invasive: DebugSecurityPolicy,
    pub cm33_noninvasive: DebugSecurityPolicy,
    /// JTAG test access port
    pub jtag_tap: DebugSecurityPolicy,
    /// ISP boot command
    pub isp_boot_command: DebugSecurityPolicy,
    /// FA (fault analysis) command
    pub fault_analysis_command: DebugSecurityPolicy,
    /// enforce UUID match during debug authentication
    pub check_uuid: bool,
}

/// Whether bit `k` of `word` is set.
pub open spec fn bit_of(word: u32, k: u32) -> bool {
    ((word >> k) & 1) != 0
}

/// The policies a pair of words holds: the access at bit `k` (0 to 7, and 9) takes
/// its "fixed" bit from `fix` and its "set" bit from `set`; bit 15 of `fix` asks
/// for the UUID check.
pub open spec fn debug_security_policies_of(fix: u32, set: u32) -> DebugSecurityPolicies {
    DebugSecurityPolicies {
        nonsecure_noninvasive: debug_policy_of(bit_of(fix, 0), bit_of(set, 0)),
        nonsecure_invasive: debug_policy_of(bit_of(fix, 1), bit_of(set, 1)),
        secure_noninvasive: debug_policy_of(bit_of(fix, 2), bit_of(set, 2)),
        secure_invasive: debug_policy_of(bit_of(fix, 3), bit_of(set, 3)),
        jtag_tap: debug_policy_of(bit_of(fix, 4), bit_of(set, 4)),
        cm33_invasive: debug_policy_of(bit_of(fix, 5), bit_of(set, 5)),
        isp_boot_command: debug_policy_of(bit_of(fix, 6), bit_of(set, 6)),
        fault_analysis_command: debug_policy_of(bit_of(fix, 7), bit_of(set, 7)),
        cm33_noninvasive: debug_policy_of(bit_of(fix, 9), bit_of(set, 9)),
        check_uuid: bit_of(fix, 15),
    }
}

fn bit(word: u32, k: u32) -> (r: bool)
    requires
        k < 32,
    ensures
        r == bit_of(word, k),
{
    ((word >> k) & 1) != 0
}

impl From<[u32; 2]> for DebugSecurityPolicies {
    fn from(value: [u32; 2]) -> (r: Self) {
        let fix = value[0];
        let set = value[1];
        DebugSecurityPolicies {
            nonsecure_noninvasive: DebugSecurityPolicy::from([bit(fix, 0), bit(set, 0)]),
            nonsecure_invasive: DebugSecurityPolicy::from([bit(fix, 1), bit(set, 1)]),
            secure_noninvasive: DebugSecurityPolicy::from([bit(fix, 2), bit(set, 2)]),
            secure_invasive: DebugSecurityPolicy::from([bit(fix, 3), bit(set, 3)]),
            jtag_tap: DebugSecurityPolicy::from([bit(fix, 4), bit(set, 4)]),
            cm33_invasive: DebugSecurityPolicy::from([bit(fix, 5), bit(set, 5)]),
            isp_boot_command: DebugSecurityPolicy::from([bit(fix, 6), bit(set, 6)]),
            fault_analysis_command: DebugSecurityPolicy::from([bit(fix, 7), bit(set, 7)]),
            cm33_noninvasive: DebugSecurityPolicy::from([bit(fix, 9), bit(set, 9)]),
            check_uuid: bit(fix, 15),
        }
    }
}

impl vstd::std_specs::convert::FromSpecImpl<[u32; 2]> for DebugSecurityPolicies {
    open spec fn obeys_from_spec() -> bool {
        true
    }

    open spec fn from_spec(value: [u32; 2]) -> DebugSecurityPolicies {
        debug_security_policies_of(value[0], value[1])
    }
}

/// The low half of the "fixed" word: each access's fixed bit at its position, and
/// the UUID check at bit 15.
pub open spec fn debug_fixed_low(p: DebugSecurityPolicies) -> u32 {
    debug_policy_fixed_bit(p.nonsecure_noninvasive) | (debug_policy_fixed_bit(p.nonsecure_invasive)
        << 1u32) | (debug_policy_fixed_bit(p.secure_noninvasive) << 2u32) | (debug_policy_fixed_bit(
        p.secure_invasive,
    ) << 3u32) | (debug_policy_fixed_bit(p.jtag_tap) << 4u32) | (debug_policy_fixed_bit(
        p.cm33_invasive,
    ) << 5u32) | (debug_policy_fixed_bit(p.isp_boot_command) << 6u32) | (debug_policy_fixed_bit(
        p.fault_analysis_command,
    ) << 7u32) | (debug_policy_fixed_bit(p.cm33_noninvasive) << 9u32) | ((if p.check_uuid {
        1u32
    } else {
        0u32
    }) << 15u32)
}

/// The low half of the "set" word: each access's set bit at its position.
pub open spec fn debug_enabled_low(p: DebugSecurityPolicies) -> u32 {
    debug_policy_enabled_bit(p.nonsecure_noninvasive) | (debug_policy_enabled_bit(
        p.nonsecure_invasive,
    ) << 1u32) | (debug_policy_enabled_bit(p.secure_noninvasive) << 2u32) | (
    debug_policy_enabled_bit(p.secure_invasive) << 3u32) | (debug_policy_enabled_bit(p.jtag_tap)
        << 4u32) | (debug_policy_enabled_bit(p.cm33_invasive) << 5u32) | (debug_policy_enabled_bit(
        p.isp_boot_command,
    ) << 6u32) | (debug_policy_enabled_bit(p.fault_analysis_command) << 7u32) | (
    debug_policy_enabled_bit(p.cm33_noninvasive) << 9u32)
}

/// The "fixed" word written: the fixed bits in the low half, their inverse in the
/// high half.
pub open spec fn debug_fixed_word(p: DebugSecurityPolicies) -> u32 {
    bytes::with_inverse_high_half(debug_fixed_low(p))
}

/// The "set" word written: the set bits in the low half, their inverse in the
/// high half.
pub open spec fn debug_enabled_word(p: DebugSecurityPolicies) -> u32 {
    bytes::with_inverse_high_half(debug_enabled_low(p))
}

impl From<DebugSecurityPolicies> for [u32; 2] {
    fn from(policies: DebugSecurityPolicies) -> (r: [u32; 2]) {
        let uuid: u32 = if policies.check_uuid {
            1
        } else {
            0
        };
        let mut fixed: u32 = policies.nonsecure_noninvasive.fixed_bit() | (
        policies.nonsecure_invasive.fixed_bit() << 1u32) | (policies.secure_noninvasive.fixed_bit()
            << 2u32) | (policies.secure_invasive.fixed_bit() << 3u32) | (
        policies.jtag_tap.fixed_bit() << 4u32) | (policies.cm33_invasive.fixed_bit() << 5u32) | (
        policies.isp_boot_command.fixed_bit() << 6u32) | (
        policies.fault_analysis_command.fixed_bit() << 7u32) | (
        policies.cm33_noninvasive.fixed_bit() << 9u32) | (uuid << 15u32);
        let mut enabled: u32 = policies.nonsecure_noninvasive.enabled_bit() | (
        policies.nonsecure_invasive.enabled_bit() << 1u32) | (
        policies.secure_noninvasive.enabled_bit() << 2u32) | (
        policies.secure_invasive.enabled_bit() << 3u32) | (policies.jtag_tap.enabled_bit()
            << 4u32) | (policies.cm33_invasive.enabled_bit() << 5u32) | (
        policies.isp_boot_command.enabled_bit() << 6u32) | (
        policies.fault_analysis_command.enabled_bit() << 7u32) | (
        policies.cm33_noninvasive.enabled_bit() << 9u32);

        // "Inverse value of [15:0]"
        fixed = fixed | ((!fixed & 0xFFFF) << 16u32);
        enabled = enabled | ((!enabled & 0xFFFF) << 16u32);

        [fixed, enabled]
    }
}

impl vstd::std_specs::convert::FromSpecImpl<DebugSecurityPolicies> for [u32; 2] {
    open spec fn obeys_from_spec() -> bool {
        true
    }

    open spec fn from_spec(policies: DebugSecurityPolicies) -> [u32; 2] {
        [debug_fixed_word(policies), debug_enabled_word(policies)]
    }
}

proof fn lemma_policy_bits(
    a0: u32,
    a1: u32,
    a2: u32,
    a3: u32,
    a4: u32,
    a5: u32,
    a6: u32,
    a7: u32,
    a9: u32,
    u: u32,
)
    requires
        a0 <= 1,
        a1 <= 1,
        a2 <= 1,
        a3 <= 1,
        a4 <= 1,
        a5 <= 1,
        a6 <= 1,
        a7 <= 1,
        a9 <= 1,
        u <= 1,
    ensures
        ({
            let low = a0 | (a1 << 1u32) | (a2 << 2u32) | (a3 << 3u32) | (a4 << 4u32) | (a5
                << 5u32) | (a6 << 6u32) | (a7 << 7u32) | (a9 << 9u32) | (u << 15u32);
            let w = low | ((!low & 0xFFFF) << 16u32);
            &&& (w >> 0u32) & 1 == a0
            &&& (w >> 1u32) & 1 == a1
            &&& (w >> 2u32) & 1 == a2
            &&& (w >> 3u32) & 1 == a3
            &&& (w >> 4u32) & 1 == a4
            &&& (w >> 5u32) & 1 == a5
            &&& (w >> 6u32) & 1 == a6
            &&& (w >> 7u32) & 1 == a7
            &&& (w >> 9u32) & 1 == a9
            &&& (w >> 15u32) & 1 == u
        }),
{
    assert({
        let low = a0 | (a1 << 1u32) | (a2 << 2u32) | (a3 << 3u32) | (a4 << 4u32) | (a5 << 5u32)
            | (a6 << 6u32) | (a7 << 7u32) | (a9 << 9u32) | (u << 15u32);
        let w = low | ((!low & 0xFFFF) << 16u32);
        &&& (w >> 0u32) & 1 == a0
        &&& (w >> 1u32) & 1 == a1
        &&& (w >> 2u32) & 1 == a2
        &&& (w >> 3u32) & 1 == a3
        &&& (w >> 4u32) & 1 == a4
        &&& (w >> 5u32) & 1 == a5
        &&& (w >> 6u32) & 1 == a6
        &&& (w >> 7u32) & 1 == a7
        &&& (w >> 9u32) & 1 == a9
        &&& (w >> 15u32) & 1 == u
    }) by (bit_vector)
        requires
            a0 <= 1,
            a1 <= 1,
            a2 <= 1,
            a3 <= 1,
            a4 <= 1,
            a5 <= 1,
            a6 <= 1,
            a7 <= 1,
            a9 <= 1,
            u <= 1,
    ;
}

/// Both written words have their inverse in the high half.
pub proof fn lemma_debug_words_inverse_halves(p: DebugSecurityPolicies)
    ensures
        debug_fixed_word(p) >> 16u32 == !debug_fixed_word(p) & 0xFFFF,
        debug_enabled_word(p) >> 16u32 == !debug_enabled_word(p) & 0xFFFF,
{
    let f = debug_fixed_low(p);
    let e = debug_enabled_low(p);
    assert(f <= 0xFFFF && e <= 0xFFFF) by {
        lemma_debug_low_halves(p);
    }
    assert(f <= 0xFFFF ==> (f | ((!f & 0xFFFF) << 16u32)) >> 16u32 == !(f | ((!f & 0xFFFF)
        << 16u32)) & 0xFFFF) by (bit_vector);
    assert(e <= 0xFFFF ==> (e | ((!e & 0xFFFF) << 16u32)) >> 16u32 == !(e | ((!e & 0xFFFF)
        << 16u32)) & 0xFFFF) by (bit_vector);
}

proof fn lemma_debug_low_halves(p: DebugSecurityPolicies)
    ensures
        debug_fixed_low(p) <= 0xFFFF,
        debug_enabled_low(p) <= 0xFFFF,
{
    let u: u32 = if p.check_uuid {
        1
    } else {
        0
    };
    let a0 = debug_policy_fixed_bit(p.nonsecure_noninvasive);
    let a1 = debug_policy_fixed_bit(p.nonsecure_invasive);
    let a2 = debug_policy_fixed_bit(p.secure_noninvasive);
    let a3 = debug_policy_fixed_bit(p.secure_invasive);
    let a4 = debug_policy_fixed_bit(p.jtag_tap);
    let a5 = debug_policy_fixed_bit(p.cm33_invasive);
    let a6 = debug_policy_fixed_bit(p.isp_boot_command);
    let a7 = debug_policy_fixed_bit(p.fault_analysis_command);
    let a9 = debug_policy_fixed_bit(p.cm33_noninvasive);
    let b0 = debug_policy_enabled_bit(p.nonsecure_noninvasive);
    let b1 = debug_policy_enabled_bit(p.nonsecure_invasive);
    let b2 = debug_policy_enabled_bit(p.secure_noninvasive);
    let b3 = debug_policy_enabled_bit(p.secure_invasive);
    let b4 = debug_policy_enabled_bit(p.jtag_tap);
    let b5 = debug_policy_enabled_bit(p.cm33_invasive);
    let b6 = debug_policy_enabled_bit(p.isp_boot_command);
    let b7 = debug_policy_enabled_bit(p.fault_analysis_command);
    let b9 = debug_policy_enabled_bit(p.cm33_noninvasive);
    assert(a0 <= 1 && a1 <= 1 && a2 <= 1 && a3 <= 1 && a4 <= 1 && a5 <= 1 && a6 <= 1 && a7 <= 1
        && a9 <= 1 && u <= 1 ==> a0 | (a1 << 1u32) | (a2 << 2u32) | (a3 << 3u32) | (a4 << 4u32)
        | (a5 << 5u32) | (a6 << 6u32) | (a7 << 7u32) | (a9 << 9u32) | (u << 15u32) <= 0xFFFF)
        by (bit_vector);
    assert(b0 <= 1 && b1 <= 1 && b2 <= 1 && b3 <= 1 && b4 <= 1 && b5 <= 1 && b6 <= 1 && b7 <= 1
        && b9 <= 1 ==> b0 | (b1 << 1u32) | (b2 << 2u32) | (b3 << 3u32) | (b4 << 4u32) | (b5
        << 5u32) | (b6 << 6u32) | (b7 << 7u32) | (b9 << 9u32) <= 0xFFFF) by (bit_vector);
}

proof fn lemma_fixed_word_bits(p: DebugSecurityPolicies)
    ensures
        bit_of(debug_fixed_word(p), 0) == (debug_policy_fixed_bit(p.nonsecure_noninvasive) != 0),
        bit_of(debug_fixed_word(p), 1) == (debug_policy_fixed_bit(p.nonsecure_invasive) != 0),
        bit_of(debug_fixed_word(p), 2) == (debug_policy_fixed_bit(p.secure_noninvasive) != 0),
        bit_of(debug_fixed_word(p), 3) == (debug_policy_fixed_bit(p.secure_invasive) != 0),
        bit_of(debug_fixed_word(p), 4) == (debug_policy_fixed_bit(p.jtag_tap) != 0),
        bit_of(debug_fixed_word(p), 5) == (debug_policy_fixed_bit(p.cm33_invasive) != 0),
        bit_of(debug_fixed_word(p), 6) == (debug_policy_fixed_bit(p.isp_boot_command) != 0),
        bit_of(debug_fixed_word(p), 7) == (debug_policy_fixed_bit(p.fault_analysis_command) != 0),
        bit_of(debug_fixed_word(p), 9) == (debug_policy_fixed_bit(p.cm33_noninvasive) != 0),
        bit_of(debug_fixed_word(p), 15) == p.check_uuid,
{
    let u: u32 = if p.check_uuid {
        1
    } else {
        0
    };
    lemma_policy_bits(
        debug_policy_fixed_bit(p.nonsecure_noninvasive),
        debug_policy_fixed_bit(p.nonsecure_invasive),
        debug_policy_fixed_bit(p.secure_noninvasive),
        debug_policy_fixed_bit(p.secure_invasive),
        debug_policy_fixed_bit(p.jtag_tap),
        debug_policy_fixed_bit(p.cm33_invasive),
        debug_policy_fixed_bit(p.isp_boot_command),
        debug_policy_fixed_bit(p.fault_analysis_command),
        debug_policy_fixed_bit(p.cm33_noninvasive),
        u,
    );
}

proof fn lemma_enabled_bits(
    b0: u32,
    b1: u32,
    b2: u32,
    b3: u32,
    b4: u32,
    b5: u32,
    b6: u32,
    b7: u32,
    b9: u32,
)
    requires
        b0 <= 1,
        b1 <= 1,
        b2 <= 1,
        b3 <= 1,
        b4 <= 1,
        b5 <= 1,
        b6 <= 1,
        b7 <= 1,
        b9 <= 1,
    ensures
        ({
            let low = b0 | (b1 << 1u32) | (b2 << 2u32) | (b3 << 3u32) | (b4 << 4u32) | (b5
                << 5u32) | (b6 << 6u32) | (b7 << 7u32) | (b9 << 9u32);
            let w = low | ((!low & 0xFFFF) << 16u32);
            &&& (w >> 0u32) & 1 == b0
            &&& (w >> 1u32) & 1 == b1
            &&& (w >> 2u32) & 1 == b2
            &&& (w >> 3u32) & 1 == b3
            &&& (w >> 4u32) & 1 == b4
            &&& (w >> 5u32) & 1 == b5
            &&& (w >> 6u32) & 1 == b6
            &&& (w >> 7u32) & 1 == b7
            &&& (w >> 9u32) & 1 == b9
        }),
{
    assert({
        let low = b0 | (b1 << 1u32) | (b2 << 2u32) | (b3 << 3u32) | (b4 << 4u32) | (b5 << 5u32)
            | (b6 << 6u32) | (b7 << 7u32) | (b9 << 9u32);
        let w = low | ((!low & 0xFFFF) << 16u32);
        &&& (w >> 0u32) & 1 == b0
        &&& (w >> 1u32) & 1 == b1
        &&& (w >> 2u32) & 1 == b2
        &&& (w >> 3u32) & 1 == b3
        &&& (w >> 4u32) & 1 == b4
        &&& (w >> 5u32) & 1 == b5
        &&& (w >> 6u32) & 1 == b6
        &&& (w >> 7u32) & 1 == b7
        &&& (w >> 9u32) & 1 == b9
    }) by (bit_vector)
        requires
            b0 <= 1,
            b1 <= 1,
            b2 <= 1,
            b3 <= 1,
            b4 <= 1,
            b5 <= 1,
            b6 <= 1,
            b7 <= 1,
            b9 <= 1,
    ;
}

proof fn lemma_enabled_word_bits(p: DebugSecurityPolicies)
    ensures
        bit_of(debug_enabled_word(p), 0) == (debug_policy_enabled_bit(p.nonsecure_noninvasive)
            != 0),
        bit_of(debug_enabled_word(p), 1) == (debug_policy_enabled_bit(p.nonsecure_invasive) != 0),
        bit_of(debug_enabled_word(p), 2) == (debug_policy_enabled_bit(p.secure_noninvasive) != 0),
        bit_of(debug_enabled_word(p), 3) == (debug_policy_enabled_bit(p.secure_invasive) != 0),
        bit_of(debug_enabled_word(p), 4) == (debug_policy_enabled_bit(p.jtag_tap) != 0),
        bit_of(debug_enabled_word(p), 5) == (debug_policy_enabled_bit(p.cm33_invasive) != 0),
        bit_of(debug_enabled_word(p), 6) == (debug_policy_enabled_bit(p.isp_boot_command) != 0),
        bit_of(debug_enabled_word(p), 7) == (debug_policy_enabled_bit(p.fault_analysis_command)
            != 0),
        bit_of(debug_enabled_word(p), 9) == (debug_policy_enabled_bit(p.cm33_noninvasive) != 0),
{
    lemma_enabled_bits(
        debug_policy_enabled_bit(p.nonsecure_noninvasive),
        debug_policy_enabled_bit(p.nonsecure_invasive),
        debug_policy_enabled_bit(p.secure_noninvasive),
        debug_policy_enabled_bit(p.secure_invasive),
        debug_policy_enabled_bit(p.jtag_tap),
        debug_policy_enabled_bit(p.cm33_invasive),
        debug_policy_enabled_bit(p.isp_boot_command),
        debug_policy_enabled_bit(p.fault_analysis_command),
        debug_policy_enabled_bit(p.cm33_noninvasive),
    );
}

/// Debug policies written as their pair of words read back as themselves.
pub proof fn lemma_debug_policies_read_back(p: DebugSecurityPolicies)
    ensures
        debug_security_policies_of(debug_fixed_word(p), debug_enabled_word(p)) == p,
{
    lemma_fixed_word_bits(p);
    lemma_enabled_word_bits(p);
    lemma_debug_policy_of_bits(p.nonsecure_noninvasive);
    lemma_debug_policy_of_bits(p.nonsecure_invasive);
    lemma_debug_policy_of_bits(p.secure_noninvasive);
    lemma_debug_policy_of_bits(p.secure_invasive);
    lemma_debug_policy_of_bits(p.jtag_tap);
    lemma_debug_policy_of_bits(p.cm33_invasive);
    lemma_debug_policy_of_bits(p.isp_boot_command);
    lemma_debug_policy_of_bits(p.fault_analysis_command);
    lemma_debug_policy_of_bits(p.cm33_noninvasive);
}

/// Each access at bit `k` (0 to 7, and 9) is open to the debug mailbox when bit
/// `k` of the pinned word is clear, whatever the default word says; when it is
/// set, bit `k` of the default word enables or disables the access. Bit 15 of the
/// pinned word asks for the UUID check.
pub proof fn lemma_debug_security_policies_decode(fix: u32, set: u32)
    ensures
        ({
            let p = debug_security_policies_of(fix, set);
            &&& (fix & 0x1 == 0 ==> p.nonsecure_noninvasive == DebugSecurityPolicy::EnableWithDap)
            &&& (fix & 0x1 != 0 && set & 0x1 == 0 ==> p.nonsecure_noninvasive == DebugSecurityPolicy::Disabled)
            &&& (fix & 0x1 != 0 && set & 0x1 != 0 ==> p.nonsecure_noninvasive == DebugSecurityPolicy::Enabled)
            &&& (fix & 0x2 == 0 ==> p.nonsecure_invasive == DebugSecurityPolicy::EnableWithDap)
            &&& (fix & 0x2 != 0 && set & 0x2 == 0 ==> p.nonsecure_invasive == DebugSecurityPolicy::Disabled)
            &&& (fix & 0x2 != 0 && set & 0x2 != 0 ==> p.nonsecure_invasive == DebugSecurityPolicy::Enabled)
            &&& (fix & 0x4 == 0 ==> p.secure_noninvasive == DebugSecurityPolicy::EnableWithDap)
            &&& (fix & 0x4 != 0 && set & 0x4 == 0 ==> p.secure_noninvasive == DebugSecurityPolicy::Disabled)
            &&& (fix & 0x4 != 0 && set & 0x4 != 0 ==> p.secure_noninvasive == DebugSecurityPolicy::Enabled)
            &&& (fix & 0x8 == 0 ==> p.secure_invasive == DebugSecurityPolicy::EnableWithDap)
            &&& (fix & 0x8 != 0 && set & 0x8 == 0 ==> p.secure_invasive == DebugSecurityPolicy::Disabled)
            &&& (fix & 0x8 != 0 && set & 0x8 != 0 ==> p.secure_invasive == DebugSecurityPolicy::Enabled)
            &&& (fix & 0x10 == 0 ==> p.jtag_tap == DebugSecurityPolicy::EnableWithDap)
            &&& (fix & 0x10 != 0 && set & 0x10 == 0 ==> p.jtag_tap == DebugSecurityPolicy::Disabled)
            &&& (fix & 0x10 != 0 && set & 0x10 != 0 ==> p.jtag_tap == DebugSecurityPolicy::Enabled)
            &&& (fix & 0x20 == 0 ==> p.cm33_invasive == DebugSecurityPolicy::EnableWithDap)
            &&& (fix & 0x20 != 0 && set & 0x20 == 0 ==> p.cm33_invasive == DebugSecurityPolicy::Disabled)
            &&& (fix & 0x20 != 0 && set & 0x20 != 0 ==> p.cm33_invasive == DebugSecurityPolicy::Enabled)
            &&& (fix & 0x40 == 0 ==> p.isp_boot_command == DebugSecurityPolicy::EnableWithDap)
            &&& (fix & 0x40 != 0 && set & 0x40 == 0 ==> p.isp_boot_command == DebugSecurityPolicy::Disabled)
            &&& (fix & 0x40 != 0 && set & 0x40 != 0 ==> p.isp_boot_command == DebugSecurityPolicy::Enabled)
            &&& (fix & 0x80 == 0 ==> p.fault_analysis_command == DebugSecurityPolicy::EnableWithDap)
            &&& (fix & 0x80 != 0 && set & 0x80 == 0 ==> p.fault_analysis_command == DebugSecurityPolicy::Disabled)
            &&& (fix & 0x80 != 0 && set & 0x80 != 0 ==> p.fault_analysis_command == DebugSecurityPolicy::Enabled)
            &&& (fix & 0x200 == 0 ==> p.cm33_noninvasive == DebugSecurityPolicy::EnableWithDap)
            &&& (fix & 0x200 != 0 && set & 0x200 == 0 ==> p.cm33_noninvasive == DebugSecurityPolicy::Disabled)
            &&& (fix & 0x200 != 0 && set & 0x200 != 0 ==> p.cm33_noninvasive == DebugSecurityPolicy::Enabled)
            &&& p.check_uuid == (fix & 0x8000 != 0)
        }),
{
    assert((((fix >> 0u32) & 1) != 0) == (fix & 0x1 != 0) && (((set >> 0u32) & 1) != 0) == (set & 0x1 != 0)
        && (((fix >> 1u32) & 1) != 0) == (fix & 0x2 != 0) && (((set >> 1u32) & 1) != 0) == (set & 0x2 != 0)
        && (((fix >> 2u32) & 1) != 0) == (fix & 0x4 != 0) && (((set >> 2u32) & 1) != 0) == (set & 0x4 != 0)
        && (((fix >> 3u32) & 1) != 0) == (fix & 0x8 != 0) && (((set >> 3u32) & 1) != 0) == (set & 0x8 != 0)
        && (((fix >> 4u32) & 1) != 0) == (fix & 0x10 != 0) && (((set >> 4u32) & 1) != 0) == (set & 0x10 != 0)
        && (((fix >> 5u32) & 1) != 0) == (fix & 0x20 != 0) && (((set >> 5u32) & 1) != 0) == (set & 0x20 != 0)
        && (((fix >> 6u32) & 1) != 0) == (fix & 0x40 != 0) && (((set >> 6u32) & 1) != 0) == (set & 0x40 != 0)
        && (((fix >> 7u32) & 1) != 0) == (fix & 0x80 != 0) && (((set >> 7u32) & 1) != 0) == (set & 0x80 != 0)
        && (((fix >> 9u32) & 1) != 0) == (fix & 0x200 != 0) && (((set >> 9u32) & 1) != 0) == (set & 0x200 != 0)
        && (((fix >> 15u32) & 1) != 0) == (fix & 0x8000 != 0)) by (bit_vector);
}

} // verus!
