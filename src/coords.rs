use vstd::arithmetic::power2::{lemma2_to64, lemma2_to64_rest, lemma_pow2_pos, lemma_pow2_strictly_increases, pow2};
use vstd::bits::lemma_u64_shl_is_mul;
use vstd::prelude::*;

verus! {

/// A coordinate in degrees, as the caller gave it: the bit pattern of its
/// IEEE-754 binary64 value, and that value's shortest decimal rendering.
pub struct Degrees {
    pub bits: u64,
    pub text: String,
}

/// The biased exponent field of a binary64 bit pattern.
pub open spec fn exponent_field(bits: u64) -> u64 {
    (bits >> 52u64) & 0x7ffu64
}

/// The fraction field of a binary64 bit pattern.
pub open spec fn fraction_field(bits: u64) -> u64 {
    bits & 0xf_ffff_ffff_ffffu64
}

/// The bit pattern encodes a NaN.
pub open spec fn is_nan_bits(bits: u64) -> bool {
    exponent_field(bits) == 0x7ff && fraction_field(bits) != 0
}

/// The absolute value of the finite binary64 value with these bits is at most
/// `bound`. The value is `sig * 2^(scale - 1075)`, with the hidden bit in
/// `sig` for normal numbers. Infinities and NaN are at most no bound.
pub open spec fn magnitude_at_most(bits: u64, bound: nat) -> bool {
    let e = exponent_field(bits) as nat;
    let f = fraction_field(bits) as nat;
    if e == 0x7ff {
        false
    } else {
        let sig: nat = if e == 0 { f } else { f + pow2(52) };
        let scale: nat = if e == 0 { 1 } else { e };
        if scale >= 1075 {
            sig * pow2((scale - 1075) as nat) <= bound
        } else {
            sig <= bound * pow2((1075 - scale) as nat)
        }
    }
}

/// The value lies below `-bound` or above `bound`. A NaN lies on neither
/// side, as ordered comparisons with NaN are all false.
pub open spec fn beyond(bits: u64, bound: nat) -> bool {
    !is_nan_bits(bits) && !magnitude_at_most(bits, bound)
}

/// Latitude bound, in degrees.
pub const MAX_LATITUDE: u64 = 90;

/// Longitude bound, in degrees.
pub const MAX_LONGITUDE: u64 = 180;

fn exceeds(bits: u64, bound: u64) -> (r: bool)
    requires
        1 <= bound <= 255,
    ensures
        r == beyond(bits, bound as nat),
{
    let e = (bits >> 52u64) & 0x7ffu64;
    let f = bits & 0xf_ffff_ffff_ffffu64;
    assert(e <= 0x7ff) by (bit_vector)
        requires
            e == (bits >> 52u64) & 0x7ffu64,
    ;
    assert(f <= 0xf_ffff_ffff_ffffu64) by (bit_vector)
        requires
            f == bits & 0xf_ffff_ffff_ffffu64,
    ;
    proof {
        lemma2_to64();
        lemma2_to64_rest();
    }
    if e == 0x7ff {
        return f == 0;
    }
    if e >= 1075 {
        proof {
            let k = (e - 1075) as nat;
            let sig: nat = (f + pow2(52)) as nat;
            lemma_pow2_pos(k);
            assert(sig >= pow2(52));
            assert(pow2(52) > 255);
            assert(sig * pow2(k) > bound) by (nonlinear_arith)
                requires
                    pow2(k) >= 1,
                    sig > bound,
                    bound >= 0,
            ;
            assert(exponent_field(bits) == e && fraction_field(bits) == f);
            assert(!magnitude_at_most(bits, bound as nat));
        }
        return true;
    }
    let scale: u64 = if e == 0 {
        1
    } else {
        e
    };
    let sig: u64 = if e == 0 {
        f
    } else {
        f + 0x10_0000_0000_0000u64
    };
    let k: u64 = 1075 - scale;
    if k >= 53 {
        proof {
            if k > 53 {
                lemma_pow2_strictly_increases(53, k as nat);
            }
            assert(pow2(k as nat) >= pow2(53));
            assert(sig < pow2(53));
            assert(bound * pow2(k as nat) >= pow2(k as nat)) by (nonlinear_arith)
                requires
                    bound >= 1,
            ;
            assert(exponent_field(bits) == e && fraction_field(bits) == f);
            assert(magnitude_at_most(bits, bound as nat));
        }
        return false;
    }
    proof {
        if k < 52 {
            lemma_pow2_strictly_increases(k as nat, 52);
        }
        assert(bound * pow2(k as nat) <= 255 * pow2(52)) by (nonlinear_arith)
            requires
                bound <= 255,
                pow2(k as nat) <= pow2(52),
        ;
        lemma_u64_shl_is_mul(bound, k);
    }
    let limit = bound << k;
    assert(exponent_field(bits) == e && fraction_field(bits) == f);
    sig > limit
}

/// The rejection message for a latitude.
pub open spec fn latitude_error_text(text: Seq<char>) -> Seq<char> {
    "Invalid latitude: "@ + text + ". Must be between -90 and 90."@
}

/// The rejection message for a longitude.
pub open spec fn longitude_error_text(text: Seq<char>) -> Seq<char> {
    "Invalid longitude: "@ + text + ". Must be between -180 and 180."@
}

/// The outcome of checking a coordinate pair: the latitude is checked first.
pub open spec fn coordinates_check(lat: Degrees, lon: Degrees) -> Result<(), Seq<char>> {
    if beyond(lat.bits, MAX_LATITUDE as nat) {
        Err(latitude_error_text(lat.text@))
    } else if beyond(lon.bits, MAX_LONGITUDE as nat) {
        Err(longitude_error_text(lon.text@))
    } else {
        Ok(())
    }
}

/// Checks that the latitude lies in [-90, 90] and the longitude in
/// [-180, 180]; the message names the first bound violated and the value.
pub fn validate_coordinates(latitude: &Degrees, longitude: &Degrees) -> (r: Result<(), String>)
    ensures
        r.is_err() == (beyond(latitude.bits, MAX_LATITUDE as nat) || beyond(
            longitude.bits,
            MAX_LONGITUDE as nat,
        )),
        r matches Err(m) ==> coordinates_check(*latitude, *longitude) == Err::<(), Seq<char>>(m@),
{
    if exceeds(latitude.bits, MAX_LATITUDE) {
        let m = String::from_str("Invalid latitude: ").concat(latitude.text.as_str()).concat(
            ". Must be between -90 and 90.",
        );
        return Err(m);
    }
    if exceeds(longitude.bits, MAX_LONGITUDE) {
        let m = String::from_str("Invalid longitude: ").concat(longitude.text.as_str()).concat(
            ". Must be between -180 and 180.",
        );
        return Err(m);
    }
    Ok(())
}

} // verus!
