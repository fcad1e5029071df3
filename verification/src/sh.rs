//! Spherical-harmonic band bookkeeping: how many coefficients a degree needs,
//! and which degree a coefficient count stands for.
use vstd::prelude::*;

verus! {

/// Number of spherical-harmonic coefficients per colour channel for all bands
/// up to and including `degree`: one per band order, `(degree + 1)^2` in all.
pub open spec fn sh_coeff_count(degree: nat) -> nat {
    (degree + 1) * (degree + 1)
}

/// Whether `coeffs` coefficients per channel make up complete SH bands.
pub open spec fn is_sh_coeff_count(coeffs: nat) -> bool {
    exists|degree: nat| sh_coeff_count(degree) == coeffs
}

/// The degree whose coefficient count is `coeffs`; meaningful when
/// `is_sh_coeff_count(coeffs)` holds.
pub open spec fn sh_degree_for(coeffs: nat) -> nat {
    choose|degree: nat| sh_coeff_count(degree) == coeffs
}

proof fn lemma_sh_coeff_count_strictly_increasing(a: nat, b: nat)
    requires
        a < b,
    ensures
        sh_coeff_count(a) < sh_coeff_count(b),
{
    assert((a + 1) * (a + 1) < (b + 1) * (b + 1)) by (nonlinear_arith)
        requires
            a < b,
    ;
}

/// Degree 0 has one coefficient per channel, and each further band `l` adds
/// `2 l + 1` coefficients.
pub proof fn lemma_sh_bands_add_odd_counts(degree: nat)
    ensures
        sh_coeff_count(0) == 1,
        sh_coeff_count(degree + 1) == sh_coeff_count(degree) + 2 * (degree + 1) + 1,
{
    assert(sh_coeff_count(0) == 1) by (nonlinear_arith)
        requires
            sh_coeff_count(0) == (0 + 1) * (0 + 1),
    ;
    assert((degree + 2) * (degree + 2) == (degree + 1) * (degree + 1) + 2 * (degree + 1) + 1)
        by (nonlinear_arith);
}

/// Two degrees with the same coefficient count are the same degree.
pub proof fn lemma_sh_coeff_count_injective(a: nat, b: nat)
    requires
        sh_coeff_count(a) == sh_coeff_count(b),
    ensures
        a == b,
{
    if a < b {
        lemma_sh_coeff_count_strictly_increasing(a, b);
    } else if b < a {
        lemma_sh_coeff_count_strictly_increasing(b, a);
    }
}

/// The coefficient count of any degree is a complete set of bands, and reading
/// the degree back from that count gives the degree again.
pub proof fn lemma_sh_degree_roundtrip(degree: nat)
    ensures
        is_sh_coeff_count(sh_coeff_count(degree)),
        sh_degree_for(sh_coeff_count(degree)) == degree,
{
    let coeffs = sh_coeff_count(degree);
    assert(sh_coeff_count(degree) == coeffs);
    let found = sh_degree_for(coeffs);
    lemma_sh_coeff_count_injective(found, degree);
}

/// Number of coefficients per colour channel needed for SH of degree `degree`.
pub fn sh_coeffs_for_degree(degree: u32) -> (coeffs: u32)
    requires
        sh_coeff_count(degree as nat) <= u32::MAX,
    ensures
        coeffs == sh_coeff_count(degree as nat),
        coeffs == (degree + 1) * (degree + 1),
{
    proof {
        lemma_sh_coeff_count_strictly_increasing(degree as nat, degree as nat + 1);
        assert(degree as nat + 1 <= sh_coeff_count(degree as nat)) by (nonlinear_arith)
            requires
                sh_coeff_count(degree as nat) == (degree as nat + 1) * (degree as nat + 1),
        ;
    }
    let bands: u32 = degree + 1;
    bands * bands
}

/// The SH degree whose coefficient count per channel is `coeffs`, or `None`
/// when `coeffs` is not the count of any degree.
pub fn checked_sh_degree_from_coeffs(coeffs: u32) -> (degree: Option<u32>)
    ensures
        degree is Some <==> is_sh_coeff_count(coeffs as nat),
        degree matches Some(d) ==> sh_coeff_count(d as nat) == coeffs && d == sh_degree_for(
            coeffs as nat,
        ),
        degree matches Some(d) ==> (d + 1) * (d + 1) == coeffs,
{
    let mut d: u32 = 0;
    loop
        invariant
            d <= coeffs,
            forall|k: nat| k < d ==> #[trigger] sh_coeff_count(k) < coeffs,
        decreases coeffs - d,
    {
        proof {
            if d > 0 {
                assert(sh_coeff_count((d - 1) as nat) < coeffs);
                assert(d <= 65535) by (nonlinear_arith)
                    requires
                        (d as nat) * (d as nat) < 0x1_0000_0000,
                ;
            }
        }
        let bands: u64 = d as u64 + 1;
        assert(bands * bands <= 0x1_0000_0000) by (nonlinear_arith)
            requires
                bands <= 65536,
        ;
        let count: u64 = bands * bands;
        assert(count as nat == sh_coeff_count(d as nat));
        if count == coeffs as u64 {
            proof {
                assert(sh_coeff_count(d as nat) == coeffs as nat);
                lemma_sh_coeff_count_injective(sh_degree_for(coeffs as nat), d as nat);
            }
            return Some(d);
        }
        if count > coeffs as u64 {
            proof {
                assert forall|k: nat| sh_coeff_count(k) != coeffs as nat by {
                    if k > d {
                        lemma_sh_coeff_count_strictly_increasing(d as nat, k);
                    } else if k < d {
                        assert(sh_coeff_count(k) < coeffs);
                    }
                }
            }
            return None;
        }
        proof {
            assert(d as nat + 1 <= sh_coeff_count(d as nat)) by (nonlinear_arith)
                requires
                    sh_coeff_count(d as nat) == (d as nat + 1) * (d as nat + 1),
            ;
        }
        d = d + 1;
    }
}

/// The SH degree whose coefficient count per channel is `coeffs`.
pub fn sh_degree_from_coeffs(coeffs: u32) -> (degree: u32)
    requires
        is_sh_coeff_count(coeffs as nat),
    ensures
        sh_coeff_count(degree as nat) == coeffs,
        (degree + 1) * (degree + 1) == coeffs,
        degree == sh_degree_for(coeffs as nat),
{
    let found = checked_sh_degree_from_coeffs(coeffs);
    match found {
        Some(d) => d,
        None => {
            proof {
                assert(false);
            }
            0
        },
    }
}

} // verus!
