//! Shape bookkeeping of a set of Gaussian splats: the dimensions of the five
//! per-splat parameter tensors, how they are derived from flat data, how a
//! change of SH degree reshapes them, and when they are consistent.
use vstd::prelude::*;

use crate::sh::{
    is_sh_coeff_count, lemma_sh_degree_roundtrip, sh_coeff_count, sh_coeffs_for_degree,
    sh_degree_for, sh_degree_from_coeffs,
};

verus! {

/// How splats are rasterised.
#[derive(Clone, Copy, Debug, PartialEq, Eq, Structural)]
pub enum SplatRenderMode {
    Default,
    Mip,
}

/// Why splat data or splat tensors have inconsistent shapes.
#[derive(Clone, Copy, Debug, PartialEq, Eq, Structural)]
pub enum SplatShapeError {
    /// The flat scale data does not hold 3 values per splat.
    ScaleDataLength,
    /// The flat position data does not hold 3 values per splat.
    MeansDataLength,
    /// The flat rotation data does not hold 4 values per splat.
    RotationDataLength,
    /// There is no splat at all.
    NoSplats,
    /// The flat SH data is not a whole number of 3-channel coefficients per splat.
    ShCoeffsDataLength,
    /// The flat opacity data does not hold one value per splat.
    OpacityDataLength,
    /// The means are not 3D.
    MeansNot3D,
    /// The rotations are not 4D quaternions.
    RotationNot4D,
    /// The scales are not 3D.
    ScalesNot3D,
    /// The means hold another number of splats than `num_splats`.
    MeansCount,
    /// The rotations hold another number of splats than `num_splats`.
    RotationCount,
    /// The scales hold another number of splats than `num_splats`.
    ScalesCount,
    /// The opacities hold another number of splats than `num_splats`.
    OpacityCount,
    /// The SH coefficients do not have 3 colour channels.
    ShChannelsNot3,
    /// The SH coefficients hold another number of splats than `num_splats`.
    ShCount,
}

/// The dimensions of the parameter tensors of a set of splats, and its render mode:
/// `means` is `[n, 3]`, `rotations` `[n, 4]`, `log_scales` `[n, 3]`,
/// `sh_coeffs` `[n, coefficients per channel, 3]` and `raw_opacities` `[n]`
/// when the set is consistent.
#[derive(Clone, Copy, Debug, PartialEq, Eq)]
pub struct SplatDims {
    pub means: [usize; 2],
    pub rotations: [usize; 2],
    pub log_scales: [usize; 2],
    pub sh_coeffs: [usize; 3],
    pub raw_opacities: [usize; 1],
    pub render_mode: SplatRenderMode,
}

/// The first inconsistency met when flat data of the given lengths is shaped into
/// splat tensors, `n = pos_len / 3` splats: scales `[n, 3]`, means `[n, 3]`,
/// rotations `[n, 4]`, SH `[n, k / 3, 3]` with `k = coeffs_len / n`, opacities `[n]`.
pub open spec fn raw_data_error(
    pos_len: nat,
    rot_len: nat,
    scale_len: nat,
    coeffs_len: nat,
    opac_len: nat,
) -> Option<SplatShapeError> {
    let n = pos_len / 3;
    if scale_len != n * 3 {
        Some(SplatShapeError::ScaleDataLength)
    } else if pos_len != n * 3 {
        Some(SplatShapeError::MeansDataLength)
    } else if rot_len != n * 4 {
        Some(SplatShapeError::RotationDataLength)
    } else if n == 0 {
        Some(SplatShapeError::NoSplats)
    } else if coeffs_len != n * ((coeffs_len / n) / 3 * 3) {
        Some(SplatShapeError::ShCoeffsDataLength)
    } else if opac_len != n {
        Some(SplatShapeError::OpacityDataLength)
    } else {
        None
    }
}

/// Whether `d` has the shapes of splat tensors built from flat data whose position
/// data has `pos_len` values and SH data `coeffs_len` values.
pub open spec fn dims_of_raw(d: SplatDims, pos_len: nat, coeffs_len: nat, mode: SplatRenderMode) -> bool {
    let n = pos_len / 3;
    &&& d.means[0] == n && d.means[1] == 3
    &&& d.rotations[0] == n && d.rotations[1] == 4
    &&& d.log_scales[0] == n && d.log_scales[1] == 3
    &&& d.sh_coeffs[0] == n && d.sh_coeffs[1] == (coeffs_len / n) / 3 && d.sh_coeffs[2] == 3
    &&& d.raw_opacities[0] == n
    &&& d.render_mode == mode
}

/// The first dimension check of splat tensors that fails.
pub open spec fn tensor_dims_error(
    means: [usize; 2],
    rotation: [usize; 2],
    log_scales: [usize; 2],
) -> Option<SplatShapeError> {
    if means[1] != 3 {
        Some(SplatShapeError::MeansNot3D)
    } else if rotation[1] != 4 {
        Some(SplatShapeError::RotationNot4D)
    } else if log_scales[1] != 3 {
        Some(SplatShapeError::ScalesNot3D)
    } else {
        None
    }
}

impl SplatDims {
    /// The splat count as reported: the leading dimension of the means, as a `u32`
    /// (keeping its low 32 bits).
    pub open spec fn splat_count(self) -> u32 {
        self.means[0] as u32
    }

    /// SH degree stored by these shapes (meaningful when the coefficient count per
    /// channel, as a `u32`, is a complete set of bands).
    pub open spec fn sh_degree_of(self) -> nat {
        sh_degree_for(self.sh_coeffs[1] as u32 as nat)
    }

    /// The first inconsistency among the shapes, checked in this order: at least
    /// one splat, means 3D and `splat_count` of them, rotations 4D and as many,
    /// scales 3D and as many, as many opacities, SH with 3 channels and as many.
    pub open spec fn shape_error(self) -> Option<SplatShapeError> {
        let n = self.splat_count();
        if n == 0 {
            Some(SplatShapeError::NoSplats)
        } else if self.means[1] != 3 {
            Some(SplatShapeError::MeansNot3D)
        } else if self.means[0] != n as usize {
            Some(SplatShapeError::MeansCount)
        } else if self.rotations[1] != 4 {
            Some(SplatShapeError::RotationNot4D)
        } else if self.rotations[0] != n as usize {
            Some(SplatShapeError::RotationCount)
        } else if self.log_scales[1] != 3 {
            Some(SplatShapeError::ScalesNot3D)
        } else if self.log_scales[0] != n as usize {
            Some(SplatShapeError::ScalesCount)
        } else if self.raw_opacities[0] != n as usize {
            Some(SplatShapeError::OpacityCount)
        } else if self.sh_coeffs[2] != 3 {
            Some(SplatShapeError::ShChannelsNot3)
        } else if self.sh_coeffs[0] != n as usize {
            Some(SplatShapeError::ShCount)
        } else {
            None
        }
    }

    /// Whether `r` is `self` with the SH coefficients reshaped to `coeffs` per
    /// channel, everything else kept.
    pub open spec fn is_resized_sh(self, r: SplatDims, coeffs: nat) -> bool {
        &&& r.sh_coeffs[0] == self.sh_coeffs[0]
        &&& r.sh_coeffs[1] == coeffs
        &&& r.sh_coeffs[2] == self.sh_coeffs[2]
        &&& r.means == self.means
        &&& r.rotations == self.rotations
        &&& r.log_scales == self.log_scales
        &&& r.raw_opacities == self.raw_opacities
        &&& r.render_mode == self.render_mode
    }

    /// Shapes of splat tensors of the given dimensions, after checking that the
    /// means and scales are 3D and the rotations 4D.
    pub fn from_tensor_data(
        means: [usize; 2],
        rotation: [usize; 2],
        log_scales: [usize; 2],
        sh_coeffs: [usize; 3],
        raw_opacity: [usize; 1],
        mode: SplatRenderMode,
    ) -> (r: Result<SplatDims, SplatShapeError>)
        ensures
            match r {
                Ok(d) => {
                    &&& tensor_dims_error(means, rotation, log_scales) is None
                    &&& d.means == means
                    &&& d.rotations == rotation
                    &&& d.log_scales == log_scales
                    &&& d.sh_coeffs == sh_coeffs
                    &&& d.raw_opacities == raw_opacity
                    &&& d.render_mode == mode
                },
                Err(e) => tensor_dims_error(means, rotation, log_scales) == Some(e),
            },
            r is Ok <==> (means[1] == 3 && rotation[1] == 4 && log_scales[1] == 3),
    {
        if means[1] != 3 {
            return Err(SplatShapeError::MeansNot3D);
        }
        if rotation[1] != 4 {
            return Err(SplatShapeError::RotationNot4D);
        }
        if log_scales[1] != 3 {
            return Err(SplatShapeError::ScalesNot3D);
        }
        Ok(SplatDims {
            means,
            rotations: rotation,
            log_scales,
            sh_coeffs,
            raw_opacities: raw_opacity,
            render_mode: mode,
        })
    }

    /// Shapes of the splat tensors built from flat data of the given lengths:
    /// `pos_len / 3` splats, and the SH coefficients split per splat into 3 channels.
    /// Fails with the first length that does not fit those shapes.
    pub fn from_raw(
        pos_len: usize,
        rot_len: usize,
        scale_len: usize,
        coeffs_len: usize,
        opac_len: usize,
        mode: SplatRenderMode,
    ) -> (r: Result<SplatDims, SplatShapeError>)
        ensures
            match r {
                Ok(d) => {
                    &&& raw_data_error(
                        pos_len as nat,
                        rot_len as nat,
                        scale_len as nat,
                        coeffs_len as nat,
                        opac_len as nat,
                    ) is None
                    &&& dims_of_raw(d, pos_len as nat, coeffs_len as nat, mode)
                },
                Err(e) => raw_data_error(
                    pos_len as nat,
                    rot_len as nat,
                    scale_len as nat,
                    coeffs_len as nat,
                    opac_len as nat,
                ) == Some(e),
            },
    {
        let n_splats: usize = pos_len / 3;
        if scale_len != n_splats * 3 {
            return Err(SplatShapeError::ScaleDataLength);
        }
        if pos_len != n_splats * 3 {
            return Err(SplatShapeError::MeansDataLength);
        }
        if rot_len % 4 != 0 || rot_len / 4 != n_splats {
            return Err(SplatShapeError::RotationDataLength);
        }
        if n_splats == 0 {
            return Err(SplatShapeError::NoSplats);
        }
        let n_coeffs: usize = coeffs_len / n_splats;
        let per_channel: usize = n_coeffs / 3;
        proof {
            let nn = n_splats as int;
            let k = n_coeffs as int;
            assert(nn * k <= coeffs_len) by (nonlinear_arith)
                requires
                    nn > 0,
                    k == coeffs_len as int / nn,
                    coeffs_len >= 0,
            ;
            assert(nn * (per_channel * 3) <= nn * k) by (nonlinear_arith)
                requires
                    nn > 0,
                    per_channel * 3 <= k,
            ;
        }
        let sh_len: usize = n_splats * (per_channel * 3);
        if coeffs_len != sh_len {
            return Err(SplatShapeError::ShCoeffsDataLength);
        }
        if opac_len != n_splats {
            return Err(SplatShapeError::OpacityDataLength);
        }
        let dims = Self::from_tensor_data(
            [n_splats, 3],
            [n_splats, 4],
            [n_splats, 3],
            [n_splats, per_channel, 3],
            [n_splats],
            mode,
        );
        match dims {
            Ok(d) => Ok(d),
            Err(e) => {
                proof {
                    assert(false);
                }
                Err(e)
            },
        }
    }

    /// Number of splats: the leading dimension of the means, as a `u32`.
    pub fn num_splats(&self) -> (n: u32)
        ensures
            n == self.splat_count(),
    {
        self.means[0] as u32
    }

    /// The SH degree of these splats, read from the coefficients per channel.
    pub fn sh_degree(&self) -> (degree: u32)
        requires
            is_sh_coeff_count(self.sh_coeffs[1] as u32 as nat),
        ensures
            degree == self.sh_degree_of(),
            sh_coeff_count(degree as nat) == self.sh_coeffs[1] as u32,
            (degree + 1) * (degree + 1) == self.sh_coeffs[1] as u32,
    {
        let coeffs: usize = self.sh_coeffs[1];
        sh_degree_from_coeffs(coeffs as u32)
    }

    /// These shapes with the SH coefficients padded or cut to the count of degree
    /// `sh_degree`. Padding appends 3-channel coefficients, so it needs 3 channels.
    pub fn with_sh_degree(self, sh_degree: u32) -> (r: SplatDims)
        requires
            sh_coeff_count(sh_degree as nat) <= u32::MAX,
            self.sh_coeffs[1] < sh_coeff_count(sh_degree as nat) ==> self.sh_coeffs[2] == 3,
        ensures
            self.is_resized_sh(r, sh_coeff_count(sh_degree as nat)),
            r.splat_count() == self.splat_count(),
            r.sh_coeffs[1] == (sh_degree + 1) * (sh_degree + 1),
    {
        let n_coeffs: usize = sh_coeffs_for_degree(sh_degree) as usize;
        let n: usize = self.sh_coeffs[0];
        let channels: usize = self.sh_coeffs[2];
        SplatDims { sh_coeffs: [n, n_coeffs, channels], ..self }
    }

    /// Checks that the shapes are consistent; fails with the first check that does not hold.
    pub fn validate_values(&self) -> (r: Result<(), SplatShapeError>)
        ensures
            match r {
                Ok(()) => self.shape_error() is None,
                Err(e) => self.shape_error() == Some(e),
            },
    {
        let num_splats: u32 = self.num_splats();
        if num_splats == 0 {
            return Err(SplatShapeError::NoSplats);
        }
        let num: usize = num_splats as usize;
        if self.means[1] != 3 {
            return Err(SplatShapeError::MeansNot3D);
        }
        if self.means[0] != num {
            return Err(SplatShapeError::MeansCount);
        }
        if self.rotations[1] != 4 {
            return Err(SplatShapeError::RotationNot4D);
        }
        if self.rotations[0] != num {
            return Err(SplatShapeError::RotationCount);
        }
        if self.log_scales[1] != 3 {
            return Err(SplatShapeError::ScalesNot3D);
        }
        if self.log_scales[0] != num {
            return Err(SplatShapeError::ScalesCount);
        }
        if self.raw_opacities[0] != num {
            return Err(SplatShapeError::OpacityCount);
        }
        if self.sh_coeffs[2] != 3 {
            return Err(SplatShapeError::ShChannelsNot3);
        }
        if self.sh_coeffs[0] != num {
            return Err(SplatShapeError::ShCount);
        }
        Ok(())
    }
}

/// Splat shapes built from flat data that fits them are consistent, and hold
/// `pos_len / 3` splats, whenever that count fits in a `u32`.
pub proof fn lemma_raw_dims_are_valid(
    d: SplatDims,
    pos_len: nat,
    rot_len: nat,
    scale_len: nat,
    coeffs_len: nat,
    opac_len: nat,
    mode: SplatRenderMode,
)
    requires
        raw_data_error(pos_len, rot_len, scale_len, coeffs_len, opac_len) is None,
        dims_of_raw(d, pos_len, coeffs_len, mode),
        pos_len / 3 <= u32::MAX,
    ensures
        d.shape_error() is None,
        d.splat_count() == pos_len / 3,
{
}

/// Changing the SH degree of consistent splat shapes keeps them consistent and
/// keeps the number of splats.
pub proof fn lemma_with_sh_degree_keeps_valid(s: SplatDims, r: SplatDims, degree: nat)
    requires
        s.shape_error() is None,
        s.is_resized_sh(r, sh_coeff_count(degree)),
    ensures
        r.shape_error() is None,
        r.splat_count() == s.splat_count(),
{
}

/// After setting the SH degree to `degree`, the SH degree read back is `degree`.
pub proof fn lemma_with_sh_degree_then_sh_degree(s: SplatDims, r: SplatDims, degree: nat)
    requires
        sh_coeff_count(degree) <= u32::MAX,
        s.is_resized_sh(r, sh_coeff_count(degree)),
    ensures
        is_sh_coeff_count(r.sh_coeffs[1] as u32 as nat),
        r.sh_degree_of() == degree,
{
    lemma_sh_degree_roundtrip(degree);
}

/// Helper: `n * k * 3` values split over `n > 0` splats give `k` three-channel
/// coefficients per splat.
proof fn lemma_sh_data_split(n: nat, k: nat, coeffs_len: nat)
    requires
        n > 0,
        coeffs_len == n * k * 3,
    ensures
        (coeffs_len / n) / 3 == k,
        coeffs_len == n * ((coeffs_len / n) / 3 * 3),
{
    assert(coeffs_len == n * (k * 3)) by (nonlinear_arith)
        requires
            coeffs_len == n * k * 3,
    ;
    vstd::arithmetic::div_mod::lemma_div_multiples_vanish((k * 3) as int, n as int);
    assert((coeffs_len / n) == k * 3);
}

/// Flat data accepted by `from_raw` fills the shapes it reports exactly: there is at
/// least one splat, every tensor has `pos_len / 3` rows with 3, 4, 3, (k, 3) and no
/// inner entries, and each data length is the element count of its tensor.
pub proof fn lemma_from_raw_fills_shapes(
    d: SplatDims,
    pos_len: nat,
    rot_len: nat,
    scale_len: nat,
    coeffs_len: nat,
    opac_len: nat,
    mode: SplatRenderMode,
)
    requires
        raw_data_error(pos_len, rot_len, scale_len, coeffs_len, opac_len) is None,
        dims_of_raw(d, pos_len, coeffs_len, mode),
    ensures
        d.means[0] > 0,
        d.means[0] == pos_len / 3,
        d.means[1] == 3,
        d.rotations[0] == d.means[0] && d.rotations[1] == 4,
        d.log_scales[0] == d.means[0] && d.log_scales[1] == 3,
        d.sh_coeffs[0] == d.means[0] && d.sh_coeffs[2] == 3,
        d.raw_opacities[0] == d.means[0],
        pos_len == d.means[0] * d.means[1],
        rot_len == d.rotations[0] * d.rotations[1],
        scale_len == d.log_scales[0] * d.log_scales[1],
        coeffs_len == d.sh_coeffs[0] * d.sh_coeffs[1] * d.sh_coeffs[2],
        opac_len == d.raw_opacities[0],
        d.render_mode == mode,
{
    let n = pos_len / 3;
    let k = (coeffs_len / n) / 3;
    assert(n * (k * 3) == n * k * 3) by (nonlinear_arith);
}

/// Flat data that fits `n > 0` splats with `k` three-channel SH coefficients each is
/// accepted by `from_raw`, and shaped with those `n` and `k`.
pub proof fn lemma_from_raw_accepts_fitting_data(
    n: nat,
    k: nat,
    pos_len: nat,
    rot_len: nat,
    scale_len: nat,
    coeffs_len: nat,
    opac_len: nat,
    mode: SplatRenderMode,
)
    requires
        n > 0,
        pos_len == 3 * n,
        rot_len == 4 * n,
        scale_len == 3 * n,
        coeffs_len == n * k * 3,
        opac_len == n,
    ensures
        raw_data_error(pos_len, rot_len, scale_len, coeffs_len, opac_len) is None,
        forall|d: SplatDims|
            #[trigger] dims_of_raw(d, pos_len, coeffs_len, mode) ==> d.means[0] == n
                && d.sh_coeffs[1] == k,
{
    assert(pos_len / 3 == n);
    lemma_sh_data_split(n, k, coeffs_len);
}

/// The error `from_raw` reports names a length that does not fit: scales, positions
/// or rotations not 3, 3, 4 values per splat, no splat, SH data that is no whole
/// number of three-channel coefficients per splat, or not one opacity per splat.
pub proof fn lemma_from_raw_error_names_mismatch(
    pos_len: nat,
    rot_len: nat,
    scale_len: nat,
    coeffs_len: nat,
    opac_len: nat,
    e: SplatShapeError,
)
    requires
        raw_data_error(pos_len, rot_len, scale_len, coeffs_len, opac_len) == Some(e),
    ensures
        e == SplatShapeError::ScaleDataLength ==> scale_len != 3 * (pos_len / 3),
        e == SplatShapeError::MeansDataLength ==> pos_len % 3 != 0 && scale_len == 3 * (
        pos_len / 3),
        e == SplatShapeError::RotationDataLength ==> rot_len != 4 * (pos_len / 3) && pos_len
            % 3 == 0 && scale_len == pos_len,
        e == SplatShapeError::NoSplats ==> pos_len == 0 && rot_len == 0 && scale_len == 0,
        e == SplatShapeError::ShCoeffsDataLength ==> (forall|k: nat|
            coeffs_len != #[trigger] ((pos_len / 3) * k * 3)) && pos_len >= 3 && pos_len % 3
            == 0 && scale_len == pos_len && rot_len == 4 * (pos_len / 3),
        e == SplatShapeError::OpacityDataLength ==> opac_len != pos_len / 3 && pos_len >= 3
            && pos_len % 3 == 0 && scale_len == pos_len && rot_len == 4 * (pos_len / 3)
            && exists|k: nat| coeffs_len == #[trigger] ((pos_len / 3) * k * 3),
        e == SplatShapeError::ScaleDataLength || e == SplatShapeError::MeansDataLength || e
            == SplatShapeError::RotationDataLength || e == SplatShapeError::NoSplats || e
            == SplatShapeError::ShCoeffsDataLength || e == SplatShapeError::OpacityDataLength,
{
    if e == SplatShapeError::OpacityDataLength {
        let n = pos_len / 3;
        let k = (coeffs_len / n) / 3;
        assert(n * (k * 3) == n * k * 3) by (nonlinear_arith);
        assert(coeffs_len == (pos_len / 3) * k * 3);
    }
    if e == SplatShapeError::ShCoeffsDataLength {
        let n = pos_len / 3;
        assert forall|k: nat| coeffs_len != #[trigger] ((pos_len / 3) * k * 3) by {
            if coeffs_len == n * k * 3 {
                lemma_sh_data_split(n, k, coeffs_len);
            }
        }
    }
}

/// `from_tensor_data` accepts exactly the tensors whose means and scales are 3D and
/// whose rotations are 4D, and a reported error names a check that fails.
pub proof fn lemma_from_tensor_data_accepts_exactly(
    means: [usize; 2],
    rotation: [usize; 2],
    log_scales: [usize; 2],
)
    ensures
        tensor_dims_error(means, rotation, log_scales) is None <==> (means[1] == 3
            && rotation[1] == 4 && log_scales[1] == 3),
        tensor_dims_error(means, rotation, log_scales) == Some(SplatShapeError::MeansNot3D)
            ==> means[1] != 3,
        tensor_dims_error(means, rotation, log_scales) == Some(SplatShapeError::RotationNot4D)
            ==> rotation[1] != 4,
        tensor_dims_error(means, rotation, log_scales) == Some(SplatShapeError::ScalesNot3D)
            ==> log_scales[1] != 3,
{
}

/// Shapes pass `validate_values` exactly when there are between 1 and `u32::MAX`
/// splats, every tensor has one row per splat, means and scales are 3D, rotations 4D
/// and SH has 3 channels; a reported error names a check that fails.
pub proof fn lemma_validate_values_accepts_exactly(s: SplatDims)
    ensures
        s.shape_error() is None <==> {
            &&& 0 < s.means[0] <= u32::MAX
            &&& s.means[1] == 3
            &&& s.rotations[0] == s.means[0] && s.rotations[1] == 4
            &&& s.log_scales[0] == s.means[0] && s.log_scales[1] == 3
            &&& s.raw_opacities[0] == s.means[0]
            &&& s.sh_coeffs[0] == s.means[0] && s.sh_coeffs[2] == 3
        },
        s.shape_error() == Some(SplatShapeError::NoSplats) ==> (s.means[0] as int) % 0x1_0000_0000int
            == 0,
        s.shape_error() == Some(SplatShapeError::MeansCount) ==> s.means[0] > u32::MAX,
        s.shape_error() == Some(SplatShapeError::MeansNot3D) ==> s.means[1] != 3,
        s.shape_error() == Some(SplatShapeError::RotationNot4D) ==> s.rotations[1] != 4,
        s.shape_error() == Some(SplatShapeError::ScalesNot3D) ==> s.log_scales[1] != 3,
        s.shape_error() == Some(SplatShapeError::ShChannelsNot3) ==> s.sh_coeffs[2] != 3,
        s.shape_error() == Some(SplatShapeError::RotationCount) ==> s.rotations[0]
            != s.means[0],
        s.shape_error() == Some(SplatShapeError::ScalesCount) ==> s.log_scales[0]
            != s.means[0],
        s.shape_error() == Some(SplatShapeError::OpacityCount) ==> s.raw_opacities[0]
            != s.means[0],
        s.shape_error() == Some(SplatShapeError::ShCount) ==> s.sh_coeffs[0] != s.means[0],
{
    lemma_splat_count_low_bits(s);
}

/// The reported splat count is the leading dimension of the means modulo `2^32`, so
/// it is that dimension whenever it fits in a `u32`.
pub proof fn lemma_splat_count_low_bits(s: SplatDims)
    ensures
        s.splat_count() == (s.means[0] as int) % 0x1_0000_0000int,
        s.means[0] <= u32::MAX ==> s.splat_count() == s.means[0],
{
    let x: usize = s.means[0];
    assert(x as u32 == (x as u64) % 0x1_0000_0000u64) by (bit_vector);
}

/// Setting the SH degree to `degree` makes `(degree + 1)^2` coefficients per channel,
/// as a full `usize`, and leaves every other dimension and the render mode unchanged.
pub proof fn lemma_with_sh_degree_shape(s: SplatDims, r: SplatDims, degree: nat)
    requires
        s.is_resized_sh(r, sh_coeff_count(degree)),
    ensures
        r.sh_coeffs[1] == (degree + 1) * (degree + 1),
        r.sh_coeffs[0] == s.sh_coeffs[0] && r.sh_coeffs[2] == s.sh_coeffs[2],
        r.means == s.means && r.rotations == s.rotations && r.log_scales == s.log_scales,
        r.raw_opacities == s.raw_opacities && r.render_mode == s.render_mode,
{
}

} // verus!
