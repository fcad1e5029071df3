use brush_render::gaussian_splats::{SplatDims, SplatRenderMode, SplatShapeError};
use brush_render::{AlphaMode, RenderStats};

fn three_splats() -> SplatDims {
    // 3 splats, degree-1 SH (4 coefficients per channel).
    SplatDims::from_raw(9, 12, 9, 36, 3, SplatRenderMode::Default).unwrap()
}

#[test]
fn from_raw_shapes_flat_data() {
    let d = three_splats();
    assert_eq!(d.means, [3, 3]);
    assert_eq!(d.rotations, [3, 4]);
    assert_eq!(d.log_scales, [3, 3]);
    assert_eq!(d.sh_coeffs, [3, 4, 3]);
    assert_eq!(d.raw_opacities, [3]);
    assert_eq!(d.render_mode, SplatRenderMode::Default);
    assert_eq!(d.num_splats(), 3);
    assert_eq!(d.sh_degree(), 1);
}

#[test]
fn from_raw_keeps_render_mode() {
    let d = SplatDims::from_raw(3, 4, 3, 3, 1, SplatRenderMode::Mip).unwrap();
    assert_eq!(d.render_mode, SplatRenderMode::Mip);
    assert_eq!(d.sh_coeffs, [1, 1, 3]);
    assert_eq!(d.sh_degree(), 0);
}

#[test]
fn from_raw_rejects_each_length() {
    let m = SplatRenderMode::Default;
    assert_eq!(SplatDims::from_raw(9, 12, 8, 36, 3, m), Err(SplatShapeError::ScaleDataLength));
    assert_eq!(SplatDims::from_raw(10, 12, 9, 36, 3, m), Err(SplatShapeError::MeansDataLength));
    assert_eq!(SplatDims::from_raw(9, 13, 9, 36, 3, m), Err(SplatShapeError::RotationDataLength));
    assert_eq!(SplatDims::from_raw(9, 8, 9, 36, 3, m), Err(SplatShapeError::RotationDataLength));
    assert_eq!(SplatDims::from_raw(0, 0, 0, 0, 0, m), Err(SplatShapeError::NoSplats));
    assert_eq!(SplatDims::from_raw(9, 12, 9, 35, 3, m), Err(SplatShapeError::ShCoeffsDataLength));
    assert_eq!(SplatDims::from_raw(9, 12, 9, 30, 3, m), Err(SplatShapeError::ShCoeffsDataLength));
    assert_eq!(SplatDims::from_raw(9, 12, 9, 36, 2, m), Err(SplatShapeError::OpacityDataLength));
}

#[test]
fn from_raw_reports_first_mismatch() {
    // Scales are checked before means, means before rotations.
    assert_eq!(
        SplatDims::from_raw(10, 13, 8, 1, 0, SplatRenderMode::Default),
        Err(SplatShapeError::ScaleDataLength)
    );
    // Two leftover position values: means checked before rotations.
    assert_eq!(
        SplatDims::from_raw(2, 1, 0, 0, 0, SplatRenderMode::Default),
        Err(SplatShapeError::MeansDataLength)
    );
}

#[test]
fn from_raw_with_few_sh_values_gives_zero_coefficients() {
    // 2 values per splat: fewer than one 3-channel coefficient.
    let d = SplatDims::from_raw(6, 8, 6, 0, 2, SplatRenderMode::Default).unwrap();
    assert_eq!(d.sh_coeffs, [2, 0, 3]);
}

#[test]
fn from_tensor_data_checks_inner_dims() {
    let m = SplatRenderMode::Default;
    assert_eq!(
        SplatDims::from_tensor_data([5, 2], [5, 4], [5, 3], [5, 1, 3], [5], m),
        Err(SplatShapeError::MeansNot3D)
    );
    assert_eq!(
        SplatDims::from_tensor_data([5, 3], [5, 3], [5, 3], [5, 1, 3], [5], m),
        Err(SplatShapeError::RotationNot4D)
    );
    assert_eq!(
        SplatDims::from_tensor_data([5, 3], [5, 4], [5, 4], [5, 1, 3], [5], m),
        Err(SplatShapeError::ScalesNot3D)
    );
    // Leading dimensions are not compared here.
    let d = SplatDims::from_tensor_data([5, 3], [6, 4], [7, 3], [8, 1, 3], [9], m).unwrap();
    assert_eq!(d.means, [5, 3]);
    assert_eq!(d.rotations, [6, 4]);
    assert_eq!(d.log_scales, [7, 3]);
    assert_eq!(d.sh_coeffs, [8, 1, 3]);
    assert_eq!(d.raw_opacities, [9]);
}

#[test]
fn with_sh_degree_pads_coefficients() {
    let d = three_splats().with_sh_degree(3);
    assert_eq!(d.sh_coeffs, [3, 16, 3]);
    assert_eq!(d.sh_degree(), 3);
    assert_eq!(d.means, [3, 3]);
    assert_eq!(d.rotations, [3, 4]);
    assert_eq!(d.log_scales, [3, 3]);
    assert_eq!(d.raw_opacities, [3]);
    assert_eq!(d.num_splats(), 3);
}

#[test]
fn with_sh_degree_cuts_coefficients() {
    let d = three_splats().with_sh_degree(0);
    assert_eq!(d.sh_coeffs, [3, 1, 3]);
    assert_eq!(d.sh_degree(), 0);
}

#[test]
fn with_sh_degree_of_same_degree_keeps_shapes() {
    let d = three_splats();
    assert_eq!(d.with_sh_degree(1), d);
}

#[test]
fn with_sh_degree_cut_keeps_odd_channel_count() {
    let d = SplatDims::from_tensor_data([2, 3], [2, 4], [2, 3], [2, 9, 5], [2], SplatRenderMode::Mip)
        .unwrap()
        .with_sh_degree(1);
    assert_eq!(d.sh_coeffs, [2, 4, 5]);
}

#[test]
fn num_splats_keeps_low_bits() {
    let d = SplatDims::from_tensor_data([7, 3], [7, 4], [7, 3], [7, 1, 3], [7], SplatRenderMode::Default)
        .unwrap();
    assert_eq!(d.num_splats(), 7);
    if usize::BITS == 64 {
        let big: usize = ((1u64 << 32) + 5) as usize;
        let d = SplatDims::from_tensor_data([big, 3], [big, 4], [big, 3], [big, 1, 3], [big], SplatRenderMode::Default)
            .unwrap();
        assert_eq!(d.num_splats(), 5);
        assert_eq!(d.validate_values(), Err(SplatShapeError::MeansCount));
    }
}

#[test]
fn raw_splats_are_valid() {
    assert_eq!(three_splats().validate_values(), Ok(()));
    let d = SplatDims::from_raw(3000, 4000, 3000, 3000 * 16, 1000, SplatRenderMode::Default).unwrap();
    assert_eq!(d.num_splats(), 1000);
    assert_eq!(d.sh_degree(), 3);
    assert_eq!(d.validate_values(), Ok(()));
}

#[test]
fn sh_degree_change_keeps_validity() {
    let d = three_splats();
    for degree in 0..6u32 {
        let r = d.with_sh_degree(degree);
        assert_eq!(r.validate_values(), Ok(()));
        assert_eq!(r.sh_degree(), degree);
        assert_eq!(r.num_splats(), d.num_splats());
    }
}

fn dims(
    means: [usize; 2],
    rot: [usize; 2],
    scales: [usize; 2],
    sh: [usize; 3],
    opac: [usize; 1],
) -> SplatDims {
    SplatDims { means, rotations: rot, log_scales: scales, sh_coeffs: sh, raw_opacities: opac, render_mode: SplatRenderMode::Default }
}

#[test]
fn validate_values_reports_each_error() {
    assert_eq!(dims([0, 3], [0, 4], [0, 3], [0, 1, 3], [0]).validate_values(), Err(SplatShapeError::NoSplats));
    assert_eq!(dims([4, 2], [4, 4], [4, 3], [4, 1, 3], [4]).validate_values(), Err(SplatShapeError::MeansNot3D));
    assert_eq!(dims([4, 3], [4, 3], [4, 3], [4, 1, 3], [4]).validate_values(), Err(SplatShapeError::RotationNot4D));
    assert_eq!(dims([4, 3], [5, 4], [4, 3], [4, 1, 3], [4]).validate_values(), Err(SplatShapeError::RotationCount));
    assert_eq!(dims([4, 3], [4, 4], [4, 2], [4, 1, 3], [4]).validate_values(), Err(SplatShapeError::ScalesNot3D));
    assert_eq!(dims([4, 3], [4, 4], [3, 3], [4, 1, 3], [4]).validate_values(), Err(SplatShapeError::ScalesCount));
    assert_eq!(dims([4, 3], [4, 4], [4, 3], [4, 1, 3], [1]).validate_values(), Err(SplatShapeError::OpacityCount));
    assert_eq!(dims([4, 3], [4, 4], [4, 3], [4, 1, 4], [4]).validate_values(), Err(SplatShapeError::ShChannelsNot3));
    assert_eq!(dims([4, 3], [4, 4], [4, 3], [9, 1, 3], [4]).validate_values(), Err(SplatShapeError::ShCount));
    assert_eq!(dims([4, 3], [4, 4], [4, 3], [4, 7, 3], [4]).validate_values(), Ok(()));
}

#[test]
fn validate_values_checks_in_order() {
    // Means before rotations, rotations before scales.
    assert_eq!(dims([4, 2], [1, 1], [0, 0], [0, 0, 0], [0]).validate_values(), Err(SplatShapeError::MeansNot3D));
    assert_eq!(dims([4, 3], [1, 1], [0, 0], [0, 0, 0], [0]).validate_values(), Err(SplatShapeError::RotationNot4D));
}

#[test]
fn alpha_mode_defaults_to_masked() {
    assert_eq!(AlphaMode::default(), AlphaMode::Masked);
    assert_ne!(AlphaMode::default(), AlphaMode::Transparent);
}

#[test]
fn render_stats_clone_keeps_counts() {
    let stats = RenderStats { num_visible: 12, num_intersections: 345 };
    let copy = stats.clone();
    assert_eq!(copy.num_visible, 12);
    assert_eq!(copy.num_intersections, 345);
}
