use headjack::utils::brain_volume::{VolumeError, VolumeGrid, MAX_AXIS_LEN};
use headjack::utils::sampling::Cube;

#[test]
fn grid_of_three_dimensions() {
    let g = VolumeGrid::from_shape(&[4, 5, 6]).unwrap();
    assert_eq!(g.leading, 0);
    assert_eq!(g.shape, (4, 5, 6));
    assert_eq!(g.local_bounds, Cube::new(0, 0, 0, 3, 4, 5));
    assert_eq!(g.middle_slice(), (2, 2, 3));
}

#[test]
fn grid_of_four_dimensions_shows_the_last_three() {
    let g = VolumeGrid::from_shape(&[7, 4, 5, 6]).unwrap();
    assert_eq!(g.leading, 1);
    assert_eq!(g.shape, (4, 5, 6));
    assert_eq!(g.local_bounds, Cube::new(0, 0, 0, 3, 4, 5));
}

#[test]
fn grid_rejects_other_dimensionalities() {
    assert_eq!(VolumeGrid::from_shape(&[]), Err(VolumeError::UnsupportedDimensionality(0)));
    assert_eq!(VolumeGrid::from_shape(&[4, 4]), Err(VolumeError::UnsupportedDimensionality(2)));
    assert_eq!(
        VolumeGrid::from_shape(&[1, 2, 3, 4, 5]),
        Err(VolumeError::UnsupportedDimensionality(5))
    );
    assert_eq!(
        VolumeGrid::from_shape(&[0, 2, 3, 4, 5]),
        Err(VolumeError::UnsupportedDimensionality(5))
    );
}

#[test]
fn grid_rejects_an_empty_axis() {
    assert_eq!(VolumeGrid::from_shape(&[4, 0, 6]), Err(VolumeError::EmptyAxis(1)));
    assert_eq!(VolumeGrid::from_shape(&[0, 0, 0]), Err(VolumeError::EmptyAxis(0)));
    assert_eq!(VolumeGrid::from_shape(&[0, 4, 5, 6]), Err(VolumeError::EmptyAxis(0)));
    assert_eq!(VolumeGrid::from_shape(&[1, 4, 5, 0]), Err(VolumeError::EmptyAxis(3)));
}

#[test]
fn grid_rejects_an_axis_beyond_the_largest_index() {
    if (usize::MAX as u64) > MAX_AXIS_LEN {
        assert_eq!(VolumeGrid::from_shape(&[4, 5, usize::MAX]), Err(VolumeError::AxisTooLong(2)));
        assert_eq!(
            VolumeGrid::from_shape(&[usize::MAX, 0, 1]),
            Err(VolumeError::AxisTooLong(0))
        );
        let longest = MAX_AXIS_LEN as usize;
        let g = VolumeGrid::from_shape(&[longest, 1, 1]).unwrap();
        assert_eq!(g.local_bounds.x1, i64::MAX - 1);
    }
}

#[test]
fn grid_of_single_voxel() {
    let g = VolumeGrid::from_shape(&[1, 1, 1]).unwrap();
    assert_eq!(g.local_bounds, Cube::new(0, 0, 0, 0, 0, 0));
    assert_eq!(g.middle_slice(), (0, 0, 0));
}
