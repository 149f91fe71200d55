use sci_rs_core::arraytools::check_and_get_axis_dyn;
use sci_rs_core::arraytools::check_and_get_axis_st;
use sci_rs_core::Error;

fn out_of_range() -> Error {
    Error::InvalidArg {
        arg: "axis".to_string(),
        reason: "index out of range".to_string(),
    }
}

#[test]
fn minus_one_selects_the_last_axis() {
    assert_eq!(check_and_get_axis_st::<1>(Some(-1)), Ok(0));
    assert_eq!(check_and_get_axis_st::<2>(Some(-1)), Ok(1));
    assert_eq!(check_and_get_axis_st::<7>(Some(-1)), Ok(6));
    for rank in 1..20usize {
        assert_eq!(check_and_get_axis_dyn(Some(-1), rank), Ok(rank - 1));
    }
}

#[test]
fn rank_minus_one_selects_the_last_axis() {
    assert_eq!(check_and_get_axis_st::<1>(Some(0)), Ok(0));
    assert_eq!(check_and_get_axis_st::<2>(Some(1)), Ok(1));
    assert_eq!(check_and_get_axis_st::<7>(Some(6)), Ok(6));
    for rank in 1..20usize {
        assert_eq!(
            check_and_get_axis_dyn(Some(rank as isize - 1), rank),
            Ok(rank - 1)
        );
    }
}

#[test]
fn absent_axis_selects_the_last_axis() {
    assert_eq!(check_and_get_axis_st::<1>(None), Ok(0));
    assert_eq!(check_and_get_axis_st::<3>(None), Ok(2));
    for rank in 1..20usize {
        assert_eq!(check_and_get_axis_dyn(None, rank), Ok(rank - 1));
    }
}

#[test]
fn axis_equal_to_rank_is_out_of_range() {
    assert_eq!(check_and_get_axis_st::<1>(Some(1)), Err(()));
    assert_eq!(check_and_get_axis_st::<3>(Some(3)), Err(()));
    for rank in 0..20usize {
        assert_eq!(
            check_and_get_axis_dyn(Some(rank as isize), rank),
            Err(out_of_range())
        );
    }
}

#[test]
fn axis_below_minus_rank_is_out_of_range() {
    assert_eq!(check_and_get_axis_st::<1>(Some(-2)), Err(()));
    assert_eq!(check_and_get_axis_st::<3>(Some(-4)), Err(()));
    for rank in 0..20usize {
        assert_eq!(
            check_and_get_axis_dyn(Some(-(rank as isize) - 1), rank),
            Err(out_of_range())
        );
    }
}

#[test]
fn negative_axes_count_from_the_end() {
    assert_eq!(check_and_get_axis_st::<3>(Some(-3)), Ok(0));
    assert_eq!(check_and_get_axis_st::<3>(Some(-2)), Ok(1));
    assert_eq!(check_and_get_axis_dyn(Some(-3), 3), Ok(0));
    assert_eq!(check_and_get_axis_dyn(Some(-2), 3), Ok(1));
    assert_eq!(check_and_get_axis_dyn(Some(-5), 5), Ok(0));
}

#[test]
fn non_negative_axes_pass_through() {
    assert_eq!(check_and_get_axis_st::<3>(Some(0)), Ok(0));
    assert_eq!(check_and_get_axis_st::<3>(Some(1)), Ok(1));
    assert_eq!(check_and_get_axis_dyn(Some(0), 4), Ok(0));
    assert_eq!(check_and_get_axis_dyn(Some(3), 4), Ok(3));
}

#[test]
fn rank_zero_has_no_axis() {
    assert_eq!(check_and_get_axis_st::<0>(None), Err(()));
    assert_eq!(check_and_get_axis_st::<0>(Some(0)), Err(()));
    assert_eq!(check_and_get_axis_st::<0>(Some(-1)), Err(()));
    assert_eq!(check_and_get_axis_dyn(None, 0), Err(out_of_range()));
    assert_eq!(check_and_get_axis_dyn(Some(0), 0), Err(out_of_range()));
    assert_eq!(check_and_get_axis_dyn(Some(-1), 0), Err(out_of_range()));
}

#[test]
fn extreme_axes_and_ranks() {
    assert_eq!(
        check_and_get_axis_dyn(Some(isize::MIN), 3),
        Err(out_of_range())
    );
    assert_eq!(
        check_and_get_axis_dyn(Some(isize::MAX), 3),
        Err(out_of_range())
    );
    assert_eq!(
        check_and_get_axis_dyn(Some(isize::MAX), usize::MAX),
        Ok(isize::MAX as usize)
    );
    assert_eq!(
        check_and_get_axis_dyn(Some(isize::MIN), usize::MAX),
        Ok(usize::MAX - isize::MIN.unsigned_abs())
    );
    assert_eq!(
        check_and_get_axis_dyn(Some(isize::MIN), isize::MIN.unsigned_abs()),
        Ok(0)
    );
    assert_eq!(
        check_and_get_axis_dyn(Some(isize::MIN), isize::MAX as usize),
        Err(out_of_range())
    );
    assert_eq!(check_and_get_axis_dyn(None, usize::MAX), Ok(usize::MAX - 1));
}

#[test]
fn resolved_axis_is_below_the_rank() {
    for rank in 0..8usize {
        for axis in -10..10isize {
            if let Ok(index) = check_and_get_axis_dyn(Some(axis), rank) {
                assert!(index < rank);
                assert!(-(rank as isize) <= axis && axis < rank as isize);
            } else {
                assert!(axis < -(rank as isize) || axis >= rank as isize);
            }
        }
    }
}

fn fixed_rank(rank: usize, axis: Option<isize>) -> Result<usize, ()> {
    match rank {
        0 => check_and_get_axis_st::<0>(axis),
        1 => check_and_get_axis_st::<1>(axis),
        2 => check_and_get_axis_st::<2>(axis),
        3 => check_and_get_axis_st::<3>(axis),
        4 => check_and_get_axis_st::<4>(axis),
        5 => check_and_get_axis_st::<5>(axis),
        _ => check_and_get_axis_st::<6>(axis),
    }
}

#[test]
fn both_variants_agree() {
    for rank in 0..7usize {
        let mut axes: Vec<Option<isize>> = vec![None];
        for axis in -9..9isize {
            axes.push(Some(axis));
        }
        for axis in axes {
            let fixed = fixed_rank(rank, axis);
            let dynamic = check_and_get_axis_dyn(axis, rank);
            match (fixed, dynamic) {
                (Ok(i), Ok(j)) => assert_eq!(i, j),
                (Err(()), Err(e)) => assert_eq!(e, out_of_range()),
                (fixed, dynamic) => panic!("{:?} against {:?}", fixed, dynamic),
            }
        }
    }
}
