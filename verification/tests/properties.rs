use contig::na_types::{MATRIX_TOO_TALL, VECTOR_TOO_LONG};
use contig::prelude::{DynArrayLayout, ScalarLayout};
use contig::{
    Contig, Dyn, DynArrayConfig, DynMatrixConfig, DynVectorConfig, LayoutError, NaDMatrix,
    NaDVector, Pair, PairConfig, TakeCursor, Vec3, Vec3Layout,
};

type Link = Pair<f64, Vec3<f64>>;

#[test]
fn cursor_ranges_tile_the_consumed_space() {
    let sizes = [3usize, 0, 5, 1, 0, 7];
    let mut cursor = TakeCursor::new();
    let mut ranges = Vec::new();
    for n in sizes {
        ranges.push(cursor.take_range(n).unwrap());
    }
    let total = cursor.finish();
    assert_eq!(total, 16);
    assert_eq!(ranges[0].start, 0);
    for k in 0..ranges.len() {
        assert_eq!(ranges[k].end - ranges[k].start, sizes[k]);
        if k + 1 < ranges.len() {
            assert_eq!(ranges[k].end, ranges[k + 1].start);
        }
    }
    assert_eq!(ranges[ranges.len() - 1].end, total);
    for x in 0..total {
        let holders = ranges.iter().filter(|r| r.start <= x && x < r.end).count();
        assert_eq!(holders, 1);
    }
}

#[test]
fn cursor_without_ranges_finishes_at_zero() {
    assert_eq!(TakeCursor::new().finish(), 0);
}

#[test]
fn cursor_reports_overflow_and_stays_put() {
    let mut cursor = TakeCursor::new();
    assert_eq!(cursor.take_range(usize::MAX - 1).unwrap(), 0..usize::MAX - 1);
    assert_eq!(cursor.take_range(2), Err(LayoutError::Overflow));
    assert_eq!(cursor.take_range(1).unwrap(), usize::MAX - 1..usize::MAX);
    assert_eq!(cursor.take_range(1), Err(LayoutError::Overflow));
    assert_eq!(cursor.take_range(0).unwrap(), usize::MAX..usize::MAX);
    assert_eq!(cursor.finish(), usize::MAX);
}

#[test]
fn array_footprint_is_count_times_element_footprint() {
    let cfg = DynArrayConfig { len: 5, elem: () };
    let layout = Dyn::<[Vec3<f64>]>::layout(&cfg).unwrap();
    assert_eq!(layout.len, 5);
    assert_eq!(layout.elem_len, 3);
    assert_eq!(Dyn::<[Vec3<f64>]>::len(&layout), 15);
}

#[test]
fn array_layout_overflows() {
    let cfg = DynArrayConfig { len: usize::MAX, elem: () };
    assert_eq!(Dyn::<[Vec3<f64>]>::layout(&cfg).err(), Some(LayoutError::Overflow));
    let cfg = DynArrayConfig { len: usize::MAX / 3 + 1, elem: () };
    assert_eq!(Dyn::<[Vec3<f64>]>::layout(&cfg).err(), Some(LayoutError::Overflow));
    let cfg = DynArrayConfig { len: usize::MAX / 3, elem: () };
    let layout = Dyn::<[Vec3<f64>]>::layout(&cfg).unwrap();
    assert_eq!(Dyn::<[Vec3<f64>]>::len(&layout), usize::MAX);
    let cfg = DynArrayConfig { len: usize::MAX, elem: () };
    let layout = Dyn::<[f64]>::layout(&cfg).unwrap();
    assert_eq!(Dyn::<[f64]>::len(&layout), usize::MAX);
}

#[test]
fn nested_array_layout_overflows() {
    let cfg = DynArrayConfig {
        len: 2,
        elem: DynArrayConfig { len: usize::MAX, elem: () },
    };
    assert_eq!(Dyn::<[Dyn<[f64]>]>::layout(&cfg).err(), Some(LayoutError::Overflow));
    let cfg = DynArrayConfig {
        len: 0,
        elem: DynArrayConfig { len: usize::MAX, elem: () },
    };
    let layout = Dyn::<[Dyn<[Vec3<f64>]>]>::layout(&cfg);
    assert_eq!(layout.err(), Some(LayoutError::Overflow));
}

#[test]
fn element_failure_is_the_array_failure_even_when_empty() {
    let cfg = DynArrayConfig { len: 0, elem: DynVectorConfig { len: usize::MAX } };
    assert_eq!(
        Dyn::<[NaDVector<f64>]>::layout(&cfg).err(),
        Some(LayoutError::InvalidSize(VECTOR_TOO_LONG))
    );
    let cfg = DynArrayConfig { len: 4, elem: DynMatrixConfig { rows: usize::MAX, cols: 2 } };
    assert_eq!(Dyn::<[NaDMatrix<f64>]>::layout(&cfg).err(), Some(LayoutError::Overflow));
}

#[test]
fn vector_layout_accepts_up_to_half_the_index_space() {
    let half = (usize::MAX - 1) / 2;
    let layout = NaDVector::<f64>::layout(&DynVectorConfig { len: half }).unwrap();
    assert_eq!(layout.len, half);
    assert_eq!(NaDVector::<f64>::len(&layout), half);
    assert_eq!(
        NaDVector::<f64>::layout(&DynVectorConfig { len: half + 1 }).err(),
        Some(LayoutError::InvalidSize(VECTOR_TOO_LONG))
    );
    assert_eq!(
        NaDVector::<f64>::layout(&DynVectorConfig { len: usize::MAX }).err(),
        Some(LayoutError::InvalidSize(VECTOR_TOO_LONG))
    );
}

#[test]
fn matrix_layout_errors() {
    let layout = NaDMatrix::<f64>::layout(&DynMatrixConfig { rows: 4, cols: 5 }).unwrap();
    assert_eq!((layout.rows, layout.cols), (4, 5));
    assert_eq!(NaDMatrix::<f64>::len(&layout), 20);
    assert_eq!(
        NaDMatrix::<f64>::layout(&DynMatrixConfig { rows: usize::MAX, cols: 2 }).err(),
        Some(LayoutError::Overflow)
    );
    assert_eq!(
        NaDMatrix::<f64>::layout(&DynMatrixConfig { rows: usize::MAX, cols: 0 }).err(),
        Some(LayoutError::InvalidSize(MATRIX_TOO_TALL))
    );
    assert_eq!(
        NaDMatrix::<f64>::layout(&DynMatrixConfig { rows: usize::MAX - 1, cols: 0 }).err(),
        None
    );
    assert_eq!(
        NaDMatrix::<f64>::layout(&DynMatrixConfig { rows: usize::MAX / 2, cols: 1 }).err(),
        None
    );
    assert_eq!(
        NaDMatrix::<f64>::layout(&DynMatrixConfig { rows: usize::MAX / 2 + 1, cols: 1 }).err(),
        Some(LayoutError::InvalidSize(MATRIX_TOO_TALL))
    );
    let layout = NaDMatrix::<f64>::layout(&DynMatrixConfig { rows: 0, cols: usize::MAX }).unwrap();
    assert_eq!(NaDMatrix::<f64>::len(&layout), 0);
}

#[test]
fn record_footprint_is_the_sum_of_its_parts() {
    let cfg = PairConfig { first: (), second: () };
    let layout = Link::layout(&cfg).unwrap();
    assert_eq!(layout.off_first, 0..1);
    assert_eq!(layout.off_second, 1..4);
    assert_eq!(layout.len, 4);
    assert_eq!(layout.len(), 4);
    assert_eq!(Link::len(&layout), 4);

    let cfg = PairConfig {
        first: DynArrayConfig { len: 3, elem: () },
        second: DynArrayConfig { len: 2, elem: PairConfig { first: (), second: () } },
    };
    let layout = Pair::<Dyn<[Vec3<f64>]>, Dyn<[Link]>>::layout(&cfg).unwrap();
    assert_eq!(layout.off_first, 0..9);
    assert_eq!(layout.off_second, 9..17);
    assert_eq!(layout.layout_first.len, 3);
    assert_eq!(layout.layout_second.elem_len, 4);
    assert_eq!(layout.len(), 17);
}

#[test]
fn record_layout_errors() {
    let cfg = PairConfig {
        first: DynArrayConfig { len: usize::MAX, elem: () },
        second: DynArrayConfig { len: 1, elem: () },
    };
    assert_eq!(
        Pair::<Dyn<[f64]>, Dyn<[f64]>>::layout(&cfg).err(),
        Some(LayoutError::Overflow)
    );
    let cfg = PairConfig {
        first: DynArrayConfig { len: usize::MAX - 1, elem: () },
        second: DynArrayConfig { len: 1, elem: () },
    };
    let layout = Pair::<Dyn<[f64]>, Dyn<[f64]>>::layout(&cfg).unwrap();
    assert_eq!(layout.len(), usize::MAX);
    let cfg = PairConfig {
        first: DynMatrixConfig { rows: usize::MAX, cols: 2 },
        second: DynVectorConfig { len: usize::MAX },
    };
    assert_eq!(
        Pair::<NaDMatrix<f64>, NaDVector<f64>>::layout(&cfg).err(),
        Some(LayoutError::Overflow)
    );
    let cfg = PairConfig {
        first: DynMatrixConfig { rows: 1, cols: 2 },
        second: DynVectorConfig { len: usize::MAX },
    };
    assert_eq!(
        Pair::<NaDMatrix<f64>, NaDVector<f64>>::layout(&cfg).err(),
        Some(LayoutError::InvalidSize(VECTOR_TOO_LONG))
    );
}

#[test]
fn record_layout_clone_keeps_every_field() {
    let cfg = PairConfig { first: DynArrayConfig { len: 3, elem: () }, second: () };
    let layout = Pair::<Dyn<[f64]>, Vec3<f64>>::layout(&cfg).unwrap();
    let copy = layout.clone();
    assert_eq!(copy.off_first, 0..3);
    assert_eq!(copy.off_second, 3..6);
    assert_eq!(copy.layout_first.len, 3);
    assert_eq!(copy.layout_first.elem_len, 1);
    assert_eq!(copy.len, 6);
}

#[test]
fn array_of_scalars_is_packed_in_index_order() {
    let cfg = DynArrayConfig { len: 4, elem: () };
    let layout = Dyn::<[f64]>::layout(&cfg).unwrap();
    let mut buf = vec![0.0f64; 4];
    {
        let mut view = Dyn::<[f64]>::view_mut(&layout, &mut buf);
        for i in 0..view.len() {
            *view.get_mut(i) = i as f64 + 1.0;
        }
        assert_eq!(*view.get(2), 3.0);
    }
    assert_eq!(buf, vec![1.0, 2.0, 3.0, 4.0]);
}

#[test]
fn array_of_groups_is_packed_without_gaps() {
    let cfg = DynArrayConfig { len: 2, elem: () };
    let layout = Dyn::<[Vec3<f64>]>::layout(&cfg).unwrap();
    let mut buf = vec![0.0f64; 6];
    {
        let mut view = Dyn::<[Vec3<f64>]>::view_mut(&layout, &mut buf);
        view.get_mut(1).set(4.0, 5.0, 6.0);
        view.get_mut(0).set(1.0, 2.0, 3.0);
    }
    assert_eq!(buf, vec![1.0, 2.0, 3.0, 4.0, 5.0, 6.0]);
}

#[test]
fn writing_one_element_leaves_the_others() {
    let cfg = DynArrayConfig { len: 3, elem: () };
    let layout = Dyn::<[Vec3<f64>]>::layout(&cfg).unwrap();
    let mut buf: Vec<f64> = (0..9).map(|k| k as f64).collect();
    {
        let mut view = Dyn::<[Vec3<f64>]>::view_mut(&layout, &mut buf);
        let mut middle = view.get_mut(1);
        *middle.y() = 40.0;
    }
    assert_eq!(buf, vec![0.0, 1.0, 2.0, 3.0, 40.0, 5.0, 6.0, 7.0, 8.0]);
    let view = Dyn::<[Vec3<f64>]>::view(&layout, &buf);
    assert_eq!(*view.get(1).y(), 40.0);
    assert_eq!(*view.get(0).z(), 2.0);
    assert_eq!(*view.get(2).x(), 6.0);
}

#[test]
fn array_of_records_is_packed_field_after_field() {
    let cfg = DynArrayConfig { len: 2, elem: PairConfig { first: (), second: () } };
    let layout = Dyn::<[Link]>::layout(&cfg).unwrap();
    assert_eq!(Dyn::<[Link]>::len(&layout), 2 * (1 + 3));
    let mut buf = vec![0.0f64; 8];
    {
        let mut links = Dyn::<[Link]>::view_mut(&layout, &mut buf);
        let mut link = links.get_mut(0);
        *link.first() = 10.0;
        link.second().set(1.0, 2.0, 3.0);
        let mut link = links.get_mut(1);
        *link.first() = 20.0;
        link.second().set(4.0, 5.0, 6.0);
    }
    assert_eq!(buf, vec![10.0, 1.0, 2.0, 3.0, 20.0, 4.0, 5.0, 6.0]);
    let links = Dyn::<[Link]>::view(&layout, &buf);
    assert_eq!(links.len(), 2);
    assert_eq!(*links.get(0).first(), 10.0);
    assert_eq!(*links.get(1).first(), 20.0);
    assert_eq!(*links.get(1).second().z(), 6.0);
    assert_eq!(links.get(1).as_slice(), &[20.0, 4.0, 5.0, 6.0]);
}

#[test]
fn record_views_expose_their_slice() {
    let layout = Link::layout(&PairConfig { first: (), second: () }).unwrap();
    let mut buf = vec![0.0f64; 4];
    {
        let mut view = Link::view_mut(&layout, &mut buf);
        view.as_mut_slice()[3] = 8.0;
        *view.first() = 5.0;
        assert_eq!(view.as_mut_slice().len(), 4);
    }
    assert_eq!(buf, vec![5.0, 0.0, 0.0, 8.0]);
    let view = Link::view(&layout, &buf);
    assert_eq!(view.as_slice(), &[5.0, 0.0, 0.0, 8.0]);
    assert_eq!(*view.second().z(), 8.0);
}

#[test]
fn group_components_are_written_one_by_one() {
    let layout = Vec3::<f64>::layout(&()).unwrap();
    let mut buf = [0.0f64; 3];
    {
        let mut view = Vec3::<f64>::view_mut(&layout, &mut buf);
        *view.z() = 3.0;
        *view.x() = 1.0;
        *view.y() = 2.0;
    }
    assert_eq!(buf, [1.0, 2.0, 3.0]);
    let view = Vec3::<f64>::view(&layout, &buf);
    assert_eq!((*view.x(), *view.y(), *view.z()), (1.0, 2.0, 3.0));
}

#[test]
fn nested_rows_have_the_same_local_length() {
    let cfg = DynArrayConfig {
        len: 3,
        elem: DynArrayConfig { len: 2, elem: () },
    };
    let layout = Dyn::<[Dyn<[Vec3<f64>]>]>::layout(&cfg).unwrap();
    assert_eq!(Dyn::<[Dyn<[Vec3<f64>]>]>::len(&layout), 3 * 2 * 3);
    assert_eq!(layout.elem_len, 6);
    let mut buf = vec![0.0f64; 18];
    {
        let mut rows = Dyn::<[Dyn<[Vec3<f64>]>]>::view_mut(&layout, &mut buf);
        assert_eq!(rows.len(), 3);
        for r in 0..3 {
            let mut row = rows.get_mut(r);
            assert_eq!(row.len(), 2);
            for c in 0..2 {
                let base = (r * 100 + c * 10) as f64;
                row.get_mut(c).set(base, base + 1.0, base + 2.0);
            }
        }
    }
    let rows = Dyn::<[Dyn<[Vec3<f64>]>]>::view(&layout, &buf);
    for r in 0..3 {
        let row = rows.get(r);
        assert_eq!(row.len(), 2);
        for c in 0..2 {
            assert_eq!(*row.get(c).z(), (r * 100 + c * 10 + 2) as f64);
            assert_eq!(buf[r * 6 + c * 3 + 2], (r * 100 + c * 10 + 2) as f64);
        }
    }
}

#[test]
fn zero_count_arrays_occupy_nothing() {
    let cfg = DynArrayConfig { len: 0, elem: () };
    let layout = Dyn::<[Vec3<f64>]>::layout(&cfg).unwrap();
    assert_eq!(layout.elem_len, 3);
    assert_eq!(Dyn::<[Vec3<f64>]>::len(&layout), 0);
    let mut buf: [f64; 0] = [];
    let view = Dyn::<[Vec3<f64>]>::view_mut(&layout, &mut buf);
    assert_eq!(view.len(), 0);

    let cfg = DynArrayConfig { len: 4, elem: DynArrayConfig { len: 0, elem: () } };
    let layout = Dyn::<[Dyn<[f64]>]>::layout(&cfg).unwrap();
    assert_eq!(Dyn::<[Dyn<[f64]>]>::len(&layout), 0);
    let buf: [f64; 0] = [];
    let rows = Dyn::<[Dyn<[f64]>]>::view(&layout, &buf);
    assert_eq!(rows.len(), 4);
    for r in 0..rows.len() {
        assert_eq!(rows.get(r).len(), 0);
    }
}

#[test]
fn one_layout_serves_many_buffers() {
    let cfg = DynArrayConfig { len: 2, elem: () };
    let layout = Dyn::<[f64]>::layout(&cfg).unwrap();
    let mut front = vec![0.0f64; 2];
    let mut back = vec![0.0f64; 2];
    *Dyn::<[f64]>::view_mut(&layout, &mut front).get_mut(0) = 1.0;
    *Dyn::<[f64]>::view_mut(&layout, &mut back).get_mut(1) = 2.0;
    assert_eq!(front, vec![1.0, 0.0]);
    assert_eq!(back, vec![0.0, 2.0]);
}

#[test]
fn scalars_of_other_element_types() {
    let layout: ScalarLayout = u32::layout(&()).unwrap();
    assert_eq!(u32::len(&layout), 1);
    let mut buf = [7u32];
    *u32::view_mut(&layout, &mut buf) += 1;
    assert_eq!(*u32::view(&layout, &buf), 8);

    let cfg = DynArrayConfig { len: 3, elem: () };
    let layout: DynArrayLayout<Vec3Layout> = Dyn::<[Vec3<i64>]>::layout(&cfg).unwrap();
    let mut buf = vec![0i64; 9];
    Dyn::<[Vec3<i64>]>::view_mut(&layout, &mut buf).get_mut(2).set(-1, -2, -3);
    assert_eq!(buf, vec![0, 0, 0, 0, 0, 0, -1, -2, -3]);
}

#[test]
fn layout_errors_compare_and_print() {
    assert_eq!(LayoutError::Overflow, LayoutError::Overflow);
    assert_ne!(LayoutError::Overflow, LayoutError::InvalidSize(VECTOR_TOO_LONG));
    assert_ne!(
        LayoutError::InvalidSize(VECTOR_TOO_LONG),
        LayoutError::InvalidSize(MATRIX_TOO_TALL)
    );
    assert_eq!(format!("{:?}", LayoutError::Overflow), "Overflow");
    assert!(format!("{:?}", LayoutError::InvalidSize(MATRIX_TOO_TALL)).contains("rows * cols"));
}
