use contig::{Contig, Dyn, DynArrayConfig, Pair, PairConfig, Vec3};

type Link = Pair<f64, Vec3<f64>>;

type Robot = Pair<Dyn<[Link]>, Dyn<[f64]>>;

type Nested = Dyn<[Dyn<[f64]>]>;

#[test]
fn robot_layout_roundtrip() {
    let cfg = PairConfig {
        first: DynArrayConfig {
            len: 2,
            elem: PairConfig {
                first: (),
                second: (),
            },
        },
        second: DynArrayConfig { len: 4, elem: () },
    };

    let layout = Robot::layout(&cfg).expect("layout");
    let expected_len = Dyn::<[Link]>::len(&Dyn::<[Link]>::layout(&cfg.first).unwrap())
        + Dyn::<[f64]>::len(&Dyn::<[f64]>::layout(&cfg.second).unwrap());
    assert_eq!(Robot::len(&layout), expected_len);

    let mut buf = vec![0.0f64; layout.len()];
    {
        let mut view = Robot::view_mut(&layout, &mut buf);

        {
            let mut links = view.first();
            let mut first = links.get_mut(0);
            *first.first() = 10.0;
            first.second().set(1.0, 2.0, 3.0);

            let mut second = links.get_mut(1);
            *second.first() = 20.0;
            second.second().set(4.0, 5.0, 6.0);
        }

        {
            let mut scalars = view.second();
            for i in 0..scalars.len() {
                *scalars.get_mut(i) = i as f64 + 0.5;
            }
        }
    }

    let cview = Robot::view(&layout, &buf);
    let links = cview.first();
    let first = links.get(0);
    assert_eq!(*first.first(), 10.0);
    assert_eq!(*first.second().x(), 1.0);
    assert_eq!(*first.second().y(), 2.0);
    assert_eq!(*first.second().z(), 3.0);

    let second = links.get(1);
    assert_eq!(*second.first(), 20.0);
    assert_eq!(*second.second().x(), 4.0);
    assert_eq!(*second.second().y(), 5.0);
    assert_eq!(*second.second().z(), 6.0);

    let scalars = cview.second();
    for i in 0..scalars.len() {
        assert_eq!(*scalars.get(i), i as f64 + 0.5);
    }
}

#[test]
fn nested_dynamic_array_roundtrip() {
    let cfg = DynArrayConfig {
        len: 2,
        elem: DynArrayConfig { len: 3, elem: () },
    };

    let layout = Nested::layout(&cfg).expect("layout");
    assert_eq!(Nested::len(&layout), 2 * 3);
    let mut buf = vec![0.0f64; Nested::len(&layout)];

    {
        let mut rows = Nested::view_mut(&layout, &mut buf);
        for row_idx in 0..rows.len() {
            let mut row = rows.get_mut(row_idx);
            for col_idx in 0..row.len() {
                *row.get_mut(col_idx) = (row_idx * 10 + col_idx) as f64;
            }
        }
    }

    let rows = Nested::view(&layout, &buf);
    for row_idx in 0..rows.len() {
        let row = rows.get(row_idx);
        for col_idx in 0..row.len() {
            assert_eq!(*row.get(col_idx), (row_idx * 10 + col_idx) as f64);
        }
    }
}
