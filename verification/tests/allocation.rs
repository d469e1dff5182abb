use matrix_alloc::allocator::{Allocator, DefaultAllocator};
use matrix_alloc::dimension::{Dim, Dynamic, Static};
use matrix_alloc::storage::{MatrixArray, MatrixVec, Storage};

#[test]
fn static_static_selects_inline_buffer() {
    let buf: MatrixArray<i32, 2, 3> =
        DefaultAllocator::allocate_from_iterator(Static::<2>, Static::<3>, vec![1, 2, 3, 4, 5, 6]);
    assert_eq!(buf.len(), 6);
    for i in 0..6 {
        assert_eq!(buf.get(i), (i + 1) as i32);
    }
}

#[test]
fn dynamic_rows_selects_heap_buffer_with_dimensions() {
    let buf: MatrixVec<i32, Dynamic, Static<3>> = DefaultAllocator::allocate_from_iterator(
        Dynamic::new(2),
        Static::<3>,
        vec![1, 2, 3, 4, 5, 6],
    );
    assert_eq!(buf.nrows().count(), 2);
    assert_eq!(buf.ncols().count(), 3);
    assert_eq!(buf.len(), 6);
    for i in 0..6 {
        assert_eq!(buf.get(i), (i + 1) as i32);
    }
}

#[test]
fn dynamic_cols_selects_heap_buffer_with_dimensions() {
    let buf: MatrixVec<i32, Static<2>, Dynamic> = DefaultAllocator::allocate_from_iterator(
        Static::<2>,
        Dynamic::new(3),
        vec![1, 2, 3, 4, 5, 6],
    );
    assert_eq!(buf.nrows().count(), 2);
    assert_eq!(buf.ncols().count(), 3);
    assert_eq!(buf.len(), 6);
    for i in 0..6 {
        assert_eq!(buf.get(i), (i + 1) as i32);
    }
}

#[test]
fn uninitialized_buffers_have_exact_slot_count() {
    let inline: MatrixArray<u64, 4, 5> =
        DefaultAllocator::allocate_uninitialized(Static::<4>, Static::<5>);
    assert_eq!(inline.len(), 20);

    let rows_dynamic: MatrixVec<u64, Dynamic, Static<5>> =
        DefaultAllocator::allocate_uninitialized(Dynamic::new(4), Static::<5>);
    assert_eq!(rows_dynamic.len(), 20);
    assert_eq!(rows_dynamic.nrows().count(), 4);
    assert_eq!(rows_dynamic.ncols().count(), 5);

    let cols_dynamic: MatrixVec<u64, Static<4>, Dynamic> =
        DefaultAllocator::allocate_uninitialized(Static::<4>, Dynamic::new(5));
    assert_eq!(cols_dynamic.len(), 20);
    assert_eq!(cols_dynamic.nrows().count(), 4);
    assert_eq!(cols_dynamic.ncols().count(), 5);
}

#[test]
fn reserved_buffer_accepts_a_full_write_pass() {
    let mut buf: MatrixArray<i32, 3, 2> =
        DefaultAllocator::allocate_uninitialized(Static::<3>, Static::<2>);
    for i in 0..6 {
        buf.set(i, (10 * i) as i32);
    }
    for i in 0..6 {
        assert_eq!(buf.get(i), (10 * i) as i32);
    }

    let mut heap: MatrixVec<i32, Dynamic, Static<2>> =
        DefaultAllocator::allocate_uninitialized(Dynamic::new(3), Static::<2>);
    for i in 0..6 {
        heap.set(i, -(i as i32));
    }
    for i in 0..6 {
        assert_eq!(heap.get(i), -(i as i32));
    }
    assert_eq!(heap.nrows().count(), 3);
    assert_eq!(heap.ncols().count(), 2);
}

#[test]
fn round_trip_preserves_order_of_distinct_values() {
    let values = vec![10, -3, 42, 7, 0, 99, -8, 15];
    let buf: MatrixVec<i32, Dynamic, Static<2>> =
        DefaultAllocator::allocate_from_iterator(Dynamic::new(4), Static::<2>, values.clone());
    for (i, v) in values.iter().enumerate() {
        assert_eq!(buf.get(i), *v);
    }
}

#[test]
fn undersupplied_sequence_is_rejected() {
    let short: Option<MatrixVec<i32, Dynamic, Static<3>>> =
        DefaultAllocator::try_allocate_from_iterator(
            Dynamic::new(2),
            Static::<3>,
            vec![1, 2, 3, 4, 5],
        );
    assert!(short.is_none());

    let short_inline: Option<MatrixArray<i32, 2, 3>> =
        DefaultAllocator::try_allocate_from_iterator(Static::<2>, Static::<3>, vec![1, 2, 3]);
    assert!(short_inline.is_none());
}

#[test]
fn oversupplied_sequence_is_rejected() {
    let long: Option<MatrixVec<i32, Dynamic, Static<3>>> =
        DefaultAllocator::try_allocate_from_iterator(
            Dynamic::new(2),
            Static::<3>,
            vec![1, 2, 3, 4, 5, 6, 7],
        );
    assert!(long.is_none());

    let long_inline: Option<MatrixArray<i32, 2, 2>> =
        DefaultAllocator::try_allocate_from_iterator(
            Static::<2>,
            Static::<2>,
            vec![1, 2, 3, 4, 5],
        );
    assert!(long_inline.is_none());
}

#[test]
fn exact_sequence_is_accepted() {
    let exact: Option<MatrixVec<i32, Dynamic, Static<3>>> =
        DefaultAllocator::try_allocate_from_iterator(
            Dynamic::new(2),
            Static::<3>,
            vec![1, 2, 3, 4, 5, 6],
        );
    let buf = exact.expect("a sequence of exactly rows * cols elements must be accepted");
    assert_eq!(buf.len(), 6);
    for i in 0..6 {
        assert_eq!(buf.get(i), (i + 1) as i32);
    }
}

#[test]
fn zero_sized_axis_allocates_empty_buffer() {
    let no_rows: MatrixVec<i32, Dynamic, Static<3>> =
        DefaultAllocator::allocate_uninitialized(Dynamic::new(0), Static::<3>);
    assert_eq!(no_rows.len(), 0);

    let no_cols: MatrixVec<i32, Static<3>, Dynamic> =
        DefaultAllocator::allocate_uninitialized(Static::<3>, Dynamic::new(0));
    assert_eq!(no_cols.len(), 0);

    let inline: MatrixArray<i32, 0, 7> =
        DefaultAllocator::allocate_uninitialized(Static::<0>, Static::<7>);
    assert_eq!(inline.len(), 0);
}

#[test]
fn zero_sized_axis_accepts_empty_sequence() {
    let empty: Option<MatrixVec<i32, Dynamic, Static<3>>> =
        DefaultAllocator::try_allocate_from_iterator(Dynamic::new(0), Static::<3>, vec![]);
    let buf = empty.expect("an empty sequence must fill a zero-slot buffer");
    assert_eq!(buf.len(), 0);
    assert_eq!(buf.nrows().count(), 0);
    assert_eq!(buf.ncols().count(), 3);

    let nonempty: Option<MatrixVec<i32, Dynamic, Static<3>>> =
        DefaultAllocator::try_allocate_from_iterator(Dynamic::new(0), Static::<3>, vec![1]);
    assert!(nonempty.is_none());
}

#[test]
fn dynamic_pair_selects_heap_buffer() {
    let buf: MatrixVec<i32, Dynamic, Dynamic> = DefaultAllocator::allocate_from_iterator(
        Dynamic::new(3),
        Dynamic::new(2),
        vec![9, 8, 7, 6, 5, 4],
    );
    assert_eq!(buf.nrows().count(), 3);
    assert_eq!(buf.ncols().count(), 2);
    assert_eq!(buf.len(), 6);
    assert_eq!(buf.get(0), 9);
    assert_eq!(buf.get(5), 4);
}
