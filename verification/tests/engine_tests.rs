use oscirs::linalg::calculator::{Calculator, MatMulParams};
use oscirs::linalg::err::LAError;
use oscirs::linalg::matrix::Matrix;
use oscirs::linalg::memory::MemoryHandler;

fn mat(words: Vec<u32>, rows: usize, cols: usize) -> Matrix {
    Matrix::new(words, rows, cols).expect("matrix literal should be well formed")
}

#[test]
fn store_then_retrieve_round_trip() {
    let mut calc: Calculator<MatMulParams> = Calculator::init().unwrap();

    // Arbitrary words, including patterns that are not ordinary finite
    // floats: the round trip must be bit-identical.
    let words: Vec<u32> = vec![0, 1, 0x7FC0_0001, 0xFFFF_FFFF, 42, 7];
    let handle = calc.store_matrix(mat(words.clone(), 2, 3)).unwrap();

    let back = calc.get_matrix(handle).unwrap();
    assert_eq!(back.get_data(), words);
    assert_eq!(back.get_rows(), 2);
    assert_eq!(back.get_cols(), 3);
}

#[test]
fn incompatible_multiply_leaves_table_unchanged() {
    let mut calc: Calculator<MatMulParams> = Calculator::init().unwrap();
    let a = calc.store_matrix(mat(vec![1, 2, 3, 4, 5, 6], 2, 3)).unwrap();
    let b = calc.store_matrix(mat(vec![1, 2, 3, 4, 5, 6], 2, 3)).unwrap();

    let occupied_before = calc.n_occupied();
    let capacity_before = calc.capacity();

    // A 2x3 cannot multiply a 2x3: the plan is rejected on shape metadata
    // and no output slot is allocated.
    assert!(matches!(calc.mat_mul(a, b), Err(LAError::SizeError)));
    assert_eq!(calc.n_occupied(), occupied_before);
    assert_eq!(calc.capacity(), capacity_before);

    // Invalid handles are rejected before shape checks.
    assert!(matches!(calc.mat_mul(a, 99), Err(LAError::MemoryError)));
}

#[test]
fn free_then_retrieve_is_an_error() {
    let mut calc: Calculator<MatMulParams> = Calculator::init().unwrap();
    let handle = calc.store_matrix(mat(vec![1, 2, 3, 4], 2, 2)).unwrap();

    assert!(calc.get_matrix(handle).is_ok());
    calc.free_matrix(handle).unwrap();

    assert!(matches!(calc.get_matrix(handle), Err(LAError::MemoryError)));
    assert!(matches!(calc.free_matrix(handle), Err(LAError::MemoryError)));
    assert!(matches!(calc.get_matrix(1000), Err(LAError::MemoryError)));
}

#[test]
fn capacity_grows_transparently() {
    let mut calc: Calculator<MatMulParams> = Calculator::init().unwrap();
    let initial_capacity = calc.capacity();
    assert_eq!(initial_capacity, 3);

    let mut handles: Vec<usize> = Vec::new();
    for i in 0..7u32 {
        let words = vec![i, i + 1, i + 2, i + 3];
        handles.push(calc.store_matrix(mat(words, 2, 2)).unwrap());
    }

    assert!(calc.capacity() > initial_capacity);
    assert_eq!(calc.n_occupied(), 7);

    // Every previously issued handle still resolves to its own data.
    for (i, &h) in handles.iter().enumerate() {
        let back = calc.get_matrix(h).unwrap();
        let i = i as u32;
        assert_eq!(back.get_data(), vec![i, i + 1, i + 2, i + 3]);
    }
}

#[test]
fn freed_slot_is_reused_with_fresh_handle() {
    let mut calc: Calculator<MatMulParams> = Calculator::init().unwrap();
    let h0 = calc.store_matrix(mat(vec![10], 1, 1)).unwrap();
    let h1 = calc.store_matrix(mat(vec![11], 1, 1)).unwrap();
    let h2 = calc.store_matrix(mat(vec![12], 1, 1)).unwrap();
    assert_eq!((h0, h1, h2), (0, 1, 2));

    calc.free_matrix(h1).unwrap();

    // The next store reuses the freed slot's position under a fresh handle;
    // only that fresh handle speaks for the new content.
    let h3 = calc.store_matrix(mat(vec![13], 1, 1)).unwrap();
    assert_eq!(h3, 1);
    assert_eq!(calc.get_matrix(h3).unwrap().get_data(), vec![13]);

    // With no slot free, the next store opens a new slot instead of touching
    // an occupied one.
    let h4 = calc.store_matrix(mat(vec![14], 1, 1)).unwrap();
    assert_eq!(h4, 3);
    assert_eq!(calc.get_matrix(h0).unwrap().get_data(), vec![10]);
    assert_eq!(calc.get_matrix(h2).unwrap().get_data(), vec![12]);
}

#[test]
fn handler_upload_validates_shape() {
    let mut handler = MemoryHandler::new(2);
    assert_eq!(handler.capacity(), 2);
    assert_eq!(handler.n_occupied(), 0);

    let handle = handler.allocate(2, 2).unwrap();
    assert_eq!(handler.n_occupied(), 1);

    // A freshly allocated buffer reads back zero-filled.
    assert_eq!(handler.download(handle).unwrap().get_data(), vec![0, 0, 0, 0]);
    assert_eq!(handler.shape_of(handle).unwrap(), (2, 2));

    // Uploading data of another shape is rejected without reshaping.
    assert!(matches!(
        handler.upload(handle, mat(vec![1, 2, 3], 3, 1)),
        Err(LAError::MatrixMismatchError)
    ));
    assert!(matches!(
        handler.upload(9, mat(vec![1], 1, 1)),
        Err(LAError::MemoryError)
    ));

    handler.upload(handle, mat(vec![5, 6, 7, 8], 2, 2)).unwrap();
    assert_eq!(handler.download(handle).unwrap().get_data(), vec![5, 6, 7, 8]);
}

#[test]
fn handler_capacity_only_grows() {
    let mut handler = MemoryHandler::new(2);
    let h = handler.allocate(1, 2).unwrap();

    handler.resize_capacity(5).unwrap();
    assert_eq!(handler.capacity(), 5);
    assert_eq!(handler.download(h).unwrap().get_data(), vec![0, 0]);

    assert!(matches!(handler.resize_capacity(1), Err(LAError::ResizeError)));
    assert_eq!(handler.capacity(), 5);

    assert!(matches!(handler.free(4), Err(LAError::MemoryError)));
    handler.free(h).unwrap();
    assert_eq!(handler.n_occupied(), 0);
}

#[test]
fn completed_dispatch_stays_resident() {
    let mut calc: Calculator<MatMulParams> = Calculator::init().unwrap();
    let a = calc.store_matrix(mat(vec![1, 2, 3, 4, 5, 6], 2, 3)).unwrap();
    let b = calc.store_matrix(mat(vec![1, 2, 3, 4, 5, 6], 3, 2)).unwrap();

    let dispatch = calc.mat_mul(a, b).unwrap();

    // Words of a wrong length for the planned output shape are rejected and
    // nothing is stored.
    let occupied = calc.n_occupied();
    assert!(matches!(
        calc.complete_dispatch(&dispatch, vec![1, 2, 3]),
        Err(LAError::SizeError)
    ));
    assert_eq!(calc.n_occupied(), occupied);

    let (out, out_handle) = calc.complete_dispatch(&dispatch, vec![9, 8, 7, 6]).unwrap();
    assert_eq!(out.get_rows(), 2);
    assert_eq!(out.get_cols(), 2);
    assert_eq!(out.get_data(), vec![9, 8, 7, 6]);

    // The result also stays device-resident under the returned handle, so it
    // can be chained into a further operation.
    assert_eq!(calc.get_matrix(out_handle).unwrap().get_data(), vec![9, 8, 7, 6]);
    assert!(calc.mat_mul(out_handle, a).is_ok());
}
