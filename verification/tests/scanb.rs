use iter_scanb::ExactSource;
use iter_scanb::IterScanB;
use iter_scanb::NegatedProduct;
use iter_scanb::NoHint;
use iter_scanb::Source;
use iter_scanb::VecSource;
use iter_scanb::WrappingSum;

#[test]
fn pulls_yield_negated_products() {
    let src = VecSource::new(vec![1i64, 2, 3, 4]);
    let mut it = src.scanb(1i64, NegatedProduct);
    assert_eq!(it.next(), Some(-1));
    assert_eq!(it.next(), Some(-2));
    assert_eq!(it.next(), Some(-6));
    assert_eq!(it.next(), Some(-24));
    assert_eq!(it.next(), None);
}

#[test]
fn state_threads_left_to_right() {
    let src = VecSource::new(vec![5i64, 7]);
    let mut it = src.scanb(2i64, NegatedProduct);
    assert_eq!(*it.current_state(), 2);
    assert_eq!(it.next(), Some(-10));
    assert_eq!(*it.current_state(), 10);
    assert_eq!(it.next(), Some(-70));
    assert_eq!(*it.current_state(), 70);
    assert_eq!(it.next(), None);
}

#[test]
fn output_count_equals_input_count() {
    let src = VecSource::new(vec![3i64, 1, 4, 1, 5, 9]);
    let mut it = src.scanb(1i64, NegatedProduct);
    let mut outputs: Vec<i64> = Vec::new();
    while let Some(b) = it.next() {
        outputs.push(b);
    }
    assert_eq!(outputs.len(), 6);
    assert_eq!(outputs, vec![-3, -3, -12, -12, -60, -540]);
}

#[test]
fn empty_source_exhausts_immediately() {
    let src = VecSource::new(Vec::<i64>::new());
    let mut it = src.scanb(7i64, NegatedProduct);
    assert_eq!(it.next(), None);
    assert_eq!(*it.current_state(), 7);
    assert_eq!(it.next(), None);
    assert_eq!(*it.current_state(), 7);
}

#[test]
fn fused_exhaustion_is_permanent() {
    let src = VecSource::new(vec![2i64]);
    let mut it = src.scanb(3i64, NegatedProduct);
    assert_eq!(it.next(), Some(-6));
    assert_eq!(it.next(), None);
    assert_eq!(it.next(), None);
    assert_eq!(it.next(), None);
    assert_eq!(*it.current_state(), 6);
}

#[test]
fn fold_equals_pull_based_consumption() {
    let elems = vec![1i64, 2, 3, 4];

    let folded = VecSource::new(elems.clone()).scanb(1i64, NegatedProduct).fold(0i64, WrappingSum);

    let mut it = VecSource::new(elems).scanb(1i64, NegatedProduct);
    let mut pulled = 0i64;
    let mut mutations = 0usize;
    while let Some(b) = it.next() {
        pulled = pulled.wrapping_add(b);
        mutations += 1;
    }
    assert_eq!(folded, pulled);
    assert_eq!(folded, -33);
    assert_eq!(mutations, 4);
}

#[test]
fn fold_of_empty_returns_seed() {
    let src = VecSource::new(Vec::<i64>::new());
    let it = src.scanb(9i64, NegatedProduct);
    assert_eq!(it.fold(41i64, WrappingSum), 41);
}

#[test]
fn size_hint_matches_source_at_every_step() {
    let mut src = VecSource::new(vec![8i64, 6, 7]);
    let mut it = VecSource::new(vec![8i64, 6, 7]).scanb(1i64, NegatedProduct);
    for _ in 0..4 {
        assert_eq!(it.size_hint(), src.size_hint());
        src.next();
        it.next();
    }
    assert_eq!(it.size_hint(), src.size_hint());
}

#[test]
fn exact_len_decreases_by_one_per_pull() {
    let src = VecSource::new(vec![1i64, 2, 3, 4, 5]);
    let mut it = src.scanb(1i64, NegatedProduct);
    for k in 0..5usize {
        assert_eq!(it.len(), 5 - k);
        it.next();
    }
    assert_eq!(it.len(), 0);
    it.next();
    assert_eq!(it.len(), 0);
}

#[test]
fn hidden_hint_claims_no_exactness() {
    let src = NoHint::new(VecSource::new(vec![1i64, 2, 3, 4, 5]));
    let mut it = src.scanb(1i64, NegatedProduct);
    assert_eq!(it.size_hint(), (0, None));
    let mut count = 0usize;
    while let Some(_) = it.next() {
        assert_eq!(it.size_hint(), (0, None));
        count += 1;
    }
    assert_eq!(count, 5);
}

#[test]
fn transform_wraps_on_overflow() {
    let src = VecSource::new(vec![2i64]);
    let mut it = src.scanb(i64::MAX, NegatedProduct);
    assert_eq!(it.next(), Some(2));
    assert_eq!(*it.current_state(), -2);
}

#[test]
fn adapters_chain_as_sources() {
    let inner = VecSource::new(vec![1i64, 2, 3]).scanb(1i64, NegatedProduct);
    let mut outer = inner.scanb(1i64, NegatedProduct);
    assert_eq!(outer.size_hint(), (3, Some(3)));
    assert_eq!(outer.next(), Some(1));
    assert_eq!(outer.next(), Some(-2));
    assert_eq!(outer.next(), Some(12));
    assert_eq!(outer.next(), None);
}
