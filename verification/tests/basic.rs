use c_vec::{CSlice, CSliceMut, CVec};
use std::cell::RefCell;
use std::rc::Rc;

/// The address that the test blocks pretend to live at.
const BLOCK: usize = 0x1000;

/// A zeroed block of `n` bytes that lives as long as the test.
fn block(n: usize) -> &'static mut [u8] {
    Box::leak(vec![0u8; n].into_boxed_slice())
}

/// A handle over a fresh block of `n` bytes, with a release action.
fn v_malloc(n: usize) -> CVec<'static, u8> {
    CVec::new_with_dtor(BLOCK, block(n), |_| {})
}

/// A read-only view over a fresh block of `n` bytes.
fn s_malloc(n: usize) -> CSlice<'static, u8> {
    CSlice::new(BLOCK, block(n))
}

#[test]
fn vec_test_basic() {
    let mut cv = v_malloc(16);

    *cv.get_mut(3).unwrap() = 8;
    *cv.get_mut(4).unwrap() = 9;
    assert_eq!(*cv.get(3).unwrap(), 8);
    assert_eq!(*cv.get(4).unwrap(), 9);
    assert_eq!(*cv.get(3).unwrap(), cv[3]);
    assert_eq!(*cv.get(4).unwrap(), cv[4]);
    assert_eq!(cv.len(), 16);
}

#[test]
fn slice_test_basic() {
    let mut cs = v_malloc(16);

    *cs.index_mut(3) = 8;
    *cs.index_mut(4) = 9;
    assert_eq!(cs[3], 8);
    assert_eq!(cs[4], 9);
    assert_eq!(cs.len(), 16);

    let cs = cs.as_cslice();
    assert_eq!(cs[3], 8);
    assert_eq!(cs[4], 9);
    assert_eq!(cs.len(), 16);
}

#[test]
fn vec_test_overrun_get() {
    let cv = v_malloc(16);

    assert!(cv.get(17).is_none());
}

#[test]
fn vec_test_overrun_set() {
    let mut cv = v_malloc(16);

    assert!(cv.get_mut(17).is_none());
}

#[test]
fn vec_test_unwrap() {
    let mut nothing: [isize; 0] = [];
    let cv = CVec::new_with_dtor(1, &mut nothing, |_| panic!("Don't run this destructor!"));
    let p = cv.into_inner();
    assert_eq!(p, 1);
}

#[test]
fn vec_to_slice_test() {
    let mut cv = v_malloc(2);

    *cv.get_mut(0).unwrap() = 10;
    *cv.get_mut(1).unwrap() = 12;

    let cs = cv.as_cslice();

    assert_eq!(cs[0], 10);
    assert_eq!(cs[1], 12);
}

#[test]
fn slice_to_vec_test() {
    let mut cv = v_malloc(2);
    {
        let mut cs = cv.as_cslice_mut();

        *cs.index_mut(0) = 13;
        *cs.index_mut(1) = 26;
    }
    assert_eq!(*cv.get(0).unwrap(), 13);
    assert_eq!(*cv.get(1).unwrap(), 26);
}

#[test]
fn convert_test() {
    let mut cv = v_malloc(2);
    {
        let mut cs = cv.as_cslice_mut();
        *cs.index_mut(0) = 1;
        *cs.index_mut(1) = 99;
        let v: Vec<_> = cs.into();
        assert_eq!(1, v[0]);
        assert_eq!(99, v[1]);
    }
    assert_eq!(1, cv[0]);
    assert_eq!(99, cv[1]);
}

#[test]
fn iter_cvec() {
    let mut cv = v_malloc(2);

    {
        let mut cs = cv.as_cslice_mut();

        *cs.index_mut(0) = 13;
        *cs.index_mut(1) = 26;
    }

    let mut iter = cv.iter();
    assert_eq!(iter.next(), Some(&13));
    assert_eq!(iter.next(), Some(&26));
    assert_eq!(iter.next(), None);
    assert_eq!(iter.next(), None);
}

#[test]
fn iter_cslice() {
    let mut cs = v_malloc(2);

    *cs.index_mut(0) = 13;
    *cs.index_mut(1) = 26;

    let slice = cs.as_cslice();
    let mut iter = slice.iter();
    assert_eq!(iter.next(), Some(&13));
    assert_eq!(iter.next(), Some(&26));
    assert_eq!(iter.next(), None);
    assert_eq!(iter.next(), None);
}

#[test]
fn slice_test_in_bounds_get() {
    let cs = s_malloc(16);

    assert_eq!(cs[15], 0);
    assert!(cs.get(16).is_none());
    assert!(cs.get(17).is_none());
}

#[test]
fn release_runs_the_callback_once_with_the_base() {
    let calls = Rc::new(RefCell::new(Vec::new()));
    let seen = calls.clone();
    let mut mem = [0u8, 1, 2];
    let mut cv = CVec::new_with_dtor(BLOCK, &mut mem, move |base| seen.borrow_mut().push(base));
    {
        let first = cv.as_cslice();
        let second = cv.as_cslice();
        assert_eq!(first.len(), second.len());
    }
    {
        let mut view = cv.as_cslice_mut();
        *view.index_mut(2) = 7;
    }
    assert!(calls.borrow().is_empty());
    cv.release();
    assert_eq!(*calls.borrow(), vec![BLOCK]);
    cv.release();
    assert_eq!(*calls.borrow(), vec![BLOCK]);
    assert_eq!(cv[2], 7);
}

#[test]
fn mutable_view_new_shares_the_memory() {
    let mut mem = [0i32, 1, 2];
    {
        let mut view = CSliceMut::new(BLOCK, &mut mem);
        assert_eq!(view.base(), BLOCK);
        *view.get_mut(1).unwrap() += 10;
        assert_eq!(view[1], 11);
        assert!(view.get_mut(3).is_none());
    }
    assert_eq!(mem, [0, 11, 2]);
}
