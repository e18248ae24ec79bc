use chippy::{UncheckedArray, UncheckedVec};

#[test]
fn array_reads_and_writes() {
    let mut array = UncheckedArray::new([10u8, 20, 30, 40]);
    assert_eq!(*array.index(0), 10);
    assert_eq!(*array.index(3), 40);
    *array.index_mut(2) = 33;
    assert_eq!(*array.index(2), 33);
    assert_eq!(*array.index(1), 20);
    *array.index_mut(0) += 1;
    assert_eq!(*array.index(0), 11);
}

#[test]
fn array_of_strings() {
    let mut array = UncheckedArray::new([String::from("a"), String::from("b")]);
    array.index_mut(1).push('c');
    assert_eq!(array.index(1), "bc");
    assert_eq!(array.index(0), "a");
}

#[test]
fn vec_reads_and_writes() {
    let mut vec = UncheckedVec::new(vec![1u16, 2, 3]);
    assert_eq!(vec.len(), 3);
    assert_eq!(*vec.index(0), 1);
    assert_eq!(*vec.index(2), 3);
    *vec.index_mut(1) = 22;
    assert_eq!(*vec.index(1), 22);
    assert_eq!(*vec.index(0), 1);
}

#[test]
fn vec_clear_removes_everything() {
    let mut vec = UncheckedVec::new(vec![1u16, 2, 3]);
    vec.clear();
    assert_eq!(vec.len(), 0);
    let mut empty: UncheckedVec<u8> = UncheckedVec::new(Vec::new());
    empty.clear();
    assert_eq!(empty.len(), 0);
}
