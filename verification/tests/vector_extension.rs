use kyron::vector_extension::{FixedVec, VectorExtension};

const VEC_SIZE: usize = 10;

fn filled() -> FixedVec {
    let mut vec = FixedVec::new(VEC_SIZE);
    for i in 0..VEC_SIZE {
        vec.push(i);
    }
    vec
}

#[test]
fn swap_remove_mid_element() {
    let mut vec = filled();
    assert_eq!(vec.swap_remove(5), 5);
    assert_eq!(vec.as_slice()[4], 4);
    assert_eq!(vec.as_slice()[5], 9);
    assert_eq!(vec.as_slice()[6], 6);
    assert_eq!(vec.len(), VEC_SIZE - 1);
}

#[test]
fn swap_remove_first_element() {
    let mut vec = filled();
    assert_eq!(vec.swap_remove(0), 0);
    assert_eq!(vec.as_slice()[0], 9);
    assert_eq!(vec.as_slice()[1], 1);
    assert_eq!(vec.len(), VEC_SIZE - 1);
}

#[test]
fn swap_remove_last_element() {
    let mut vec = filled();
    assert_eq!(vec.swap_remove(VEC_SIZE - 1), 9);
    assert_eq!(vec.as_slice()[0], 0);
    assert_eq!(vec.as_slice()[8], 8);
    assert_eq!(vec.len(), VEC_SIZE - 1);
}

#[test]
fn swap_remove_vec_with_one_element() {
    let mut vec = FixedVec::new(1);
    vec.push(100);
    assert_eq!(vec.swap_remove(0), 100);
    assert_eq!(vec.len(), 0);
}

#[test]
fn remove_mid_element() {
    let mut vec = filled();
    assert_eq!(VectorExtension::remove(&mut vec, 5), 5);
    assert_eq!(vec.as_slice()[4], 4);
    assert_eq!(vec.as_slice()[5], 6);
    assert_eq!(vec.as_slice()[8], 9);
    assert_eq!(vec.len(), VEC_SIZE - 1);
}

#[test]
fn remove_first_element() {
    let mut vec = filled();
    assert_eq!(VectorExtension::remove(&mut vec, 0), 0);
    assert_eq!(vec.as_slice()[0], 1);
    assert_eq!(vec.as_slice()[8], 9);
    assert_eq!(vec.len(), VEC_SIZE - 1);
}

#[test]
fn remove_last_element() {
    let mut vec = filled();
    assert_eq!(VectorExtension::remove(&mut vec, VEC_SIZE - 1), 9);
    assert_eq!(vec.as_slice()[0], 0);
    assert_eq!(vec.as_slice()[8], 8);
    assert_eq!(vec.len(), VEC_SIZE - 1);
}

#[test]
fn remove_vec_with_one_element() {
    let mut vec = FixedVec::new(1);
    vec.push(100);
    assert_eq!(VectorExtension::remove(&mut vec, 0), 100);
    assert_eq!(vec.len(), 0);
}

#[test]
fn fixed_vec_push_respects_capacity() {
    let mut vec = FixedVec::new(2);
    assert!(vec.push(1));
    assert!(vec.push(2));
    assert!(!vec.push(3));
    assert_eq!(vec.capacity(), 2);
    assert_eq!(vec.pop(), Some(2));
    assert_eq!(vec.as_slice(), &[1]);
}
