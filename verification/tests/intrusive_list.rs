use std::cell::RefCell;
use std::rc::Rc;

use kyron::intrusive_list::{Item, List};

#[test]
fn test_push_pop() {
    struct TestItem {
        value1: u64,
        value2: f32,
    }

    impl Item for TestItem {
        fn item_key(&self) -> u64 {
            self.value1
        }

        fn key(&self) -> u64 {
            self.value1
        }
    }

    let item1 = TestItem { value1: 1, value2: 2.0 };
    let item2 = TestItem { value1: 5, value2: 6.0 };

    let mut list: List<TestItem> = List::new();

    assert_eq!(list.len(), 0);
    assert!(list.is_empty());
    list.push_back(item1);
    assert_eq!(list.len(), 1);
    assert!(!list.is_empty());
    list.push_back(item2);
    assert_eq!(list.len(), 2);
    assert!(!list.is_empty());

    let item1 = list.pop_front().expect("Failed to pop item1");
    assert_eq!(list.len(), 1);
    let item2 = list.pop_front().expect("Failed to pop item2");
    assert_eq!(list.len(), 0);

    assert_eq!(item1.value1, 1);
    assert_eq!(item1.value2, 2.0);
    assert_eq!(item2.value1, 5);
    assert_eq!(item2.value2, 6.0);

    assert!(list.pop_front().is_none());
}

#[test]
fn test_drop_list() {
    let drop_counter = Rc::new(RefCell::new(0_u32));

    struct TestItem {
        id: u64,
        drop_counter: Rc<RefCell<u32>>,
    }

    impl Item for TestItem {
        fn item_key(&self) -> u64 {
            self.id
        }

        fn key(&self) -> u64 {
            self.id
        }
    }

    impl Drop for TestItem {
        fn drop(&mut self) {
            *self.drop_counter.borrow_mut() += 1_u32;
        }
    }

    {
        let item1 = TestItem { id: 1, drop_counter: Rc::clone(&drop_counter) };
        let item2 = TestItem { id: 2, drop_counter: Rc::clone(&drop_counter) };
        let item3 = TestItem { id: 3, drop_counter: Rc::clone(&drop_counter) };

        let mut list: List<TestItem> = List::new();
        list.push_back(item1);
        list.push_back(item2);
        list.push_back(item3);
        assert_eq!(list.len(), 3);
        let _first = list.pop_front();
        assert_eq!(list.len(), 2);
        assert_eq!(*drop_counter.borrow(), 0);
    }

    assert_eq!(*drop_counter.borrow(), 3);
}

#[derive(Debug)]
struct ValueItem {
    value: u32,
}

impl Item for ValueItem {
    fn item_key(&self) -> u64 {
        self.value as u64
    }

    fn key(&self) -> u64 {
        self.value as u64
    }
}

#[test]
fn test_remove_if_removes_matching_items() {
    {
        let mut list: List<ValueItem> = List::new();
        list.push_back(ValueItem { value: 1 });
        list.push_back(ValueItem { value: 2 });
        list.push_back(ValueItem { value: 3 });
        let removed = list.remove_if(|item| item.value % 2 == 0);
        assert_eq!(removed.len(), 1);
        assert_eq!(removed[0].value, 2);

        assert_eq!(list.len(), 2);
        let v1 = list.pop_front().unwrap().value;
        let v2 = list.pop_front().unwrap().value;
        assert_eq!(vec![v1, v2], vec![1, 3]);
    }

    {
        let mut list: List<ValueItem> = List::new();
        list.push_back(ValueItem { value: 1 });

        let _ = list.remove_if(|item| item.value % 1 == 0);

        assert_eq!(list.len(), 0);
    }
}

#[test]
fn test_remove_specific_item() {
    let mut list: List<ValueItem> = List::new();
    list.push_back(ValueItem { value: 10 });
    list.push_back(ValueItem { value: 20 });
    list.push_back(ValueItem { value: 30 });
    assert!(list.remove(&ValueItem { value: 20 }));
    assert_eq!(list.len(), 2);
    let vals = [list.pop_front().unwrap().value, list.pop_front().unwrap().value];
    assert_eq!(vals.contains(&10), true);
    assert_eq!(vals.contains(&30), true);
    assert!(!list.remove(&ValueItem { value: 40 }));
}
