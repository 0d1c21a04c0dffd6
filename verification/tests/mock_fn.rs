//! Mock functions built on the library's expectation and sequence
//! bookkeeping; the answers are closures held by the test helper.

use std::cell::RefCell;
use std::collections::VecDeque;
use std::rc::Rc;

use kyron::mock::{MockAnswer, MockExpectation, Sequence};

type Answer<I, O> = Box<dyn FnMut(I) -> O>;

struct MockFnBuilder<I, O> {
    expectation: MockExpectation,
    once: VecDeque<Answer<I, O>>,
    default: Answer<I, O>,
    seq: Option<Rc<RefCell<Sequence>>>,
}

struct MockFn<I, O> {
    expectation: MockExpectation,
    once: VecDeque<Answer<I, O>>,
    default: Answer<I, O>,
    seq: Option<Rc<RefCell<Sequence>>>,
}

impl<I, O: Default + 'static> MockFnBuilder<I, O> {
    fn new() -> Self {
        Self { expectation: MockExpectation::new(), once: VecDeque::new(), default: Box::new(|_| O::default()), seq: None }
    }
}

impl<I, O> MockFnBuilder<I, O> {
    fn times(mut self, n: usize) -> Self {
        self.expectation.times(n);
        self
    }

    fn will_once_invoke(mut self, f: impl FnMut(I) -> O + 'static) -> Self {
        self.once.push_back(Box::new(f));
        self.expectation.will_once();
        self
    }

    fn will_once_return(self, v: O) -> Self
    where
        O: Clone + 'static,
    {
        self.will_once_invoke(move |_| v.clone())
    }

    fn will_repeatedly_invoke(mut self, f: impl FnMut(I) -> O + 'static) -> Self {
        self.default = Box::new(f);
        self.expectation.will_repeatedly();
        self
    }

    fn will_repeatedly_return(self, v: O) -> Self
    where
        O: Clone + 'static,
    {
        self.will_repeatedly_invoke(move |_| v.clone())
    }

    fn in_sequence(mut self, seq: &Rc<RefCell<Sequence>>) -> Self {
        self.expectation.in_sequence(&mut seq.borrow_mut());
        self.seq = Some(seq.clone());
        self
    }

    fn build(mut self) -> MockFn<I, O> {
        self.expectation.build();
        MockFn { expectation: self.expectation, once: self.once, default: self.default, seq: self.seq }
    }
}

impl<I, O> MockFn<I, O> {
    fn call(&mut self, input: I) -> O {
        let answer = self.expectation.call();
        if let Some(seq) = &self.seq {
            seq.borrow_mut().record(self.expectation.id());
        }
        match answer {
            MockAnswer::Once => (self.once.pop_front().unwrap())(input),
            MockAnswer::Repeated => (self.default)(input),
        }
    }
}

impl<I, O> Drop for MockFn<I, O> {
    fn drop(&mut self) {
        assert!(self.expectation.verify(), "MockFn was not called as often as expected");
    }
}

fn new_sequence() -> Rc<RefCell<Sequence>> {
    Rc::new(RefCell::new(Sequence::new()))
}

#[test]
fn test_with_times_only() {
    let mut mock = MockFnBuilder::<(), bool>::new().times(3).build();
    for _ in 0..3 {
        assert!(!mock.call(()));
    }
}

#[test]
fn test_call_count_equals_will_once_count() {
    let mut mock = MockFnBuilder::<(), bool>::new().will_once_return(true).will_once_return(false).build();
    assert!(mock.call(()));
    assert!(!mock.call(()));
}

#[test]
fn test_with_will_repeated_only() {
    let mut mock = MockFnBuilder::<(), bool>::new().will_repeatedly_return(true).build();
    for _ in 0..3 {
        assert!(mock.call(()));
    }
}

#[test]
fn test_with_all_clauses() {
    let mut mock = MockFnBuilder::<(), bool>::new()
        .times(5)
        .will_once_return(false)
        .will_once_return(true)
        .will_repeatedly_return(false)
        .build();
    assert!(!mock.call(()));
    assert!(mock.call(()));
    for _ in 0..3 {
        assert!(!mock.call(()));
    }
}

#[test]
fn test_sequence_execution_order_ok() {
    let seq = new_sequence();
    let mut mock1 = MockFnBuilder::<(), bool>::new().in_sequence(&seq).will_once_return(true).build();
    let mut mock2 = MockFnBuilder::<(), bool>::new().in_sequence(&seq).will_once_return(false).build();
    assert!(mock1.call(()));
    assert!(!mock2.call(()));
    assert!(seq.borrow().verify_executed_order());
}

#[test]
fn test_sequence_execution_order_in_loop_ok() {
    let seq = new_sequence();
    let mut mock1 = MockFnBuilder::<(), bool>::new().in_sequence(&seq).times(3).build();
    let mut mock2 = MockFnBuilder::<(), bool>::new().in_sequence(&seq).times(3).build();
    for _ in 0..3 {
        assert!(!mock1.call(()));
        assert!(!mock2.call(()));
        assert!(seq.borrow_mut().verify_executed_order_and_prepare_for_next_iteration());
    }
}

#[test]
fn test_mockfn_intype_outtype() {
    let mut mock1 = MockFnBuilder::<i32, i32>::new().will_once_invoke(|x| x + 1).build();
    let mut mock2 = MockFnBuilder::<String, usize>::new().will_once_invoke(|x| x.len()).build();
    let mut mock3 = MockFnBuilder::<f64, f64>::new().will_repeatedly_invoke(|x| x * 2.0).build();
    assert_eq!(mock1.call(1), 2);
    assert_eq!(mock2.call("Hello".into()), 5);
    for _ in 0..3 {
        assert_eq!(mock3.call(3.0), 6.0);
    }
}

#[test]
fn times_set_before_once_answers_stays_exact() {
    let mut mock = MockFnBuilder::<(), bool>::new().times(3).will_once_return(true).build();
    assert!(mock.call(()));
    assert!(!mock.call(()));
    assert!(!mock.call(()));
    assert_eq!(mock.expectation.times_called(), 3);
}
