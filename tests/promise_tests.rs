use promise::{wrap, FutureType};

struct Borrowed<'a> {
    vec: &'a mut Vec<Result<u32, &'static str>>,
}

impl<'a> FutureType<Result<u32, &'static str>> for Borrowed<'a> {
    fn on_drop() -> Result<u32, &'static str> {
        Err("dropped")
    }

    fn complete(self, result: Result<u32, &'static str>) {
        self.vec.push(result);
    }
}

#[test]
fn completes_on_drop() {
    let mut output = Vec::new();
    let mut promise = wrap(Borrowed { vec: &mut output });
    promise.teardown();
    assert_eq!(output.as_slice(), [Err("dropped")]);
}

#[test]
fn only_completes_once_on_success() {
    let mut output = Vec::new();
    let promise = wrap(Borrowed { vec: &mut output });
    promise.complete(Ok(42));
    assert_eq!(output.as_slice(), [Ok(42)]);
}

#[test]
fn only_completes_once_on_failure() {
    let mut output = Vec::new();
    let promise = wrap(Borrowed { vec: &mut output });
    promise.complete(Err("fail"));
    assert_eq!(output.as_slice(), [Err("fail")]);
}

#[test]
fn second_teardown_delivers_nothing() {
    let mut output = Vec::new();
    let mut promise = wrap(Borrowed { vec: &mut output });
    promise.teardown();
    promise.teardown();
    assert_eq!(output.as_slice(), [Err("dropped")]);
}

#[test]
fn complete_after_teardown_delivers_nothing() {
    let mut output = Vec::new();
    let mut promise = wrap(Borrowed { vec: &mut output });
    promise.teardown();
    promise.complete(Ok(7));
    assert_eq!(output.as_slice(), [Err("dropped")]);
}

#[test]
fn complete_delivers_given_value_not_fallback() {
    let mut output = Vec::new();
    let promise = wrap(Borrowed { vec: &mut output });
    promise.complete(Err("dropped-not"));
    assert_eq!(output.len(), 1);
    assert_eq!(output[0], Err("dropped-not"));
}

struct Counter<'a> {
    calls: &'a mut u32,
    last: &'a mut u32,
}

impl<'a> FutureType<u32> for Counter<'a> {
    fn on_drop() -> u32 {
        0
    }

    fn complete(self, result: u32) {
        *self.calls += 1;
        *self.last = result;
    }
}

#[test]
fn every_life_completes_exactly_once() {
    for explicit in [None, Some(5u32), Some(0u32)] {
        let mut calls = 0u32;
        let mut last = 99u32;
        let mut promise = wrap(Counter { calls: &mut calls, last: &mut last });
        match explicit {
            Some(v) => promise.complete(v),
            None => {
                promise.teardown();
                promise.teardown();
                promise.complete(3)
            }
        };
        assert_eq!(calls, 1);
        assert_eq!(last, explicit.unwrap_or(0));
    }
}
