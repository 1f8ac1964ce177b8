use delegate_rs::DelegateManager;
use delegate_rs::Erased;
use delegate_rs::Error;
use std::fmt;
use std::sync::atomic::AtomicUsize;
use std::sync::atomic::Ordering;
use std::sync::Arc;

#[derive(Debug, PartialEq)]
struct Refused(String);

impl fmt::Display for Refused {
    fn fmt(&self, f: &mut fmt::Formatter<'_>) -> fmt::Result {
        f.write_str(&self.0)
    }
}

impl std::error::Error for Refused {}

fn echo(data: String) -> Result<String, Refused> {
    Ok(format!("Test Channel: {data}."))
}

fn mismatch_text(result: Result<String, Error>) -> String {
    match result {
        Err(Error::Mismatched(text)) => text,
        other => panic!("expected a mismatch, got {other:?}"),
    }
}

#[test]
fn echo_returns_the_handlers_reply() {
    let mut manager = DelegateManager::new();
    manager.bind("echo", echo);
    let reply: String = manager.broadcast("echo", "hello".to_string()).unwrap();
    assert_eq!(reply, "Test Channel: hello.");
}

#[test]
fn echo_accepts_borrowed_text() {
    let mut manager = DelegateManager::new();
    manager.bind("echo", |data: &'static str| -> Result<String, Refused> {
        Ok(format!("Test Channel: {data}."))
    });
    let hello: String = manager.broadcast("echo", "hello").unwrap();
    let world: String = manager.broadcast("echo", "world").unwrap();
    assert_eq!(hello, "Test Channel: hello.");
    assert_eq!(world, "Test Channel: world.");
}

#[test]
fn void_channel_returns_unit() {
    let mut manager = DelegateManager::new();
    manager.bind("void", |_data: String| -> Result<(), Refused> { Ok(()) });
    let reply: Result<(), Error> = manager.broadcast("void", "ignored".to_string());
    assert!(matches!(reply, Ok(())));
}

#[test]
fn reply_is_the_handlers_value_for_other_types() {
    let mut manager = DelegateManager::new();
    manager.bind("double", |n: u64| -> Result<u64, Refused> { Ok(n * 2) });
    manager.bind("pair", |v: Vec<u8>| -> Result<(usize, Vec<u8>), Refused> { Ok((v.len(), v)) });
    assert_eq!(manager.broadcast::<u64, u64>("double", 21).unwrap(), 42);
    assert_eq!(manager.broadcast::<u64, u64>("double", 0).unwrap(), 0);
    let (len, bytes): (usize, Vec<u8>) = manager.broadcast("pair", vec![7u8, 8, 9]).unwrap();
    assert_eq!(len, 3);
    assert_eq!(bytes, vec![7u8, 8, 9]);
}

#[test]
fn unbound_channel_has_no_listener() {
    let manager = DelegateManager::new();
    match manager.broadcast::<String, String>("nobody", "x".to_string()) {
        Err(Error::NoListener(name)) => assert_eq!(name, "nobody"),
        other => panic!("expected NoListener, got {other:?}"),
    }
    match manager.broadcast::<u64, ()>("nobody", 5) {
        Err(Error::NoListener(name)) => assert_eq!(name, "nobody"),
        other => panic!("expected NoListener, got {other:?}"),
    }
    match manager.broadcast::<(), Vec<String>>("", ()) {
        Err(Error::NoListener(name)) => assert_eq!(name, ""),
        other => panic!("expected NoListener, got {other:?}"),
    }
}

#[test]
fn other_channels_do_not_make_a_listener() {
    let mut manager = DelegateManager::new();
    manager.bind("echo", echo);
    match manager.broadcast::<String, String>("echo2", "x".to_string()) {
        Err(Error::NoListener(name)) => assert_eq!(name, "echo2"),
        other => panic!("expected NoListener, got {other:?}"),
    }
}

#[test]
fn disagreeing_result_type_is_mismatched() {
    let mut manager = DelegateManager::new();
    let calls = Arc::new(AtomicUsize::new(0));
    let seen = Arc::clone(&calls);
    manager.bind("echo", move |data: String| -> Result<String, Refused> {
        seen.fetch_add(1, Ordering::SeqCst);
        Ok(data)
    });
    match manager.broadcast::<String, u64>("echo", "hello".to_string()) {
        Err(Error::Mismatched(text)) => assert_eq!(text, "Data type mismatch for echo on return"),
        other => panic!("expected a mismatch, got {other:?}"),
    }
    match manager.broadcast::<String, ()>("echo", "hello".to_string()) {
        Err(Error::Mismatched(text)) => assert_eq!(text, "Data type mismatch for echo on return"),
        other => panic!("expected a mismatch, got {other:?}"),
    }
    assert_eq!(calls.load(Ordering::SeqCst), 0);
}

#[test]
fn disagreeing_argument_type_is_mismatched() {
    let mut manager = DelegateManager::new();
    manager.bind("echo", echo);
    assert_eq!(
        mismatch_text(manager.broadcast::<&'static str, String>("echo", "hello")),
        "Data type mismatch for echo on arg"
    );
    assert_eq!(
        mismatch_text(manager.broadcast::<u64, String>("echo", 1)),
        "Data type mismatch for echo on arg"
    );
}

#[test]
fn argument_is_checked_before_result() {
    let mut manager = DelegateManager::new();
    manager.bind("echo", echo);
    match manager.broadcast::<u64, u64>("echo", 1) {
        Err(Error::Mismatched(text)) => assert_eq!(text, "Data type mismatch for echo on arg"),
        other => panic!("expected a mismatch, got {other:?}"),
    }
}

#[test]
fn handler_failure_is_external() {
    let mut manager = DelegateManager::new();
    manager.bind("picky", |data: String| -> Result<String, Refused> {
        if data.is_empty() {
            Err(Refused("nothing to do".to_string()))
        } else {
            Ok(data)
        }
    });
    assert_eq!(manager.broadcast::<String, String>("picky", "a".to_string()).unwrap(), "a");
    match manager.broadcast::<String, String>("picky", String::new()) {
        Err(Error::External(cause)) => {
            let inner: Refused = cause.recover().unwrap();
            assert_eq!(inner, Refused("nothing to do".to_string()));
        }
        other => panic!("expected an external failure, got {other:?}"),
    }
}

#[test]
fn external_cause_keeps_its_type() {
    let mut manager = DelegateManager::new();
    manager.bind("fail", |_: ()| -> Result<(), Refused> { Err(Refused("no".to_string())) });
    match manager.broadcast::<(), ()>("fail", ()) {
        Err(Error::External(cause)) => {
            let back: Erased = cause.recover::<String>().unwrap_err();
            assert_eq!(back.recover::<Refused>().unwrap(), Refused("no".to_string()));
        }
        other => panic!("expected an external failure, got {other:?}"),
    }
}

#[test]
fn rebinding_leaves_only_the_second_handler() {
    let mut manager = DelegateManager::new();
    let first_calls = Arc::new(AtomicUsize::new(0));
    let seen = Arc::clone(&first_calls);
    manager.bind("greet", move |name: String| -> Result<String, Refused> {
        seen.fetch_add(1, Ordering::SeqCst);
        Ok(format!("hello {name}"))
    });
    assert_eq!(manager.broadcast::<String, String>("greet", "a".to_string()).unwrap(), "hello a");
    assert_eq!(first_calls.load(Ordering::SeqCst), 1);

    manager.bind("greet", |name: String| -> Result<String, Refused> { Ok(format!("bye {name}")) });
    assert_eq!(manager.broadcast::<String, String>("greet", "a".to_string()).unwrap(), "bye a");
    assert_eq!(manager.broadcast::<String, String>("greet", "b".to_string()).unwrap(), "bye b");
    assert_eq!(first_calls.load(Ordering::SeqCst), 1);
}

#[test]
fn rebinding_may_change_the_types() {
    let mut manager = DelegateManager::new();
    manager.bind("value", |n: u64| -> Result<u64, Refused> { Ok(n + 1) });
    manager.bind("value", |s: String| -> Result<usize, Refused> { Ok(s.len()) });
    assert_eq!(manager.broadcast::<String, usize>("value", "four".to_string()).unwrap(), 4);
    match manager.broadcast::<u64, u64>("value", 1) {
        Err(Error::Mismatched(text)) => assert_eq!(text, "Data type mismatch for value on arg"),
        other => panic!("expected a mismatch, got {other:?}"),
    }
}

#[test]
fn binding_one_channel_leaves_the_others() {
    let mut manager = DelegateManager::new();
    manager.bind("left", |n: u64| -> Result<String, Refused> { Ok(format!("left {n}")) });
    assert_eq!(manager.broadcast::<u64, String>("left", 1).unwrap(), "left 1");
    manager.bind("right", |n: u64| -> Result<String, Refused> { Ok(format!("right {n}")) });
    assert_eq!(manager.broadcast::<u64, String>("left", 2).unwrap(), "left 2");
    assert_eq!(manager.broadcast::<u64, String>("right", 3).unwrap(), "right 3");
}

#[test]
fn handler_runs_once_per_broadcast() {
    let mut manager = DelegateManager::new();
    let calls = Arc::new(AtomicUsize::new(0));
    let seen = Arc::clone(&calls);
    manager.bind("count", move |_: ()| -> Result<usize, Refused> {
        Ok(seen.fetch_add(1, Ordering::SeqCst) + 1)
    });
    assert_eq!(manager.broadcast::<(), usize>("count", ()).unwrap(), 1);
    assert_eq!(manager.broadcast::<(), usize>("count", ()).unwrap(), 2);
    assert_eq!(calls.load(Ordering::SeqCst), 2);
}

struct Consumer;

impl Consumer {
    fn test_channel(&self, data: String) -> Result<String, fmt::Error> {
        let text = format!("Do something, answer is: {} modified!", data);
        println!("{}", text);
        Ok("".to_string())
    }

    fn do_something(&self, data: String) -> Result<String, fmt::Error> {
        let text = format!("Do something, answer is: {} modified!", data);
        println!("{}", text);
        Ok(text + " reply!")
    }
}

#[test]
fn delegate_test_broke_test() {
    let mut manager = DelegateManager::new();
    let consumer = Arc::new(Consumer);
    let bound = Arc::clone(&consumer);
    manager.bind("test_channel", move |data: String| bound.do_something(data));

    let first: String = manager.broadcast("test_channel", "first".to_string()).unwrap();
    let second: String = manager.broadcast("test_channel", "second".to_string()).unwrap();

    println!("Result: {} AND {}", first, second);
    assert_eq!(first, "Do something, answer is: first modified! reply!");
    assert_eq!(second, "Do something, answer is: second modified! reply!");
}

#[test]
fn consumer_method_serves_a_channel() {
    let mut manager = DelegateManager::new();
    let consumer = Arc::new(Consumer);
    let bound = Arc::clone(&consumer);
    manager.bind("test_channel", move |data: String| bound.test_channel(data));
    let first: String = manager.broadcast("test_channel", "first".to_string()).unwrap();
    assert_eq!(first, "");
    assert_eq!(Arc::strong_count(&consumer), 2);
}

struct Counter {
    seen: AtomicUsize,
}

impl Counter {
    fn add(&self, by: usize) -> Result<usize, Refused> {
        if by == 0 {
            Err(Refused("nothing to add".to_string()))
        } else {
            Ok(self.seen.fetch_add(by, Ordering::SeqCst) + by)
        }
    }
}

#[test]
fn bound_method_runs_on_the_shared_consumer() {
    let mut manager = DelegateManager::new();
    let counter = Arc::new(Counter { seen: AtomicUsize::new(0) });
    manager.bind_method("add", &counter, Counter::add);
    assert_eq!(Arc::strong_count(&counter), 2);
    assert_eq!(manager.broadcast::<usize, usize>("add", 2).unwrap(), 2);
    assert_eq!(manager.broadcast::<usize, usize>("add", 3).unwrap(), 5);
    assert_eq!(counter.seen.load(Ordering::SeqCst), 5);
    match manager.broadcast::<usize, usize>("add", 0) {
        Err(Error::External(cause)) => {
            assert_eq!(cause.recover::<Refused>().unwrap(), Refused("nothing to add".to_string()))
        }
        other => panic!("expected an external failure, got {other:?}"),
    }
}

#[test]
fn bound_method_keeps_the_consumer_alive() {
    let mut manager = DelegateManager::new();
    let counter = Arc::new(Counter { seen: AtomicUsize::new(40) });
    manager.bind_method("add", &counter, Counter::add);
    drop(counter);
    assert_eq!(manager.broadcast::<usize, usize>("add", 2).unwrap(), 42);
}

#[test]
fn overwritten_entry_lets_its_consumer_go() {
    let mut manager = DelegateManager::new();
    let counter = Arc::new(Counter { seen: AtomicUsize::new(0) });
    manager.bind_method("add", &counter, Counter::add);
    assert_eq!(Arc::strong_count(&counter), 2);
    manager.bind("add", |by: usize| -> Result<usize, Refused> { Ok(by) });
    assert_eq!(Arc::strong_count(&counter), 1);
    drop(manager);
    assert_eq!(Arc::strong_count(&counter), 1);
}
