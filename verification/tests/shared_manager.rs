use delegate_rs::find_delegate_manager;
use delegate_rs::get_delegate_manager;
use delegate_rs::init;
use delegate_rs::DelegateManager;
use delegate_rs::Error;
use once_cell::sync::OnceCell;
use std::convert::Infallible;

#[test]
fn first_init_makes_an_empty_manager() {
    let mut slot: OnceCell<DelegateManager> = OnceCell::new();
    assert!(slot.get().is_none());
    assert!(init(&mut slot));
    let manager = get_delegate_manager(&slot);
    assert_eq!(manager.get_types("echo"), None);
    assert!(matches!(
        manager.broadcast::<String, String>("echo", "x".to_string()),
        Err(Error::NoListener(_))
    ));
}

#[test]
fn second_init_keeps_the_first_manager() {
    let mut slot: OnceCell<DelegateManager> = OnceCell::new();
    assert!(init(&mut slot));
    slot.get_mut().unwrap().bind("echo", |data: String| -> Result<String, Infallible> {
        Ok(format!("Test Channel: {data}."))
    });
    assert!(!init(&mut slot));
    assert!(!init(&mut slot));
    let reply: String = get_delegate_manager(&slot).broadcast("echo", "hello".to_string()).unwrap();
    assert_eq!(reply, "Test Channel: hello.");
}

#[test]
fn init_leaves_a_manager_that_was_put_there() {
    let mut manager = DelegateManager::new();
    manager.bind("double", |n: u64| -> Result<u64, Infallible> { Ok(2 * n) });
    let mut slot = OnceCell::with_value(manager);
    assert!(!init(&mut slot));
    assert_eq!(get_delegate_manager(&slot).broadcast::<u64, u64>("double", 4).unwrap(), 8);
}

#[test]
fn looking_for_the_manager_tells_whether_the_slot_is_initialised() {
    let mut slot: OnceCell<DelegateManager> = OnceCell::new();
    assert!(find_delegate_manager(&slot).is_none());
    assert!(init(&mut slot));
    slot.get_mut().unwrap().bind("double", |n: u64| -> Result<u64, Infallible> { Ok(2 * n) });
    let manager = find_delegate_manager(&slot).unwrap();
    assert_eq!(manager.broadcast::<u64, u64>("double", 21).unwrap(), 42);
}
