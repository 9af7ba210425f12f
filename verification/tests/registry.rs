use image_processor::registry::{ClientRegistry, CONSTRUCTION_NOTICE};

fn acquire(
    registry: &mut ClientRegistry<u32>,
    constructions: &mut u32,
    would_build: Result<u32, String>,
) -> Result<u32, String> {
    if registry.must_construct() {
        *constructions += 1;
        registry.publish(would_build);
    }
    match registry.current() {
        Some(Ok(handles)) => Ok(*handles),
        Some(Err(cause)) => Err(cause),
        None => panic!("nothing was published"),
    }
}

#[test]
fn new_registry_is_empty() {
    let registry: ClientRegistry<u32> = ClientRegistry::new();
    assert!(registry.must_construct());
    assert_eq!(registry.current(), None);
}

#[test]
fn handles_are_constructed_once_and_shared() {
    let mut registry = ClientRegistry::new();
    let mut constructions = 0;
    let mut seen = Vec::new();
    for i in 0..5u32 {
        seen.push(acquire(&mut registry, &mut constructions, Ok(100 + i)));
    }
    assert_eq!(constructions, 1);
    assert_eq!(seen, vec![Ok(100); 5]);
}

#[test]
fn failure_is_kept_and_not_retried() {
    let mut registry = ClientRegistry::new();
    let mut constructions = 0;
    let first = acquire(&mut registry, &mut constructions, Err("no region".to_string()));
    let second = acquire(&mut registry, &mut constructions, Ok(7));
    let third = acquire(&mut registry, &mut constructions, Err("other".to_string()));
    assert_eq!(constructions, 1);
    assert_eq!(first, Err("no region".to_string()));
    assert_eq!(second, first);
    assert_eq!(third, first);
    assert!(!registry.must_construct());
}

#[test]
fn later_publication_changes_nothing() {
    let mut registry = ClientRegistry::new();
    registry.publish(Ok("first"));
    registry.publish(Ok("second"));
    registry.publish(Err("third".to_string()));
    assert_eq!(registry.current(), Some(Ok(&"first")));
}

#[test]
fn construction_notice() {
    assert_eq!(CONSTRUCTION_NOTICE, "Initializing AWS clients...");
}
