use oripop_core::batch::Batch;

#[test]
fn empty_request_is_full_at_once() {
    let batch: Batch<u8> = Batch::new(0);
    assert!(batch.is_full());
    assert_eq!(batch.len(), 0);
    assert_eq!(batch.wanted(), 0);
    assert_eq!(batch.finish(), Vec::<u8>::new());
}

#[test]
fn new_batch_is_empty() {
    let batch: Batch<u32> = Batch::new(3);
    assert!(!batch.is_full());
    assert_eq!(batch.len(), 0);
    assert_eq!(batch.wanted(), 3);
}

#[test]
fn batch_fills_after_exactly_wanted_items() {
    let mut batch: Batch<u32> = Batch::new(3);
    batch.push(10);
    assert!(!batch.is_full());
    assert_eq!(batch.len(), 1);
    batch.push(20);
    assert!(!batch.is_full());
    assert_eq!(batch.len(), 2);
    batch.push(30);
    assert!(batch.is_full());
    assert_eq!(batch.len(), 3);
    assert_eq!(batch.wanted(), 3);
}

#[test]
fn batch_keeps_acceptance_order() {
    let mut batch: Batch<u32> = Batch::new(4);
    batch.push(7);
    batch.push(3);
    batch.push(7);
    batch.push(1);
    assert_eq!(batch.finish(), vec![7, 3, 7, 1]);
}

#[test]
fn batch_delivers_twelve_thousand_odd_items() {
    let mut batch: Batch<u64> = Batch::new(12_345);
    let mut next: u64 = 0;
    while !batch.is_full() {
        if next % 3 != 0 {
            batch.push(next);
        }
        next += 1;
    }
    let items: Vec<u64> = batch.finish();
    assert_eq!(items.len(), 12_345);
    assert_eq!(items[0], 1);
    assert_eq!(items[1], 2);
    assert_eq!(items[2], 4);
    assert_eq!(items[12_344], 18_517);
}

#[test]
fn batch_delivers_the_default_count() {
    let mut batch: Batch<(u32, u32)> = Batch::new(35_000);
    let mut next: u32 = 0;
    while !batch.is_full() {
        batch.push((next, next.wrapping_mul(3)));
        next += 1;
    }
    let items: Vec<(u32, u32)> = batch.finish();
    assert_eq!(items.len(), 35_000);
    assert_eq!(items[34_999], (34_999, 104_997));
}

#[test]
fn batch_holds_items_that_are_not_copy() {
    let mut batch: Batch<String> = Batch::new(2);
    batch.push(String::from("first"));
    batch.push(String::from("second"));
    assert!(batch.is_full());
    assert_eq!(batch.finish(), vec![String::from("first"), String::from("second")]);
}
