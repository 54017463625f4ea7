use reference_counted_singleton::Slot;
use std::cell::Cell;
use std::sync::Arc;

/// A value that counts its own destruction.
struct Counted<'c> {
    id: u32,
    destroyed: &'c Cell<u32>,
}

impl<'c> Drop for Counted<'c> {
    fn drop(&mut self) {
        self.destroyed.set(self.destroyed.get() + 1);
    }
}

#[test]
fn an_empty_slot_shares_nothing() {
    let slot: Slot<u32> = Slot::empty();
    assert!(slot.share().is_none());
}

#[test]
fn install_keeps_one_share_and_hands_out_another() {
    let mut slot: Slot<u32> = Slot::empty();
    let handed_out: Arc<u32> = slot.install::<String>(Ok(7)).unwrap();
    assert_eq!(*handed_out, 7);
    assert_eq!(Arc::strong_count(&handed_out), 2);
}

#[test]
fn share_adds_a_share_of_the_installed_value() {
    let mut slot: Slot<u32> = Slot::empty();
    let first: Arc<u32> = slot.install::<String>(Ok(7)).unwrap();
    let second: Arc<u32> = slot.share().unwrap();
    assert!(Arc::ptr_eq(&first, &second));
    assert_eq!(*second, 7);
    assert_eq!(Arc::strong_count(&first), 3);
}

#[test]
fn install_of_an_error_passes_it_on_and_leaves_the_slot_empty() {
    let mut slot: Slot<u32> = Slot::empty();
    let result = slot.install(Err(String::from("no device")));
    assert_eq!(result.unwrap_err(), "no device");
    assert!(slot.share().is_none());
}

#[test]
fn share_or_create_runs_the_creator_on_an_empty_slot() {
    let runs: Cell<u32> = Cell::new(0);
    let mut slot: Slot<u32> = Slot::empty();
    let share = slot
        .share_or_create(|| -> Result<u32, String> {
            runs.set(runs.get() + 1);
            Ok(11)
        })
        .unwrap();
    assert_eq!(*share, 11);
    assert_eq!(runs.get(), 1);
    assert_eq!(*slot.share().unwrap(), 11);
}

#[test]
fn share_or_create_skips_the_creator_on_a_populated_slot() {
    let runs: Cell<u32> = Cell::new(0);
    let mut slot: Slot<u32> = Slot::empty();
    let first = slot.install::<String>(Ok(11)).unwrap();
    let second = slot
        .share_or_create(|| -> Result<u32, String> {
            runs.set(runs.get() + 1);
            Ok(12)
        })
        .unwrap();
    assert_eq!(runs.get(), 0);
    assert_eq!(*second, 11);
    assert!(Arc::ptr_eq(&first, &second));
}

#[test]
fn share_or_create_with_a_failing_creator_leaves_the_slot_empty() {
    let mut slot: Slot<u32> = Slot::empty();
    let result = slot.share_or_create(|| -> Result<u32, String> { Err(String::from("busy")) });
    assert_eq!(result.unwrap_err(), "busy");
    assert!(slot.share().is_none());
}

#[test]
fn settle_with_the_value_destroys_it_and_empties_the_slot() {
    let destroyed: Cell<u32> = Cell::new(0);
    let mut slot: Slot<Counted> = Slot::empty();
    let emptied: bool = slot.settle(Ok(Counted { id: 1, destroyed: &destroyed }));
    assert!(emptied);
    assert_eq!(destroyed.get(), 1);
    assert!(slot.share().is_none());
}

#[test]
fn settle_with_a_share_puts_it_back() {
    let destroyed: Cell<u32> = Cell::new(0);
    let mut slot: Slot<Counted> = Slot::empty();
    let share = Arc::new(Counted { id: 4, destroyed: &destroyed });
    let emptied: bool = slot.settle(Err(Arc::clone(&share)));
    assert!(!emptied);
    assert_eq!(destroyed.get(), 0);
    let back = slot.share().unwrap();
    assert!(Arc::ptr_eq(&share, &back));
    assert_eq!(back.id, 4);
}

#[test]
fn reclaim_without_another_share_destroys_the_value() {
    let destroyed: Cell<u32> = Cell::new(0);
    let mut slot: Slot<Counted> = Slot::empty();
    let handed_out = slot
        .install::<String>(Ok(Counted { id: 2, destroyed: &destroyed }))
        .unwrap();
    drop(handed_out);
    assert_eq!(destroyed.get(), 0);
    let emptied: bool = slot.reclaim();
    assert!(emptied);
    assert_eq!(destroyed.get(), 1);
    assert!(slot.share().is_none());
}

#[test]
fn reclaim_with_another_share_keeps_the_value() {
    let destroyed: Cell<u32> = Cell::new(0);
    let mut slot: Slot<Counted> = Slot::empty();
    let handed_out = slot
        .install::<String>(Ok(Counted { id: 3, destroyed: &destroyed }))
        .unwrap();
    let emptied: bool = slot.reclaim();
    assert!(!emptied);
    assert_eq!(destroyed.get(), 0);
    let again = slot.share().unwrap();
    assert!(Arc::ptr_eq(&handed_out, &again));
    assert_eq!(again.id, 3);
    assert_eq!(Arc::strong_count(&handed_out), 3);
}

#[test]
fn reclaim_of_an_empty_slot_finds_it_empty() {
    let mut slot: Slot<u32> = Slot::empty();
    assert!(slot.reclaim());
    assert!(slot.share().is_none());
}

#[test]
fn a_slot_can_be_filled_again_after_reclaim() {
    let destroyed: Cell<u32> = Cell::new(0);
    let mut slot: Slot<Counted> = Slot::empty();
    drop(slot.install::<String>(Ok(Counted { id: 1, destroyed: &destroyed })));
    assert!(slot.reclaim());
    let second = slot
        .share_or_create(|| -> Result<Counted, String> { Ok(Counted { id: 2, destroyed: &destroyed }) })
        .unwrap();
    assert_eq!(second.id, 2);
    assert_eq!(destroyed.get(), 1);
}
