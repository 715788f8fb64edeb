use sqlx_extension::maybe_transaction::MaybeTransaction;

// A stand-in for the caller's asynchronous open: hands out numbered
// transaction handles and counts how many were opened.
struct Opener {
    opened: u64,
}

impl Opener {
    fn begin(&mut self) -> u64 {
        self.opened += 1;
        self.opened * 100
    }
}

// The caller-side get: opens a transaction only when none is held yet,
// then hands out the held handle.
fn get_handle<'a>(wrapper: &'a mut MaybeTransaction<u32, u64>, opener: &mut Opener) -> &'a mut u64 {
    if wrapper.needs_open() {
        let handle = opener.begin();
        wrapper.open(handle);
    }
    wrapper.get()
}

#[test]
fn get_twice_opens_exactly_one_transaction() {
    let mut opener = Opener { opened: 0 };
    let mut wrapper: MaybeTransaction<u32, u64> = MaybeTransaction::Pool(7);
    assert!(wrapper.needs_open());

    let first = *get_handle(&mut wrapper, &mut opener);
    assert_eq!(first, 100);
    assert!(!wrapper.needs_open());

    let second = *get_handle(&mut wrapper, &mut opener);
    assert_eq!(second, first);
    assert_eq!(opener.opened, 1);
}

#[test]
fn get_hands_out_the_held_handle_for_mutation() {
    let mut wrapper: MaybeTransaction<u32, u64> = MaybeTransaction::Pool(7);
    wrapper.open(42);
    *wrapper.get() = 50;
    assert_eq!(*wrapper.get(), 50);
}

#[test]
fn pool_is_available_until_opened() {
    let wrapper: MaybeTransaction<u32, u64> = MaybeTransaction::Pool(7);
    assert_eq!(*wrapper.pool(), 7);
}

#[test]
fn commit_returns_the_opened_transaction() {
    let mut wrapper: MaybeTransaction<u32, u64> = MaybeTransaction::Pool(7);
    wrapper.open(42);
    assert_eq!(wrapper.commit(), Some(42));
}

#[test]
fn commit_without_get_has_nothing_to_commit() {
    let wrapper: MaybeTransaction<u32, u64> = MaybeTransaction::Pool(7);
    assert_eq!(wrapper.commit(), None);
}
