use primesieve::engine::CursorCall;
use primesieve::iter::Stage;
use primesieve::{Iter, PrimeIterator};

// A small stand-in for an engine cursor: it steps through the primes by trial
// division, and panics where the real engine would touch storage that it has
// not initialized or has released.

#[derive(Debug)]
struct Storage {
    live: bool,
    frees: u32,
    position: u64,
}

fn storage() -> Storage {
    Storage { live: false, frees: 0, position: 0 }
}

fn is_prime(n: u64) -> bool {
    if n < 2 {
        return false;
    }
    let mut d: u64 = 2;
    while d * d <= n {
        if n % d == 0 {
            return false;
        }
        d += 1;
    }
    true
}

fn perform(storage: &mut Storage, call: CursorCall) -> u64 {
    match call {
        CursorCall::Init => {
            assert!(!storage.live && storage.frees == 0);
            storage.live = true;
            storage.position = 0;
            0
        }
        CursorCall::SkipTo { start, stop: _ } => {
            assert!(storage.live);
            storage.position = start;
            0
        }
        CursorCall::NextPrime => {
            assert!(storage.live);
            let mut p: u64 = storage.position + 1;
            while !is_prime(p) {
                p += 1;
            }
            storage.position = p;
            p
        }
        CursorCall::PrevPrime => {
            assert!(storage.live);
            let mut p: u64 = storage.position - 1;
            while !is_prime(p) {
                p -= 1;
            }
            storage.position = p;
            p
        }
        CursorCall::FreeIterator => {
            assert!(storage.live);
            storage.live = false;
            storage.frees += 1;
            0
        }
    }
}

#[test]
fn iterator_test() {
    let mut pi = storage();
    let mut it = Iter::new();
    perform(&mut pi, it.init().unwrap());
    perform(&mut pi, it.skipto(1, 10).unwrap());
    let x: u64 = perform(&mut pi, it.next().unwrap());
    perform(&mut pi, it.skipto(10, 1).unwrap());
    let y: u64 = perform(&mut pi, it.prev().unwrap());
    perform(&mut pi, it.release().unwrap());
    assert_eq!(x, 2);
    assert_eq!(y, 7);
}

#[test]
fn iterator_struct() {
    let mut storage = storage();
    let (mut pi, calls) = PrimeIterator::new(0, Some(10), 4_294_967_295);
    for call in calls {
        perform(&mut storage, call);
    }
    assert_eq!(perform(&mut storage, pi.next().unwrap()), 2);
    assert_eq!(perform(&mut storage, pi.next().unwrap()), 3);
    assert_eq!(perform(&mut storage, pi.next().unwrap()), 5);
    assert_eq!(perform(&mut storage, pi.next().unwrap()), 7);
}

#[test]
fn a_fresh_iterator_yields_2_3_5_7() {
    let mut storage = storage();
    let mut it = Iter::new();
    assert_eq!(it.stage(), Stage::Uninitialized);
    perform(&mut storage, it.init().unwrap());
    assert_eq!(it.stage(), Stage::Ready);
    let mut primes: Vec<u64> = Vec::new();
    for _ in 0..4 {
        primes.push(perform(&mut storage, it.next().unwrap()));
    }
    assert_eq!(primes, vec![2, 3, 5, 7]);
}

#[test]
fn a_fresh_cursor_takes_only_init() {
    let mut it = Iter::new();
    assert_eq!(it.next(), None);
    assert_eq!(it.prev(), None);
    assert_eq!(it.skipto(0, 10), None);
    assert_eq!(it.release(), None);
    assert_eq!(it.stage(), Stage::Uninitialized);
    assert_eq!(it.init(), Some(CursorCall::Init));
    assert_eq!(it.stage(), Stage::Ready);
}

#[test]
fn a_ready_cursor_is_not_initialized_again() {
    let mut it = Iter::default();
    assert_eq!(it.init(), Some(CursorCall::Init));
    assert_eq!(it.init(), None);
    assert_eq!(it.request(CursorCall::Init), None);
    assert_eq!(it.stage(), Stage::Ready);
    assert_eq!(it.next(), Some(CursorCall::NextPrime));
    assert_eq!(it.prev(), Some(CursorCall::PrevPrime));
    assert_eq!(it.skipto(3, 9), Some(CursorCall::SkipTo { start: 3, stop: 9 }));
    assert_eq!(it.stage(), Stage::Ready);
}

#[test]
fn a_released_cursor_takes_nothing() {
    let mut it = Iter::new();
    it.init();
    assert_eq!(it.release(), Some(CursorCall::FreeIterator));
    assert_eq!(it.stage(), Stage::Released);
    assert_eq!(it.release(), None);
    assert_eq!(it.next(), None);
    assert_eq!(it.prev(), None);
    assert_eq!(it.skipto(0, 10), None);
    assert_eq!(it.init(), None);
    assert_eq!(it.request(CursorCall::NextPrime), None);
    assert_eq!(it.stage(), Stage::Released);
}

#[test]
fn storage_is_released_exactly_once() {
    let mut storage = storage();
    let mut it = Iter::new();
    let asked = vec![
        CursorCall::NextPrime,
        CursorCall::Init,
        CursorCall::Init,
        CursorCall::NextPrime,
        CursorCall::FreeIterator,
        CursorCall::NextPrime,
        CursorCall::FreeIterator,
        CursorCall::Init,
    ];
    let mut made: Vec<CursorCall> = Vec::new();
    for call in asked {
        if let Some(granted) = it.request(call) {
            perform(&mut storage, granted);
            made.push(granted);
        }
    }
    assert_eq!(made, vec![CursorCall::Init, CursorCall::NextPrime, CursorCall::FreeIterator]);
    assert_eq!(storage.frees, 1);
    assert_eq!(storage.position, 2);
}

#[test]
fn prime_iterator_without_a_hint_goes_to_the_ceiling() {
    let (pi, calls) = PrimeIterator::new(100, None, 5000);
    assert_eq!(pi.stage(), Stage::Ready);
    assert_eq!(calls, vec![CursorCall::Init, CursorCall::SkipTo { start: 100, stop: 5000 }]);
    let (_, calls) = PrimeIterator::new(100, Some(200), 5000);
    assert_eq!(calls, vec![CursorCall::Init, CursorCall::SkipTo { start: 100, stop: 200 }]);
}

#[test]
fn prime_iterator_is_released_once() {
    let (mut pi, _) = PrimeIterator::new(0, None, 5000);
    assert_eq!(pi.next(), Some(CursorCall::NextPrime));
    assert_eq!(pi.release(), Some(CursorCall::FreeIterator));
    assert_eq!(pi.stage(), Stage::Released);
    assert_eq!(pi.release(), None);
    assert_eq!(pi.next(), None);
}
