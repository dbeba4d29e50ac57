use primesieve::bounds::{clamp, decode};
use primesieve::engine::{CountCall, GenerateCall, NthCall, PrintCall, PRIMESIEVE_ERROR};
use primesieve::{Count, Generate, Nth, Print, Tupling};

// A small stand-in for the engine. It knows primes and twins below 2^32,
// and answers with the sentinel for everything else.

const MAX_STOP: u64 = 4_294_967_295;

fn is_prime(n: u64) -> bool {
    if n < 2 {
        return false;
    }
    let mut d: u64 = 2;
    while d * d <= n {
        if n % d == 0 {
            return false;
        }
        d += 1;
    }
    true
}

fn count_in(start: u64, stop: u64, gap: u64) -> u64 {
    let mut count: u64 = 0;
    let mut p: u64 = start;
    while p <= stop {
        if is_prime(p) && is_prime(p + gap) && p + gap <= stop {
            count += 1;
        }
        p += 1;
    }
    count
}

fn answer_count(call: CountCall) -> u64 {
    match call {
        CountCall::Primes { start, stop } => count_in(start, stop, 0),
        CountCall::Twins { start, stop } => count_in(start, stop, 2),
        _ => PRIMESIEVE_ERROR,
    }
}

fn answer_nth(call: NthCall) -> u64 {
    if call.n < 0 {
        return PRIMESIEVE_ERROR;
    }
    let mut left: i64 = if call.n == 0 { 1 } else { call.n };
    let mut p: u64 = call.start;
    loop {
        if is_prime(p) {
            left -= 1;
            if left == 0 {
                return p;
            }
        }
        p += 1;
    }
}

fn fill_u32(call: GenerateCall) -> Vec<u32> {
    assert_eq!(call.type_key, 11);
    let mut buffer: Vec<u32> = Vec::new();
    let mut p: u64 = call.start;
    while p <= call.stop {
        if is_prime(p) {
            buffer.push(p as u32);
        }
        p += 1;
    }
    buffer
}

#[test]
fn count_primes_to_100() {
    let query = Count { tupling: Tupling::One, start: 0, stop: 100 };
    let call = query.run();
    assert_eq!(call, CountCall::Primes { start: 0, stop: 100 });
    assert_eq!(decode(answer_count(call)), Some(25));
}

#[test]
fn count_twins_to_100() {
    let query = Count { tupling: Tupling::Two, start: 0, stop: 100 };
    let call = query.run();
    assert_eq!(call, CountCall::Twins { start: 0, stop: 100 });
    assert_eq!(decode(answer_count(call)), Some(8));
}

#[test]
fn count_built_by_setters() {
    let query = Count::new(MAX_STOP).tupling(2u8).start(0, MAX_STOP).stop(100, MAX_STOP);
    assert_eq!(query, Count { tupling: Tupling::Two, start: 0, stop: 100 });
    assert_eq!(decode(answer_count(query.run())), Some(8));
}

#[test]
fn count_selects_one_primitive_per_constellation() {
    let q = Count::new(MAX_STOP).start(7, MAX_STOP).stop(77, MAX_STOP);
    assert_eq!(q.tupling(Tupling::One).run(), CountCall::Primes { start: 7, stop: 77 });
    assert_eq!(q.tupling(Tupling::Two).run(), CountCall::Twins { start: 7, stop: 77 });
    assert_eq!(q.tupling(Tupling::Three).run(), CountCall::Triplets { start: 7, stop: 77 });
    assert_eq!(q.tupling(Tupling::Four).run(), CountCall::Quadruplets { start: 7, stop: 77 });
    assert_eq!(q.tupling(Tupling::Five).run(), CountCall::Quintuplets { start: 7, stop: 77 });
    assert_eq!(q.tupling(Tupling::Six).run(), CountCall::Sextuplets { start: 7, stop: 77 });
}

#[test]
fn count_defaults() {
    assert_eq!(Count::new(1000), Count { tupling: Tupling::One, start: 0, stop: 1000 });
    assert_eq!(Count::new(0), Count { tupling: Tupling::One, start: 0, stop: 0 });
}

#[test]
fn count_failure_is_absent() {
    let query = Count { tupling: Tupling::Six, start: 0, stop: 100 };
    assert_eq!(decode(answer_count(query.run())), None);
}

#[test]
fn equal_counts_give_equal_results() {
    let a = Count::new(MAX_STOP).tupling(1u32).stop(100, MAX_STOP);
    let b = Count::new(MAX_STOP).stop(100, MAX_STOP).tupling(Tupling::One);
    assert_eq!(a, b);
    assert_eq!(a.run(), b.run());
    assert_eq!(decode(answer_count(a.run())), decode(answer_count(b.run())));
}

#[test]
fn bounds_are_clamped_to_the_ceiling() {
    assert_eq!(clamp(0, 100), 0);
    assert_eq!(clamp(99, 100), 99);
    assert_eq!(clamp(100, 100), 100);
    assert_eq!(clamp(101, 100), 100);
    assert_eq!(clamp(u64::MAX, 100), 100);
    assert_eq!(clamp(5, 0), 0);
    assert_eq!(clamp(u64::MAX, u64::MAX), u64::MAX);
    let q = Count::new(50).start(60, 50).stop(70, 50);
    assert_eq!(q.start, 50);
    assert_eq!(q.stop, 50);
}

#[test]
fn start_above_stop_is_kept() {
    let q = Count::new(1000).start(500, 1000).stop(10, 1000);
    assert_eq!(q, Count { tupling: Tupling::One, start: 500, stop: 10 });
    assert_eq!(q.run(), CountCall::Primes { start: 500, stop: 10 });
}

#[test]
fn only_the_sentinel_decodes_to_nothing() {
    assert_eq!(PRIMESIEVE_ERROR, u64::MAX);
    assert_eq!(decode(PRIMESIEVE_ERROR), None);
    assert_eq!(decode(u64::MAX - 1), Some(u64::MAX - 1));
    assert_eq!(decode(0), Some(0));
    assert_eq!(decode(25), Some(25));
}

#[test]
fn nth_after_zero_from_zero() {
    let query = Nth::new().after(0).unwrap().start(0, MAX_STOP);
    let call = query.run();
    assert_eq!(call, NthCall { n: 0, start: 0 });
    assert_eq!(decode(answer_nth(call)), Some(2));
}

#[test]
fn nth_stores_the_count_negated() {
    assert_eq!(Nth::new(), Nth { n: 0, start: 0 });
    assert_eq!(Nth::default(), Nth::new());
    assert_eq!(Nth::new().after(5), Some(Nth { n: -5, start: 0 }));
    assert_eq!(Nth::new().before(5), Some(Nth { n: -5, start: 0 }));
    assert_eq!(Nth::new().before(0), Some(Nth { n: 0, start: 0 }));
    let most: u64 = i64::MAX as u64;
    assert_eq!(Nth::new().after(most), Some(Nth { n: -i64::MAX, start: 0 }));
    assert_eq!(Nth::new().before(most), Some(Nth { n: -i64::MAX, start: 0 }));
}

#[test]
fn nth_refuses_a_count_beyond_i64() {
    let most: u64 = i64::MAX as u64;
    assert_eq!(Nth::new().after(most + 1), None);
    assert_eq!(Nth::new().before(most + 1), None);
    assert_eq!(Nth::new().after(u64::MAX), None);
    assert_eq!(Nth::new().before(u64::MAX), None);
}

#[test]
fn nth_start_is_clamped() {
    let q = Nth::new().start(200, 100);
    assert_eq!(q, Nth { n: 0, start: 100 });
    let q = Nth::new().after(3).unwrap().start(7, 100);
    assert_eq!(q.run(), NthCall { n: -3, start: 7 });
}

#[test]
fn nth_failure_is_absent() {
    let query = Nth::new().after(3).unwrap();
    assert_eq!(decode(answer_nth(query.run())), None);
}

#[test]
fn print_tupling_refuses_what_is_no_constellation() {
    assert_eq!(Print::new(100).tupling(0u8), None);
    assert_eq!(Print::new(100).tupling(7i64), None);
    assert_eq!(
        Print::new(100).tupling(3u8),
        Some(Print { tupling: Tupling::Three, start: 0, stop: 100 })
    );
}

#[test]
fn print_selects_one_primitive_per_constellation() {
    let q = Print::new(MAX_STOP).start(2, MAX_STOP).stop(50, MAX_STOP);
    assert_eq!(q, Print { tupling: Tupling::One, start: 2, stop: 50 });
    assert_eq!(q.execute(), PrintCall::Primes { start: 2, stop: 50 });
    assert_eq!(q.tupling(2u8).unwrap().execute(), PrintCall::Twins { start: 2, stop: 50 });
    assert_eq!(q.tupling(3u8).unwrap().execute(), PrintCall::Triplets { start: 2, stop: 50 });
    assert_eq!(q.tupling(4u8).unwrap().execute(), PrintCall::Quadruplets { start: 2, stop: 50 });
    assert_eq!(q.tupling(5u8).unwrap().execute(), PrintCall::Quintuplets { start: 2, stop: 50 });
    assert_eq!(q.tupling(6u8).unwrap().execute(), PrintCall::Sextuplets { start: 2, stop: 50 });
}

#[test]
fn print_bounds_are_clamped() {
    let q = Print::new(10).start(11, 10).stop(12, 10);
    assert_eq!(q, Print { tupling: Tupling::One, start: 10, stop: 10 });
}

#[test]
fn generate_u32_to_30() {
    let query = Generate { start: 0, stop: 30 };
    let call = query.run::<u32>();
    assert_eq!(call, GenerateCall { start: 0, stop: 30, type_key: 11 });
    let mut buffer: Vec<u32> = fill_u32(call);
    let primes: Vec<u32> = Generate::collect(&buffer);
    for slot in buffer.iter_mut() {
        *slot = 0;
    }
    drop(buffer);
    assert_eq!(primes, vec![2, 3, 5, 7, 11, 13, 17, 19, 23, 29]);
}

#[test]
fn generate_nothing_is_an_empty_sequence() {
    let call = Generate::new(MAX_STOP).start(24, MAX_STOP).stop(28, MAX_STOP).run::<u32>();
    let buffer: Vec<u32> = fill_u32(call);
    assert_eq!(buffer.len(), 0);
    let primes: Vec<u32> = Generate::collect(&buffer);
    assert_eq!(primes, Vec::<u32>::new());
}

#[test]
fn generate_bounds_are_clamped() {
    assert_eq!(Generate::new(77), Generate { start: 0, stop: 77 });
    let q = Generate::new(77).start(100, 77).stop(5, 77);
    assert_eq!(q, Generate { start: 77, stop: 5 });
}
