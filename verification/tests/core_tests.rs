use std::cell::Cell;
use std::rc::Rc;

use emplace::{
    align_up, emplace_with_fallback, fit_slot, is_power_of_two, resolve, BufRegion, Countdown,
    Ctor, Drive, HeapArena, HeapExhausted, Layout, MemReader, Placed, ProducerDesc, Progress,
    Read, ReadError,
};

#[test]
fn power_of_two_check() {
    assert!(is_power_of_two(1));
    assert!(is_power_of_two(2));
    assert!(is_power_of_two(4));
    assert!(is_power_of_two(1024));
    assert!(!is_power_of_two(0));
    assert!(!is_power_of_two(3));
    assert!(!is_power_of_two(12));
}

#[test]
fn layout_rejects_bad_alignment() {
    assert!(Layout::new(8, 0).is_none());
    assert!(Layout::new(8, 6).is_none());
    let l = Layout::new(8, 4).unwrap();
    assert_eq!(l.size, 8);
    assert_eq!(l.align, 4);
}

#[test]
fn resolve_is_stable() {
    let d = ProducerDesc { result_size: 24, result_align: 8 };
    let first = resolve(&d);
    let second = resolve(&d);
    assert_eq!(first, second);
    let l = first.unwrap();
    assert_eq!(l.size, 24);
    assert_eq!(l.align, 8);
}

#[test]
fn resolve_rejects_bad_alignment() {
    let d = ProducerDesc { result_size: 24, result_align: 6 };
    assert!(resolve(&d).is_none());
}

#[test]
fn align_up_rounds_to_next_multiple() {
    assert_eq!(align_up(5, 4), Some(8));
    assert_eq!(align_up(8, 4), Some(8));
    assert_eq!(align_up(0, 16), Some(0));
    assert_eq!(align_up(usize::MAX, 2), None);
    assert_eq!(align_up(usize::MAX - 1, 2), Some(usize::MAX - 1));
}

#[test]
fn fit_slot_picks_first_aligned_slot() {
    let l = Layout::new(8, 4).unwrap();
    assert_eq!(fit_slot(0x1001, 16, l), Some(0x1004));
    assert_eq!(fit_slot(0x1000, 16, l), Some(0x1000));
    assert_eq!(fit_slot(0x1001, 10, l), None);
}

#[test]
fn fit_slot_accepts_zero_size_at_region_end() {
    let l = Layout::new(0, 4).unwrap();
    assert_eq!(fit_slot(0x40, 0, l), Some(0x40));
    let l_wide = Layout::new(0, 64).unwrap();
    assert_eq!(fit_slot(0x41, 8, l_wide), None);
}

#[test]
fn buffer_scenario_aligned_fit() {
    // Layout (size 8, align 4) into a naturally aligned buffer of 16 bytes.
    let l = Layout::new(8, 4).unwrap();
    let c = Ctor::new(l, |_a: usize| Countdown::new(2, 42));
    let reg = BufRegion::new(0x100, 16).unwrap();
    let mut h = match reg.try_emplace(c) {
        Ok(h) => h,
        Err(_) => panic!("aligned 8-byte layout must fit a 16-byte buffer"),
    };
    assert_eq!(h.address(), 0x100);
    assert_eq!(h.drive(), Progress::Pending);
    assert_eq!(h.drive(), Progress::Pending);
    assert_eq!(h.drive(), Progress::Ready(42));
    assert_eq!(h.drive(), Progress::Ready(42));
    let back = h.destroy();
    assert_eq!(back, reg);
}

#[test]
fn buffer_rejection_returns_plan_intact() {
    // Layout (size 100, align 8) cannot fit a 64-byte buffer.
    let l = Layout::new(100, 8).unwrap();
    let c = Ctor::new(l, |_a: usize| Countdown::new(0, 7));
    let small = BufRegion::new(64, 64).unwrap();
    let back = match small.try_emplace(c) {
        Ok(_) => panic!("a 100-byte layout must not fit a 64-byte buffer"),
        Err(back) => back,
    };
    assert_eq!(back.region, small);
    // The returned plan is intact: it still succeeds elsewhere.
    let big = BufRegion::new(128, 128).unwrap();
    let mut h = match big.try_emplace(back.ctor) {
        Ok(h) => h,
        Err(_) => panic!("the returned plan must still fit a 128-byte buffer"),
    };
    assert_eq!(h.drive(), Progress::Ready(7));
    h.destroy();
}

#[test]
fn heap_fallback_matches_direct_construction() {
    // The oversized layout goes to the heap; the driven result equals the
    // one a direct, non-erased construction yields.
    let l = Layout::new(100, 8).unwrap();
    let c = Ctor::new(l, |_a: usize| Countdown::new(3, 1234));
    let reg = BufRegion::new(64, 64).unwrap();
    let mut arena = HeapArena::new();
    let mut placed = match emplace_with_fallback(reg, &mut arena, c) {
        Ok(p) => p,
        Err(_) => panic!("the heap must take what the buffer rejects"),
    };
    assert!(matches!(placed, Placed::Heaped(..)));
    let driven = loop {
        if let Progress::Ready(v) = placed.drive() {
            break v;
        }
    };
    let mut control = Countdown::new(3, 1234);
    let expected = loop {
        if let Progress::Ready(v) = control.drive() {
            break v;
        }
    };
    assert_eq!(driven, expected);
    let back = placed.destroy(&mut arena);
    assert_eq!(back, reg);
}

#[test]
fn fallback_stays_on_buffer_when_it_fits() {
    let l = Layout::new(8, 8).unwrap();
    let c = Ctor::new(l, |_a: usize| Countdown::new(0, 5));
    let reg = BufRegion::new(0x200, 32).unwrap();
    let mut arena = HeapArena::new();
    let mut placed = match emplace_with_fallback(reg, &mut arena, c) {
        Ok(p) => p,
        Err(_) => panic!("a fitting plan must be placed"),
    };
    assert!(matches!(placed, Placed::Buffered(..)));
    assert_eq!(placed.drive(), Progress::Ready(5));
    placed.destroy(&mut arena);
}

#[test]
fn sequential_emplacements_reuse_the_buffer() {
    // Two placements into the same buffer, the first fully destroyed before
    // the second begins: both succeed and give independent results.
    let reg = BufRegion::new(0x80, 16).unwrap();
    let l = Layout::new(8, 4).unwrap();

    let first = Ctor::new(l, |_a: usize| Countdown::new(1, 5));
    let mut h1 = match reg.try_emplace(first) {
        Ok(h) => h,
        Err(_) => panic!("first placement must fit"),
    };
    let first_addr = h1.address();
    assert_eq!(h1.drive(), Progress::Pending);
    assert_eq!(h1.drive(), Progress::Ready(5));
    let back = h1.destroy();

    let second = Ctor::new(l, |_a: usize| Countdown::new(0, 9));
    let mut h2 = match back.try_emplace(second) {
        Ok(h) => h,
        Err(_) => panic!("second placement must fit the returned buffer"),
    };
    assert_eq!(h2.address(), first_addr);
    assert_eq!(h2.drive(), Progress::Ready(9));
    h2.destroy();
}

#[test]
fn drive_to_ready_on_the_buffer() {
    let l = Layout::new(16, 8).unwrap();
    let c = Ctor::new(l, |_a: usize| Countdown::new(4, 77));
    let reg = BufRegion::new(0x400, 32).unwrap();
    let mut arena = HeapArena::new();
    let mut placed = match emplace_with_fallback(reg, &mut arena, c) {
        Ok(p) => p,
        Err(_) => panic!("a fitting plan must be placed"),
    };
    assert!(matches!(placed, Placed::Buffered(..)));
    assert_eq!(placed.drive_to_ready(), 77);
    placed.destroy(&mut arena);
}

#[test]
fn drive_to_ready_on_the_heap() {
    let l = Layout::new(100, 8).unwrap();
    let c = Ctor::new(l, |_a: usize| Countdown::new(4, 77));
    let reg = BufRegion::new(64, 64).unwrap();
    let mut arena = HeapArena::new();
    let mut placed = match emplace_with_fallback(reg, &mut arena, c) {
        Ok(p) => p,
        Err(_) => panic!("the heap must take what the buffer rejects"),
    };
    assert!(matches!(placed, Placed::Heaped(..)));
    assert_eq!(placed.drive_to_ready(), 77);
    let back = placed.destroy(&mut arena);
    assert_eq!(back, reg);
}

struct DropProbe {
    hits: Rc<Cell<u32>>,
}

impl Drop for DropProbe {
    fn drop(&mut self) {
        self.hits.set(self.hits.get() + 1);
    }
}

#[test]
fn buffer_destroy_runs_destructor_exactly_once() {
    let hits = Rc::new(Cell::new(0));
    let captured = hits.clone();
    let l = Layout::new(8, 4).unwrap();
    let c = Ctor::new(l, move |_a: usize| DropProbe { hits: captured });
    let reg = BufRegion::new(0x100, 16).unwrap();
    let h = match reg.try_emplace(c) {
        Ok(h) => h,
        Err(_) => panic!("the probe must fit"),
    };
    assert_eq!(hits.get(), 0);
    h.destroy();
    assert_eq!(hits.get(), 1);
}

#[test]
fn heap_destroy_runs_destructor_exactly_once() {
    let hits = Rc::new(Cell::new(0));
    let captured = hits.clone();
    let l = Layout::new(64, 16).unwrap();
    let c = Ctor::new(l, move |_a: usize| DropProbe { hits: captured });
    let mut arena = HeapArena::new();
    let h = match arena.emplace(c) {
        Ok(h) => h,
        Err(_) => panic!("a fresh arena must serve 64 bytes"),
    };
    assert_eq!(hits.get(), 0);
    h.destroy(&mut arena);
    assert_eq!(hits.get(), 1);
}

#[test]
fn heap_aligns_its_allocations() {
    let mut arena = HeapArena::new();
    let l = Layout::new(8, 16).unwrap();
    let c = Ctor::new(l, |_a: usize| Countdown::new(0, 1));
    let h = match arena.emplace(c) {
        Ok(h) => h,
        Err(_) => panic!("a fresh arena must serve 8 bytes"),
    };
    assert_eq!(h.address() % 16, 0);
    h.destroy(&mut arena);
}

#[test]
fn heap_serves_zero_size_at_dangling_address() {
    let mut arena = HeapArena::new();
    let l = Layout::new(0, 8).unwrap();
    let c = Ctor::new(l, |_a: usize| Countdown::new(0, 3));
    let h = match arena.emplace(c) {
        Ok(h) => h,
        Err(_) => panic!("a zero-sized plan never exhausts the heap"),
    };
    assert_eq!(h.address(), 8);
    h.destroy(&mut arena);
}

#[test]
fn heap_exhaustion_is_reported() {
    let mut arena = HeapArena::new();
    let l = Layout::new(usize::MAX, 1).unwrap();
    let c = Ctor::new(l, |_a: usize| Countdown::new(0, 0));
    match arena.emplace(c) {
        Ok(_) => panic!("the whole address space cannot be served from address 1"),
        Err(e) => assert_eq!(e, HeapExhausted {}),
    }
}

#[test]
fn mem_reader_delivers_then_runs_dry() {
    let mut r = MemReader::new(vec![1, 2, 3]);
    let mut buf = vec![9];
    assert_eq!(r.read_step(&mut buf), Progress::Ready(Ok(3)));
    assert_eq!(buf, vec![9, 1, 2, 3]);
    assert_eq!(r.read_step(&mut buf), Progress::Ready(Ok(0)));
    assert_eq!(buf, vec![9, 1, 2, 3]);
}

#[test]
fn mem_reader_fails_once_closed() {
    let mut r = MemReader::new(vec![4, 5]);
    r.close();
    let mut buf = vec![];
    assert_eq!(r.read_step(&mut buf), Progress::Ready(Err(ReadError::Closed)));
    assert!(buf.is_empty());
}

#[test]
fn poll_read_goes_through_the_trait() {
    let mut r = MemReader::new(vec![7, 8]);
    let mut buf = vec![];
    let reader: &mut dyn Read = &mut r;
    assert_eq!(reader.poll_read(&mut buf), Progress::Ready(Ok(2)));
    assert_eq!(buf, vec![7, 8]);
}
