use memory_size::MemorySize;

#[test]
fn add_commutes_and_cancels() {
    let a = MemorySize::from_bits(123);
    let b = MemorySize::from_bits(456);

    assert_eq!(a.add(b), b.add(a));
    assert_eq!(a.add(b).sub(b), a);
    assert_eq!(b.add(a).sub(a), b);
}

#[test]
fn sub_then_add_restores() {
    let small = MemorySize::from_bits(100);
    let large = MemorySize::from_bits(250);

    let difference = large.sub(small);
    assert_eq!(difference.add(small), large);
}

#[test]
fn from_bytes_reports_bytes() {
    for n in [0u64, 1, 7, 8, 1000, u64::MAX / 8] {
        let size = MemorySize::from_bytes(n);
        assert_eq!(size.size_bits(), n * 8);
        assert_eq!(size.size_bytes(), n);
    }
}

#[test]
fn from_bits_ceil_whole_bytes() {
    for n in [0u64, 1, 7, 8, 9, 15, 16, 1023] {
        let size = MemorySize::from_bits_ceil(n);
        assert_eq!(size.size_bits() % 8, 0);
        assert!(size.size_bits() >= n);
        assert!(size.size_bits() < n + 8);
    }
}

#[test]
fn align_up_examples() {
    // aligning 25 bytes to 4-byte boundaries lands on 28 bytes
    assert_eq!(
        MemorySize::from_bytes(25).align_up(MemorySize::from_bytes(4)),
        MemorySize::from_bytes(28)
    );

    // zero alignment is a no-op, zero is aligned to everything,
    // everything is aligned to itself
    let x = MemorySize::from_bits(67);
    assert_eq!(x.align_up(MemorySize::new()), x);
    assert_eq!(MemorySize::new().align_up(x), MemorySize::new());
    assert_eq!(x.align_up(x), x);
}

#[test]
fn round_up_byte_examples() {
    assert_eq!(
        MemorySize::from_bits(12).round_up_byte(),
        MemorySize::from_bytes(2)
    );
    assert_eq!(
        MemorySize::from_bits(16).round_up_byte(),
        MemorySize::from_bytes(2)
    );
}

#[test]
fn size_decomposition() {
    assert_eq!(MemorySize::from_bits(10).size_bits_bytes(), (2, 1));
    assert_eq!(MemorySize::from_bits(8).size_bits_bytes(), (0, 1));
    assert_eq!(MemorySize::from_bits(0).size_bits_bytes(), (0, 0));
    assert_eq!(MemorySize::from_bits(7).size_bits_bytes(), (7, 0));
}

#[test]
fn ordering_is_trichotomous() {
    let pairs = [(10u64, 20u64), (20, 10), (10, 10), (0, u64::MAX)];
    for (l, r) in pairs {
        let a = MemorySize::from_bits(l);
        let b = MemorySize::from_bits(r);
        let less = a < b;
        let equal = a == b;
        let greater = a > b;
        // exactly one of the three relations holds
        assert_eq!(
            [less, equal, greater].iter().filter(|&&h| h).count(),
            1
        );
        assert_eq!(less, l < r);
        assert_eq!(equal, l == r);
        assert_eq!(greater, l > r);
    }
}

#[test]
fn format_human_floors_partial_bytes() {
    // 12 bits are one whole byte and a remainder: display floors to "1 B"
    assert_eq!(MemorySize::from_bits(12).format_human(), "1 B");
    // 7 bits are less than a byte
    assert_eq!(MemorySize::from_bits(7).format_human(), "0 B");
}

#[test]
fn format_human_decimal_places() {
    // 1536 bytes are exactly 1.5 binary kilobytes
    assert_eq!(MemorySize::from_bytes(1536).format_human(), "1.50 kB");
    assert_eq!(MemorySize::from_bytes(1023).format_human(), "1023 B");
}

#[test]
fn sum_edge_cases() {
    let empty: Vec<MemorySize> = vec![];
    assert_eq!(MemorySize::sum(&empty), MemorySize::new());

    let single = vec![MemorySize::from_bits(u64::MAX)];
    assert_eq!(MemorySize::sum(&single).size_bits(), u64::MAX);

    let sizes = vec![
        MemorySize::from_bytes(5),
        MemorySize::from_bytes(10),
        MemorySize::from_bytes(15),
    ];
    assert_eq!(MemorySize::sum(&sizes), MemorySize::from_bytes(30));
}

#[test]
fn min_max_pick_an_operand() {
    let a = MemorySize::from_bits(5);
    let b = MemorySize::from_bits(5);
    assert_eq!(a.max(b), a);
    assert_eq!(a.min(b), a);

    let c = MemorySize::from_bits(9);
    assert_eq!(a.max(c), c);
    assert_eq!(c.min(a), a);
}
