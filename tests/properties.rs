use std::cmp::Ordering;
use subotai::hash::SubotaiHash;

fn with_bits(bits: &[usize]) -> SubotaiHash {
    let mut h = SubotaiHash::blank();
    for b in bits {
        h.flip_bit(*b);
    }
    h
}

#[test]
fn xor_with_self_is_blank_and_with_blank_is_identity() {
    let a = with_bits(&[0, 7, 63, 100, 159]);
    assert!(a.xor(&a) == SubotaiHash::blank());
    assert!(a.xor(&SubotaiHash::blank()) == a);
    let r = SubotaiHash::random();
    assert!(&r ^ &r == SubotaiHash::blank());
}

#[test]
fn xor_commutes_and_height_is_symmetric() {
    let a = with_bits(&[1, 30, 90]);
    let b = with_bits(&[1, 31, 150]);
    let ab = &a ^ &b;
    let ba = &b ^ &a;
    assert!(ab == ba);
    assert_eq!(ab.height(), Some(150));
    assert_eq!(ba.height(), Some(150));
    assert_eq!(ab.raw[3], 0b1100_0000);
}

#[test]
fn xor_of_distinct_bytes() {
    let mut a = SubotaiHash::blank();
    let mut b = SubotaiHash::blank();
    a.raw[4] = 0b1010_1010;
    b.raw[4] = 0b0110_0110;
    let owned = a.clone() ^ b.clone();
    assert_eq!(owned.raw[4], 0b1100_1100);
    assert!(owned == &a ^ &b);
}

#[test]
fn sha1_is_deterministic() {
    assert!(SubotaiHash::sha1("some key") == SubotaiHash::sha1("some key"));
    assert!(SubotaiHash::sha1("some key") != SubotaiHash::sha1("some other key"));
}

#[test]
fn sha1_of_known_text() {
    let h = SubotaiHash::sha1("abc");
    let expected: [u8; 20] = [
        0xa9, 0x99, 0x3e, 0x36, 0x47, 0x06, 0x81, 0x6a, 0xba, 0x3e, 0x25, 0x71, 0x78, 0x50, 0xc2,
        0x6c, 0x9c, 0xd0, 0xd8, 0x9d,
    ];
    assert_eq!(h.raw, expected);
}

#[test]
fn height_of_blank_and_growing_bits() {
    assert_eq!(SubotaiHash::blank().height(), None);
    let mut h = SubotaiHash::blank();
    h.flip_bit(0);
    assert_eq!(h.height(), Some(0));
    h.flip_bit(3);
    assert_eq!(h.height(), Some(3));
    h.flip_bit(159);
    assert_eq!(h.height(), Some(159));
}

#[test]
fn flip_twice_restores() {
    let r = SubotaiHash::random();
    let mut h = r.clone();
    h.flip_bit(77);
    assert!(h != r);
    h.flip_bit(77);
    assert!(h == r);
}

#[test]
fn flip_out_of_range_is_ignored() {
    let r = SubotaiHash::random();
    let mut h = r.clone();
    h.flip_bit(160);
    h.flip_bit(1000);
    assert!(h == r);
}

#[test]
fn ones_forward_and_backward() {
    let h = with_bits(&[5, 20, 40]);
    let mut ones = h.ones();
    assert_eq!(ones.next(), Some(5));
    assert_eq!(ones.next_back(), Some(40));
    assert_eq!(ones.next(), Some(20));
    assert_eq!(ones.next(), None);
    assert_eq!(ones.next_back(), None);

    let mut back = h.into_ones();
    assert_eq!(back.next_back(), Some(40));
    assert_eq!(back.next_back(), Some(20));
    assert_eq!(back.next_back(), Some(5));
    assert_eq!(back.next_back(), None);
}

#[test]
fn zeroes_forward_and_backward() {
    let mut h = SubotaiHash::blank();
    for i in 0..160 {
        if i != 2 && i != 158 {
            h.flip_bit(i);
        }
    }
    let mut zeroes = h.zeroes();
    assert_eq!(zeroes.next(), Some(2));
    assert_eq!(zeroes.next_back(), Some(158));
    assert_eq!(zeroes.next(), None);

    let mut owned = h.into_zeroes();
    assert_eq!(owned.next_back(), Some(158));
    assert_eq!(owned.next(), Some(2));
    assert_eq!(owned.next_back(), None);
}

#[test]
fn blank_has_no_ones_and_all_zeroes() {
    let b = SubotaiHash::blank();
    assert_eq!(b.ones().next(), None);
    let mut z = b.zeroes();
    let mut count = 0;
    while let Some(i) = z.next() {
        assert_eq!(i, count);
        count += 1;
    }
    assert_eq!(count, 160);
}

#[test]
fn at_distance_for_every_distance() {
    let r = SubotaiHash::random();
    for d in 0..160 {
        let x = SubotaiHash::random_at_distance(&r, d);
        assert_eq!((&x ^ &r).height(), Some(d));
    }
}

#[test]
fn at_distance_from_equal_start() {
    let start = SubotaiHash::blank();
    let reference = SubotaiHash::blank();
    let x = SubotaiHash::at_distance_from(start, &reference, 5);
    assert_eq!(x.raw[0], 0x20);
    assert_eq!(x.height(), Some(5));
}

#[test]
fn at_distance_from_below_target() {
    let start = SubotaiHash::blank();
    let reference = with_bits(&[3]);
    let x = SubotaiHash::at_distance_from(start, &reference, 10);
    assert_eq!(x.raw[0], 0x08);
    assert_eq!(x.raw[1], 0x04);
    assert_eq!((&x ^ &reference).height(), Some(10));
}

#[test]
fn at_distance_from_above_target() {
    let start = with_bits(&[150, 40, 12, 1]);
    let reference = with_bits(&[12]);
    let x = SubotaiHash::at_distance_from(start, &reference, 40);
    assert!(x == with_bits(&[40, 12, 1]));
    let y = SubotaiHash::at_distance_from(with_bits(&[150, 40, 12, 1]), &reference, 20);
    assert!(y == with_bits(&[20, 12, 1]));
}

#[test]
fn ordering_by_most_significant_byte() {
    let mut a = SubotaiHash::blank();
    let mut b = SubotaiHash::blank();
    a.raw[10] = 1;
    b.raw[9] = 0xff;
    b.raw[0] = 0xff;
    assert_eq!(a.partial_cmp(&b), Some(Ordering::Greater));
    assert_eq!(b.partial_cmp(&a), Some(Ordering::Less));
    assert!(a > b);
    assert!(b < a);
    assert_eq!(a.cmp(&b), Ordering::Greater);
    assert_eq!(b.cmp(&a), Ordering::Less);
}

#[test]
fn equal_hashes_are_unordered_but_total_order_is_equal() {
    let a = SubotaiHash::random();
    let b = a.clone();
    assert_eq!(a.partial_cmp(&b), None);
    assert_eq!(a.cmp(&b), Ordering::Equal);
}

#[test]
fn rendering() {
    assert_eq!(SubotaiHash::blank().to_string(), "0x[]");
    let mut h = SubotaiHash::blank();
    h.raw[0] = 0x0a;
    h.raw[2] = 0x1;
    assert_eq!(h.to_string(), "0x[01000A]");
    h.raw[19] = 0xff;
    assert_eq!(
        h.to_string(),
        "0x[FF0000000000000000000000000000000001000A]"
    );
}
