use subotai::hash::SubotaiHash;

#[test]
fn random_generation() {
    assert!(SubotaiHash::random() != SubotaiHash::random());
}

#[test]
fn xor() {
    let alpha = SubotaiHash::random();
    let beta = SubotaiHash { raw: alpha.raw };

    let reference_xor = &alpha ^ &beta;
    let value_xor = alpha ^ beta;

    for (a, b) in reference_xor.raw.iter().zip(value_xor.raw.iter()) {
        assert_eq!(*a, 0x00);
        assert_eq!(*b, 0x00);
    }
}

#[test]
fn computing_height() {
    let mut test_hash = SubotaiHash::blank();
    assert!(test_hash.height().is_none());

    // First bit
    test_hash.raw[0] = 1;
    assert_eq!(test_hash.height(), Some(0));

    // Fourth bit (index 3)
    test_hash.raw[0] = test_hash.raw[0] | (1 << 3);
    assert_eq!(test_hash.height(), Some(3));

    // Last bit (index 159)
    test_hash.raw[19] = 1 << 7;
    assert_eq!(test_hash.height(), Some(159));
}

#[test]
fn bit_flipping() {
    let mut test_hash = SubotaiHash::blank();
    test_hash.flip_bit(9);
    assert_eq!(test_hash.raw[1], 2);
    test_hash.flip_bit(9);
    assert_eq!(test_hash.raw[1], 0);
}

#[test]
fn iterating_over_ones() {
    let mut test_hash = SubotaiHash::blank();
    let bits = vec![5usize, 20, 40];

    for bit in &bits {
        test_hash.flip_bit(*bit);
    }

    let mut ones = test_hash.ones();
    for expected in bits {
        assert_eq!(ones.next(), Some(expected));
    }
}

#[test]
fn random_at_a_distance() {
    let test_hash = SubotaiHash::random();
    let distance = 30usize;
    let new_hash = SubotaiHash::random_at_distance(&test_hash, distance);
    let distance_hash = test_hash ^ new_hash;
    assert_eq!(distance, (distance_hash).height().unwrap());
}
