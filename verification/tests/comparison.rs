use chunk_tag::chunk_type::chunk::ChunkType;
use std::cmp::Ordering;
use std::convert::TryFrom;
use std::str::FromStr;

#[test]
fn equal_bytes_are_equal_chunk_types() {
    let a = ChunkType::try_from([82, 117, 83, 116]).unwrap();
    let b = ChunkType::try_from([82, 117, 83, 116]).unwrap();
    assert!(a == b);
    assert!(b == a);
    assert!(a == a);
    assert!(!(a != b));
}

#[test]
fn case_matters_for_equality() {
    let mixed = ChunkType::from_str("RuSt").unwrap();
    let lower = ChunkType::from_str("rust").unwrap();
    assert_ne!(mixed, lower);
    assert_ne!(lower, mixed);
}

#[test]
fn a_difference_in_any_one_byte_is_a_difference() {
    let base = ChunkType::try_from([82, 117, 83, 116]).unwrap();
    for at in 0..4 {
        let mut bytes = [82, 117, 83, 116];
        bytes[at] = 65;
        assert_ne!(base, ChunkType::try_from(bytes).unwrap());
    }
}

#[test]
fn copies_are_equal() {
    let a = ChunkType::from_str("IDAT").unwrap();
    let b = a;
    let c = a.clone();
    assert_eq!(a, b);
    assert_eq!(a, c);
}

#[test]
fn order_is_decided_at_the_first_difference() {
    let a = ChunkType::try_from([65, 122, 122, 122]).unwrap();
    let b = ChunkType::try_from([66, 65, 65, 65]).unwrap();
    assert_eq!(a.partial_cmp(&b), Some(Ordering::Less));
    assert_eq!(b.partial_cmp(&a), Some(Ordering::Greater));
    assert!(a < b);
    assert!(b > a);
    assert!(a <= b);
    assert!(!(a >= b));
}

#[test]
fn order_reaches_the_last_byte() {
    let a = ChunkType::try_from([82, 117, 83, 115]).unwrap();
    let b = ChunkType::try_from([82, 117, 83, 116]).unwrap();
    assert_eq!(a.partial_cmp(&b), Some(Ordering::Less));
    assert_eq!(b.partial_cmp(&a), Some(Ordering::Greater));
    assert_eq!(a.partial_cmp(&a), Some(Ordering::Equal));
    assert_eq!(b.partial_cmp(&b), Some(Ordering::Equal));
}

#[test]
fn uppercase_sorts_before_lowercase() {
    let upper = ChunkType::from_str("RUST").unwrap();
    let lower = ChunkType::from_str("rust").unwrap();
    assert!(upper < lower);
}

#[test]
fn total_order_agrees_with_the_partial_one() {
    let tags = ["IHDR", "IDAT", "IEND", "tEXt", "RuSt", "rust", "AAAA", "zzzz"];
    for x in tags {
        for y in tags {
            let a = ChunkType::from_str(x).unwrap();
            let b = ChunkType::from_str(y).unwrap();
            assert_eq!(a.partial_cmp(&b), Some(a.cmp(&b)));
            assert_eq!(a.cmp(&b), x.as_bytes().cmp(y.as_bytes()));
            assert_eq!(a == b, x == y);
        }
    }
}

#[test]
fn sorting_puts_tags_in_byte_order() {
    let mut tags: Vec<ChunkType> =
        ["tEXt", "IDAT", "rust", "IHDR", "RuSt"].iter().map(|t| ChunkType::from_str(t).unwrap()).collect();
    tags.sort();
    let sorted: Vec<String> = tags.iter().map(|t| t.to_string()).collect();
    assert_eq!(sorted, vec!["IDAT", "IHDR", "RuSt", "rust", "tEXt"]);
}
