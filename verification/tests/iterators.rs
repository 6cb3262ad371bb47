use primer::iterators::{shoes_in_my_size, Counter, Shoe};

#[test]
fn filters_by_size() {
    let shoes = vec![
        Shoe { size: 10, style: String::from("sneaker") },
        Shoe { size: 13, style: String::from("sandal") },
        Shoe { size: 10, style: String::from("boot") },
    ];

    let in_my_size = shoes_in_my_size(shoes, 10);

    assert_eq!(
        in_my_size,
        vec![
            Shoe { size: 10, style: String::from("sneaker") },
            Shoe { size: 10, style: String::from("boot") },
        ]
    );
}

#[test]
fn calling_next_directly() {
    let mut counter = Counter::new();

    assert_eq!(counter.next(), Some(1));
    assert_eq!(counter.next(), Some(2));
    assert_eq!(counter.next(), Some(3));
    assert_eq!(counter.next(), Some(4));
    assert_eq!(counter.next(), Some(5));
    assert_eq!(counter.next(), None);
}

#[test]
fn using_other_iterator_trait_methods() {
    let mut first = Counter::new();
    let mut second = Counter::new();
    let sum: u32 = std::iter::from_fn(move || first.next())
        .zip(std::iter::from_fn(move || second.next()).skip(1))
        .map(|(a, b)| a * b)
        .filter(|x| x % 3 == 0)
        .sum();

    assert_eq!(18, sum);
}

#[test]
fn no_shoe_fits_where_none_has_the_size() {
    let shoes = vec![Shoe { size: 10, style: String::from("sneaker") }];
    assert_eq!(shoes_in_my_size(shoes, 11), vec![]);
    assert_eq!(shoes_in_my_size(vec![], 10), vec![]);
}

#[test]
fn counter_keeps_returning_nothing_after_five() {
    let mut counter = Counter::new();
    for expected in 1..6 {
        assert_eq!(counter.next(), Some(expected));
    }
    for _ in 0..10 {
        assert_eq!(counter.next(), None);
    }
}
