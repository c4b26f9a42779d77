use async_patterns::fibonacci::fibonacci;

#[test]
fn first_fibonacci_numbers() {
    let expected: Vec<u64> = vec![0, 1, 1, 2, 3, 5, 8, 13, 21, 34, 55, 89, 144];
    for (n, number) in expected.iter().enumerate() {
        assert_eq!(fibonacci(n as u64), *number);
    }
}

#[test]
fn fibonacci_of_twenty_five() {
    assert_eq!(fibonacci(25), 75025);
}

#[test]
fn fibonacci_numbers_do_not_fall() {
    for n in 0..20 {
        assert!(fibonacci(n) <= fibonacci(n + 1));
    }
}

#[test]
fn ninety_third_number_is_the_last_that_fits() {
    let (mut a, mut b): (u64, u64) = (0, 1);
    let mut n: u64 = 1;
    while let Some(next) = a.checked_add(b) {
        a = b;
        b = next;
        n += 1;
    }
    assert_eq!(n, 93);
    assert_eq!(b, 12200160415121876738);
}
