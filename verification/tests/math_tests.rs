use tracemon::math::{add, add_one, combinations, factorial, min_max_swap, multiply, permutations, pingala, square};

#[test]
fn it_works() {
    let result = add(2, 2);
    assert_eq!(result, 4);
}

#[test]
fn multiply_works() {
    assert_eq!(multiply(6, 7), 42);
    assert_eq!(multiply(-3, 5), -15);
}

#[test]
fn factorial_values() {
    assert_eq!(factorial(0), 1);
    assert_eq!(factorial(1), 1);
    assert_eq!(factorial(5), 120);
    assert_eq!(factorial(12), 479001600);
}

#[test]
fn permutations_values() {
    assert_eq!(permutations(5, 2), 20);
    assert_eq!(permutations(12, 3), 1320);
    assert_eq!(permutations(4, 4), 24);
}

#[test]
fn combinations_values() {
    assert_eq!(combinations(5, 2), 10);
    assert_eq!(combinations(12, 6), 924);
    assert_eq!(combinations(7, 0), 1);
}

#[test]
fn min_max_swap_orders() {
    assert_eq!(min_max_swap(3, 4), (3, 4));
    assert_eq!(min_max_swap(4, 3), (3, 4));
    assert_eq!(min_max_swap(5, 5), (5, 5));
    assert_eq!(min_max_swap(-1, -2), (-2, -1));
}

#[test]
fn pingala_first_nine() {
    assert_eq!(pingala(9), vec![0, 1, 1, 2, 3, 5, 8, 13, 21]);
}

#[test]
fn pingala_short() {
    assert_eq!(pingala(0), Vec::<u64>::new());
    assert_eq!(pingala(1), vec![0]);
    assert_eq!(pingala(2), vec![0, 1]);
}

#[test]
fn square_values() {
    assert_eq!(square(3), 9);
    assert_eq!(square(-4), 16);
}

#[test]
fn add_one_appends_32() {
    let mut numbers = vec![1, 1, 1];
    add_one(&mut numbers);
    assert_eq!(numbers, vec![1, 1, 1, 32]);
}
