use acoustic_modem::array::{generate, multiply, normalize, repeat};

#[test]
fn stretch_holds_each_element() {
    assert_eq!(
        repeat(&['a', 'b', 'c'], 9),
        vec!['a', 'a', 'a', 'b', 'b', 'b', 'c', 'c', 'c']
    );
}

#[test]
fn stretch_puts_the_remainder_at_the_end() {
    assert_eq!(repeat(&['a', 'b'], 5), vec!['a', 'a', 'b', 'b', 'b']);
    assert_eq!(repeat(&[1, 2, 3], 10), vec![1, 1, 1, 2, 2, 2, 3, 3, 3, 3]);
    assert_eq!(repeat(&[1, 2, 3], 11), vec![1, 1, 1, 2, 2, 2, 3, 3, 3, 3, 3]);
}

#[test]
fn stretch_below_the_input_length_repeats_the_last() {
    assert_eq!(repeat(&[1, 2, 3], 2), vec![3, 3]);
    assert_eq!(repeat(&[1, 2, 3], 0), Vec::<i32>::new());
}

#[test]
fn stretch_to_the_same_length_is_the_input() {
    assert_eq!(repeat(&[4, 5, 6], 3), vec![4, 5, 6]);
    assert_eq!(repeat(&[7], 4), vec![7, 7, 7, 7]);
}

#[test]
fn stretch_keeps_samples() {
    assert_eq!(repeat(&[0.5f32, -1.0], 4), vec![0.5, 0.5, -1.0, -1.0]);
}

#[test]
fn multiply_is_elementwise() {
    let mut one = [2, 3, 4];
    multiply(&mut one, &[5, 6, 7]);
    assert_eq!(one, [10, 18, 28]);
}

#[test]
fn multiply_leaves_the_second_operand() {
    let mut one = vec![1.5f32, -2.0, 0.0];
    let two = vec![2.0f32, 4.0, 9.0];
    multiply(&mut one, &two);
    assert_eq!(one, vec![3.0, -8.0, 0.0]);
    assert_eq!(two, vec![2.0, 4.0, 9.0]);
}

#[test]
fn multiply_of_nothing_is_nothing() {
    let mut one: [i64; 0] = [];
    multiply(&mut one, &[]);
    assert_eq!(one, []);
}

#[test]
fn normalize_divides_by_the_total() {
    let mut taps = [1.0f32, 2.0, 1.0];
    normalize(&mut taps, 4.0);
    assert_eq!(taps, [0.25, 0.5, 0.25]);
    let mut whole = [10, 20, 35];
    normalize(&mut whole, 5);
    assert_eq!(whole, [2, 4, 7]);
}

#[test]
fn generate_tabulates_in_order() {
    assert_eq!(generate(|i| i * i, 5), vec![0, 1, 4, 9, 16]);
    assert_eq!(generate(|i| i, 0), Vec::<usize>::new());
    // A grid over the half-open interval [-2, 2).
    let grid = generate(|i| i as f32 / 4.0 * 4.0 - 2.0, 4);
    assert_eq!(grid, vec![-2.0, -1.0, 0.0, 1.0]);
}
