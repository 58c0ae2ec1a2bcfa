use linear_system_circuit::report::{
    columns_line, decimal_string, max_advice_rows_line, max_fixed_rows_line, total_cells_line,
};
use linear_system_circuit::usage::{fixed_rows, max_rows, total_cells};

#[test]
fn total_cells_adds_the_columns_up() {
    assert_eq!(total_cells(&vec![3, 0, 12, 7]), Some(22));
    assert_eq!(total_cells(&vec![0]), Some(0));
    assert_eq!(total_cells(&vec![]), Some(0));
}

#[test]
fn total_cells_at_the_limit() {
    assert_eq!(total_cells(&vec![usize::MAX - 1, 1]), Some(usize::MAX));
    assert_eq!(total_cells(&vec![usize::MAX, 0, 0]), Some(usize::MAX));
}

#[test]
fn total_cells_that_do_not_fit() {
    assert_eq!(total_cells(&vec![usize::MAX, 1]), None);
    assert_eq!(total_cells(&vec![1, usize::MAX, 5]), None);
    assert_eq!(total_cells(&vec![usize::MAX, usize::MAX]), None);
}

#[test]
fn max_rows_is_the_fullest_column() {
    assert_eq!(max_rows(&vec![3, 0, 12, 7]), Some(12));
    assert_eq!(max_rows(&vec![12, 3]), Some(12));
    assert_eq!(max_rows(&vec![3, 12]), Some(12));
    assert_eq!(max_rows(&vec![5, 5, 5]), Some(5));
    assert_eq!(max_rows(&vec![0]), Some(0));
    assert_eq!(max_rows(&vec![usize::MAX, 1]), Some(usize::MAX));
}

#[test]
fn max_rows_is_within_the_total() {
    for rows in [vec![3usize, 0, 12, 7], vec![0], vec![9, 9], vec![usize::MAX]] {
        assert!(max_rows(&rows).unwrap() <= total_cells(&rows).unwrap());
    }
}

#[test]
fn max_rows_without_columns() {
    assert_eq!(max_rows(&vec![]), None);
}

#[test]
fn fixed_rows_rounds_up() {
    assert_eq!(fixed_rows(0, 1), Some(0));
    assert_eq!(fixed_rows(0, 4), Some(0));
    assert_eq!(fixed_rows(1, 1), Some(1));
    assert_eq!(fixed_rows(5, 1), Some(5));
    assert_eq!(fixed_rows(6, 3), Some(2));
    assert_eq!(fixed_rows(7, 3), Some(3));
    assert_eq!(fixed_rows(1, 3), Some(1));
    assert_eq!(fixed_rows(usize::MAX, 1), Some(usize::MAX));
    assert_eq!(fixed_rows(usize::MAX, usize::MAX), Some(1));
}

#[test]
fn fixed_rows_without_columns() {
    assert_eq!(fixed_rows(0, 0), Some(0));
    assert_eq!(fixed_rows(1, 0), None);
    assert_eq!(fixed_rows(usize::MAX, 0), None);
}

#[test]
fn fixed_rows_is_the_least_that_is_enough() {
    for columns in 1..6usize {
        for cells in 0..40usize {
            let rows = fixed_rows(cells, columns).unwrap();
            assert!(rows * columns >= cells);
            assert!(rows == 0 || (rows - 1) * columns < cells);
        }
    }
}

#[test]
fn decimal_of_small_numbers() {
    assert_eq!(decimal_string(0), "0");
    assert_eq!(decimal_string(7), "7");
    assert_eq!(decimal_string(9), "9");
    assert_eq!(decimal_string(10), "10");
    assert_eq!(decimal_string(407), "407");
    assert_eq!(decimal_string(1000), "1000");
    assert_eq!(decimal_string(1234567890), "1234567890");
}

#[test]
fn decimal_agrees_with_the_standard_formatting() {
    for n in 0..2000usize {
        assert_eq!(decimal_string(n), n.to_string());
    }
    let mut n: usize = 1;
    for _ in 0..usize::BITS {
        assert_eq!(decimal_string(n), n.to_string());
        assert_eq!(decimal_string(n - 1), (n - 1).to_string());
        n = n.wrapping_mul(2);
    }
    assert_eq!(decimal_string(usize::MAX), usize::MAX.to_string());
}

#[test]
fn decimal_reads_back_as_the_number() {
    for n in [0usize, 1, 9, 10, 99, 100, 101, 65535, 65536, usize::MAX - 1, usize::MAX] {
        let text = decimal_string(n);
        assert!(text.chars().all(|c| c.is_ascii_digit()));
        assert!(n == 0 || !text.starts_with('0'));
        assert_eq!(text.parse::<usize>(), Ok(n));
    }
}

#[test]
fn columns_line_names_one_advice_and_one_fixed_column() {
    assert_eq!(columns_line(), "Using 1 advice columns and 1 fixed columns");
}

#[test]
fn total_cells_line_text() {
    assert_eq!(total_cells_line(0), "total cells: 0");
    assert_eq!(total_cells_line(22), "total cells: 22");
}

#[test]
fn max_advice_rows_line_text() {
    assert_eq!(max_advice_rows_line(0), "maximum rows used by an advice column: 0");
    assert_eq!(max_advice_rows_line(1024), "maximum rows used by an advice column: 1024");
}

#[test]
fn max_fixed_rows_line_text() {
    assert_eq!(max_fixed_rows_line(0), "maximum rows used by a fixed column: 0");
    assert_eq!(max_fixed_rows_line(31), "maximum rows used by a fixed column: 31");
}

#[test]
fn report_of_a_circuit_without_cells() {
    let advice_rows = vec![0usize];
    let lines = vec![
        columns_line(),
        total_cells_line(total_cells(&advice_rows).unwrap()),
        max_advice_rows_line(max_rows(&advice_rows).unwrap()),
        max_fixed_rows_line(fixed_rows(0, 1).unwrap()),
    ];
    assert_eq!(
        lines,
        vec![
            "Using 1 advice columns and 1 fixed columns",
            "total cells: 0",
            "maximum rows used by an advice column: 0",
            "maximum rows used by a fixed column: 0",
        ]
    );
}
