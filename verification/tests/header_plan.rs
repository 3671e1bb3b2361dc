use light_provider::headers::header_numbers;
use light_provider::MAX_HEADERS_PER_REQUEST;

#[test]
fn plan_goes_up_to_the_best_block() {
    assert_eq!(header_numbers(5, 10, 1, 100, false), vec![5, 7, 9]);
    assert_eq!(header_numbers(5, 9, 1, 100, false), vec![5, 7, 9]);
    assert_eq!(header_numbers(5, 10, 1, 2, false), vec![5, 7]);
    assert_eq!(header_numbers(5, 4, 0, 100, false), vec![5]);
    assert_eq!(header_numbers(5, 10, 0, 0, false), Vec::<u64>::new());
}

#[test]
fn plan_goes_down_to_block_one() {
    assert_eq!(header_numbers(5, 10, 1, 100, true), vec![5, 3, 1]);
    assert_eq!(header_numbers(4, 10, 1, 100, true), vec![4, 2]);
    assert_eq!(header_numbers(0, 10, 0, 100, true), Vec::<u64>::new());
    assert_eq!(header_numbers(5, 0, 3, 100, true), vec![5, 1]);
    assert_eq!(header_numbers(u64::MAX, 0, u64::MAX, 100, true), vec![u64::MAX]);
}

#[test]
fn plan_is_limited() {
    assert_eq!(MAX_HEADERS_PER_REQUEST, 512);
    let plan = header_numbers(1000, 1_000_000, 4, u64::MAX, false);
    assert_eq!(plan.len(), 512);
    assert_eq!(plan[511], 1000 + 511 * 5);
}

#[test]
fn plan_does_not_overflow() {
    assert_eq!(header_numbers(7, u64::MAX, u64::MAX, 4, false), vec![7]);
    assert_eq!(header_numbers(1, u64::MAX, u64::MAX - 2, 4, false), vec![1, u64::MAX]);
    assert_eq!(header_numbers(0, u64::MAX, u64::MAX, 4, false), vec![0, u64::MAX, u64::MAX, u64::MAX]);
    assert_eq!(header_numbers(u64::MAX - 1, u64::MAX, 0, 4, false), vec![u64::MAX - 1, u64::MAX]);
}
