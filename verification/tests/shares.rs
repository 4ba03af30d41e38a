use chickens::{CipherSubmission, CircuitOutput, DecryptionShareSubmission, DecryptionSharesMap};

#[test]
fn submission_keeps_what_it_is_given() {
    let shares = vec![vec![1u64, 2], vec![3, 4]];
    let submission = DecryptionShareSubmission::new(5, &shares);
    assert_eq!(submission.user_id(), 5);
    assert_eq!(submission.decryption_shares(), &shares);
}

#[test]
fn karma_submission_comes_apart() {
    let submission = CipherSubmission::new(2, vec![0u8, 2, 4, 6], "share");
    assert_eq!(submission.into_parts(), (2, (vec![0u8, 2, 4, 6], "share")));
}

#[test]
fn shares_are_sorted_by_bit() {
    let output = CircuitOutput::new(vec![true, false, true]);
    assert_eq!(output.n(), 3);
    assert_eq!(output.cell(), &vec![true, false, true]);
    let (a, b) = (vec![10u64, 11, 12], vec![20u64, 21, 22, 23]);
    assert_eq!(
        output.shares_by_bit(&vec![&a, &b]),
        Some(vec![vec![10, 20], vec![11, 21], vec![12, 22]])
    );
    assert_eq!(output.shares_by_bit(&vec![]), Some(vec![vec![], vec![], vec![]]));
    let short = vec![30u64, 31];
    assert_eq!(output.shares_by_bit(&vec![&a, &short]), None);
    assert_eq!(output.into_cell(), vec![true, false, true]);
    let empty: CircuitOutput<bool> = CircuitOutput::new(vec![]);
    assert_eq!(empty.shares_by_bit(&vec![&short]), Some(vec![]));
}

#[test]
fn share_table_knows_what_is_missing() {
    let mut table = DecryptionSharesMap::new();
    assert_eq!(table.get(0, 0), None);
    assert_eq!(table.missing(0, 3), vec![0, 1, 2]);
    assert_eq!(table.shares_for(0, 3), None);
    assert_eq!(table.shares_for(0, 0), Some(vec![]));
    table.insert(0, 1, vec![11]);
    table.insert(2, 0, vec![20]);
    assert_eq!(table.get(0, 1), Some(&vec![11]));
    assert_eq!(table.get(2, 0), Some(&vec![20]));
    assert_eq!(table.get(1, 0), None);
    assert_eq!(table.get(5, 0), None);
    assert_eq!(table.missing(0, 3), vec![0, 2]);
    assert_eq!(table.missing(1, 2), vec![0, 1]);
    assert_eq!(table.missing(2, 1), Vec::<usize>::new());
    table.insert(0, 0, vec![10]);
    table.insert(0, 2, vec![12]);
    table.insert(0, 1, vec![111]);
    assert_eq!(table.missing(0, 3), Vec::<usize>::new());
    assert_eq!(table.shares_for(0, 3), Some(vec![&vec![10], &vec![111], &vec![12]]));
    assert_eq!(table.shares_for(0, 4), None);
    assert_eq!(table.shares_for(2, 1), Some(vec![&vec![20]]));
}
