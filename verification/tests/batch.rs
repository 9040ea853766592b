use flf::batch::BatchBuilder;

const BATCH_SIZE: usize = 10;

struct Item {}

fn build_accumulator_with_size(size: usize) -> BatchBuilder<Item> {
    let mut acc = BatchBuilder::new(BATCH_SIZE);

    for _ in 0..size {
        acc.push(Item {});
    }

    acc
}

fn upper_rounded_division(n1: usize, n2: usize) -> usize {
    let down_rounded_division = n1 / n2;
    if n1 % n2 > 0 {
        down_rounded_division + 1
    } else {
        down_rounded_division
    }
}

fn test_with_item_count(item_count: usize) {
    assert_eq!(
        build_accumulator_with_size(item_count).get().len(),
        upper_rounded_division(item_count, BATCH_SIZE)
    );
}

#[test]
fn test_batch_builder_output_size() {
    test_with_item_count(0);
    test_with_item_count(1);
    test_with_item_count(BATCH_SIZE * 1);
    test_with_item_count((BATCH_SIZE * 1) + 1);
    test_with_item_count((BATCH_SIZE * 1) - 1);
}

#[test]
fn test_batch_sizes_and_order() {
    let mut acc: BatchBuilder<usize> = BatchBuilder::new(3);
    for i in 0..8 {
        acc.push(i);
    }
    let batches = acc.get();
    assert_eq!(batches.len(), 3);
    assert_eq!(batches[0].items, vec![0, 1, 2]);
    assert_eq!(batches[1].items, vec![3, 4, 5]);
    assert_eq!(batches[2].items, vec![6, 7]);
}

#[test]
fn test_explicit_flush_makes_partial_batch() {
    let mut acc: BatchBuilder<u8> = BatchBuilder::new(4);
    acc.push(1);
    acc.flush_batch();
    acc.push(2);
    let batches = acc.get();
    assert_eq!(batches.len(), 2);
    assert_eq!(batches[0].items, vec![1]);
    assert_eq!(batches[1].items, vec![2]);
}
