use solana_bench_tps_rate::pairing::PairCursor;

#[test]
fn pairs_of_three_sources_and_four_destinations() {
    let mut cursor = PairCursor::start();
    let pairs = cursor.next_pairs(3, 4, 7);
    assert_eq!(
        pairs,
        vec![(0, 0), (1, 1), (2, 2), (0, 1), (1, 2), (2, 3), (0, 2)]
    );
    assert_eq!(cursor.source_index, 1);
    assert_eq!(cursor.dest_offset, 2);
}

#[test]
fn single_pairs_match_a_batch() {
    let mut one = PairCursor::start();
    let mut many = PairCursor::start();
    let singles: Vec<(usize, usize)> = (0..50).map(|_| one.next_pair(4, 5)).collect();
    assert_eq!(many.next_pairs(4, 5, 50), singles);
    assert_eq!(one.source_index, many.source_index);
    assert_eq!(one.dest_offset, many.dest_offset);
}

#[test]
fn cycle_visits_every_pair_and_starts_over() {
    let mut cursor = PairCursor::start();
    let mut pairs = cursor.next_pairs(4, 5, 20);
    assert_eq!((cursor.source_index, cursor.dest_offset), (0, 0));
    pairs.sort();
    let all: Vec<(usize, usize)> = (0..4).flat_map(|s| (0..5).map(move |d| (s, d))).collect();
    assert_eq!(pairs, all);
}

#[test]
fn one_source_and_one_destination_repeat() {
    let mut cursor = PairCursor::start();
    assert_eq!(cursor.next_pairs(1, 1, 3), vec![(0, 0), (0, 0), (0, 0)]);
}

#[test]
fn short_batches_share_nothing() {
    for (num_sources, num_dests) in [(2, 2), (3, 3), (3, 4), (5, 6)] {
        let mut cursor = PairCursor::start();
        for _ in 0..num_sources * num_dests {
            let mut ahead = cursor;
            let pairs = ahead.next_pairs(num_sources, num_dests, num_sources - 1);
            for i in 0..pairs.len() {
                for j in 0..i {
                    assert_ne!(pairs[i].0, pairs[j].0);
                    assert_ne!(pairs[i].1, pairs[j].1);
                }
            }
            cursor.next_pair(num_sources, num_dests);
        }
    }
}

#[test]
fn rounds_of_two_sources_meet_at_a_destination() {
    let mut cursor = PairCursor::start();
    let pairs = cursor.next_pairs(2, 2, 4);
    assert_eq!(pairs, vec![(0, 0), (1, 1), (0, 1), (1, 0)]);
    let mut cursor = PairCursor::start();
    let pairs = cursor.next_pairs(3, 3, 9);
    for step in pairs.windows(2) {
        assert_ne!(step[0].0, step[1].0);
        assert_ne!(step[0].1, step[1].1);
    }
}
