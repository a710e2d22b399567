use lance_gateway::merge::merge_ranked;
use lance_gateway::paging::{look_ahead_limit, next_page_offset, page_window, paginate_rows, saturating_add};

/// What an engine returns for a table of `n` rows under a limit and offset.
fn engine_page(n: usize, limit: usize, offset: usize) -> Vec<usize> {
    (0..n).skip(offset).take(limit).collect()
}

#[test]
fn page_of_five_rows_first_page() {
    let fetched = engine_page(5, look_ahead_limit(2), 0);
    let (rows, next) = paginate_rows(fetched, 2, 0);
    assert_eq!(rows, vec![0, 1]);
    assert_eq!(next, Some(2));
}

#[test]
fn page_of_five_rows_last_page() {
    let fetched = engine_page(5, look_ahead_limit(2), 4);
    let (rows, next) = paginate_rows(fetched, 2, 4);
    assert_eq!(rows, vec![4]);
    assert_eq!(next, None);
}

#[test]
fn page_exactly_filled_has_no_next() {
    let fetched = engine_page(4, look_ahead_limit(2), 2);
    let (rows, next) = paginate_rows(fetched, 2, 2);
    assert_eq!(rows, vec![2, 3]);
    assert_eq!(next, None);
}

#[test]
fn zero_limit_yields_no_rows() {
    let fetched = engine_page(5, look_ahead_limit(0), 0);
    assert_eq!(fetched.len(), 1);
    let (rows, next) = paginate_rows(fetched, 0, 0);
    assert!(rows.is_empty());
    assert_eq!(next, Some(0));
}

#[test]
fn offset_past_end_yields_nothing() {
    let fetched = engine_page(3, look_ahead_limit(2), 7);
    let (rows, next) = paginate_rows(fetched, 2, 7);
    assert!(rows.is_empty());
    assert_eq!(next, None);
}

#[test]
fn look_ahead_saturates() {
    assert_eq!(look_ahead_limit(9), 10);
    assert_eq!(look_ahead_limit(usize::MAX), usize::MAX);
    assert_eq!(saturating_add(usize::MAX - 1, 5), usize::MAX);
    assert_eq!(next_page_offset(3, 2, usize::MAX), Some(usize::MAX));
    assert_eq!(next_page_offset(2, 2, 10), None);
}

#[test]
fn window_skips_and_takes() {
    let (rows, next) = page_window(vec![1, 2, 3, 4, 5], 2, 1);
    assert_eq!(rows, vec![2, 3]);
    assert_eq!(next, Some(3));
    let (rows, next) = page_window(vec![1, 2, 3], 2, 1);
    assert_eq!(rows, vec![2, 3]);
    assert_eq!(next, None);
    let (rows, next) = page_window(vec![1, 2, 3], 2, 5);
    assert!(rows.is_empty());
    assert_eq!(next, None);
}

fn keys(v: &[&str]) -> Vec<String> {
    v.iter().map(|s| s.to_string()).collect()
}

#[test]
fn merge_keeps_vector_rank_and_drops_repeats() {
    let merged = merge_ranked(
        vec!["a", "b", "c"],
        &keys(&["a", "b", "c"]),
        vec!["b", "d", "a", "e"],
        &keys(&["b", "d", "a", "e"]),
    );
    assert_eq!(merged, vec!["a", "b", "c", "d", "e"]);
}

#[test]
fn merge_drops_repeats_within_one_list() {
    let merged = merge_ranked(vec![1, 2, 3], &keys(&["x", "x", "y"]), vec![4], &keys(&["y"]));
    assert_eq!(merged, vec![1, 3]);
}

#[test]
fn merge_of_text_only() {
    let merged = merge_ranked(Vec::<u8>::new(), &Vec::new(), vec![7, 8], &keys(&["p", "q"]));
    assert_eq!(merged, vec![7, 8]);
}
