use unsafe_analysis::select::select_top;

#[test]
fn keeps_the_most_downloaded_in_order() {
    let d: Vec<u64> = vec![10, 50, 20, 40, 30];
    assert_eq!(select_top(&d, 3), vec![1, 3, 4]);
}

#[test]
fn fewer_crates_than_asked() {
    let d: Vec<u64> = vec![5, 9];
    assert_eq!(select_top(&d, 10), vec![1, 0]);
}

#[test]
fn ties_keep_the_first_read() {
    let d: Vec<u64> = vec![7, 7, 7];
    let r = select_top(&d, 2);
    assert_eq!(r.len(), 2);
    assert_eq!(r, vec![0, 1]);
}

#[test]
fn no_crates() {
    let d: Vec<u64> = Vec::new();
    assert!(select_top(&d, 4).is_empty());
}

#[test]
fn top_zero_still_keeps_one_downloaded_crate() {
    let d: Vec<u64> = vec![0, 3, 8, 1];
    assert_eq!(select_top(&d, 0), vec![2]);
    let none: Vec<u64> = vec![0, 0];
    assert!(select_top(&none, 0).is_empty());
}
