use skim_pick::{Candidate, Candidates};

fn sel(first: usize) -> Vec<Option<usize>> {
    vec![Some(first)]
}

#[test]
fn candidate_take_once() {
    let mut c = Candidate::new(String::from("x"));
    assert!(c.is_present());
    assert_eq!(c.take(), Some(String::from("x")));
    assert!(!c.is_present());
    assert_eq!(c.take(), None);
}

#[test]
fn candidate_text_before_and_after_take() {
    let mut c = Candidate::new(42u32);
    assert_eq!(c.text(), "42");
    assert_eq!(c.take(), Some(42));
    assert_eq!(c.text(), "");
}

#[test]
fn taken_cell_renders_empty_for_any_type() {
    let mut c = Candidate::new(vec![1u8, 2]);
    let _ = c.take();
    let mut d = Candidate::new('q');
    assert_eq!(d.text(), "q");
    let _ = d.take();
    assert_eq!(d.text(), "");
    assert!(!c.is_present());
}

#[test]
fn from_values_keeps_order() {
    let mut pool = Candidates::from_values(vec!["a", "b", "c"]);
    assert_eq!(pool.len(), 3);
    assert!(!pool.is_empty());
    assert_eq!(pool.text(0), "a");
    assert_eq!(pool.text(2), "c");
    assert_eq!(pool.extract(2), Some("c"));
    assert_eq!(pool.extract(0), Some("a"));
    assert_eq!(pool.extract(1), Some("b"));
}

#[test]
fn strings_select_b() {
    let mut pool = Candidates::from_values(vec!["a", "b", "c"]);
    assert_eq!(pool.take_selection(&sel(1)), Some("b"));
}

#[test]
fn integers_select_two() {
    let mut pool = Candidates::from_values(vec![1, 2, 3]);
    assert_eq!(pool.take_selection(&sel(1)), Some(2));
}

#[test]
fn empty_input_selects_nothing() {
    let mut pool: Candidates<&str> = Candidates::from_values(Vec::new());
    assert!(pool.is_empty());
    assert_eq!(pool.take_selection(&sel(0)), None);
    assert_eq!(pool.take_selection(&Vec::new()), None);
}

#[test]
fn cancelled_session_selects_nothing() {
    let mut pool = Candidates::from_values(vec!["x"]);
    assert_eq!(pool.take_selection(&Vec::new()), None);
    assert_eq!(pool.text(0), "x");
    assert_eq!(pool.extract(0), Some("x"));
}

#[test]
fn second_extraction_yields_nothing() {
    let mut pool = Candidates::from_values(vec![String::from("p"), String::from("q")]);
    assert_eq!(pool.take_selection(&sel(0)), Some(String::from("p")));
    assert_eq!(pool.take_selection(&sel(0)), None);
    assert_eq!(pool.extract(0), None);
    assert_eq!(pool.text(0), "");
    assert_eq!(pool.text(1), "q");
}

#[test]
fn foreign_first_handle_selects_nothing() {
    let mut pool = Candidates::from_values(vec![7, 8]);
    assert_eq!(pool.take_selection(&vec![None, Some(1)]), None);
    assert_eq!(pool.extract(1), Some(8));
}

#[test]
fn only_first_selected_counts() {
    let mut pool = Candidates::from_values(vec![7, 8, 9]);
    assert_eq!(pool.take_selection(&vec![Some(2), Some(0)]), Some(9));
    assert_eq!(pool.extract(0), Some(7));
}

#[test]
fn out_of_range_selects_nothing() {
    let mut pool = Candidates::from_values(vec![7, 8]);
    assert_eq!(pool.take_selection(&sel(2)), None);
    assert_eq!(pool.extract(usize::MAX), None);
    assert_eq!(pool.extract(1), Some(8));
}

#[test]
fn selected_value_is_the_original_not_a_copy() {
    let mut first = Vec::with_capacity(16);
    first.push(1u8);
    first.push(2);
    let addr = first.as_ptr();
    let mut pool = Candidates::from_values(vec![first, vec![9u8]]);
    let got = pool.take_selection(&sel(0)).unwrap();
    assert_eq!(got, vec![1u8, 2]);
    assert_eq!(got.as_ptr(), addr);
    assert_eq!(got.capacity(), 16);
}
