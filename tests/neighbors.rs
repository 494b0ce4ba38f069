use control_panel::guide::{next_guide, previous_guide, Guide};

fn guide(slug: &str) -> Guide {
    Guide::new(
        slug.to_string(),
        format!("{} title", slug),
        format!("https://example.com/edit/{}.md", slug),
    )
}

fn abc() -> Vec<Guide> {
    vec![guide("a"), guide("b"), guide("c")]
}

#[test]
fn middle_guide_has_both_neighbors() {
    let guides = abc();
    let selected = guide("b");
    assert!(previous_guide(&selected, &guides) == Some(&guides[0]));
    assert!(next_guide(&selected, &guides) == Some(&guides[2]));
}

#[test]
fn first_guide_has_only_next() {
    let guides = abc();
    let selected = guide("a");
    assert!(previous_guide(&selected, &guides).is_none());
    assert!(next_guide(&selected, &guides) == Some(&guides[1]));
}

#[test]
fn last_guide_has_only_previous() {
    let guides = abc();
    let selected = guide("c");
    assert!(previous_guide(&selected, &guides) == Some(&guides[1]));
    assert!(next_guide(&selected, &guides).is_none());
}

#[test]
fn single_guide_has_no_neighbors() {
    let guides = vec![guide("a")];
    let selected = guide("a");
    assert!(previous_guide(&selected, &guides).is_none());
    assert!(next_guide(&selected, &guides).is_none());
}

#[test]
fn unlisted_guide_has_no_neighbors() {
    let guides = abc();
    let selected = guide("z");
    assert!(previous_guide(&selected, &guides).is_none());
    assert!(next_guide(&selected, &guides).is_none());
}

#[test]
fn guide_differing_in_one_field_is_not_found() {
    let guides = abc();
    let selected = Guide::new(
        "b".to_string(),
        "another title".to_string(),
        "https://example.com/edit/b.md".to_string(),
    );
    assert!(previous_guide(&selected, &guides).is_none());
    assert!(next_guide(&selected, &guides).is_none());
}

#[test]
fn empty_list_has_no_neighbors() {
    let guides: Vec<Guide> = Vec::new();
    let selected = guide("a");
    assert!(previous_guide(&selected, &guides).is_none());
    assert!(next_guide(&selected, &guides).is_none());
}

#[test]
fn every_listed_guide_neighbors_by_index() {
    let guides: Vec<Guide> = (0..6).map(|i| guide(&format!("g{}", i))).collect();
    for i in 0..guides.len() {
        let previous = previous_guide(&guides[i], &guides);
        let next = next_guide(&guides[i], &guides);
        if i == 0 {
            assert!(previous.is_none());
        } else {
            assert!(previous == Some(&guides[i - 1]));
        }
        if i + 1 == guides.len() {
            assert!(next.is_none());
        } else {
            assert!(next == Some(&guides[i + 1]));
        }
    }
}

#[test]
fn neighbor_is_a_reference_into_the_list() {
    let guides = abc();
    let selected = guide("b");
    let previous = previous_guide(&selected, &guides).unwrap();
    assert!(std::ptr::eq(previous, &guides[0]));
    assert_eq!(previous.slug, "a");
}
