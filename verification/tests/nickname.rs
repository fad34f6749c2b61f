use vegar::nickname::{nickname_candidates, random, Gender};

#[test]
fn it_works() {
    assert!(random::<1>(Gender::Female).is_ok());
    assert!(random::<2>(Gender::Female).is_ok());
    assert!(random::<3>(Gender::Female).is_ok());
    assert!(random::<4>(Gender::Female).is_ok());
    assert!(random::<1>(Gender::Male).is_ok());
    assert!(random::<2>(Gender::Male).is_ok());
    assert!(random::<3>(Gender::Male).is_ok());
    assert!(random::<4>(Gender::Male).is_ok());
}

#[test]
fn random_name_has_requested_length() {
    for _ in 0..20 {
        let name = random::<3>(Gender::Female).unwrap();
        assert_eq!(name.chars().count(), 3);
        assert!(nickname_candidates(Gender::Female, 3).contains(&name));
    }
}

#[test]
fn random_name_any_length() {
    let name = random::<0>(Gender::Intersex).unwrap();
    assert!(nickname_candidates(Gender::Intersex, 0).contains(&name));
}

#[test]
fn no_name_of_missing_length() {
    let err = random::<9>(Gender::Male).unwrap_err();
    assert_eq!(err.to_string(), "No result for Male: len 9");
    let err = random::<12>(Gender::Intersex).unwrap_err();
    assert_eq!(err.to_string(), "No result for Intersex: len 12");
}

#[test]
fn candidates_by_gender_and_length() {
    assert_eq!(nickname_candidates(Gender::Male, 2), vec!["子轩", "浩然", "宇航"]);
    assert_eq!(nickname_candidates(Gender::Female, 1), vec!["婉", "月", "瑶"]);
    assert_eq!(nickname_candidates(Gender::Intersex, 1).len(), 6);
    assert_eq!(nickname_candidates(Gender::Male, 0).len(), 12);
    assert_eq!(nickname_candidates(Gender::Intersex, 0).len(), 24);
    assert!(nickname_candidates(Gender::Female, 5).is_empty());
}
