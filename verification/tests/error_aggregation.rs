use optional_field::errors::collect_errors;
use optional_field::errors::Error;

#[test]
fn all_successes_collect_to_ok() {
    let results: Vec<Result<(), Error>> = vec![Ok(()), Ok(()), Ok(())];
    assert!(collect_errors(results).is_ok());
    let empty: Vec<Result<(), Error>> = Vec::new();
    assert!(collect_errors(empty).is_ok());
}

#[test]
fn failures_are_merged_in_order() {
    let results: Vec<Result<(), Error>> = vec![
        Ok(()),
        Err(Error::new(3, "first problem".to_string())),
        Ok(()),
        Err(Error::new(9, "second problem".to_string())),
    ];
    match collect_errors(results) {
        Err(e) => {
            assert_eq!(e.notes.len(), 2);
            assert_eq!(e.notes[0].site, 3);
            assert_eq!(e.notes[0].message, "first problem");
            assert_eq!(e.notes[1].site, 9);
            assert_eq!(e.notes[1].message, "second problem");
        }
        Ok(()) => panic!("failures must surface"),
    }
}

#[test]
fn combine_appends_notes() {
    let mut a = Error::new(1, "one".to_string());
    let b = Error::new(2, "two".to_string());
    a.combine(b);
    assert_eq!(a.notes.len(), 2);
    assert_eq!(a.notes[0].site, 1);
    assert_eq!(a.notes[1].site, 2);
}
