use optional_field::field::Field;
use optional_field::field::Field::Missing;
use optional_field::field::Field::Present;

#[test]
fn bools() {
    assert!(Present(Some(1)).is_present());
    assert!(!Present(Some(1)).is_missing());
    assert!(Present::<u8>(None).is_present());
    assert!(!Present::<u8>(None).is_missing());
    assert!(Missing::<u8>.is_missing());
    assert!(!Missing::<u8>.is_present());

    assert!(Present(Some(1)).has_value());
    assert!(!Present::<u8>(None).has_value());
    assert!(!Missing::<u8>.has_value());
}

#[test]
fn contains() {
    assert!(Present(Some(1)).contains(&1));
    assert!(!Present(Some(1)).contains(&2));
    assert!(!Present::<u8>(None).contains(&1));
    assert!(!Missing::<u8>.contains(&1));
}

#[test]
fn map_value_with_val() {
    Present(Some(1)).map(|x| assert_eq!(1, x)).unwrap();
}

#[test]
#[should_panic]
fn map_value_with_missing() {
    Missing::<u8>.map(|_| assert_eq!(1, 2)).unwrap();
}

#[test]
fn unwrap_or_default() {
    assert_eq!(Present(Some(1)).unwrap_present_or_default(), Some(1));
    assert_eq!(Present::<u8>(None).unwrap_present_or_default(), None);
    assert_eq!(Missing::<u8>.unwrap_present_or_default(), None);
}

#[test]
fn unwrap_value_or_default() {
    assert_eq!(Present(Some(1)).unwrap_or_default(), 1);
    assert_eq!(Present::<u8>(None).unwrap_or_default(), 0);
    assert_eq!(Missing::<u8>.unwrap_or_default(), 0);
}

#[test]
fn as_ref_preserves_state() {
    let text: Field<String> = Present(Some(String::from("Hello, world!")));
    let len: Field<usize> = text.as_ref().map(|s| s.len());
    assert_eq!(len, Present(Some(13)));
    assert_eq!(text, Present(Some(String::from("Hello, world!"))));
    assert_eq!(Present::<String>(None).as_ref(), Present(None));
    assert_eq!(Missing::<String>.as_ref(), Missing);
}

#[test]
fn map_and_map_present() {
    let v = Present(Some(String::from("Hello, World!")));
    assert_eq!(v.map(|s| s.len()), Present(Some(13)));
    assert_eq!(Present::<u8>(None).map(|x| x + 1), Present(None));
    assert_eq!(Missing::<u8>.map(|x| x + 1), Missing);
    let w = Present(Some(String::from("x")));
    assert_eq!(w.map_present(|_| None::<usize>), Present(None));
    assert_eq!(Missing::<u8>.map_present(|o| o.map(|x| x + 1)), Missing);
}

#[test]
fn map_with_defaults() {
    assert_eq!(Present(Some("foo")).map_or(42, |v| v.len()), 3);
    assert_eq!(Missing::<&str>.map_or(42, |v| v.len()), 42);
    assert_eq!(Present::<&str>(None).map_or(42, |v| v.len()), 42);
    let k = 21;
    assert_eq!(Present(Some("foo")).map_or_else(|| 2 * k, |v| v.len()), 3);
    assert_eq!(Missing::<&str>.map_or_else(|| 2 * k, |v| v.len()), 42);
    assert_eq!(Present(Some(2u8)).map_present_or(Some(9), |o| o.map(|x| x + 1)), Some(3));
    assert_eq!(Missing::<u8>.map_present_or(Some(9), |o| o), Some(9));
    assert_eq!(Present(Some(2u8)).map_present_or_else(|| Some(9), |o| o), Some(2));
    assert_eq!(Missing::<u8>.map_present_or_else(|| Some(9), |o| o), Some(9));
}

#[test]
fn unwrap_family() {
    assert_eq!(Present(Some("air")).unwrap(), "air");
    assert_eq!(Present(Some("air")).unwrap_present(), Some("air"));
    assert_eq!(Present::<&str>(None).unwrap_present(), None);
    assert_eq!(Present(Some("air")).unwrap_present_ref(), &Some("air"));
    assert_eq!(Present(Some("car")).unwrap_or("bike"), "car");
    assert_eq!(Present::<&str>(None).unwrap_or("bike"), "bike");
    assert_eq!(Missing.unwrap_or("bike"), "bike");
    assert_eq!(Present(Some("car")).unwrap_present_or(Some("bike")), Some("car"));
    assert_eq!(Present::<&str>(None).unwrap_present_or(Some("bike")), None);
    assert_eq!(Missing.unwrap_present_or(Some("bike")), Some("bike"));
    let k = 10;
    assert_eq!(Present(Some(4)).unwrap_or_else(|| 2 * k), 4);
    assert_eq!(Present(None).unwrap_or_else(|| 2 * k), 20);
    assert_eq!(Missing.unwrap_or_else(|| 2 * k), 20);
    assert_eq!(Present(Some(4)).unwrap_present_or_else(|| Some(10)), Some(4));
    assert_eq!(Present::<u8>(None).unwrap_present_or_else(|| Some(20)), None);
    assert_eq!(Missing.unwrap_present_or_else(|| Some(30)), Some(30));
}

#[test]
fn expect_family() {
    assert_eq!(Present(Some("value")).expect("fruits are healthy"), "value");
    assert_eq!(Present::<&str>(None).expect_present("is present"), None);
    assert_eq!(Present(Some("v")).expect_present("is present"), Some("v"));
}

#[test]
fn ok_or_family() {
    assert_eq!(Present(Some(2u8)).ok_or("nope"), Ok(2));
    assert_eq!(Present::<u8>(None).ok_or("nope"), Err("nope"));
    assert_eq!(Missing::<u8>.ok_or("nope"), Err("nope"));
    assert_eq!(Present(Some(2u8)).ok_present_or("nope"), Ok(Some(2)));
    assert_eq!(Present::<u8>(None).ok_present_or("nope"), Ok(None));
    assert_eq!(Missing::<u8>.ok_present_or("nope"), Err("nope"));
    assert_eq!(Present(Some(2u8)).ok_or_else(|| "nope"), Ok(2));
    assert_eq!(Missing::<u8>.ok_or_else(|| "nope"), Err("nope"));
    assert_eq!(Present::<u8>(None).ok_present_or_else(|| "nope"), Ok(None));
    assert_eq!(Missing::<u8>.ok_present_or_else(|| "nope"), Err("nope"));
}

#[test]
fn and_family() {
    assert_eq!(Present(Some(2)).and(Present::<&str>(None)), Present(None));
    assert_eq!(Present::<u32>(None).and(Present(Some("foo"))), Present(None));
    assert_eq!(Present(Some(2)).and(Present(Some("foo"))), Present(Some("foo")));
    assert_eq!(Missing::<u32>.and(Present(Some("foo"))), Missing);
    assert_eq!(Present::<u32>(None).and_present(Present(Some("foo"))), Present(Some("foo")));
    assert_eq!(Missing::<u32>.and_present(Present(Some("foo"))), Missing);
    let x: Field<&str> = Present(Some("foo"));
    assert_eq!(x.clone().and_then(|_s| Present(Some(1))), Present(Some(1)));
    assert_eq!(x.clone().and_then(|_s| Missing::<u8>), Missing::<u8>);
    assert_eq!(x.and_then(|_s| Present::<u8>(None)), Present::<u8>(None));
    assert_eq!(Present::<u8>(None).and_then(|_| Present(Some(1u8))), Present(None));
    assert_eq!(Missing::<u8>.and_then_present(|_| Present(Some(1u8))), Missing);
    assert_eq!(Present::<u8>(None).and_then_present(|o| Present(o.map(|x| x + 1))), Present(None));
}

#[test]
fn get_or_insert_family() {
    let mut x: Field<u32> = Missing;
    x.get_or_insert(5);
    assert_eq!(x, Present(Some(5)));
    let mut y: Field<u32> = Present(Some(3));
    y.get_or_insert(5);
    assert_eq!(y, Present(Some(3)));
    let mut z: Field<u32> = Present(None);
    z.get_or_insert(5);
    assert_eq!(z, Present(Some(5)));

    let mut a: Field<u32> = Missing;
    a.get_or_insert_present(Some(5));
    assert_eq!(a, Present(Some(5)));
    let mut b: Field<u32> = Present(None);
    b.get_or_insert_present(Some(5));
    assert_eq!(b, Present(None));

    let mut c: Field<u32> = Missing;
    c.get_or_insert_with(|| 5);
    assert_eq!(c, Present(Some(5)));
    let mut d: Field<u32> = Present(Some(1));
    d.get_or_insert_with(|| 5);
    assert_eq!(d, Present(Some(1)));

    let mut e: Field<u32> = Missing;
    e.get_or_insert_with_present(|| Some(7));
    assert_eq!(e, Present(Some(7)));
    let mut g: Field<u32> = Present(None);
    g.get_or_insert_with_present(|| Some(7));
    assert_eq!(g, Present(None));
}

#[test]
fn copied_and_cloned() {
    let x = 12;
    let f: Field<&u32> = Present(Some(&x));
    assert_eq!(f.copied(), Present(Some(12)));
    let f: Field<&u32> = Present(None);
    assert_eq!(f.copied(), Present(None));
    let f: Field<&u32> = Missing;
    assert_eq!(f.copied(), Missing);
    let s = String::from("hey");
    let f: Field<&String> = Present(Some(&s));
    assert_eq!(f.cloned(), Present(Some(String::from("hey"))));
}

#[test]
fn as_deref_borrows_target() {
    let x: Field<String> = Present(Some(String::from("hey")));
    assert_eq!(x.as_deref(), Present(Some("hey")));
    let y: Field<String> = Present(None);
    assert_eq!(y.as_deref(), Present(None));
    let z: Field<String> = Missing;
    assert_eq!(z.as_deref(), Missing);
}

#[test]
fn conversions() {
    assert_eq!(Field::<u8>::from(3u8), Present(Some(3)));
    assert_eq!(Field::<u8>::from(Some(3u8)), Present(Some(3)));
    assert_eq!(Field::<u8>::from(None::<u8>), Present(None));
    assert_eq!(Field::<u8>::from(Some(Some(3u8))), Present(Some(3)));
    assert_eq!(Field::<u8>::from(Some(None::<u8>)), Present(None));
    assert_eq!(Field::<u8>::from(None::<Option<u8>>), Missing);
    assert_eq!(Field::<u8>::default(), Missing);
}

#[test]
fn equality_is_structural() {
    assert_eq!(Missing::<u8>, Missing::<u8>);
    assert_eq!(Present::<u8>(None), Present::<u8>(None));
    assert_eq!(Present(Some(1u8)), Present(Some(1u8)));
    assert_ne!(Missing::<u8>, Present::<u8>(None));
    assert_ne!(Present::<u8>(None), Present(Some(1u8)));
    assert_ne!(Present(Some(1u8)), Present(Some(2u8)));
    assert_ne!(Missing::<u8>, Present(Some(1u8)));
}

#[test]
fn delta_reports_only_new_values() {
    let b: Field<u8> = Present(Some(1));
    let c: Field<u8> = Present(Some(1));
    assert_eq!(b.delta(&c), Missing);
    let c2: Field<u8> = Present(Some(2));
    assert_eq!(b.delta(&c2), Present(Some(2)));
    assert_eq!(b.delta(&Missing), Missing);
    assert_eq!(Missing.delta(&Present(Some(5u8))), Present(Some(5)));
    assert_eq!(b.delta(&Present(None)), Missing);
}
