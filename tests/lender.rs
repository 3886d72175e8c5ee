use retentive_lender::Lender;

#[test]
fn borrow_twice() -> Result<(), String> {
    let d = Lender::new(1);

    let b1 = d.borrow("b1")?;
    let b2 = d.borrow("b2")?;

    assert_eq!(*b1, 1);
    assert_eq!(*b2, 1);

    Ok(())
}

#[test]
fn borrow_once_borrow_mut_once() -> Result<(), String> {
    let d = Lender::new(1);

    let _b1 = d.borrow("b1")?;
    let b2 = d.borrow_mut("b2");

    assert!(b2.is_err());
    if let Err(b) = b2 {
        assert!(b.contains("Currently borrowed by: [\"b1\"]"));
    }

    Ok(())
}

#[test]
fn borrow_twice_borrow_mut_once() -> Result<(), String> {
    let d = Lender::new(1);

    let _b1 = d.borrow("b1")?;
    let _b2 = d.borrow("b2")?;
    let b3 = d.borrow_mut("b3");

    assert!(b3.is_err());
    if let Err(b) = b3 {
        assert!(b.contains("Currently borrowed by: [\"b1\", \"b2\"]"));
    }

    Ok(())
}

#[test]
fn borrow_mut_once_borrow_once() -> Result<(), String> {
    let d = Lender::new(1);

    let _b1 = d.borrow_mut("b1")?;
    let b2 = d.borrow("b2");

    assert!(b2.is_err());
    if let Err(b) = b2 {
        assert!(b.contains("Currently borrowed by: [\"b1\"]"));
    }

    Ok(())
}

#[test]
fn borrow_mut_twice() -> Result<(), String> {
    let d = Lender::new(1);

    let _b1 = d.borrow_mut("b1")?;
    let b2 = d.borrow_mut("b2");

    assert!(b2.is_err());
    if let Err(b) = b2 {
        assert!(b.contains("Currently borrowed by: [\"b1\"]"));
    }

    Ok(())
}

#[test]
fn clone_and_borrow_mut() -> Result<(), String> {
    let d = Lender::new(1);
    let _b1 = d.borrow_mut("b1")?;

    let _d2 = d.clone();
    let b2 = d.borrow_mut("b2");

    assert!(b2.is_err());
    if let Err(b) = b2 {
        assert!(b.contains("Currently borrowed by: [\"b1\"]"));
    }

    Ok(())
}

#[test]
fn refusals_carry_the_whole_message() {
    let d = Lender::new(1);
    let b1 = d.borrow("b1").unwrap();
    let b2 = d.borrow("b2").unwrap();
    let err = d.borrow_mut("b3").err().unwrap();
    assert_eq!(
        err,
        "Failed to borrow mutable reference. Currently borrowed by: [\"b1\", \"b2\"]"
    );
    b1.release();
    b2.release();

    let w = d.borrow_mut("w").unwrap();
    let err = d.borrow("r").err().unwrap();
    assert_eq!(
        err,
        "Failed to borrow immutable reference. Currently borrowed by: [\"w\"]"
    );
    w.release();
}

#[test]
fn clone_refuses_through_the_clone() {
    let d = Lender::new(1);
    let _b1 = d.borrow_mut("b1").unwrap();
    let d2 = d.clone();
    let err = d2.borrow_mut("b2").err().unwrap();
    assert!(err.contains("Currently borrowed by: [\"b1\"]"));
    let err = d2.borrow("b3").err().unwrap();
    assert!(err.contains("Currently borrowed by: [\"b1\"]"));
}

#[test]
fn clone_sees_the_guards_of_the_original_and_back() {
    let d = Lender::new(5);
    let d2 = d.clone();
    let g = d2.borrow("reader").unwrap();
    assert_eq!(*g, 5);
    let err = d.borrow_mut("writer").err().unwrap();
    assert!(err.contains("[\"reader\"]"));
    g.release();
    assert!(d.borrow_mut("writer").is_ok());
}

#[test]
fn release_frees_the_value_again() {
    let d = Lender::new(1);
    let b1 = d.borrow("b1").unwrap();
    let b2 = d.borrow("b2").unwrap();
    b1.release();
    let err = d.borrow_mut("m").err().unwrap();
    assert!(err.contains("Currently borrowed by: [\"b2\"]"));
    b2.release();
    let m = d.borrow_mut("m").unwrap();
    m.release();
    assert!(d.borrow("again").is_ok());
}

#[test]
fn writes_through_the_exclusive_guard_are_seen_later() {
    let d = Lender::new(1);
    let mut w = d.borrow_mut("w").unwrap();
    *w = 42;
    assert_eq!(*w, 42);
    w.release();
    let r = d.borrow("r").unwrap();
    assert_eq!(*r, 42);
}

#[test]
fn many_shared_guards_see_one_value() {
    let d = Lender::new(String::from("v"));
    let a = d.borrow("a").unwrap();
    let b = d.borrow("b").unwrap();
    let c = d.borrow("c").unwrap();
    assert_eq!(*a, "v");
    assert_eq!(*b, "v");
    assert_eq!(*c, "v");
    let err = d.borrow_mut("m").err().unwrap();
    assert!(err.ends_with("[\"a\", \"b\", \"c\"]"));
}

#[test]
fn equal_names_are_listed_twice_and_released_once_each() {
    let d = Lender::new(0);
    let first = d.borrow("same").unwrap();
    let second = d.borrow("same").unwrap();
    let err = d.borrow_mut("m").err().unwrap();
    assert!(err.ends_with("[\"same\", \"same\"]"));
    first.release();
    let err = d.borrow_mut("m").err().unwrap();
    assert!(err.ends_with("[\"same\"]"));
    second.release();
    assert!(d.borrow_mut("m").is_ok());
}
