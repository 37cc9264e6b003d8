use rust_book::adder::add_two;

#[test]
fn it_works() -> Result<(), String> {
    if 2 + 2 == 4 {
        Ok(())
    } else {
        Err("two plus two does not equal four".to_string())
    }
}

#[test]
fn it_works2() {
    assert_eq!(2 + 2, 4);
}

#[test]
fn add_two_adds_two() {
    assert_eq!(add_two(2), 4);
    assert_eq!(add_two(-7), -5);
    assert_eq!(add_two(i32::MAX - 2), i32::MAX);
}
