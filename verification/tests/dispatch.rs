use anything_speak::capability::{Cat, Dog, Speak};
use anything_speak::handle::AnythingSpeak;

#[test]
fn implementors_have_their_own_sounds() {
    let cat = Cat;
    let dog = Dog;
    assert_eq!(cat.speak(), "meowww");
    assert_eq!(dog.speak(), "WOOF");
}

#[test]
fn handle_speaks_like_the_value_it_was_built_from() {
    let cat = Cat;
    let dog = Dog;
    let hc = AnythingSpeak::new(&cat);
    let hd = AnythingSpeak::new(&dog);
    assert_eq!(hc.speak(), cat.speak());
    assert_eq!(hd.speak(), dog.speak());
    assert_eq!(hc.speak(), "meowww");
    assert_eq!(hd.speak(), "WOOF");
}

#[test]
fn reassigned_variable_speaks_with_the_new_type() {
    let cat = Cat;
    let dog = Dog;
    let mut h = AnythingSpeak::new(&cat);
    assert_eq!(h.speak(), "meowww");
    h = AnythingSpeak::new(&dog);
    assert_eq!(h.speak(), "WOOF");
}

#[test]
fn reassign_method_replaces_referent_and_table() {
    let cat = Cat;
    let dog = Dog;
    let mut h = AnythingSpeak::new(&cat);
    assert_eq!(h.speak(), "meowww");
    h.reassign(AnythingSpeak::new(&dog));
    assert_eq!(h.speak(), "WOOF");
    h.reassign(AnythingSpeak::new(&cat));
    assert_eq!(h.speak(), "meowww");
}

#[test]
fn independent_handles_do_not_disturb_each_other() {
    let cat = Cat;
    let dog = Dog;
    let hc = AnythingSpeak::new(&cat);
    let hd = AnythingSpeak::new(&dog);
    assert_eq!(hc.speak(), "meowww");
    assert_eq!(hd.speak(), "WOOF");
    // and in the other call order
    let hc2 = AnythingSpeak::new(&cat);
    let hd2 = AnythingSpeak::new(&dog);
    assert_eq!(hd2.speak(), "WOOF");
    assert_eq!(hc2.speak(), "meowww");
}

#[test]
fn handles_over_one_type_share_one_table() {
    let first = Cat;
    let second = Cat;
    let h1 = AnythingSpeak::new(&first);
    let h2 = AnythingSpeak::new(&second);
    assert!(h1.functions == h2.functions);
    assert_eq!(h1.speak(), "meowww");
    assert_eq!(h2.speak(), "meowww");
}
