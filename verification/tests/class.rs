use embed::class::{class, Attribute};

const OTHER_CHANGE: u32 = 2;

#[test]
fn class_wraps_a_view_and_takes_any_string() {
    let view = class(7, "title");
    assert_eq!(*view.child(), 7);
    assert_eq!(
        view.build(),
        Attribute {
            name: "class",
            value: "title"
        }
    );
    let view = class(7, String::from("wide"));
    assert_eq!(view.build().value, "wide");
}

#[test]
fn rebuilding_the_same_class_does_nothing() {
    let prev = class((), "title");
    let view = class((), "title");
    let rebuilt = view.rebuild(&prev, 4, 4, 1, OTHER_CHANGE);
    assert_eq!(rebuilt.changed, 1);
    assert_eq!(rebuilt.attribute, None);
}

#[test]
fn another_class_is_set() {
    let prev = class((), "title");
    let view = class((), "wide");
    let rebuilt = view.rebuild(&prev, 4, 4, 1, OTHER_CHANGE);
    assert_eq!(rebuilt.changed, 3);
    assert_eq!(
        rebuilt.attribute,
        Some(Attribute {
            name: "class",
            value: "wide"
        })
    );
}

#[test]
fn another_element_gets_the_class_too() {
    let prev = class((), "title");
    let view = class((), "title");
    let rebuilt = view.rebuild(&prev, 4, 5, 0, OTHER_CHANGE);
    assert_eq!(rebuilt.changed, 2);
    assert_eq!(
        rebuilt.attribute,
        Some(Attribute {
            name: "class",
            value: "title"
        })
    );
}

#[test]
fn change_that_was_already_reported_stays() {
    let prev = class((), "title");
    let view = class((), "wide");
    assert_eq!(view.rebuild(&prev, 4, 4, 3, OTHER_CHANGE).changed, 3);
}
