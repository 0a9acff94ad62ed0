use notify_rust::hint_set::HintSet;
use notify_rust::hints::{Hint, HintTag};
use notify_rust::image::{Image, ImageError};
use notify_rust::notification::Notification;
use notify_rust::timeout::Timeout;
use notify_rust::urgency::Urgency;
use notify_rust::wire::WireValue;

#[test]
fn a_new_notification_is_empty_but_for_the_program_name() {
    let n = Notification::new("my-app");
    assert_eq!(n.appname, "my-app");
    assert_eq!(n.summary, "");
    assert_eq!(n.subtitle, None);
    assert_eq!(n.body, "");
    assert_eq!(n.icon, "");
    assert!(n.hints.is_empty());
    assert_eq!(n.hints.len(), 0);
    assert!(n.actions.is_empty());
    assert_eq!(n.timeout, Timeout::Default);
    assert_eq!(n.id, None);
}

#[test]
fn setters_set_their_field_and_chain() {
    let mut n = Notification::new("app");
    n.appname("thunderbird")
        .summary("Category:email")
        .subtitle("sub")
        .body("This should not go away until you acknowledge it.")
        .icon("thunderbird")
        .id(9);
    assert_eq!(n.appname, "thunderbird");
    assert_eq!(n.summary, "Category:email");
    assert_eq!(n.subtitle, Some("sub".to_owned()));
    assert_eq!(n.body, "This should not go away until you acknowledge it.");
    assert_eq!(n.icon, "thunderbird");
    assert_eq!(n.id, Some(9));
    n.auto_icon("my-binary");
    assert_eq!(n.icon, "my-binary");
}

#[test]
fn a_second_hint_of_one_variant_replaces_the_first() {
    let mut n = Notification::new("app");
    n.hint(Hint::Urgency(Urgency::Low)).hint(Hint::Urgency(Urgency::Critical));
    assert_eq!(n.hints.len(), 1);
    assert_eq!(n.hints.entries(), &vec![Hint::Urgency(Urgency::Critical)]);
    assert_eq!(n.hints.get(&HintTag::Urgency), Some(&Hint::Urgency(Urgency::Critical)));
}

#[test]
fn hints_of_different_keys_stay_side_by_side() {
    let mut n = Notification::new("app");
    n.hint(Hint::Category("email".to_owned()))
        .hint(Hint::Resident(true))
        .hint(Hint::Custom("a".to_owned(), "1".to_owned()))
        .hint(Hint::Custom("b".to_owned(), "2".to_owned()))
        .hint(Hint::Resident(false))
        .hint(Hint::Custom("a".to_owned(), "3".to_owned()));
    assert_eq!(
        n.hints.entries(),
        &vec![
            Hint::Category("email".to_owned()),
            Hint::Resident(false),
            Hint::Custom("a".to_owned(), "3".to_owned()),
            Hint::Custom("b".to_owned(), "2".to_owned()),
        ]
    );
    assert!(n.hints.contains(&HintTag::Resident));
    assert!(n.hints.contains(&HintTag::Custom("b".to_owned())));
    assert!(!n.hints.contains(&HintTag::Urgency));
    assert!(!n.hints.contains(&HintTag::Custom("resident".to_owned())));
    assert_eq!(n.hints.get(&HintTag::Urgency), None);
    assert_eq!(
        n.hints.get(&HintTag::Custom("a".to_owned())),
        Some(&Hint::Custom("a".to_owned(), "3".to_owned()))
    );
}

#[test]
fn a_hint_set_holds_one_hint_for_each_key() {
    let mut set = HintSet::new();
    assert!(set.is_empty());
    set.insert(Hint::X(1));
    set.insert(Hint::Y(2));
    set.insert(Hint::X(3));
    assert_eq!(set.len(), 2);
    assert_eq!(set.entries(), &vec![Hint::X(3), Hint::Y(2)]);
    assert_eq!(set.clone(), set);
}

#[test]
fn the_wrappers_add_their_hints() {
    let mut n = Notification::new("app");
    n.image_path("/a.png").sound_name("bell").urgency(Urgency::Normal);
    let image = Image::from_rgb(1, 1, vec![1, 2, 3]).unwrap();
    n.image_data(image.clone());
    assert_eq!(
        n.hints.entries(),
        &vec![
            Hint::ImagePath("/a.png".to_owned()),
            Hint::SoundName("bell".to_owned()),
            Hint::Urgency(Urgency::Normal),
            Hint::ImageData(image),
        ]
    );
}

#[test]
fn pixels_become_the_image_hint() {
    let mut n = Notification::new("app");
    assert_eq!(n.image(1, 2, vec![0, 1, 2, 3, 4, 5], false), Ok(()));
    assert_eq!(
        n.hints.entries(),
        &vec![Hint::ImageData(Image::from_rgb(1, 2, vec![0, 1, 2, 3, 4, 5]).unwrap())]
    );
    assert_eq!(n.image(1, 1, vec![0, 1, 2, 3], true), Ok(()));
    assert_eq!(n.hints.entries(), &vec![Hint::ImageData(Image::from_rgba(1, 1, vec![0, 1, 2, 3]).unwrap())]);
}

#[test]
fn pixels_that_are_no_image_leave_the_notification_as_it_was() {
    let mut n = Notification::new("app");
    n.hint(Hint::Resident(true));
    let before = n.finalize();
    assert_eq!(n.image(2, 2, vec![0, 1, 2], false), Err(ImageError::WrongDataSize));
    assert_eq!(n, before);
    assert_eq!(n.image(0x1000_0000, 1, vec![], false), Err(ImageError::TooBig));
    assert_eq!(n, before);
}

#[test]
fn an_action_grows_the_list_by_two() {
    let mut n = Notification::new("app");
    n.action("default", "Open");
    assert_eq!(n.actions, vec!["default".to_owned(), "Open".to_owned()]);
    n.action("clicked", "Click me");
    assert_eq!(n.actions.len(), 4);
    assert_eq!(
        n.actions,
        vec!["default".to_owned(), "Open".to_owned(), "clicked".to_owned(), "Click me".to_owned()]
    );
}

#[test]
fn the_actions_setter_replaces_the_list_and_cuts_nothing_off() {
    let mut n = Notification::new("app");
    n.action("a", "A");
    n.actions(vec!["b".to_owned(), "B".to_owned()]);
    assert_eq!(n.actions, vec!["b".to_owned(), "B".to_owned()]);
    n.actions(vec!["one".to_owned(), "two".to_owned(), "three".to_owned()]);
    assert_eq!(n.actions, vec!["one".to_owned(), "two".to_owned(), "three".to_owned()]);
    assert_eq!(n.actions.len() % 2, 1);
}

#[test]
fn timeouts_are_set_from_values_and_from_wire_integers() {
    let mut n = Notification::new("app");
    n.timeout(Timeout::Never);
    assert_eq!(n.timeout, Timeout::Never);
    n.timeout(5000);
    assert_eq!(n.timeout, Timeout::Milliseconds(5000));
    n.timeout(0);
    assert_eq!(n.timeout, Timeout::Never);
    n.timeout(-1);
    assert_eq!(n.timeout, Timeout::Default);
}

#[test]
fn timeout_encoding() {
    assert_eq!(Timeout::Default.to_wire(), -1);
    assert_eq!(Timeout::Never.to_wire(), 0);
    assert_eq!(Timeout::Milliseconds(5000).to_wire(), 5000);
    assert_eq!(Timeout::from_wire(-1), Timeout::Default);
    assert_eq!(Timeout::from_wire(0), Timeout::Never);
    assert_eq!(Timeout::from_wire(5000), Timeout::Milliseconds(5000));
    let wire: i32 = Timeout::Milliseconds(5000).into();
    assert_eq!(wire, 5000);
    assert_eq!(Timeout::from(5000), Timeout::Milliseconds(5000));
}

#[test]
fn timeouts_at_the_edges() {
    assert_eq!(Timeout::Milliseconds(i32::MAX as u32).to_wire(), i32::MAX);
    assert_eq!(Timeout::Milliseconds(i32::MAX as u32 + 1).to_wire(), i32::MAX);
    assert_eq!(Timeout::Milliseconds(u32::MAX).to_wire(), i32::MAX);
    assert_eq!(Timeout::Milliseconds(0).to_wire(), 0);
    assert_eq!(Timeout::from_wire(i32::MAX), Timeout::Milliseconds(i32::MAX as u32));
    assert_eq!(Timeout::from_wire(1), Timeout::Milliseconds(1));
    assert_eq!(Timeout::from_wire(-2), Timeout::Default);
    assert_eq!(Timeout::from_wire(i32::MIN), Timeout::Default);
}

#[test]
fn long_and_short_toasts() {
    assert!(!Timeout::Default.is_long_lived());
    assert!(Timeout::Never.is_long_lived());
    assert!(!Timeout::Milliseconds(24999).is_long_lived());
    assert!(Timeout::Milliseconds(25000).is_long_lived());
}

#[test]
fn a_finalized_copy_is_independent_of_the_builder() {
    let mut n = Notification::new("app");
    n.summary("first").hint(Hint::X(1)).action("a", "A");
    let copy = n.finalize();
    n.summary("second").hint(Hint::X(2)).action("b", "B");
    assert_eq!(copy.summary, "first");
    assert_eq!(copy.hints.entries(), &vec![Hint::X(1)]);
    assert_eq!(copy.actions, vec!["a".to_owned(), "A".to_owned()]);
    assert_eq!(n.summary, "second");
    assert_eq!(n.clone(), n);
}

#[test]
fn actions_are_packed_as_an_array_of_strings() {
    let mut n = Notification::new("app");
    assert_eq!(n.pack_actions(), WireValue::Array("s".to_owned(), vec![]));
    n.action("a1", "L1");
    assert_eq!(
        n.pack_actions(),
        WireValue::Array("s".to_owned(), vec![WireValue::Str("a1".to_owned()), WireValue::Str("L1".to_owned())])
    );
}

#[test]
fn hints_are_packed_as_a_dictionary_of_variants() {
    let mut n = Notification::new("app");
    assert_eq!(n.pack_hints(), WireValue::Dict("s".to_owned(), "v".to_owned(), vec![]));
    n.urgency(Urgency::Critical).hint(Hint::Category("email".to_owned()));
    assert_eq!(
        n.pack_hints(),
        WireValue::Dict(
            "s".to_owned(),
            "v".to_owned(),
            vec![
                (WireValue::Str("urgency".to_owned()), WireValue::Variant(Box::new(WireValue::Byte(2)))),
                (
                    WireValue::Str("category".to_owned()),
                    WireValue::Variant(Box::new(WireValue::Str("email".to_owned())))
                ),
            ]
        )
    );
}

#[test]
fn urgency_bytes() {
    assert_eq!(Urgency::Low.to_byte(), 0);
    assert_eq!(Urgency::Normal.to_byte(), 1);
    assert_eq!(Urgency::Critical.to_byte(), 2);
    assert_eq!(Urgency::from_byte(0), Some(Urgency::Low));
    assert_eq!(Urgency::from_byte(1), Some(Urgency::Normal));
    assert_eq!(Urgency::from_byte(2), Some(Urgency::Critical));
    assert_eq!(Urgency::from_byte(3), None);
}

#[test]
fn a_custom_hint_and_the_hint_of_the_variant_that_it_is_named_after_stay_side_by_side() {
    let mut n = Notification::new("app");
    n.hint(Hint::Urgency(Urgency::Low)).hint(Hint::Custom("urgency".to_owned(), "x".to_owned()));
    assert_eq!(
        n.hints.entries(),
        &vec![Hint::Urgency(Urgency::Low), Hint::Custom("urgency".to_owned(), "x".to_owned())]
    );
    n.urgency(Urgency::Critical);
    assert_eq!(
        n.hints.entries(),
        &vec![Hint::Urgency(Urgency::Critical), Hint::Custom("urgency".to_owned(), "x".to_owned())]
    );
    n.hint(Hint::Custom("urgency".to_owned(), "y".to_owned()));
    assert_eq!(
        n.hints.entries(),
        &vec![Hint::Urgency(Urgency::Critical), Hint::Custom("urgency".to_owned(), "y".to_owned())]
    );
    assert_eq!(n.hints.get(&HintTag::Urgency), Some(&Hint::Urgency(Urgency::Critical)));
    assert_eq!(
        n.hints.get(&HintTag::Custom("urgency".to_owned())),
        Some(&Hint::Custom("urgency".to_owned(), "y".to_owned()))
    );
}

#[test]
fn the_wrappers_leave_custom_hints_of_their_keys_in_the_set() {
    let mut n = Notification::new("app");
    n.hint(Hint::Custom("sound-name".to_owned(), "x".to_owned()))
        .hint(Hint::Custom("image-data".to_owned(), "x".to_owned()))
        .hint(Hint::Custom("image-path".to_owned(), "x".to_owned()))
        .hint(Hint::SoundFile("/a.wav".to_owned()));
    n.sound_name("bell").image_path("/a.png");
    assert_eq!(n.image(1, 1, vec![1, 2, 3], false), Ok(()));
    assert_eq!(
        n.hints.entries(),
        &vec![
            Hint::Custom("sound-name".to_owned(), "x".to_owned()),
            Hint::Custom("image-data".to_owned(), "x".to_owned()),
            Hint::Custom("image-path".to_owned(), "x".to_owned()),
            Hint::SoundFile("/a.wav".to_owned()),
            Hint::SoundName("bell".to_owned()),
            Hint::ImagePath("/a.png".to_owned()),
            Hint::ImageData(Image::from_rgb(1, 1, vec![1, 2, 3]).unwrap()),
        ]
    );
}

#[test]
fn a_custom_hint_named_by_a_reserved_key_is_packed_beside_the_hint_of_that_key() {
    let mut n = Notification::new("app");
    n.urgency(Urgency::Low).hint(Hint::Custom("urgency".to_owned(), "x".to_owned()));
    assert_eq!(
        n.pack_hints(),
        WireValue::Dict(
            "s".to_owned(),
            "v".to_owned(),
            vec![
                (WireValue::Str("urgency".to_owned()), WireValue::Variant(Box::new(WireValue::Byte(0)))),
                (
                    WireValue::Str("urgency".to_owned()),
                    WireValue::Variant(Box::new(WireValue::Str("x".to_owned())))
                ),
            ]
        )
    );
}
