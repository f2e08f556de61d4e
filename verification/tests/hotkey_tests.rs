use auto_clicker::hotkey::Hotkey;

#[test]
fn default_hotkey_is_f6() {
    assert_eq!(Hotkey::default(), Hotkey::F6);
}

#[test]
fn all_lists_the_ten_keys_in_order() {
    assert_eq!(Hotkey::ALL.len(), 10);
    assert_eq!(
        Hotkey::ALL,
        [
            Hotkey::F1,
            Hotkey::F2,
            Hotkey::F3,
            Hotkey::F4,
            Hotkey::F5,
            Hotkey::F6,
            Hotkey::F7,
            Hotkey::F8,
            Hotkey::F9,
            Hotkey::F10,
        ]
    );
}

#[test]
fn all_holds_no_key_twice() {
    for (i, a) in Hotkey::ALL.iter().enumerate() {
        for (j, b) in Hotkey::ALL.iter().enumerate() {
            assert_eq!(a == b, i == j);
        }
    }
}

#[test]
fn names_are_the_key_caps() {
    assert_eq!(Hotkey::F1.name(), "F1");
    assert_eq!(Hotkey::F6.name(), "F6");
    assert_eq!(Hotkey::F10.name(), "F10");
    let names: Vec<&str> = Hotkey::ALL.iter().map(|key| key.name()).collect();
    assert_eq!(names, vec!["F1", "F2", "F3", "F4", "F5", "F6", "F7", "F8", "F9", "F10"]);
}

#[test]
fn name_agrees_with_debug() {
    for key in Hotkey::ALL.iter() {
        assert_eq!(key.name(), format!("{:?}", key));
    }
}
