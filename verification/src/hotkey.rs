//! The keys that can be chosen as hotkey.

use vstd::prelude::*;

verus! {

/// A key that can be chosen to toggle the clicker.
#[derive(Clone, Copy, Debug, PartialEq, Eq, Structural)]
pub enum Hotkey {
    F1,
    F2,
    F3,
    F4,
    F5,
    F6,
    F7,
    F8,
    F9,
    F10,
}

impl Hotkey {
    /// Every key that can be chosen, in the order in which they are offered.
    pub const ALL: [Hotkey; 10] = [
        Hotkey::F1,
        Hotkey::F2,
        Hotkey::F3,
        Hotkey::F4,
        Hotkey::F5,
        Hotkey::F6,
        Hotkey::F7,
        Hotkey::F8,
        Hotkey::F9,
        Hotkey::F10,
    ];

    /// The text on the key's cap.
    pub open spec fn name_spec(self) -> Seq<char> {
        match self {
            Hotkey::F1 => "F1"@,
            Hotkey::F2 => "F2"@,
            Hotkey::F3 => "F3"@,
            Hotkey::F4 => "F4"@,
            Hotkey::F5 => "F5"@,
            Hotkey::F6 => "F6"@,
            Hotkey::F7 => "F7"@,
            Hotkey::F8 => "F8"@,
            Hotkey::F9 => "F9"@,
            Hotkey::F10 => "F10"@,
        }
    }

    /// The text by which the key is shown to the user.
    pub fn name(self) -> (text: &'static str)
        ensures
            text@ == self.name_spec(),
    {
        match self {
            Hotkey::F1 => "F1",
            Hotkey::F2 => "F2",
            Hotkey::F3 => "F3",
            Hotkey::F4 => "F4",
            Hotkey::F5 => "F5",
            Hotkey::F6 => "F6",
            Hotkey::F7 => "F7",
            Hotkey::F8 => "F8",
            Hotkey::F9 => "F9",
            Hotkey::F10 => "F10",
        }
    }
}

/// `Hotkey::ALL` offers every key, and none twice.
pub proof fn law_all_lists_every_key_once(key: Hotkey)
    ensures
        exists|i: int| 0 <= i < 10 && #[trigger] Hotkey::ALL[i] == key,
        forall|i: int, j: int|
            0 <= i < 10 && 0 <= j < 10 && #[trigger] Hotkey::ALL[i] == #[trigger] Hotkey::ALL[j]
                ==> i == j,
{
    let at: int = match key {
        Hotkey::F1 => 0,
        Hotkey::F2 => 1,
        Hotkey::F3 => 2,
        Hotkey::F4 => 3,
        Hotkey::F5 => 4,
        Hotkey::F6 => 5,
        Hotkey::F7 => 6,
        Hotkey::F8 => 7,
        Hotkey::F9 => 8,
        Hotkey::F10 => 9,
    };
    assert(Hotkey::ALL[at] == key);
}

impl Default for Hotkey {
    fn default() -> (key: Hotkey)
        ensures
            key == Hotkey::F6,
    {
        Hotkey::F6
    }
}

} // verus!
