//! Logical keys of the control panel and the table that maps raw key codes
//! of the device to them.

use vstd::prelude::*;

verus! {

/// A logical key of the control panel.
///
/// `Slider` carries the raw position of the linear control, `0` (top) to
/// `5` (bottom).
#[derive(Clone, Copy, Debug, PartialEq, Eq, Structural)]
pub enum Key {
    LCD1,
    LCD2,
    LCD3,
    LCD4,
    Abort,
    Execute,
    Danger,
    Slider(usize),
}

/// The key that the device's raw code `x` stands for, if any.
pub open spec fn key_of_code(x: u32) -> Option<Key> {
    if x == 183 {
        Some(Key::LCD1)
    } else if x == 184 {
        Some(Key::LCD2)
    } else if x == 185 {
        Some(Key::LCD3)
    } else if x == 186 {
        Some(Key::LCD4)
    } else if x == 187 {
        Some(Key::Abort)
    } else if x == 188 {
        Some(Key::Execute)
    } else if x == 70 {
        Some(Key::Danger)
    } else if 189 <= x <= 194 {
        Some(Key::Slider((194 - x) as usize))
    } else {
        None
    }
}

impl Key {
    /// A slider key carries a position the control can take.
    pub open spec fn wf(self) -> bool {
        self matches Key::Slider(pos) ==> pos <= 5
    }

    /// Whether a slider key carries a position the control can take.
    pub fn is_valid(&self) -> (ok: bool)
        ensures
            ok == self.wf(),
    {
        match self {
            Key::Slider(pos) => *pos <= 5,
            _ => true,
        }
    }

    /// The key of a raw code on the standard panel; codes outside the table
    /// give `None`.
    pub fn from_u32(x: u32) -> (key: Option<Key>)
        ensures
            key == key_of_code(x),
            key matches Some(k) ==> k.wf(),
    {
        match x {
            183 => Some(Key::LCD1),
            184 => Some(Key::LCD2),
            185 => Some(Key::LCD3),
            186 => Some(Key::LCD4),
            187 => Some(Key::Abort),
            188 => Some(Key::Execute),
            70 => Some(Key::Danger),
            194 => Some(Key::Slider(0)),
            193 => Some(Key::Slider(1)),
            192 => Some(Key::Slider(2)),
            191 => Some(Key::Slider(3)),
            190 => Some(Key::Slider(4)),
            189 => Some(Key::Slider(5)),
            _ => None,
        }
    }
}

/// One line of a key table: a raw code of the device and the key it
/// stands for.
#[derive(Clone, Copy, Debug, PartialEq, Eq, Structural)]
pub struct Binding {
    pub code: u32,
    pub key: Key,
}

/// The key of the first binding for `code` in a list of bindings.
pub open spec fn bound_key(bindings: Seq<Binding>, code: u32) -> Option<Key>
    decreases bindings.len(),
{
    if bindings.len() == 0 {
        None
    } else if bindings[0].code == code {
        Some(bindings[0].key)
    } else {
        bound_key(bindings.drop_first(), code)
    }
}

/// The bindings of the standard panel.
pub open spec fn standard_bindings() -> Seq<Binding> {
    seq![
        Binding { code: 183, key: Key::LCD1 },
        Binding { code: 184, key: Key::LCD2 },
        Binding { code: 185, key: Key::LCD3 },
        Binding { code: 186, key: Key::LCD4 },
        Binding { code: 187, key: Key::Abort },
        Binding { code: 188, key: Key::Execute },
        Binding { code: 70, key: Key::Danger },
        Binding { code: 194, key: Key::Slider(0) },
        Binding { code: 193, key: Key::Slider(1) },
        Binding { code: 192, key: Key::Slider(2) },
        Binding { code: 191, key: Key::Slider(3) },
        Binding { code: 190, key: Key::Slider(4) },
        Binding { code: 189, key: Key::Slider(5) },
    ]
}

/// The key codes of one panel: the table is configuration, and another
/// device brings its own.
#[derive(Clone, Debug, PartialEq, Eq)]
pub struct KeyTable {
    pub bindings: Vec<Binding>,
}

impl KeyTable {
    /// Every key in the table is one the state machine takes.
    pub open spec fn wf(self) -> bool {
        forall|i: int| 0 <= i < self.bindings@.len() ==> (#[trigger] self.bindings@[i]).key.wf()
    }

    /// The table of the standard panel.
    pub fn standard() -> (table: Self)
        ensures
            table.bindings@ == standard_bindings(),
            table.wf(),
    {
        let mut bindings: Vec<Binding> = Vec::new();
        bindings.push(Binding { code: 183, key: Key::LCD1 });
        bindings.push(Binding { code: 184, key: Key::LCD2 });
        bindings.push(Binding { code: 185, key: Key::LCD3 });
        bindings.push(Binding { code: 186, key: Key::LCD4 });
        bindings.push(Binding { code: 187, key: Key::Abort });
        bindings.push(Binding { code: 188, key: Key::Execute });
        bindings.push(Binding { code: 70, key: Key::Danger });
        bindings.push(Binding { code: 194, key: Key::Slider(0) });
        bindings.push(Binding { code: 193, key: Key::Slider(1) });
        bindings.push(Binding { code: 192, key: Key::Slider(2) });
        bindings.push(Binding { code: 191, key: Key::Slider(3) });
        bindings.push(Binding { code: 190, key: Key::Slider(4) });
        bindings.push(Binding { code: 189, key: Key::Slider(5) });
        assert(bindings@ =~= standard_bindings());
        KeyTable { bindings }
    }

    /// The key that the table gives for a raw code: that of the first
    /// binding for the code, or `None` for a code the table does not know.
    pub fn key(&self, code: u32) -> (key: Option<Key>)
        ensures
            key == bound_key(self.bindings@, code),
            self.wf() ==> (key matches Some(k) ==> k.wf()),
    {
        let mut i: usize = 0;
        assert(self.bindings@.skip(0) =~= self.bindings@);
        while i < self.bindings.len()
            invariant
                i <= self.bindings@.len(),
                bound_key(self.bindings@, code) == bound_key(self.bindings@.skip(i as int), code),
            decreases self.bindings@.len() - i,
        {
            assert(self.bindings@.skip(i as int).drop_first() =~= self.bindings@.skip(i + 1));
            assert(self.bindings@.skip(i as int)[0] == self.bindings@[i as int]);
            if self.bindings[i].code == code {
                return Some(self.bindings[i].key);
            }
            i += 1;
        }
        None
    }

    /// The key that one event of the device delivers under this table: the
    /// key of its code on a key-down transition, nothing on a key-up or for
    /// a code the table does not know.
    pub fn delivered(&self, code: u32, pressed: bool) -> (key: Option<Key>)
        ensures
            key == (if pressed { bound_key(self.bindings@, code) } else { None }),
            self.wf() ==> (key matches Some(k) ==> k.wf()),
    {
        if pressed {
            self.key(code)
        } else {
            None
        }
    }
}

/// The standard table gives every code the key that [`Key::from_u32`]
/// gives it.
pub proof fn lemma_standard_table_is_the_key_table(code: u32)
    ensures
        bound_key(standard_bindings(), code) == key_of_code(code),
{
    reveal_with_fuel(bound_key, 14);
    let b = standard_bindings();
    assert(b.drop_first() =~= b.subrange(1, 13));
    assert(b.subrange(1, 13).drop_first() =~= b.subrange(2, 13));
    assert(b.subrange(2, 13).drop_first() =~= b.subrange(3, 13));
    assert(b.subrange(3, 13).drop_first() =~= b.subrange(4, 13));
    assert(b.subrange(4, 13).drop_first() =~= b.subrange(5, 13));
    assert(b.subrange(5, 13).drop_first() =~= b.subrange(6, 13));
    assert(b.subrange(6, 13).drop_first() =~= b.subrange(7, 13));
    assert(b.subrange(7, 13).drop_first() =~= b.subrange(8, 13));
    assert(b.subrange(8, 13).drop_first() =~= b.subrange(9, 13));
    assert(b.subrange(9, 13).drop_first() =~= b.subrange(10, 13));
    assert(b.subrange(10, 13).drop_first() =~= b.subrange(11, 13));
    assert(b.subrange(11, 13).drop_first() =~= b.subrange(12, 13));
    assert(b.subrange(12, 13).drop_first() =~= b.subrange(13, 13));
}

/// The key that one event of the standard panel delivers: the key of its
/// code on a key-down transition, nothing on a key-up or for a code outside
/// the table.
pub fn delivered(code: u32, pressed: bool) -> (key: Option<Key>)
    ensures
        key == (if pressed { key_of_code(code) } else { None }),
        key matches Some(k) ==> k.wf(),
{
    if pressed {
        Key::from_u32(code)
    } else {
        None
    }
}

} // verus!
