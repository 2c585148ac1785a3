//! Descriptive properties of a raw source, for display.

use vstd::prelude::*;
use vstd::string::StringExecFns;

verus! {

/// One property value.
#[derive(Debug)]
pub enum SdlValue {
    String(String),
    OptString(Option<String>),
    U16(u16),
    OptU16(Option<u16>),
    /// Shown in hexadecimal (vendor and product ids).
    HexU16(Option<u16>),
    U32(u32),
    Bool(bool),
    /// A group of named properties.
    Nested(PropertyList),
}

/// Named properties, each name at most once, in insertion order.
#[derive(Debug)]
pub struct PropertyList {
    entries: Vec<(String, SdlValue)>,
}

/// The properties of one raw source.
#[derive(Debug)]
pub struct SdlDeviceInfo {
    pub is_gamepad: bool,
    pub properties: PropertyList,
}

/// The names of `entries`, in order.
pub open spec fn names_of(entries: Seq<(String, SdlValue)>) -> Seq<Seq<char>> {
    entries.map_values(|e: (String, SdlValue)| e.0@)
}

impl PropertyList {
    /// The entries, in order.
    pub closed spec fn view(&self) -> Seq<(String, SdlValue)> {
        self.entries@
    }

    /// No name occurs twice.
    pub open spec fn wf(&self) -> bool {
        names_of(self.view()).no_duplicates()
    }

    /// An empty list.
    pub fn new() -> (r: PropertyList)
        ensures
            r.view() == Seq::<(String, SdlValue)>::empty(),
            r.wf(),
    {
        let r = PropertyList { entries: Vec::new() };
        assert(names_of(r.view()) =~= Seq::<Seq<char>>::empty());
        r
    }

    /// Number of entries.
    pub fn len(&self) -> (r: usize)
        ensures
            r == self.view().len(),
    {
        self.entries.len()
    }

    /// Position of the entry named `name`.
    pub fn position(&self, name: &String) -> (r: Option<usize>)
        ensures
            match r {
                Some(i) => i < self.view().len() && self.view()[i as int].0@ == name@,
                None => forall|i: int|
                    0 <= i < self.view().len() ==> #[trigger] self.view()[i].0@ != name@,
            },
    {
        let mut i: usize = 0;
        while i < self.entries.len()
            invariant
                i <= self.entries@.len(),
                forall|j: int| 0 <= j < i ==> #[trigger] self.entries@[j].0@ != name@,
            decreases self.entries@.len() - i,
        {
            if self.entries[i].0 == *name {
                return Some(i);
            }
            i = i + 1;
        }
        None
    }

    /// Sets property `name` to `value`: an entry with that name is replaced
    /// in place, otherwise the entry is appended.
    pub fn insert(&mut self, name: String, value: SdlValue)
        requires
            old(self).wf(),
            old(self).view().len() < usize::MAX,
        ensures
            final(self).wf(),
            forall|i: int|
                0 <= i < old(self).view().len() && #[trigger] old(self).view()[i].0@ == name@
                    ==> final(self).view() == old(self).view().update(i, (name, value)),
            (forall|i: int|
                0 <= i < old(self).view().len() ==> #[trigger] old(self).view()[i].0@ != name@)
                ==> final(self).view() == old(self).view().push((name, value)),
    {
        let ghost old_entries = self.entries@;
        match self.position(&name) {
            Some(i) => {
                self.entries.set(i, (name, value));
                proof {
                    assert(names_of(self.entries@) =~= names_of(old_entries));
                    assert forall|j: int|
                        0 <= j < old_entries.len() && #[trigger] old_entries[j].0@ == name@
                            implies j == i by {
                        if j != i {
                            assert(names_of(old_entries)[j] == names_of(old_entries)[i as int]);
                        }
                    }
                }
            },
            None => {
                self.entries.push((name, value));
                proof {
                    assert(names_of(self.entries@) =~= names_of(old_entries).push(name@));
                    assert forall|j: int| 0 <= j < names_of(old_entries).len() implies names_of(
                        old_entries,
                    )[j] != name@ by {
                        assert(old_entries[j].0@ != name@);
                    }
                }
            },
        }
    }

    /// The value of property `name`, if set.
    pub fn get(&self, name: &String) -> (r: Option<&SdlValue>)
        ensures
            match r {
                Some(v) => exists|i: int|
                    0 <= i < self.view().len() && #[trigger] self.view()[i].0@ == name@
                        && self.view()[i].1 == *v,
                None => forall|i: int|
                    0 <= i < self.view().len() ==> #[trigger] self.view()[i].0@ != name@,
            },
    {
        match self.position(name) {
            Some(i) => Some(&self.entries[i].1),
            None => None,
        }
    }

    /// The entry at `i`.
    pub fn entry(&self, i: usize) -> (r: &(String, SdlValue))
        requires
            i < self.view().len(),
        ensures
            *r == self.view()[i as int],
    {
        &self.entries[i]
    }
}

/// Digit `d` (below 16) in upper-case hexadecimal.
pub open spec fn digit_char(d: int) -> char {
    seq!['0', '1', '2', '3', '4', '5', '6', '7', '8', '9', 'A', 'B', 'C', 'D', 'E', 'F'][d]
}

/// `n` in decimal, without leading zeros.
pub open spec fn decimal(n: nat) -> Seq<char>
    decreases n,
{
    if n < 10 {
        seq![digit_char(n as int)]
    } else {
        decimal(n / 10).push(digit_char((n % 10) as int))
    }
}

/// `n` as four upper-case hexadecimal digits.
pub open spec fn hex4(n: u16) -> Seq<char> {
    seq![
        digit_char((n as int / 4096) % 16),
        digit_char((n as int / 256) % 16),
        digit_char((n as int / 16) % 16),
        digit_char(n as int % 16),
    ]
}

/// How a property value is shown.
pub open spec fn display_of(v: SdlValue) -> Seq<char> {
    match v {
        SdlValue::String(s) => s@,
        SdlValue::OptString(Some(s)) => s@,
        SdlValue::OptString(None) => "N/A"@,
        SdlValue::U16(n) => decimal(n as nat),
        SdlValue::OptU16(Some(n)) => decimal(n as nat),
        SdlValue::OptU16(None) => "N/A"@,
        SdlValue::HexU16(Some(n)) => "0x"@ + hex4(n),
        SdlValue::HexU16(None) => "N/A"@,
        SdlValue::U32(n) => decimal(n as nat),
        SdlValue::Bool(b) => if b {
            "true"@
        } else {
            "false"@
        },
        SdlValue::Nested(list) => "("@ + decimal(list.view().len()) + " items)"@,
    }
}

/// Digit `d` as a one-character string.
fn digit_str(d: u64) -> (r: &'static str)
    requires
        d < 16,
    ensures
        r@ == seq![digit_char(d as int)],
{
    let r = if d == 0 {
        "0"
    } else if d == 1 {
        "1"
    } else if d == 2 {
        "2"
    } else if d == 3 {
        "3"
    } else if d == 4 {
        "4"
    } else if d == 5 {
        "5"
    } else if d == 6 {
        "6"
    } else if d == 7 {
        "7"
    } else if d == 8 {
        "8"
    } else if d == 9 {
        "9"
    } else if d == 10 {
        "A"
    } else if d == 11 {
        "B"
    } else if d == 12 {
        "C"
    } else if d == 13 {
        "D"
    } else if d == 14 {
        "E"
    } else {
        "F"
    };
    proof {
        reveal_strlit("0");
        reveal_strlit("1");
        reveal_strlit("2");
        reveal_strlit("3");
        reveal_strlit("4");
        reveal_strlit("5");
        reveal_strlit("6");
        reveal_strlit("7");
        reveal_strlit("8");
        reveal_strlit("9");
        reveal_strlit("A");
        reveal_strlit("B");
        reveal_strlit("C");
        reveal_strlit("D");
        reveal_strlit("E");
        reveal_strlit("F");
        assert(r@ =~= seq![digit_char(d as int)]);
    }
    r
}

/// `n` in decimal.
fn decimal_string(n: u64) -> (r: String)
    ensures
        r@ == decimal(n as nat),
    decreases n,
{
    if n < 10 {
        digit_str(n).to_string()
    } else {
        let mut s = decimal_string(n / 10);
        s.append(digit_str(n % 10));
        proof {
            assert(seq![digit_char((n % 10) as int)] =~= Seq::<char>::empty().push(
                digit_char((n as nat % 10) as int),
            ));
        }
        s
    }
}

/// `n` as four hexadecimal digits.
fn hex_digits(n: u16) -> (r: String)
    ensures
        r@ == hex4(n),
{
    let w = n as u64;
    let mut s = digit_str((w / 4096) % 16).to_string();
    s.append(digit_str((w / 256) % 16));
    s.append(digit_str((w / 16) % 16));
    s.append(digit_str(w % 16));
    proof {
        assert(s@ =~= hex4(n));
    }
    s
}

impl SdlValue {
    /// The value as shown to the user: text as is, a missing value as
    /// `N/A`, numbers in decimal, ids as `0x` and four hex digits, a group
    /// by its size.
    pub fn to_display_string(&self) -> (r: String)
        ensures
            r@ == display_of(*self),
    {
        match self {
            SdlValue::String(s) => s.clone(),
            SdlValue::OptString(Some(s)) => s.clone(),
            SdlValue::OptString(None) => "N/A".to_string(),
            SdlValue::U16(n) => decimal_string(*n as u64),
            SdlValue::OptU16(Some(n)) => decimal_string(*n as u64),
            SdlValue::OptU16(None) => "N/A".to_string(),
            SdlValue::HexU16(Some(n)) => {
                let mut s = "0x".to_string();
                s.append(hex_digits(*n).as_str());
                s
            },
            SdlValue::HexU16(None) => "N/A".to_string(),
            SdlValue::U32(n) => decimal_string(*n as u64),
            SdlValue::Bool(b) => if *b {
                "true".to_string()
            } else {
                "false".to_string()
            },
            SdlValue::Nested(list) => {
                let mut s = "(".to_string();
                s.append(decimal_string(list.len() as u64).as_str());
                s.append(" items)");
                s
            },
        }
    }
}

} // verus!
