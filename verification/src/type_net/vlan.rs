//! The VLAN tag of a network: an identifier of twelve bits.

use vstd::prelude::*;

verus! {

/// A VLAN identifier: a number from 0 to 4095.
pub struct Vlan(u16);

impl View for Vlan {
    type V = nat;

    closed spec fn view(&self) -> nat {
        self.0 as nat
    }
}

/// A value that is not a VLAN identifier.
#[derive(Debug)]
pub struct OutOfRange;

impl OutOfRange {
    /// What the error says of itself.
    pub fn to_string(&self) -> (text: String)
        ensures
            text@ == "Out of range"@,
    {
        "Out of range".to_owned()
    }
}

/// A VLAN identifier as a caller may hand it in: as text, or as a number of
/// any width, with or without a sign.
pub enum RawVlan {
    Text(String),
    Unsigned(u128),
    Signed(i128),
}

/// Whether a character is a decimal digit.
pub open spec fn is_digit(c: char) -> bool {
    '0' <= c <= '9'
}

/// The number that a run of decimal digits spells.
pub open spec fn digits_value(digits: Seq<char>) -> nat
    decreases digits.len(),
{
    if digits.len() == 0 {
        0
    } else {
        (10 * digits_value(digits.drop_last()) + (digits.last() as nat - '0' as nat)) as nat
    }
}

/// The digits of a decimal text: the text without the `+` that may lead it.
pub open spec fn digits_of(text: Seq<char>) -> Seq<char> {
    if text.len() > 0 && text[0] == '+' {
        text.skip(1)
    } else {
        text
    }
}

/// The number that a text spells in decimal: an optional `+` and then one
/// digit or more, nothing before, between or after.
pub open spec fn decimal_value(text: Seq<char>) -> Option<nat> {
    let digits = digits_of(text);
    if digits.len() > 0 && (forall|i: int| 0 <= i < digits.len() ==> is_digit(#[trigger] digits[i])) {
        Some(digits_value(digits))
    } else {
        None
    }
}

impl RawVlan {
    /// The number that the raw value stands for, if it stands for one.
    pub open spec fn value(self) -> Option<int> {
        match self {
            RawVlan::Text(text) => match decimal_value(text@) {
                Some(n) => Some(n as int),
                None => None,
            },
            RawVlan::Unsigned(n) => Some(n as int),
            RawVlan::Signed(n) => Some(n as int),
        }
    }
}

/// Whether `value` is a number from 0 to 4095.
pub open spec fn is_vlan_id(value: Option<int>) -> bool {
    value matches Some(n) && 0 <= n <= 4095
}

impl Vlan {
    pub const MAX: u16 = 4095;

    /// Every identifier that exists is at most 4095.
    #[verifier::type_invariant]
    pub open spec fn inv(self) -> bool {
        self@ <= 4095
    }

    /// The identifier `id`, if it is at most 4095.
    pub fn vlan_id(id: u16) -> (r: Result<Vlan, OutOfRange>)
        ensures
            match r {
                Ok(vlan) => id <= 4095 && vlan@ == id,
                Err(_) => id > 4095,
            },
    {
        match Self::vlidate(id) {
            Ok(id) => Ok(Vlan(id)),
            Err(e) => Err(e),
        }
    }

    /// Makes this the identifier `id`, if `id` is at most 4095; otherwise
    /// fails and leaves the identifier as it was.
    pub fn set_vlan(&mut self, id: u16) -> (r: Result<(), OutOfRange>)
        ensures
            match r {
                Ok(_) => id <= 4095 && final(self)@ == id,
                Err(_) => id > 4095 && final(self)@ == old(self)@,
            },
    {
        match Self::vlidate(id) {
            Ok(id) => {
                self.0 = id;
                Ok(())
            },
            Err(e) => Err(e),
        }
    }

    /// `id` itself, if it is at most 4095.
    pub fn vlidate(id: u16) -> (r: Result<u16, OutOfRange>)
        ensures
            match r {
                Ok(valid) => id <= 4095 && valid == id,
                Err(_) => id > 4095,
            },
    {
        if id > Self::MAX {
            Err(OutOfRange)
        } else {
            Ok(id)
        }
    }

    /// The identifier that an unsigned number stands for.
    pub fn from_unsigned(value: u128) -> (r: Result<Vlan, OutOfRange>)
        ensures
            match r {
                Ok(vlan) => value <= 4095 && vlan@ == value,
                Err(_) => value > 4095,
            },
    {
        if value > 4095 {
            Err(OutOfRange)
        } else {
            Self::vlan_id(value as u16)
        }
    }

    /// The identifier that a signed number stands for.
    pub fn from_signed(value: i128) -> (r: Result<Vlan, OutOfRange>)
        ensures
            match r {
                Ok(vlan) => 0 <= value <= 4095 && vlan@ == value,
                Err(_) => value < 0 || value > 4095,
            },
    {
        if value < 0 || value > 4095 {
            Err(OutOfRange)
        } else {
            Self::vlan_id(value as u16)
        }
    }

    /// The identifier that a decimal text spells.
    pub fn from_text(text: &str) -> (r: Result<Vlan, OutOfRange>)
        ensures
            match r {
                Ok(vlan) => decimal_value(text@) == Some(vlan@) && vlan@ <= 4095,
                Err(_) => !(decimal_value(text@) matches Some(n) && n <= 4095),
            },
    {
        let len = text.unicode_len();
        let mut i: usize = 0;
        if len > 0 && text.get_char(0) == '+' {
            i = 1;
        }
        if i == len {
            return Err(OutOfRange);
        }
        let ghost start = i as int;
        let ghost digits = digits_of(text@);
        proof {
            assert(digits =~= text@.subrange(start, len as int));
            assert(text@.subrange(start, start) =~= Seq::<char>::empty());
        }
        let mut value: u16 = 0;
        let mut over = false;
        while i < len
            invariant
                0 <= start <= i <= len,
                len == text@.len(),
                start < len,
                digits == digits_of(text@),
                digits == text@.subrange(start, len as int),
                forall|j: int| start <= j < i ==> is_digit(#[trigger] text@[j]),
                !over ==> value == digits_value(text@.subrange(start, i as int)) && value <= 4095,
                over ==> digits_value(text@.subrange(start, i as int)) > 4095,
            decreases len - i,
        {
            let c = text.get_char(i);
            if !('0' <= c && c <= '9') {
                proof {
                    assert(digits[i - start] == text@[i as int]);
                }
                return Err(OutOfRange);
            }
            proof {
                let longer = text@.subrange(start, i + 1);
                assert(longer.drop_last() =~= text@.subrange(start, i as int));
                assert(longer.last() == c);
            }
            if !over {
                let next = value * 10 + (c as u32 - '0' as u32) as u16;
                if next > 4095 {
                    over = true;
                } else {
                    value = next;
                }
            }
            i = i + 1;
        }
        proof {
            assert(text@.subrange(start, len as int) == digits);
            assert forall|j: int| 0 <= j < digits.len() implies is_digit(#[trigger] digits[j]) by {
                assert(digits[j] == text@[j + start]);
            }
        }
        if over {
            Err(OutOfRange)
        } else {
            Ok(Vlan(value))
        }
    }

    /// The identifier that a raw value stands for: one bound for every way of
    /// writing it.
    pub fn normalize(raw: &RawVlan) -> (r: Result<Vlan, OutOfRange>)
        ensures
            match r {
                Ok(vlan) => is_vlan_id(raw.value()) && raw.value() == Some(vlan@ as int),
                Err(_) => !is_vlan_id(raw.value()),
            },
    {
        match raw {
            RawVlan::Text(text) => Self::from_text(text.as_str()),
            RawVlan::Unsigned(value) => Self::from_unsigned(*value),
            RawVlan::Signed(value) => Self::from_signed(*value),
        }
    }
}

impl std::ops::Deref for Vlan {
    type Target = u16;

    fn deref(&self) -> (r: &u16)
        ensures
            *r == self@,
    {
        &self.0
    }
}

} // verus!
