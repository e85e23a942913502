use vstd::prelude::*;

verus! {

/// A value held on an operand stack, in a local-variable slot or in a field.
/// `Float` and `Double` hold the IEEE-754 bit pattern of the number;
/// `ObjRef` holds the id of an object on the heap (0 is null).
#[derive(Clone, Copy, Debug, PartialEq, Eq, Structural)]
pub enum JvmValue {
    Boolean(bool),
    Byte(i8),
    Short(i16),
    Int(i32),
    Long(i64),
    Float(u32),
    Double(u64),
    Char(char),
    ObjRef(usize),
}

/// The type letters of the JVM descriptor grammar that name a value kind.
pub open spec fn is_type_letter(c: char) -> bool {
    c == 'Z' || c == 'B' || c == 'S' || c == 'I' || c == 'J' || c == 'F' || c == 'D' || c == 'C'
        || c == 'A'
}

impl JvmValue {
    /// The descriptor letter of the value's kind.
    pub open spec fn spec_name(&self) -> char {
        match *self {
            JvmValue::Boolean(_) => 'Z',
            JvmValue::Byte(_) => 'B',
            JvmValue::Short(_) => 'S',
            JvmValue::Int(_) => 'I',
            JvmValue::Long(_) => 'J',
            JvmValue::Float(_) => 'F',
            JvmValue::Double(_) => 'D',
            JvmValue::Char(_) => 'C',
            JvmValue::ObjRef(_) => 'A',
        }
    }

    /// The zero value of the kind named by a descriptor letter.
    pub open spec fn spec_default_value(letter: char) -> JvmValue {
        if letter == 'Z' {
            JvmValue::Boolean(false)
        } else if letter == 'B' {
            JvmValue::Byte(0)
        } else if letter == 'S' {
            JvmValue::Short(0)
        } else if letter == 'I' {
            JvmValue::Int(0)
        } else if letter == 'J' {
            JvmValue::Long(0)
        } else if letter == 'F' {
            JvmValue::Float(0)
        } else if letter == 'D' {
            JvmValue::Double(0)
        } else if letter == 'C' {
            JvmValue::Char('\0')
        } else {
            JvmValue::ObjRef(0)
        }
    }

    pub fn name(&self) -> (r: char)
        ensures
            r == self.spec_name(),
    {
        match *self {
            JvmValue::Boolean(_) => 'Z',
            JvmValue::Byte(_) => 'B',
            JvmValue::Short(_) => 'S',
            JvmValue::Int(_) => 'I',
            JvmValue::Long(_) => 'J',
            JvmValue::Float(_) => 'F',
            JvmValue::Double(_) => 'D',
            JvmValue::Char(_) => 'C',
            JvmValue::ObjRef(_) => 'A',
        }
    }

    /// The zero value of the kind named by `letter`, which must be a type letter.
    pub fn default_value(letter: char) -> (r: JvmValue)
        requires
            is_type_letter(letter),
        ensures
            r == Self::spec_default_value(letter),
            r.spec_name() == letter,
    {
        match letter {
            'Z' => JvmValue::Boolean(false),
            'B' => JvmValue::Byte(0),
            'S' => JvmValue::Short(0),
            'I' => JvmValue::Int(0),
            'J' => JvmValue::Long(0),
            'F' => JvmValue::Float(0),
            'D' => JvmValue::Double(0),
            'C' => JvmValue::Char('\0'),
            _ => JvmValue::ObjRef(0),
        }
    }

    pub open spec fn spec_as_bool(self) -> Option<bool> {
        match self {
            JvmValue::Boolean(v) => Some(v),
            _ => None,
        }
    }

    pub open spec fn spec_as_byte(self) -> Option<i8> {
        match self {
            JvmValue::Byte(v) => Some(v),
            _ => None,
        }
    }

    pub open spec fn spec_as_short(self) -> Option<i16> {
        match self {
            JvmValue::Short(v) => Some(v),
            _ => None,
        }
    }

    pub open spec fn spec_as_int(self) -> Option<i32> {
        match self {
            JvmValue::Int(v) => Some(v),
            _ => None,
        }
    }

    pub open spec fn spec_as_long(self) -> Option<i64> {
        match self {
            JvmValue::Long(v) => Some(v),
            _ => None,
        }
    }

    pub open spec fn spec_as_float(self) -> Option<u32> {
        match self {
            JvmValue::Float(v) => Some(v),
            _ => None,
        }
    }

    pub open spec fn spec_as_double(self) -> Option<u64> {
        match self {
            JvmValue::Double(v) => Some(v),
            _ => None,
        }
    }

    pub open spec fn spec_as_char(self) -> Option<char> {
        match self {
            JvmValue::Char(v) => Some(v),
            _ => None,
        }
    }

    pub open spec fn spec_as_objref(self) -> Option<usize> {
        match self {
            JvmValue::ObjRef(v) => Some(v),
            _ => None,
        }
    }

    #[verifier::when_used_as_spec(spec_as_bool)]
    pub fn as_bool(self) -> (r: Option<bool>)
        ensures
            r == self.spec_as_bool(),
    {
        match self {
            JvmValue::Boolean(v) => Some(v),
            _ => None,
        }
    }

    #[verifier::when_used_as_spec(spec_as_byte)]
    pub fn as_byte(self) -> (r: Option<i8>)
        ensures
            r == self.spec_as_byte(),
    {
        match self {
            JvmValue::Byte(v) => Some(v),
            _ => None,
        }
    }

    #[verifier::when_used_as_spec(spec_as_short)]
    pub fn as_short(self) -> (r: Option<i16>)
        ensures
            r == self.spec_as_short(),
    {
        match self {
            JvmValue::Short(v) => Some(v),
            _ => None,
        }
    }

    #[verifier::when_used_as_spec(spec_as_int)]
    pub fn as_int(self) -> (r: Option<i32>)
        ensures
            r == self.spec_as_int(),
    {
        match self {
            JvmValue::Int(v) => Some(v),
            _ => None,
        }
    }

    #[verifier::when_used_as_spec(spec_as_long)]
    pub fn as_long(self) -> (r: Option<i64>)
        ensures
            r == self.spec_as_long(),
    {
        match self {
            JvmValue::Long(v) => Some(v),
            _ => None,
        }
    }

    /// The bit pattern of a `Float` value.
    #[verifier::when_used_as_spec(spec_as_float)]
    pub fn as_float(self) -> (r: Option<u32>)
        ensures
            r == self.spec_as_float(),
    {
        match self {
            JvmValue::Float(v) => Some(v),
            _ => None,
        }
    }

    /// The bit pattern of a `Double` value.
    #[verifier::when_used_as_spec(spec_as_double)]
    pub fn as_double(self) -> (r: Option<u64>)
        ensures
            r == self.spec_as_double(),
    {
        match self {
            JvmValue::Double(v) => Some(v),
            _ => None,
        }
    }

    #[verifier::when_used_as_spec(spec_as_char)]
    pub fn as_char(self) -> (r: Option<char>)
        ensures
            r == self.spec_as_char(),
    {
        match self {
            JvmValue::Char(v) => Some(v),
            _ => None,
        }
    }

    #[verifier::when_used_as_spec(spec_as_objref)]
    pub fn as_objref(self) -> (r: Option<usize>)
        ensures
            r == self.spec_as_objref(),
    {
        match self {
            JvmValue::ObjRef(v) => Some(v),
            _ => None,
        }
    }
}

impl Default for JvmValue {
    fn default() -> (r: JvmValue)
        ensures
            r == JvmValue::Int(0),
    {
        JvmValue::Int(0)
    }
}

} // verus!
