use vstd::prelude::*;

verus! {

/// Why a class could not be read, a lookup failed, or execution stopped.
#[derive(Clone, Copy, Debug, PartialEq, Eq, Structural)]
pub enum JvmError {
    /// The class bytes end before a structure that they announce.
    UnexpectedEndOfInput,
    /// The class bytes do not start with `0xCAFEBABE`.
    BadMagic,
    /// A constant-pool entry carries a tag this reader does not know.
    UnsupportedConstantPoolTag(u8),
    /// A UTF-8 constant is not valid UTF-8.
    InvalidUtf8,
    /// A constant-pool index is out of range or names an entry of the wrong kind.
    BadConstantPoolIndex(u16),
    /// A field or method carries an attribute this reader does not know.
    UnsupportedAttribute(u16),
    /// A field attribute's length disagrees with its contents.
    InconsistentAttributeLength,
    /// A constant-pool entry has no string form, or its string form is cyclic.
    NotStringifiable(u16),
    /// A descriptor holds a character that names no type.
    IllegalDescriptorChar(char),
    /// A member reference names no class.
    KlassNameMissing,
    /// No class of that name is known to the repository.
    KlassNotFound,
    /// The class is mentioned but has not been loaded.
    KlassNotLoaded,
    /// No method of that name and descriptor exists on the class.
    MethodNotFound,
    /// No field of that name and descriptor exists on the class.
    FieldNotFound,
    /// A native method was invoked but has no native code installed.
    NativeCodeMissing,
    /// The system clock reads before the UNIX epoch.
    ClockBeforeEpoch,
    /// The operand stack holds too few values for the instruction.
    StackUnderflow,
    /// An operand has the wrong kind for the instruction.
    TypeMismatch,
    /// A local-variable index is out of range.
    LocalIndexOutOfRange,
    /// Execution ran off the end of the bytecode.
    CodeOverrun,
    /// A branch target lies before the start of the code.
    NegativeBranchTarget,
    /// An integer operation overflowed, divided by zero or shifted out of range.
    ArithmeticError,
    /// An int is not the code point of a character.
    InvalidChar,
    /// A heap reference names no object.
    ObjectNotFound,
    /// The heap object has the wrong kind for the instruction.
    WrongObjectKind,
    /// An array index or field offset lies outside the object.
    IndexOutOfRange,
    /// The heap can hold no more objects.
    OutOfMemory,
    /// An array was requested with a negative size.
    NegativeArraySize,
    /// `newarray` names an element type this interpreter does not know.
    UnsupportedArrayType,
    /// The byte is not an opcode this interpreter executes.
    IllegalOpcode(u8),
    /// The instruction needs floating-point arithmetic.
    FloatingPoint(u8),
    /// The step budget was used up.
    OutOfFuel,
    /// Calls nested too deeply.
    CallDepthExceeded,
}

} // verus!
