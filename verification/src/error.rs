use vstd::prelude::*;

verus! {

/// The architectural exception taxonomy: every fault, trap or abort the
/// interpreter can surface to its host.
#[derive(Debug, Clone, Copy, Eq, PartialEq, Structural)]
pub enum ErrorKind {
    // Arithmetic
    IntegerOverflow,
    IntegerDivZero,
    DecimalDivZero,
    DecimalOverflow,
    SubscriptRange,
    FloatingOverflow,
    FloatingDivZero,
    FloatingUnderflow,
    // Memory management
    AccessControlViolation,
    TranslationNotValid,
    // Operand reference
    ReservedAddressingMode,
    ReservedOperand,
    // Instruction execution
    ReservedInstruction,
    PrivilegedInstruction,
    OpcodeReservedToCustomers,
    ChangeMode,
    Breakpoint,
    Trace,
    // Other
    KernelStackNotValid,
    InterruptStackNotValid,
    MachineCheck,
}

/// A typed fault value handed to the host: the kind of exception plus two
/// longwords of exception-specific data (the triggering address, where one
/// exists).
#[derive(Debug, Clone, Copy, Eq, PartialEq, Structural)]
pub struct Error {
    kind: ErrorKind,
    data0: u32,
    data1: u32,
}

impl Error {
    /// The kind of exception this error reports.
    pub closed spec fn kind_spec(self) -> ErrorKind {
        self.kind
    }

    /// The exception-specific data longwords.
    pub closed spec fn data_spec(self) -> (u32, u32) {
        (self.data0, self.data1)
    }

    pub fn kind(self) -> (r: ErrorKind)
        ensures
            r == self.kind_spec(),
    {
        self.kind
    }

    pub fn data(self) -> (r: (u32, u32))
        ensures
            r == self.data_spec(),
    {
        (self.data0, self.data1)
    }

    pub fn new(kind: ErrorKind) -> (r: Error)
        ensures
            r.kind_spec() == kind,
            r.data_spec() == (0u32, 0u32),
    {
        Error { kind, data0: 0, data1: 0 }
    }

    /// A fault carrying the triggering address in its first data longword.
    pub fn with_addr(kind: ErrorKind, addr: u32) -> (r: Error)
        ensures
            r.kind_spec() == kind,
            r.data_spec() == (addr, 0u32),
    {
        Error { kind, data0: addr, data1: 0 }
    }

    pub fn new_address_mode_fault() -> (r: Error)
        ensures
            r.kind_spec() == ErrorKind::ReservedAddressingMode,
            r.data_spec() == (0u32, 0u32),
    {
        Error::new(ErrorKind::ReservedAddressingMode)
    }

    pub fn new_reserved_instruction_fault() -> (r: Error)
        ensures
            r.kind_spec() == ErrorKind::ReservedInstruction,
            r.data_spec() == (0u32, 0u32),
    {
        Error::new(ErrorKind::ReservedInstruction)
    }

    pub fn new_reserved_operand_fault() -> (r: Error)
        ensures
            r.kind_spec() == ErrorKind::ReservedOperand,
            r.data_spec() == (0u32, 0u32),
    {
        Error::new(ErrorKind::ReservedOperand)
    }

    pub fn new_privileged_instruction_fault() -> (r: Error)
        ensures
            r.kind_spec() == ErrorKind::PrivilegedInstruction,
            r.data_spec() == (0u32, 0u32),
    {
        Error::new(ErrorKind::PrivilegedInstruction)
    }

}

} // verus!
