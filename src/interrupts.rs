use vstd::prelude::*;

verus! {

/// First vector of the primary interrupt controller, just above the vectors
/// the processor reserves for its exceptions.
pub const PIC_1_OFFSET: u8 = 32;

/// First vector of the secondary interrupt controller.
pub const PIC_2_OFFSET: u8 = 40;

/// Number of entries of the vector table.
pub const VECTOR_COUNT: usize = 256;

/// Slot of the stack table that holds the dedicated double-fault stack.
pub const DOUBLE_FAULT_IST_INDEX: u16 = 0;

/// Lines of the interrupt controller that the system serves.
#[derive(Debug, Clone, Copy, PartialEq, Eq, Structural)]
pub enum InterruptIndex {
    Timer,
    Keyboard,
}

impl InterruptIndex {
    /// The vector of the line.
    pub open spec fn spec_vector(self) -> u8 {
        match self {
            InterruptIndex::Timer => PIC_1_OFFSET,
            InterruptIndex::Keyboard => (PIC_1_OFFSET + 1) as u8,
        }
    }

    /// The vector of the line.
    pub fn as_u8(self) -> (r: u8)
        ensures
            r == self.spec_vector(),
    {
        match self {
            InterruptIndex::Timer => PIC_1_OFFSET,
            InterruptIndex::Keyboard => PIC_1_OFFSET + 1,
        }
    }

    /// The vector of the line, as a table index.
    pub fn as_usize(self) -> (r: usize)
        ensures
            r == self.spec_vector(),
    {
        self.as_u8() as usize
    }
}

/// What the processor saves on entry to a trap handler.
#[derive(Debug, Clone, Copy)]
pub struct ExceptionStackFrame {
    pub instruction_pointer: u64,
    pub code_segment: u64,
    pub cpu_flags: u64,
    pub stack_pointer: u64,
    pub stack_segment: u64,
}

/// The traps that the vector table serves.
#[derive(Debug, Clone, Copy, PartialEq, Eq, Structural)]
pub enum Trap {
    DivideByZero,
    Breakpoint,
    InvalidOpcode,
    DoubleFault,
    PageFault,
    Timer,
    Keyboard,
}

impl Trap {
    /// Vector of the trap.
    pub open spec fn spec_vector(self) -> u8 {
        match self {
            Trap::DivideByZero => 0,
            Trap::Breakpoint => 3,
            Trap::InvalidOpcode => 6,
            Trap::DoubleFault => 8,
            Trap::PageFault => 14,
            Trap::Timer => InterruptIndex::Timer.spec_vector(),
            Trap::Keyboard => InterruptIndex::Keyboard.spec_vector(),
        }
    }

    /// Vector of the trap.
    pub fn vector(self) -> (r: u8)
        ensures
            r == self.spec_vector(),
    {
        match self {
            Trap::DivideByZero => 0,
            Trap::Breakpoint => 3,
            Trap::InvalidOpcode => 6,
            Trap::DoubleFault => 8,
            Trap::PageFault => 14,
            Trap::Timer => InterruptIndex::Timer.as_u8(),
            Trap::Keyboard => InterruptIndex::Keyboard.as_u8(),
        }
    }

    /// The trap served at `vector`, if any.
    pub open spec fn spec_from_vector(vector: u8) -> Option<Trap> {
        if vector == 0 {
            Some(Trap::DivideByZero)
        } else if vector == 3 {
            Some(Trap::Breakpoint)
        } else if vector == 6 {
            Some(Trap::InvalidOpcode)
        } else if vector == 8 {
            Some(Trap::DoubleFault)
        } else if vector == 14 {
            Some(Trap::PageFault)
        } else if vector == PIC_1_OFFSET {
            Some(Trap::Timer)
        } else if vector == PIC_1_OFFSET + 1 {
            Some(Trap::Keyboard)
        } else {
            None
        }
    }

    /// The trap served at `vector`, if any.
    pub fn from_vector(vector: u8) -> (r: Option<Trap>)
        ensures
            r == Trap::spec_from_vector(vector),
            r.is_some() ==> r.unwrap().spec_vector() == vector,
    {
        if vector == 0 {
            Some(Trap::DivideByZero)
        } else if vector == 3 {
            Some(Trap::Breakpoint)
        } else if vector == 6 {
            Some(Trap::InvalidOpcode)
        } else if vector == 8 {
            Some(Trap::DoubleFault)
        } else if vector == 14 {
            Some(Trap::PageFault)
        } else if vector == InterruptIndex::Timer.as_u8() {
            Some(Trap::Timer)
        } else if vector == InterruptIndex::Keyboard.as_u8() {
            Some(Trap::Keyboard)
        } else {
            None
        }
    }

    /// The trap ends the system: a divide error, a double fault or a page
    /// fault. A breakpoint or an invalid opcode is reported and execution
    /// resumes; the two hardware interrupts are served.
    pub fn is_fatal(self) -> (r: bool)
        ensures
            r == (self == Trap::DivideByZero || self == Trap::DoubleFault || self
                == Trap::PageFault),
    {
        match self {
            Trap::DivideByZero | Trap::DoubleFault | Trap::PageFault => true,
            _ => false,
        }
    }

    /// The processor pushes an error code for this trap.
    pub fn pushes_error_code(self) -> (r: bool)
        ensures
            r == (self == Trap::DoubleFault || self == Trap::PageFault),
    {
        match self {
            Trap::DoubleFault | Trap::PageFault => true,
            _ => false,
        }
    }

    /// Slot of the stack table whose stack the handler runs on, when it does
    /// not run on the interrupted stack.
    pub fn stack_index(self) -> (r: Option<u16>)
        ensures
            r == (if self == Trap::DoubleFault {
                Some(DOUBLE_FAULT_IST_INDEX)
            } else {
                None
            }),
    {
        match self {
            Trap::DoubleFault => Some(DOUBLE_FAULT_IST_INDEX),
            _ => None,
        }
    }

    /// The trap comes from the interrupt controller, which waits for an
    /// end-of-interrupt signal naming the vector.
    pub fn needs_end_of_interrupt(self) -> (r: bool)
        ensures
            r == (self == Trap::Timer || self == Trap::Keyboard),
    {
        match self {
            Trap::Timer | Trap::Keyboard => true,
            _ => false,
        }
    }
}

/// A reason bit of a page-fault error code.
#[derive(Debug, Clone, Copy, PartialEq, Eq, Structural)]
pub enum PageFaultReason {
    ProtectionViolation,
    CausedByWrite,
    UserMode,
    MalformedTable,
    InstructionFetch,
}

impl PageFaultReason {
    /// Value of the reason's bit in the error code.
    pub open spec fn spec_mask(self) -> u64 {
        match self {
            PageFaultReason::ProtectionViolation => 1,
            PageFaultReason::CausedByWrite => 2,
            PageFaultReason::UserMode => 4,
            PageFaultReason::MalformedTable => 8,
            PageFaultReason::InstructionFetch => 16,
        }
    }
}

/// Number of reason bits a page-fault error code can carry.
pub const PAGE_FAULT_BITS: u64 = 32;

/// A page-fault error code whose bits are all known reasons.
#[derive(Debug, Clone, Copy, PartialEq, Eq, Structural)]
pub struct PageFaultErrorCode {
    bits: u64,
}

impl PageFaultErrorCode {
    /// The raw error code.
    pub closed spec fn spec_bits(self) -> u64 {
        self.bits
    }

    /// The error code `bits`, unless it sets a bit that names no reason.
    pub fn from_bits(bits: u64) -> (r: Option<PageFaultErrorCode>)
        ensures
            r.is_some() == (bits < PAGE_FAULT_BITS),
            r.is_some() ==> r.unwrap().spec_bits() == bits,
    {
        if bits < PAGE_FAULT_BITS {
            Some(PageFaultErrorCode { bits })
        } else {
            None
        }
    }

    /// The raw error code.
    pub fn bits(&self) -> (r: u64)
        ensures
            r == self.spec_bits(),
    {
        self.bits
    }

    /// The code carries `reason`.
    pub fn contains(&self, reason: PageFaultReason) -> (r: bool)
        ensures
            r == ((self.spec_bits() / reason.spec_mask()) % 2 == 1),
    {
        let mask: u64 = match reason {
            PageFaultReason::ProtectionViolation => 1,
            PageFaultReason::CausedByWrite => 2,
            PageFaultReason::UserMode => 4,
            PageFaultReason::MalformedTable => 8,
            PageFaultReason::InstructionFetch => 16,
        };
        (self.bits / mask) % 2 == 1
    }
}

} // verus!
