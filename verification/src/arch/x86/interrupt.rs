//! Architectural x86 interrupt-vector values.
//!
//! Exception assignments and error-code stack shapes follow Intel SDM Vol. 3A,
//! Table 6-1, and AMD64 APM Vol. 2, Section 8.2. AMD assigns vectors 28
//! through 30 to exceptions that Intel reserves; [`ExceptionVector`] keeps the
//! whole processor-reserved range so either vendor's vectors are representable.

use vstd::prelude::*;

verus! {

/// An x86 interrupt-vector number in the architectural eight-bit namespace.
#[derive(Debug, Clone, Copy, PartialEq, Eq, PartialOrd, Ord, Hash)]
pub struct InterruptVector(u8);

impl View for InterruptVector {
    type V = u8;

    closed spec fn view(&self) -> u8 {
        self.0
    }
}

impl InterruptVector {
    /// First vector available for user-defined interrupts.
    #[allow(non_snake_case)]
    pub fn FIRST_USER_DEFINED() -> (r: Self)
        ensures
            r@ == 32,
    {
        Self(32)
    }

    /// Constructs a vector from its architectural number.
    pub fn new(vector: u8) -> (r: Self)
        ensures
            r@ == vector,
    {
        Self(vector)
    }

    /// Returns the architectural vector number.
    pub fn get(self) -> (r: u8)
        ensures
            r == self@,
    {
        self.0
    }
}

/// Highest vector of the processor-reserved exception range.
pub open spec fn max_exception_vector() -> u8 {
    31
}

/// The assigned exception vectors whose hardware delivery pushes an error
/// code: #DF, #TS, #NP, #SS, #GP, #PF, #AC, #CP, #VC and #SX.
pub open spec fn error_code_vectors() -> Seq<u8> {
    seq![8u8, 10u8, 11u8, 12u8, 13u8, 14u8, 17u8, 21u8, 29u8, 30u8]
}

/// A vector in the processor-reserved exception range `0..=31`.
///
/// Not every value names an exception: vector 2 is the NMI and vectors 9, 15,
/// 22 through 27 and 31 are reserved.
#[derive(Debug, Clone, Copy, PartialEq, Eq, PartialOrd, Ord, Hash)]
pub struct ExceptionVector(u8);

impl View for ExceptionVector {
    type V = u8;

    closed spec fn view(&self) -> u8 {
        self.0
    }
}

impl ExceptionVector {
    #[verifier::type_invariant]
    spec fn in_reserved_range(self) -> bool {
        self.0 <= max_exception_vector()
    }

    /// Divide Error (`#DE`).
    #[allow(non_snake_case)]
    pub fn DIVIDE_ERROR() -> (r: Self)
        ensures
            r@ == 0,
    {
        Self(0)
    }

    /// Debug (`#DB`).
    #[allow(non_snake_case)]
    pub fn DEBUG() -> (r: Self)
        ensures
            r@ == 1,
    {
        Self(1)
    }

    /// Non-maskable interrupt (NMI).
    #[allow(non_snake_case)]
    pub fn NON_MASKABLE_INTERRUPT() -> (r: Self)
        ensures
            r@ == 2,
    {
        Self(2)
    }

    /// Breakpoint (`#BP`).
    #[allow(non_snake_case)]
    pub fn BREAKPOINT() -> (r: Self)
        ensures
            r@ == 3,
    {
        Self(3)
    }

    /// Overflow (`#OF`).
    #[allow(non_snake_case)]
    pub fn OVERFLOW() -> (r: Self)
        ensures
            r@ == 4,
    {
        Self(4)
    }

    /// Bound Range Exceeded (`#BR`).
    #[allow(non_snake_case)]
    pub fn BOUND_RANGE_EXCEEDED() -> (r: Self)
        ensures
            r@ == 5,
    {
        Self(5)
    }

    /// Invalid Opcode (`#UD`).
    #[allow(non_snake_case)]
    pub fn INVALID_OPCODE() -> (r: Self)
        ensures
            r@ == 6,
    {
        Self(6)
    }

    /// Device Not Available (`#NM`).
    #[allow(non_snake_case)]
    pub fn DEVICE_NOT_AVAILABLE() -> (r: Self)
        ensures
            r@ == 7,
    {
        Self(7)
    }

    /// Double Fault (`#DF`).
    #[allow(non_snake_case)]
    pub fn DOUBLE_FAULT() -> (r: Self)
        ensures
            r@ == 8,
    {
        Self(8)
    }

    /// Invalid TSS (`#TS`).
    #[allow(non_snake_case)]
    pub fn INVALID_TSS() -> (r: Self)
        ensures
            r@ == 10,
    {
        Self(10)
    }

    /// Segment Not Present (`#NP`).
    #[allow(non_snake_case)]
    pub fn SEGMENT_NOT_PRESENT() -> (r: Self)
        ensures
            r@ == 11,
    {
        Self(11)
    }

    /// Stack-Segment Fault (`#SS`).
    #[allow(non_snake_case)]
    pub fn STACK_SEGMENT_FAULT() -> (r: Self)
        ensures
            r@ == 12,
    {
        Self(12)
    }

    /// General Protection (`#GP`).
    #[allow(non_snake_case)]
    pub fn GENERAL_PROTECTION() -> (r: Self)
        ensures
            r@ == 13,
    {
        Self(13)
    }

    /// Page Fault (`#PF`).
    #[allow(non_snake_case)]
    pub fn PAGE_FAULT() -> (r: Self)
        ensures
            r@ == 14,
    {
        Self(14)
    }

    /// x87 floating-point error (`#MF`).
    #[allow(non_snake_case)]
    pub fn X87_FLOATING_POINT() -> (r: Self)
        ensures
            r@ == 16,
    {
        Self(16)
    }

    /// Alignment Check (`#AC`).
    #[allow(non_snake_case)]
    pub fn ALIGNMENT_CHECK() -> (r: Self)
        ensures
            r@ == 17,
    {
        Self(17)
    }

    /// Machine Check (`#MC`).
    #[allow(non_snake_case)]
    pub fn MACHINE_CHECK() -> (r: Self)
        ensures
            r@ == 18,
    {
        Self(18)
    }

    /// SIMD floating-point exception (`#XM` or `#XF`).
    #[allow(non_snake_case)]
    pub fn SIMD_FLOATING_POINT() -> (r: Self)
        ensures
            r@ == 19,
    {
        Self(19)
    }

    /// Virtualization Exception (`#VE`).
    #[allow(non_snake_case)]
    pub fn VIRTUALIZATION() -> (r: Self)
        ensures
            r@ == 20,
    {
        Self(20)
    }

    /// Control Protection Exception (`#CP`).
    #[allow(non_snake_case)]
    pub fn CONTROL_PROTECTION() -> (r: Self)
        ensures
            r@ == 21,
    {
        Self(21)
    }

    /// AMD Hypervisor Injection Exception (`#HV`).
    #[allow(non_snake_case)]
    pub fn HYPERVISOR_INJECTION() -> (r: Self)
        ensures
            r@ == 28,
    {
        Self(28)
    }

    /// AMD VMM Communication Exception (`#VC`).
    #[allow(non_snake_case)]
    pub fn VMM_COMMUNICATION() -> (r: Self)
        ensures
            r@ == 29,
    {
        Self(29)
    }

    /// AMD Security Exception (`#SX`).
    #[allow(non_snake_case)]
    pub fn SECURITY() -> (r: Self)
        ensures
            r@ == 30,
    {
        Self(30)
    }

    /// Lowest processor-reserved vector.
    #[allow(non_snake_case)]
    pub fn MIN() -> (r: Self)
        ensures
            r@ == 0,
    {
        Self(0)
    }

    /// Highest processor-reserved vector.
    #[allow(non_snake_case)]
    pub fn MAX() -> (r: Self)
        ensures
            r@ == max_exception_vector(),
    {
        Self(31)
    }

    /// Assigned exception vectors whose hardware delivery pushes an error code.
    ///
    /// Double Fault and Alignment Check push zero; the other entries carry an
    /// exception-specific image described by the architecture manuals.
    #[allow(non_snake_case)]
    pub fn WITH_ERROR_CODE() -> (r: [Self; 10])
        ensures
            r@.len() == error_code_vectors().len(),
            forall|i: int| 0 <= i < 10 ==> #[trigger] r@[i]@ == error_code_vectors()[i],
    {
        [
            Self(8),
            Self(10),
            Self(11),
            Self(12),
            Self(13),
            Self(14),
            Self(17),
            Self(21),
            Self(29),
            Self(30),
        ]
    }

    /// Constructs a vector in the processor-reserved range.
    ///
    /// Returns `None` for external and software-defined vectors.
    pub fn new(vector: u8) -> (r: Option<Self>)
        ensures
            r is Some <==> vector <= max_exception_vector(),
            r matches Some(v) ==> v@ == vector,
    {
        if vector <= 31 {
            Some(Self(vector))
        } else {
            None
        }
    }

    /// Returns the architectural vector number.
    pub fn get(self) -> (r: u8)
        ensures
            r == self@,
            r <= max_exception_vector(),
    {
        proof {
            use_type_invariant(self);
        }
        self.0
    }

    /// Returns whether hardware delivery pushes an architectural error-code
    /// slot for this vector.
    ///
    /// Software `INT n` delivery is a distinct event source and does not gain
    /// this stack shape merely by targeting the same vector number.
    pub fn pushes_error_code(self) -> (r: bool)
        ensures
            r <==> error_code_vectors().contains(self@),
    {
        let list = Self::WITH_ERROR_CODE();
        let mut index: usize = 0;
        while index < 10
            invariant
                index <= 10,
                forall|i: int| 0 <= i < 10 ==> #[trigger] list@[i]@ == error_code_vectors()[i],
                forall|i: int| 0 <= i < index ==> error_code_vectors()[i] != self@,
            decreases 10 - index,
        {
            if self.get() == list[index].get() {
                assert(error_code_vectors()[index as int] == self@);
                return true;
            }
            index += 1;
        }
        assert(!error_code_vectors().contains(self@)) by {
            assert(error_code_vectors().len() == 10);
        }
        false
    }

    /// Widens this processor-reserved vector into the full vector namespace.
    pub fn interrupt(self) -> (r: InterruptVector)
        ensures
            r@ == self@,
    {
        InterruptVector::new(self.get())
    }

    /// Narrows an interrupt vector into the processor-reserved range, handing
    /// the vector back when it lies outside.
    pub fn try_from(vector: InterruptVector) -> (r: Result<Self, InterruptVector>)
        ensures
            r is Ok <==> vector@ <= max_exception_vector(),
            r matches Ok(v) ==> v@ == vector@,
            r matches Err(w) ==> w == vector,
    {
        match Self::new(vector.get()) {
            Some(v) => Ok(v),
            None => Err(vector),
        }
    }
}

/// A raw x86 exception error-code image.
#[derive(Debug, Clone, Copy, PartialEq, Eq, PartialOrd, Ord, Hash)]
pub struct ExceptionErrorCode(u32);

impl View for ExceptionErrorCode {
    type V = u32;

    closed spec fn view(&self) -> u32 {
        self.0
    }
}

impl ExceptionErrorCode {
    /// Constructs an architectural exception error-code image.
    pub fn new(value: u32) -> (r: Self)
        ensures
            r@ == value,
    {
        Self(value)
    }

    /// Returns the architectural error-code image.
    pub fn get(self) -> (r: u32)
        ensures
            r == self@,
    {
        self.0
    }
}

/// An x86 start-up IPI vector.
///
/// The vector selects a 4 KiB page in the first MiB: its physical start
/// address is the vector shifted left by twelve bits.
#[derive(Debug, Clone, Copy, PartialEq, Eq, PartialOrd, Ord, Hash)]
pub struct StartupVector(u8);

impl View for StartupVector {
    type V = u8;

    closed spec fn view(&self) -> u8 {
        self.0
    }
}

impl StartupVector {
    /// Constructs a start-up IPI vector.
    pub fn new(vector: u8) -> (r: Self)
        ensures
            r@ == vector,
    {
        Self(vector)
    }

    /// Returns the IPI vector field.
    pub fn get(self) -> (r: u8)
        ensures
            r == self@,
    {
        self.0
    }
}

} // verus!
