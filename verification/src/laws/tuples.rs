//! The laws for tuples.
use super::{RejectsAbsent, RoundTrip};
use crate::from_value::TryFromValue;
use crate::wire::Wire;
use vstd::prelude::*;

verus! {

/// A tuple comes back where all its components do.
impl<R0: RoundTrip<C0>, R1: RoundTrip<C1>, C0, C1> RoundTrip<(C0, C1)> for (R0, R1) {
    open spec fn comes_back(&self) -> bool {
        &&& self.0.comes_back()
        &&& self.1.comes_back()
    }

    proof fn round_trip(x: Self) {
        R0::round_trip(x.0);
        R1::round_trip(x.1);
    }
}

impl<A0: TryFromValue, A1: TryFromValue> RejectsAbsent for (A0, A1) {
    proof fn absent_is_incompatible(w: Wire) {
    }
}

/// A tuple comes back where all its components do.
impl<
    R0: RoundTrip<C0>,
    R1: RoundTrip<C1>,
    R2: RoundTrip<C2>,
    C0,
    C1,
    C2,
> RoundTrip<(C0, C1, C2)> for (R0, R1, R2) {
    open spec fn comes_back(&self) -> bool {
        &&& self.0.comes_back()
        &&& self.1.comes_back()
        &&& self.2.comes_back()
    }

    proof fn round_trip(x: Self) {
        R0::round_trip(x.0);
        R1::round_trip(x.1);
        R2::round_trip(x.2);
    }
}

impl<A0: TryFromValue, A1: TryFromValue, A2: TryFromValue> RejectsAbsent for (A0, A1, A2) {
    proof fn absent_is_incompatible(w: Wire) {
    }
}

/// A tuple comes back where all its components do.
impl<
    R0: RoundTrip<C0>,
    R1: RoundTrip<C1>,
    R2: RoundTrip<C2>,
    R3: RoundTrip<C3>,
    C0,
    C1,
    C2,
    C3,
> RoundTrip<(C0, C1, C2, C3)> for (R0, R1, R2, R3) {
    open spec fn comes_back(&self) -> bool {
        &&& self.0.comes_back()
        &&& self.1.comes_back()
        &&& self.2.comes_back()
        &&& self.3.comes_back()
    }

    proof fn round_trip(x: Self) {
        R0::round_trip(x.0);
        R1::round_trip(x.1);
        R2::round_trip(x.2);
        R3::round_trip(x.3);
    }
}

impl<
    A0: TryFromValue,
    A1: TryFromValue,
    A2: TryFromValue,
    A3: TryFromValue,
> RejectsAbsent for (A0, A1, A2, A3) {
    proof fn absent_is_incompatible(w: Wire) {
    }
}

/// A tuple comes back where all its components do.
impl<
    R0: RoundTrip<C0>,
    R1: RoundTrip<C1>,
    R2: RoundTrip<C2>,
    R3: RoundTrip<C3>,
    R4: RoundTrip<C4>,
    C0,
    C1,
    C2,
    C3,
    C4,
> RoundTrip<(C0, C1, C2, C3, C4)> for (R0, R1, R2, R3, R4) {
    open spec fn comes_back(&self) -> bool {
        &&& self.0.comes_back()
        &&& self.1.comes_back()
        &&& self.2.comes_back()
        &&& self.3.comes_back()
        &&& self.4.comes_back()
    }

    proof fn round_trip(x: Self) {
        R0::round_trip(x.0);
        R1::round_trip(x.1);
        R2::round_trip(x.2);
        R3::round_trip(x.3);
        R4::round_trip(x.4);
    }
}

impl<
    A0: TryFromValue,
    A1: TryFromValue,
    A2: TryFromValue,
    A3: TryFromValue,
    A4: TryFromValue,
> RejectsAbsent for (A0, A1, A2, A3, A4) {
    proof fn absent_is_incompatible(w: Wire) {
    }
}

/// A tuple comes back where all its components do.
impl<
    R0: RoundTrip<C0>,
    R1: RoundTrip<C1>,
    R2: RoundTrip<C2>,
    R3: RoundTrip<C3>,
    R4: RoundTrip<C4>,
    R5: RoundTrip<C5>,
    C0,
    C1,
    C2,
    C3,
    C4,
    C5,
> RoundTrip<(C0, C1, C2, C3, C4, C5)> for (R0, R1, R2, R3, R4, R5) {
    open spec fn comes_back(&self) -> bool {
        &&& self.0.comes_back()
        &&& self.1.comes_back()
        &&& self.2.comes_back()
        &&& self.3.comes_back()
        &&& self.4.comes_back()
        &&& self.5.comes_back()
    }

    proof fn round_trip(x: Self) {
        R0::round_trip(x.0);
        R1::round_trip(x.1);
        R2::round_trip(x.2);
        R3::round_trip(x.3);
        R4::round_trip(x.4);
        R5::round_trip(x.5);
    }
}

impl<
    A0: TryFromValue,
    A1: TryFromValue,
    A2: TryFromValue,
    A3: TryFromValue,
    A4: TryFromValue,
    A5: TryFromValue,
> RejectsAbsent for (A0, A1, A2, A3, A4, A5) {
    proof fn absent_is_incompatible(w: Wire) {
    }
}

/// A tuple comes back where all its components do.
impl<
    R0: RoundTrip<C0>,
    R1: RoundTrip<C1>,
    R2: RoundTrip<C2>,
    R3: RoundTrip<C3>,
    R4: RoundTrip<C4>,
    R5: RoundTrip<C5>,
    R6: RoundTrip<C6>,
    C0,
    C1,
    C2,
    C3,
    C4,
    C5,
    C6,
> RoundTrip<(C0, C1, C2, C3, C4, C5, C6)> for (R0, R1, R2, R3, R4, R5, R6) {
    open spec fn comes_back(&self) -> bool {
        &&& self.0.comes_back()
        &&& self.1.comes_back()
        &&& self.2.comes_back()
        &&& self.3.comes_back()
        &&& self.4.comes_back()
        &&& self.5.comes_back()
        &&& self.6.comes_back()
    }

    proof fn round_trip(x: Self) {
        R0::round_trip(x.0);
        R1::round_trip(x.1);
        R2::round_trip(x.2);
        R3::round_trip(x.3);
        R4::round_trip(x.4);
        R5::round_trip(x.5);
        R6::round_trip(x.6);
    }
}

impl<
    A0: TryFromValue,
    A1: TryFromValue,
    A2: TryFromValue,
    A3: TryFromValue,
    A4: TryFromValue,
    A5: TryFromValue,
    A6: TryFromValue,
> RejectsAbsent for (A0, A1, A2, A3, A4, A5, A6) {
    proof fn absent_is_incompatible(w: Wire) {
    }
}

/// A tuple comes back where all its components do.
impl<
    R0: RoundTrip<C0>,
    R1: RoundTrip<C1>,
    R2: RoundTrip<C2>,
    R3: RoundTrip<C3>,
    R4: RoundTrip<C4>,
    R5: RoundTrip<C5>,
    R6: RoundTrip<C6>,
    R7: RoundTrip<C7>,
    C0,
    C1,
    C2,
    C3,
    C4,
    C5,
    C6,
    C7,
> RoundTrip<(C0, C1, C2, C3, C4, C5, C6, C7)> for (R0, R1, R2, R3, R4, R5, R6, R7) {
    open spec fn comes_back(&self) -> bool {
        &&& self.0.comes_back()
        &&& self.1.comes_back()
        &&& self.2.comes_back()
        &&& self.3.comes_back()
        &&& self.4.comes_back()
        &&& self.5.comes_back()
        &&& self.6.comes_back()
        &&& self.7.comes_back()
    }

    proof fn round_trip(x: Self) {
        R0::round_trip(x.0);
        R1::round_trip(x.1);
        R2::round_trip(x.2);
        R3::round_trip(x.3);
        R4::round_trip(x.4);
        R5::round_trip(x.5);
        R6::round_trip(x.6);
        R7::round_trip(x.7);
    }
}

impl<
    A0: TryFromValue,
    A1: TryFromValue,
    A2: TryFromValue,
    A3: TryFromValue,
    A4: TryFromValue,
    A5: TryFromValue,
    A6: TryFromValue,
    A7: TryFromValue,
> RejectsAbsent for (A0, A1, A2, A3, A4, A5, A6, A7) {
    proof fn absent_is_incompatible(w: Wire) {
    }
}

/// A tuple comes back where all its components do.
impl<
    R0: RoundTrip<C0>,
    R1: RoundTrip<C1>,
    R2: RoundTrip<C2>,
    R3: RoundTrip<C3>,
    R4: RoundTrip<C4>,
    R5: RoundTrip<C5>,
    R6: RoundTrip<C6>,
    R7: RoundTrip<C7>,
    R8: RoundTrip<C8>,
    C0,
    C1,
    C2,
    C3,
    C4,
    C5,
    C6,
    C7,
    C8,
> RoundTrip<(C0, C1, C2, C3, C4, C5, C6, C7, C8)> for (R0, R1, R2, R3, R4, R5, R6, R7, R8) {
    open spec fn comes_back(&self) -> bool {
        &&& self.0.comes_back()
        &&& self.1.comes_back()
        &&& self.2.comes_back()
        &&& self.3.comes_back()
        &&& self.4.comes_back()
        &&& self.5.comes_back()
        &&& self.6.comes_back()
        &&& self.7.comes_back()
        &&& self.8.comes_back()
    }

    proof fn round_trip(x: Self) {
        R0::round_trip(x.0);
        R1::round_trip(x.1);
        R2::round_trip(x.2);
        R3::round_trip(x.3);
        R4::round_trip(x.4);
        R5::round_trip(x.5);
        R6::round_trip(x.6);
        R7::round_trip(x.7);
        R8::round_trip(x.8);
    }
}

impl<
    A0: TryFromValue,
    A1: TryFromValue,
    A2: TryFromValue,
    A3: TryFromValue,
    A4: TryFromValue,
    A5: TryFromValue,
    A6: TryFromValue,
    A7: TryFromValue,
    A8: TryFromValue,
> RejectsAbsent for (A0, A1, A2, A3, A4, A5, A6, A7, A8) {
    proof fn absent_is_incompatible(w: Wire) {
    }
}

/// A tuple comes back where all its components do.
impl<
    R0: RoundTrip<C0>,
    R1: RoundTrip<C1>,
    R2: RoundTrip<C2>,
    R3: RoundTrip<C3>,
    R4: RoundTrip<C4>,
    R5: RoundTrip<C5>,
    R6: RoundTrip<C6>,
    R7: RoundTrip<C7>,
    R8: RoundTrip<C8>,
    R9: RoundTrip<C9>,
    C0,
    C1,
    C2,
    C3,
    C4,
    C5,
    C6,
    C7,
    C8,
    C9,
> RoundTrip<(C0, C1, C2, C3, C4, C5, C6, C7, C8, C9)> for (R0, R1, R2, R3, R4, R5, R6, R7, R8, R9) {
    open spec fn comes_back(&self) -> bool {
        &&& self.0.comes_back()
        &&& self.1.comes_back()
        &&& self.2.comes_back()
        &&& self.3.comes_back()
        &&& self.4.comes_back()
        &&& self.5.comes_back()
        &&& self.6.comes_back()
        &&& self.7.comes_back()
        &&& self.8.comes_back()
        &&& self.9.comes_back()
    }

    proof fn round_trip(x: Self) {
        R0::round_trip(x.0);
        R1::round_trip(x.1);
        R2::round_trip(x.2);
        R3::round_trip(x.3);
        R4::round_trip(x.4);
        R5::round_trip(x.5);
        R6::round_trip(x.6);
        R7::round_trip(x.7);
        R8::round_trip(x.8);
        R9::round_trip(x.9);
    }
}

impl<
    A0: TryFromValue,
    A1: TryFromValue,
    A2: TryFromValue,
    A3: TryFromValue,
    A4: TryFromValue,
    A5: TryFromValue,
    A6: TryFromValue,
    A7: TryFromValue,
    A8: TryFromValue,
    A9: TryFromValue,
> RejectsAbsent for (A0, A1, A2, A3, A4, A5, A6, A7, A8, A9) {
    proof fn absent_is_incompatible(w: Wire) {
    }
}

/// A tuple comes back where all its components do.
impl<
    R0: RoundTrip<C0>,
    R1: RoundTrip<C1>,
    R2: RoundTrip<C2>,
    R3: RoundTrip<C3>,
    R4: RoundTrip<C4>,
    R5: RoundTrip<C5>,
    R6: RoundTrip<C6>,
    R7: RoundTrip<C7>,
    R8: RoundTrip<C8>,
    R9: RoundTrip<C9>,
    R10: RoundTrip<C10>,
    C0,
    C1,
    C2,
    C3,
    C4,
    C5,
    C6,
    C7,
    C8,
    C9,
    C10,
> RoundTrip<(C0, C1, C2, C3, C4, C5, C6, C7, C8, C9, C10)> for (
    R0,
    R1,
    R2,
    R3,
    R4,
    R5,
    R6,
    R7,
    R8,
    R9,
    R10,
) {
    open spec fn comes_back(&self) -> bool {
        &&& self.0.comes_back()
        &&& self.1.comes_back()
        &&& self.2.comes_back()
        &&& self.3.comes_back()
        &&& self.4.comes_back()
        &&& self.5.comes_back()
        &&& self.6.comes_back()
        &&& self.7.comes_back()
        &&& self.8.comes_back()
        &&& self.9.comes_back()
        &&& self.10.comes_back()
    }

    proof fn round_trip(x: Self) {
        R0::round_trip(x.0);
        R1::round_trip(x.1);
        R2::round_trip(x.2);
        R3::round_trip(x.3);
        R4::round_trip(x.4);
        R5::round_trip(x.5);
        R6::round_trip(x.6);
        R7::round_trip(x.7);
        R8::round_trip(x.8);
        R9::round_trip(x.9);
        R10::round_trip(x.10);
    }
}

impl<
    A0: TryFromValue,
    A1: TryFromValue,
    A2: TryFromValue,
    A3: TryFromValue,
    A4: TryFromValue,
    A5: TryFromValue,
    A6: TryFromValue,
    A7: TryFromValue,
    A8: TryFromValue,
    A9: TryFromValue,
    A10: TryFromValue,
> RejectsAbsent for (A0, A1, A2, A3, A4, A5, A6, A7, A8, A9, A10) {
    proof fn absent_is_incompatible(w: Wire) {
    }
}

/// A tuple comes back where all its components do.
impl<
    R0: RoundTrip<C0>,
    R1: RoundTrip<C1>,
    R2: RoundTrip<C2>,
    R3: RoundTrip<C3>,
    R4: RoundTrip<C4>,
    R5: RoundTrip<C5>,
    R6: RoundTrip<C6>,
    R7: RoundTrip<C7>,
    R8: RoundTrip<C8>,
    R9: RoundTrip<C9>,
    R10: RoundTrip<C10>,
    R11: RoundTrip<C11>,
    C0,
    C1,
    C2,
    C3,
    C4,
    C5,
    C6,
    C7,
    C8,
    C9,
    C10,
    C11,
> RoundTrip<
    (
        C0,
        C1,
        C2,
        C3,
        C4,
        C5,
        C6,
        C7,
        C8,
        C9,
        C10,
        C11,
    ),
> for (R0, R1, R2, R3, R4, R5, R6, R7, R8, R9, R10, R11) {
    open spec fn comes_back(&self) -> bool {
        &&& self.0.comes_back()
        &&& self.1.comes_back()
        &&& self.2.comes_back()
        &&& self.3.comes_back()
        &&& self.4.comes_back()
        &&& self.5.comes_back()
        &&& self.6.comes_back()
        &&& self.7.comes_back()
        &&& self.8.comes_back()
        &&& self.9.comes_back()
        &&& self.10.comes_back()
        &&& self.11.comes_back()
    }

    proof fn round_trip(x: Self) {
        R0::round_trip(x.0);
        R1::round_trip(x.1);
        R2::round_trip(x.2);
        R3::round_trip(x.3);
        R4::round_trip(x.4);
        R5::round_trip(x.5);
        R6::round_trip(x.6);
        R7::round_trip(x.7);
        R8::round_trip(x.8);
        R9::round_trip(x.9);
        R10::round_trip(x.10);
        R11::round_trip(x.11);
    }
}

impl<
    A0: TryFromValue,
    A1: TryFromValue,
    A2: TryFromValue,
    A3: TryFromValue,
    A4: TryFromValue,
    A5: TryFromValue,
    A6: TryFromValue,
    A7: TryFromValue,
    A8: TryFromValue,
    A9: TryFromValue,
    A10: TryFromValue,
    A11: TryFromValue,
> RejectsAbsent for (A0, A1, A2, A3, A4, A5, A6, A7, A8, A9, A10, A11) {
    proof fn absent_is_incompatible(w: Wire) {
    }
}

/// A tuple comes back where all its components do.
impl<
    R0: RoundTrip<C0>,
    R1: RoundTrip<C1>,
    R2: RoundTrip<C2>,
    R3: RoundTrip<C3>,
    R4: RoundTrip<C4>,
    R5: RoundTrip<C5>,
    R6: RoundTrip<C6>,
    R7: RoundTrip<C7>,
    R8: RoundTrip<C8>,
    R9: RoundTrip<C9>,
    R10: RoundTrip<C10>,
    R11: RoundTrip<C11>,
    R12: RoundTrip<C12>,
    C0,
    C1,
    C2,
    C3,
    C4,
    C5,
    C6,
    C7,
    C8,
    C9,
    C10,
    C11,
    C12,
> RoundTrip<
    (
        C0,
        C1,
        C2,
        C3,
        C4,
        C5,
        C6,
        C7,
        C8,
        C9,
        C10,
        C11,
        C12,
    ),
> for (R0, R1, R2, R3, R4, R5, R6, R7, R8, R9, R10, R11, R12) {
    open spec fn comes_back(&self) -> bool {
        &&& self.0.comes_back()
        &&& self.1.comes_back()
        &&& self.2.comes_back()
        &&& self.3.comes_back()
        &&& self.4.comes_back()
        &&& self.5.comes_back()
        &&& self.6.comes_back()
        &&& self.7.comes_back()
        &&& self.8.comes_back()
        &&& self.9.comes_back()
        &&& self.10.comes_back()
        &&& self.11.comes_back()
        &&& self.12.comes_back()
    }

    proof fn round_trip(x: Self) {
        R0::round_trip(x.0);
        R1::round_trip(x.1);
        R2::round_trip(x.2);
        R3::round_trip(x.3);
        R4::round_trip(x.4);
        R5::round_trip(x.5);
        R6::round_trip(x.6);
        R7::round_trip(x.7);
        R8::round_trip(x.8);
        R9::round_trip(x.9);
        R10::round_trip(x.10);
        R11::round_trip(x.11);
        R12::round_trip(x.12);
    }
}

impl<
    A0: TryFromValue,
    A1: TryFromValue,
    A2: TryFromValue,
    A3: TryFromValue,
    A4: TryFromValue,
    A5: TryFromValue,
    A6: TryFromValue,
    A7: TryFromValue,
    A8: TryFromValue,
    A9: TryFromValue,
    A10: TryFromValue,
    A11: TryFromValue,
    A12: TryFromValue,
> RejectsAbsent for (A0, A1, A2, A3, A4, A5, A6, A7, A8, A9, A10, A11, A12) {
    proof fn absent_is_incompatible(w: Wire) {
    }
}

/// A tuple comes back where all its components do.
impl<
    R0: RoundTrip<C0>,
    R1: RoundTrip<C1>,
    R2: RoundTrip<C2>,
    R3: RoundTrip<C3>,
    R4: RoundTrip<C4>,
    R5: RoundTrip<C5>,
    R6: RoundTrip<C6>,
    R7: RoundTrip<C7>,
    R8: RoundTrip<C8>,
    R9: RoundTrip<C9>,
    R10: RoundTrip<C10>,
    R11: RoundTrip<C11>,
    R12: RoundTrip<C12>,
    R13: RoundTrip<C13>,
    C0,
    C1,
    C2,
    C3,
    C4,
    C5,
    C6,
    C7,
    C8,
    C9,
    C10,
    C11,
    C12,
    C13,
> RoundTrip<
    (
        C0,
        C1,
        C2,
        C3,
        C4,
        C5,
        C6,
        C7,
        C8,
        C9,
        C10,
        C11,
        C12,
        C13,
    ),
> for (R0, R1, R2, R3, R4, R5, R6, R7, R8, R9, R10, R11, R12, R13) {
    open spec fn comes_back(&self) -> bool {
        &&& self.0.comes_back()
        &&& self.1.comes_back()
        &&& self.2.comes_back()
        &&& self.3.comes_back()
        &&& self.4.comes_back()
        &&& self.5.comes_back()
        &&& self.6.comes_back()
        &&& self.7.comes_back()
        &&& self.8.comes_back()
        &&& self.9.comes_back()
        &&& self.10.comes_back()
        &&& self.11.comes_back()
        &&& self.12.comes_back()
        &&& self.13.comes_back()
    }

    proof fn round_trip(x: Self) {
        R0::round_trip(x.0);
        R1::round_trip(x.1);
        R2::round_trip(x.2);
        R3::round_trip(x.3);
        R4::round_trip(x.4);
        R5::round_trip(x.5);
        R6::round_trip(x.6);
        R7::round_trip(x.7);
        R8::round_trip(x.8);
        R9::round_trip(x.9);
        R10::round_trip(x.10);
        R11::round_trip(x.11);
        R12::round_trip(x.12);
        R13::round_trip(x.13);
    }
}

impl<
    A0: TryFromValue,
    A1: TryFromValue,
    A2: TryFromValue,
    A3: TryFromValue,
    A4: TryFromValue,
    A5: TryFromValue,
    A6: TryFromValue,
    A7: TryFromValue,
    A8: TryFromValue,
    A9: TryFromValue,
    A10: TryFromValue,
    A11: TryFromValue,
    A12: TryFromValue,
    A13: TryFromValue,
> RejectsAbsent for (A0, A1, A2, A3, A4, A5, A6, A7, A8, A9, A10, A11, A12, A13) {
    proof fn absent_is_incompatible(w: Wire) {
    }
}

/// A tuple comes back where all its components do.
impl<
    R0: RoundTrip<C0>,
    R1: RoundTrip<C1>,
    R2: RoundTrip<C2>,
    R3: RoundTrip<C3>,
    R4: RoundTrip<C4>,
    R5: RoundTrip<C5>,
    R6: RoundTrip<C6>,
    R7: RoundTrip<C7>,
    R8: RoundTrip<C8>,
    R9: RoundTrip<C9>,
    R10: RoundTrip<C10>,
    R11: RoundTrip<C11>,
    R12: RoundTrip<C12>,
    R13: RoundTrip<C13>,
    R14: RoundTrip<C14>,
    C0,
    C1,
    C2,
    C3,
    C4,
    C5,
    C6,
    C7,
    C8,
    C9,
    C10,
    C11,
    C12,
    C13,
    C14,
> RoundTrip<
    (
        C0,
        C1,
        C2,
        C3,
        C4,
        C5,
        C6,
        C7,
        C8,
        C9,
        C10,
        C11,
        C12,
        C13,
        C14,
    ),
> for (R0, R1, R2, R3, R4, R5, R6, R7, R8, R9, R10, R11, R12, R13, R14) {
    open spec fn comes_back(&self) -> bool {
        &&& self.0.comes_back()
        &&& self.1.comes_back()
        &&& self.2.comes_back()
        &&& self.3.comes_back()
        &&& self.4.comes_back()
        &&& self.5.comes_back()
        &&& self.6.comes_back()
        &&& self.7.comes_back()
        &&& self.8.comes_back()
        &&& self.9.comes_back()
        &&& self.10.comes_back()
        &&& self.11.comes_back()
        &&& self.12.comes_back()
        &&& self.13.comes_back()
        &&& self.14.comes_back()
    }

    proof fn round_trip(x: Self) {
        R0::round_trip(x.0);
        R1::round_trip(x.1);
        R2::round_trip(x.2);
        R3::round_trip(x.3);
        R4::round_trip(x.4);
        R5::round_trip(x.5);
        R6::round_trip(x.6);
        R7::round_trip(x.7);
        R8::round_trip(x.8);
        R9::round_trip(x.9);
        R10::round_trip(x.10);
        R11::round_trip(x.11);
        R12::round_trip(x.12);
        R13::round_trip(x.13);
        R14::round_trip(x.14);
    }
}

impl<
    A0: TryFromValue,
    A1: TryFromValue,
    A2: TryFromValue,
    A3: TryFromValue,
    A4: TryFromValue,
    A5: TryFromValue,
    A6: TryFromValue,
    A7: TryFromValue,
    A8: TryFromValue,
    A9: TryFromValue,
    A10: TryFromValue,
    A11: TryFromValue,
    A12: TryFromValue,
    A13: TryFromValue,
    A14: TryFromValue,
> RejectsAbsent for (A0, A1, A2, A3, A4, A5, A6, A7, A8, A9, A10, A11, A12, A13, A14) {
    proof fn absent_is_incompatible(w: Wire) {
    }
}

/// A tuple comes back where all its components do.
impl<
    R0: RoundTrip<C0>,
    R1: RoundTrip<C1>,
    R2: RoundTrip<C2>,
    R3: RoundTrip<C3>,
    R4: RoundTrip<C4>,
    R5: RoundTrip<C5>,
    R6: RoundTrip<C6>,
    R7: RoundTrip<C7>,
    R8: RoundTrip<C8>,
    R9: RoundTrip<C9>,
    R10: RoundTrip<C10>,
    R11: RoundTrip<C11>,
    R12: RoundTrip<C12>,
    R13: RoundTrip<C13>,
    R14: RoundTrip<C14>,
    R15: RoundTrip<C15>,
    C0,
    C1,
    C2,
    C3,
    C4,
    C5,
    C6,
    C7,
    C8,
    C9,
    C10,
    C11,
    C12,
    C13,
    C14,
    C15,
> RoundTrip<
    (
        C0,
        C1,
        C2,
        C3,
        C4,
        C5,
        C6,
        C7,
        C8,
        C9,
        C10,
        C11,
        C12,
        C13,
        C14,
        C15,
    ),
> for (R0, R1, R2, R3, R4, R5, R6, R7, R8, R9, R10, R11, R12, R13, R14, R15) {
    open spec fn comes_back(&self) -> bool {
        &&& self.0.comes_back()
        &&& self.1.comes_back()
        &&& self.2.comes_back()
        &&& self.3.comes_back()
        &&& self.4.comes_back()
        &&& self.5.comes_back()
        &&& self.6.comes_back()
        &&& self.7.comes_back()
        &&& self.8.comes_back()
        &&& self.9.comes_back()
        &&& self.10.comes_back()
        &&& self.11.comes_back()
        &&& self.12.comes_back()
        &&& self.13.comes_back()
        &&& self.14.comes_back()
        &&& self.15.comes_back()
    }

    proof fn round_trip(x: Self) {
        R0::round_trip(x.0);
        R1::round_trip(x.1);
        R2::round_trip(x.2);
        R3::round_trip(x.3);
        R4::round_trip(x.4);
        R5::round_trip(x.5);
        R6::round_trip(x.6);
        R7::round_trip(x.7);
        R8::round_trip(x.8);
        R9::round_trip(x.9);
        R10::round_trip(x.10);
        R11::round_trip(x.11);
        R12::round_trip(x.12);
        R13::round_trip(x.13);
        R14::round_trip(x.14);
        R15::round_trip(x.15);
    }
}

impl<
    A0: TryFromValue,
    A1: TryFromValue,
    A2: TryFromValue,
    A3: TryFromValue,
    A4: TryFromValue,
    A5: TryFromValue,
    A6: TryFromValue,
    A7: TryFromValue,
    A8: TryFromValue,
    A9: TryFromValue,
    A10: TryFromValue,
    A11: TryFromValue,
    A12: TryFromValue,
    A13: TryFromValue,
    A14: TryFromValue,
    A15: TryFromValue,
> RejectsAbsent for (A0, A1, A2, A3, A4, A5, A6, A7, A8, A9, A10, A11, A12, A13, A14, A15) {
    proof fn absent_is_incompatible(w: Wire) {
    }
}

} // verus!
