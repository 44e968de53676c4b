//! Conversions to tuples: a collection of exactly as many items as the tuple
//! has components, converted one by one in their order.
use super::{exact_items, exact_items_of, take_at, TryFromValue};
use crate::error::{ConversionError, Failure};
use crate::proto::Value;
use crate::wire::Wire;
use vstd::prelude::*;

verus! {

impl<A0: TryFromValue, A1: TryFromValue> TryFromValue for (A0, A1) {
    type Model = (A0::Model, A1::Model);

    open spec fn model(&self) -> Self::Model {
        (self.0.model(), self.1.model())
    }

    open spec fn decoded(w: Wire) -> Result<Self::Model, Failure> {
        match exact_items_of(w, 2) {
            Err(e) => Err(e),
            Ok(items) => {
                let x0 = A0::decoded(items[0]);
                let x1 = A1::decoded(items[1]);
                if x0 is Err {
                    Err(x0->Err_0)
                } else if x1 is Err {
                    Err(x1->Err_0)
                } else {
                    Ok((x0->Ok_0, x1->Ok_0))
                }
            },
        }
    }

    open spec fn made_from(&self, w: Wire) -> bool {
        match w {
            Wire::Collection(items) => {
                &&& self.0.made_from(items[0])
                &&& self.1.made_from(items[1])
            },
            _ => true,
        }
    }

    fn try_from(value: Value) -> (r: Result<Self, ConversionError>) {
        let mut items = match exact_items(value, 2, "tuple of 2") {
            Ok(items) => items,
            Err(e) => {
                return Err(e);
            },
        };
        let x0 = match A0::try_from(take_at(&mut items, 0)) {
            Ok(x) => x,
            Err(e) => {
                return Err(e);
            },
        };
        let x1 = match A1::try_from(take_at(&mut items, 1)) {
            Ok(x) => x,
            Err(e) => {
                return Err(e);
            },
        };
        Ok((x0, x1))
    }
}

impl<A0: TryFromValue, A1: TryFromValue, A2: TryFromValue> TryFromValue for (A0, A1, A2) {
    type Model = (A0::Model, A1::Model, A2::Model);

    open spec fn model(&self) -> Self::Model {
        (self.0.model(), self.1.model(), self.2.model())
    }

    open spec fn decoded(w: Wire) -> Result<Self::Model, Failure> {
        match exact_items_of(w, 3) {
            Err(e) => Err(e),
            Ok(items) => {
                let x0 = A0::decoded(items[0]);
                let x1 = A1::decoded(items[1]);
                let x2 = A2::decoded(items[2]);
                if x0 is Err {
                    Err(x0->Err_0)
                } else if x1 is Err {
                    Err(x1->Err_0)
                } else if x2 is Err {
                    Err(x2->Err_0)
                } else {
                    Ok((x0->Ok_0, x1->Ok_0, x2->Ok_0))
                }
            },
        }
    }

    open spec fn made_from(&self, w: Wire) -> bool {
        match w {
            Wire::Collection(items) => {
                &&& self.0.made_from(items[0])
                &&& self.1.made_from(items[1])
                &&& self.2.made_from(items[2])
            },
            _ => true,
        }
    }

    fn try_from(value: Value) -> (r: Result<Self, ConversionError>) {
        let mut items = match exact_items(value, 3, "tuple of 3") {
            Ok(items) => items,
            Err(e) => {
                return Err(e);
            },
        };
        let x0 = match A0::try_from(take_at(&mut items, 0)) {
            Ok(x) => x,
            Err(e) => {
                return Err(e);
            },
        };
        let x1 = match A1::try_from(take_at(&mut items, 1)) {
            Ok(x) => x,
            Err(e) => {
                return Err(e);
            },
        };
        let x2 = match A2::try_from(take_at(&mut items, 2)) {
            Ok(x) => x,
            Err(e) => {
                return Err(e);
            },
        };
        Ok((x0, x1, x2))
    }
}

impl<
    A0: TryFromValue,
    A1: TryFromValue,
    A2: TryFromValue,
    A3: TryFromValue,
> TryFromValue for (A0, A1, A2, A3) {
    type Model = (A0::Model, A1::Model, A2::Model, A3::Model);

    open spec fn model(&self) -> Self::Model {
        (self.0.model(), self.1.model(), self.2.model(), self.3.model())
    }

    open spec fn decoded(w: Wire) -> Result<Self::Model, Failure> {
        match exact_items_of(w, 4) {
            Err(e) => Err(e),
            Ok(items) => {
                let x0 = A0::decoded(items[0]);
                let x1 = A1::decoded(items[1]);
                let x2 = A2::decoded(items[2]);
                let x3 = A3::decoded(items[3]);
                if x0 is Err {
                    Err(x0->Err_0)
                } else if x1 is Err {
                    Err(x1->Err_0)
                } else if x2 is Err {
                    Err(x2->Err_0)
                } else if x3 is Err {
                    Err(x3->Err_0)
                } else {
                    Ok((x0->Ok_0, x1->Ok_0, x2->Ok_0, x3->Ok_0))
                }
            },
        }
    }

    open spec fn made_from(&self, w: Wire) -> bool {
        match w {
            Wire::Collection(items) => {
                &&& self.0.made_from(items[0])
                &&& self.1.made_from(items[1])
                &&& self.2.made_from(items[2])
                &&& self.3.made_from(items[3])
            },
            _ => true,
        }
    }

    fn try_from(value: Value) -> (r: Result<Self, ConversionError>) {
        let mut items = match exact_items(value, 4, "tuple of 4") {
            Ok(items) => items,
            Err(e) => {
                return Err(e);
            },
        };
        let x0 = match A0::try_from(take_at(&mut items, 0)) {
            Ok(x) => x,
            Err(e) => {
                return Err(e);
            },
        };
        let x1 = match A1::try_from(take_at(&mut items, 1)) {
            Ok(x) => x,
            Err(e) => {
                return Err(e);
            },
        };
        let x2 = match A2::try_from(take_at(&mut items, 2)) {
            Ok(x) => x,
            Err(e) => {
                return Err(e);
            },
        };
        let x3 = match A3::try_from(take_at(&mut items, 3)) {
            Ok(x) => x,
            Err(e) => {
                return Err(e);
            },
        };
        Ok((x0, x1, x2, x3))
    }
}

impl<
    A0: TryFromValue,
    A1: TryFromValue,
    A2: TryFromValue,
    A3: TryFromValue,
    A4: TryFromValue,
> TryFromValue for (A0, A1, A2, A3, A4) {
    type Model = (A0::Model, A1::Model, A2::Model, A3::Model, A4::Model);

    open spec fn model(&self) -> Self::Model {
        (self.0.model(), self.1.model(), self.2.model(), self.3.model(), self.4.model())
    }

    open spec fn decoded(w: Wire) -> Result<Self::Model, Failure> {
        match exact_items_of(w, 5) {
            Err(e) => Err(e),
            Ok(items) => {
                let x0 = A0::decoded(items[0]);
                let x1 = A1::decoded(items[1]);
                let x2 = A2::decoded(items[2]);
                let x3 = A3::decoded(items[3]);
                let x4 = A4::decoded(items[4]);
                if x0 is Err {
                    Err(x0->Err_0)
                } else if x1 is Err {
                    Err(x1->Err_0)
                } else if x2 is Err {
                    Err(x2->Err_0)
                } else if x3 is Err {
                    Err(x3->Err_0)
                } else if x4 is Err {
                    Err(x4->Err_0)
                } else {
                    Ok((x0->Ok_0, x1->Ok_0, x2->Ok_0, x3->Ok_0, x4->Ok_0))
                }
            },
        }
    }

    open spec fn made_from(&self, w: Wire) -> bool {
        match w {
            Wire::Collection(items) => {
                &&& self.0.made_from(items[0])
                &&& self.1.made_from(items[1])
                &&& self.2.made_from(items[2])
                &&& self.3.made_from(items[3])
                &&& self.4.made_from(items[4])
            },
            _ => true,
        }
    }

    fn try_from(value: Value) -> (r: Result<Self, ConversionError>) {
        let mut items = match exact_items(value, 5, "tuple of 5") {
            Ok(items) => items,
            Err(e) => {
                return Err(e);
            },
        };
        let x0 = match A0::try_from(take_at(&mut items, 0)) {
            Ok(x) => x,
            Err(e) => {
                return Err(e);
            },
        };
        let x1 = match A1::try_from(take_at(&mut items, 1)) {
            Ok(x) => x,
            Err(e) => {
                return Err(e);
            },
        };
        let x2 = match A2::try_from(take_at(&mut items, 2)) {
            Ok(x) => x,
            Err(e) => {
                return Err(e);
            },
        };
        let x3 = match A3::try_from(take_at(&mut items, 3)) {
            Ok(x) => x,
            Err(e) => {
                return Err(e);
            },
        };
        let x4 = match A4::try_from(take_at(&mut items, 4)) {
            Ok(x) => x,
            Err(e) => {
                return Err(e);
            },
        };
        Ok((x0, x1, x2, x3, x4))
    }
}

impl<
    A0: TryFromValue,
    A1: TryFromValue,
    A2: TryFromValue,
    A3: TryFromValue,
    A4: TryFromValue,
    A5: TryFromValue,
> TryFromValue for (A0, A1, A2, A3, A4, A5) {
    type Model = (A0::Model, A1::Model, A2::Model, A3::Model, A4::Model, A5::Model);

    open spec fn model(&self) -> Self::Model {
        (
            self.0.model(),
            self.1.model(),
            self.2.model(),
            self.3.model(),
            self.4.model(),
            self.5.model(),
        )
    }

    open spec fn decoded(w: Wire) -> Result<Self::Model, Failure> {
        match exact_items_of(w, 6) {
            Err(e) => Err(e),
            Ok(items) => {
                let x0 = A0::decoded(items[0]);
                let x1 = A1::decoded(items[1]);
                let x2 = A2::decoded(items[2]);
                let x3 = A3::decoded(items[3]);
                let x4 = A4::decoded(items[4]);
                let x5 = A5::decoded(items[5]);
                if x0 is Err {
                    Err(x0->Err_0)
                } else if x1 is Err {
                    Err(x1->Err_0)
                } else if x2 is Err {
                    Err(x2->Err_0)
                } else if x3 is Err {
                    Err(x3->Err_0)
                } else if x4 is Err {
                    Err(x4->Err_0)
                } else if x5 is Err {
                    Err(x5->Err_0)
                } else {
                    Ok((x0->Ok_0, x1->Ok_0, x2->Ok_0, x3->Ok_0, x4->Ok_0, x5->Ok_0))
                }
            },
        }
    }

    open spec fn made_from(&self, w: Wire) -> bool {
        match w {
            Wire::Collection(items) => {
                &&& self.0.made_from(items[0])
                &&& self.1.made_from(items[1])
                &&& self.2.made_from(items[2])
                &&& self.3.made_from(items[3])
                &&& self.4.made_from(items[4])
                &&& self.5.made_from(items[5])
            },
            _ => true,
        }
    }

    fn try_from(value: Value) -> (r: Result<Self, ConversionError>) {
        let mut items = match exact_items(value, 6, "tuple of 6") {
            Ok(items) => items,
            Err(e) => {
                return Err(e);
            },
        };
        let x0 = match A0::try_from(take_at(&mut items, 0)) {
            Ok(x) => x,
            Err(e) => {
                return Err(e);
            },
        };
        let x1 = match A1::try_from(take_at(&mut items, 1)) {
            Ok(x) => x,
            Err(e) => {
                return Err(e);
            },
        };
        let x2 = match A2::try_from(take_at(&mut items, 2)) {
            Ok(x) => x,
            Err(e) => {
                return Err(e);
            },
        };
        let x3 = match A3::try_from(take_at(&mut items, 3)) {
            Ok(x) => x,
            Err(e) => {
                return Err(e);
            },
        };
        let x4 = match A4::try_from(take_at(&mut items, 4)) {
            Ok(x) => x,
            Err(e) => {
                return Err(e);
            },
        };
        let x5 = match A5::try_from(take_at(&mut items, 5)) {
            Ok(x) => x,
            Err(e) => {
                return Err(e);
            },
        };
        Ok((x0, x1, x2, x3, x4, x5))
    }
}

impl<
    A0: TryFromValue,
    A1: TryFromValue,
    A2: TryFromValue,
    A3: TryFromValue,
    A4: TryFromValue,
    A5: TryFromValue,
    A6: TryFromValue,
> TryFromValue for (A0, A1, A2, A3, A4, A5, A6) {
    type Model = (A0::Model, A1::Model, A2::Model, A3::Model, A4::Model, A5::Model, A6::Model);

    open spec fn model(&self) -> Self::Model {
        (
            self.0.model(),
            self.1.model(),
            self.2.model(),
            self.3.model(),
            self.4.model(),
            self.5.model(),
            self.6.model(),
        )
    }

    open spec fn decoded(w: Wire) -> Result<Self::Model, Failure> {
        match exact_items_of(w, 7) {
            Err(e) => Err(e),
            Ok(items) => {
                let x0 = A0::decoded(items[0]);
                let x1 = A1::decoded(items[1]);
                let x2 = A2::decoded(items[2]);
                let x3 = A3::decoded(items[3]);
                let x4 = A4::decoded(items[4]);
                let x5 = A5::decoded(items[5]);
                let x6 = A6::decoded(items[6]);
                if x0 is Err {
                    Err(x0->Err_0)
                } else if x1 is Err {
                    Err(x1->Err_0)
                } else if x2 is Err {
                    Err(x2->Err_0)
                } else if x3 is Err {
                    Err(x3->Err_0)
                } else if x4 is Err {
                    Err(x4->Err_0)
                } else if x5 is Err {
                    Err(x5->Err_0)
                } else if x6 is Err {
                    Err(x6->Err_0)
                } else {
                    Ok((x0->Ok_0, x1->Ok_0, x2->Ok_0, x3->Ok_0, x4->Ok_0, x5->Ok_0, x6->Ok_0))
                }
            },
        }
    }

    open spec fn made_from(&self, w: Wire) -> bool {
        match w {
            Wire::Collection(items) => {
                &&& self.0.made_from(items[0])
                &&& self.1.made_from(items[1])
                &&& self.2.made_from(items[2])
                &&& self.3.made_from(items[3])
                &&& self.4.made_from(items[4])
                &&& self.5.made_from(items[5])
                &&& self.6.made_from(items[6])
            },
            _ => true,
        }
    }

    fn try_from(value: Value) -> (r: Result<Self, ConversionError>) {
        let mut items = match exact_items(value, 7, "tuple of 7") {
            Ok(items) => items,
            Err(e) => {
                return Err(e);
            },
        };
        let x0 = match A0::try_from(take_at(&mut items, 0)) {
            Ok(x) => x,
            Err(e) => {
                return Err(e);
            },
        };
        let x1 = match A1::try_from(take_at(&mut items, 1)) {
            Ok(x) => x,
            Err(e) => {
                return Err(e);
            },
        };
        let x2 = match A2::try_from(take_at(&mut items, 2)) {
            Ok(x) => x,
            Err(e) => {
                return Err(e);
            },
        };
        let x3 = match A3::try_from(take_at(&mut items, 3)) {
            Ok(x) => x,
            Err(e) => {
                return Err(e);
            },
        };
        let x4 = match A4::try_from(take_at(&mut items, 4)) {
            Ok(x) => x,
            Err(e) => {
                return Err(e);
            },
        };
        let x5 = match A5::try_from(take_at(&mut items, 5)) {
            Ok(x) => x,
            Err(e) => {
                return Err(e);
            },
        };
        let x6 = match A6::try_from(take_at(&mut items, 6)) {
            Ok(x) => x,
            Err(e) => {
                return Err(e);
            },
        };
        Ok((x0, x1, x2, x3, x4, x5, x6))
    }
}

impl<
    A0: TryFromValue,
    A1: TryFromValue,
    A2: TryFromValue,
    A3: TryFromValue,
    A4: TryFromValue,
    A5: TryFromValue,
    A6: TryFromValue,
    A7: TryFromValue,
> TryFromValue for (A0, A1, A2, A3, A4, A5, A6, A7) {
    type Model = (
        A0::Model,
        A1::Model,
        A2::Model,
        A3::Model,
        A4::Model,
        A5::Model,
        A6::Model,
        A7::Model,
    );

    open spec fn model(&self) -> Self::Model {
        (
            self.0.model(),
            self.1.model(),
            self.2.model(),
            self.3.model(),
            self.4.model(),
            self.5.model(),
            self.6.model(),
            self.7.model(),
        )
    }

    open spec fn decoded(w: Wire) -> Result<Self::Model, Failure> {
        match exact_items_of(w, 8) {
            Err(e) => Err(e),
            Ok(items) => {
                let x0 = A0::decoded(items[0]);
                let x1 = A1::decoded(items[1]);
                let x2 = A2::decoded(items[2]);
                let x3 = A3::decoded(items[3]);
                let x4 = A4::decoded(items[4]);
                let x5 = A5::decoded(items[5]);
                let x6 = A6::decoded(items[6]);
                let x7 = A7::decoded(items[7]);
                if x0 is Err {
                    Err(x0->Err_0)
                } else if x1 is Err {
                    Err(x1->Err_0)
                } else if x2 is Err {
                    Err(x2->Err_0)
                } else if x3 is Err {
                    Err(x3->Err_0)
                } else if x4 is Err {
                    Err(x4->Err_0)
                } else if x5 is Err {
                    Err(x5->Err_0)
                } else if x6 is Err {
                    Err(x6->Err_0)
                } else if x7 is Err {
                    Err(x7->Err_0)
                } else {
                    Ok(
                        (
                            x0->Ok_0,
                            x1->Ok_0,
                            x2->Ok_0,
                            x3->Ok_0,
                            x4->Ok_0,
                            x5->Ok_0,
                            x6->Ok_0,
                            x7->Ok_0,
                        ),
                    )
                }
            },
        }
    }

    open spec fn made_from(&self, w: Wire) -> bool {
        match w {
            Wire::Collection(items) => {
                &&& self.0.made_from(items[0])
                &&& self.1.made_from(items[1])
                &&& self.2.made_from(items[2])
                &&& self.3.made_from(items[3])
                &&& self.4.made_from(items[4])
                &&& self.5.made_from(items[5])
                &&& self.6.made_from(items[6])
                &&& self.7.made_from(items[7])
            },
            _ => true,
        }
    }

    fn try_from(value: Value) -> (r: Result<Self, ConversionError>) {
        let mut items = match exact_items(value, 8, "tuple of 8") {
            Ok(items) => items,
            Err(e) => {
                return Err(e);
            },
        };
        let x0 = match A0::try_from(take_at(&mut items, 0)) {
            Ok(x) => x,
            Err(e) => {
                return Err(e);
            },
        };
        let x1 = match A1::try_from(take_at(&mut items, 1)) {
            Ok(x) => x,
            Err(e) => {
                return Err(e);
            },
        };
        let x2 = match A2::try_from(take_at(&mut items, 2)) {
            Ok(x) => x,
            Err(e) => {
                return Err(e);
            },
        };
        let x3 = match A3::try_from(take_at(&mut items, 3)) {
            Ok(x) => x,
            Err(e) => {
                return Err(e);
            },
        };
        let x4 = match A4::try_from(take_at(&mut items, 4)) {
            Ok(x) => x,
            Err(e) => {
                return Err(e);
            },
        };
        let x5 = match A5::try_from(take_at(&mut items, 5)) {
            Ok(x) => x,
            Err(e) => {
                return Err(e);
            },
        };
        let x6 = match A6::try_from(take_at(&mut items, 6)) {
            Ok(x) => x,
            Err(e) => {
                return Err(e);
            },
        };
        let x7 = match A7::try_from(take_at(&mut items, 7)) {
            Ok(x) => x,
            Err(e) => {
                return Err(e);
            },
        };
        Ok((x0, x1, x2, x3, x4, x5, x6, x7))
    }
}

impl<
    A0: TryFromValue,
    A1: TryFromValue,
    A2: TryFromValue,
    A3: TryFromValue,
    A4: TryFromValue,
    A5: TryFromValue,
    A6: TryFromValue,
    A7: TryFromValue,
    A8: TryFromValue,
> TryFromValue for (A0, A1, A2, A3, A4, A5, A6, A7, A8) {
    type Model = (
        A0::Model,
        A1::Model,
        A2::Model,
        A3::Model,
        A4::Model,
        A5::Model,
        A6::Model,
        A7::Model,
        A8::Model,
    );

    open spec fn model(&self) -> Self::Model {
        (
            self.0.model(),
            self.1.model(),
            self.2.model(),
            self.3.model(),
            self.4.model(),
            self.5.model(),
            self.6.model(),
            self.7.model(),
            self.8.model(),
        )
    }

    open spec fn decoded(w: Wire) -> Result<Self::Model, Failure> {
        match exact_items_of(w, 9) {
            Err(e) => Err(e),
            Ok(items) => {
                let x0 = A0::decoded(items[0]);
                let x1 = A1::decoded(items[1]);
                let x2 = A2::decoded(items[2]);
                let x3 = A3::decoded(items[3]);
                let x4 = A4::decoded(items[4]);
                let x5 = A5::decoded(items[5]);
                let x6 = A6::decoded(items[6]);
                let x7 = A7::decoded(items[7]);
                let x8 = A8::decoded(items[8]);
                if x0 is Err {
                    Err(x0->Err_0)
                } else if x1 is Err {
                    Err(x1->Err_0)
                } else if x2 is Err {
                    Err(x2->Err_0)
                } else if x3 is Err {
                    Err(x3->Err_0)
                } else if x4 is Err {
                    Err(x4->Err_0)
                } else if x5 is Err {
                    Err(x5->Err_0)
                } else if x6 is Err {
                    Err(x6->Err_0)
                } else if x7 is Err {
                    Err(x7->Err_0)
                } else if x8 is Err {
                    Err(x8->Err_0)
                } else {
                    Ok(
                        (
                            x0->Ok_0,
                            x1->Ok_0,
                            x2->Ok_0,
                            x3->Ok_0,
                            x4->Ok_0,
                            x5->Ok_0,
                            x6->Ok_0,
                            x7->Ok_0,
                            x8->Ok_0,
                        ),
                    )
                }
            },
        }
    }

    open spec fn made_from(&self, w: Wire) -> bool {
        match w {
            Wire::Collection(items) => {
                &&& self.0.made_from(items[0])
                &&& self.1.made_from(items[1])
                &&& self.2.made_from(items[2])
                &&& self.3.made_from(items[3])
                &&& self.4.made_from(items[4])
                &&& self.5.made_from(items[5])
                &&& self.6.made_from(items[6])
                &&& self.7.made_from(items[7])
                &&& self.8.made_from(items[8])
            },
            _ => true,
        }
    }

    fn try_from(value: Value) -> (r: Result<Self, ConversionError>) {
        let mut items = match exact_items(value, 9, "tuple of 9") {
            Ok(items) => items,
            Err(e) => {
                return Err(e);
            },
        };
        let x0 = match A0::try_from(take_at(&mut items, 0)) {
            Ok(x) => x,
            Err(e) => {
                return Err(e);
            },
        };
        let x1 = match A1::try_from(take_at(&mut items, 1)) {
            Ok(x) => x,
            Err(e) => {
                return Err(e);
            },
        };
        let x2 = match A2::try_from(take_at(&mut items, 2)) {
            Ok(x) => x,
            Err(e) => {
                return Err(e);
            },
        };
        let x3 = match A3::try_from(take_at(&mut items, 3)) {
            Ok(x) => x,
            Err(e) => {
                return Err(e);
            },
        };
        let x4 = match A4::try_from(take_at(&mut items, 4)) {
            Ok(x) => x,
            Err(e) => {
                return Err(e);
            },
        };
        let x5 = match A5::try_from(take_at(&mut items, 5)) {
            Ok(x) => x,
            Err(e) => {
                return Err(e);
            },
        };
        let x6 = match A6::try_from(take_at(&mut items, 6)) {
            Ok(x) => x,
            Err(e) => {
                return Err(e);
            },
        };
        let x7 = match A7::try_from(take_at(&mut items, 7)) {
            Ok(x) => x,
            Err(e) => {
                return Err(e);
            },
        };
        let x8 = match A8::try_from(take_at(&mut items, 8)) {
            Ok(x) => x,
            Err(e) => {
                return Err(e);
            },
        };
        Ok((x0, x1, x2, x3, x4, x5, x6, x7, x8))
    }
}

impl<
    A0: TryFromValue,
    A1: TryFromValue,
    A2: TryFromValue,
    A3: TryFromValue,
    A4: TryFromValue,
    A5: TryFromValue,
    A6: TryFromValue,
    A7: TryFromValue,
    A8: TryFromValue,
    A9: TryFromValue,
> TryFromValue for (A0, A1, A2, A3, A4, A5, A6, A7, A8, A9) {
    type Model = (
        A0::Model,
        A1::Model,
        A2::Model,
        A3::Model,
        A4::Model,
        A5::Model,
        A6::Model,
        A7::Model,
        A8::Model,
        A9::Model,
    );

    open spec fn model(&self) -> Self::Model {
        (
            self.0.model(),
            self.1.model(),
            self.2.model(),
            self.3.model(),
            self.4.model(),
            self.5.model(),
            self.6.model(),
            self.7.model(),
            self.8.model(),
            self.9.model(),
        )
    }

    open spec fn decoded(w: Wire) -> Result<Self::Model, Failure> {
        match exact_items_of(w, 10) {
            Err(e) => Err(e),
            Ok(items) => {
                let x0 = A0::decoded(items[0]);
                let x1 = A1::decoded(items[1]);
                let x2 = A2::decoded(items[2]);
                let x3 = A3::decoded(items[3]);
                let x4 = A4::decoded(items[4]);
                let x5 = A5::decoded(items[5]);
                let x6 = A6::decoded(items[6]);
                let x7 = A7::decoded(items[7]);
                let x8 = A8::decoded(items[8]);
                let x9 = A9::decoded(items[9]);
                if x0 is Err {
                    Err(x0->Err_0)
                } else if x1 is Err {
                    Err(x1->Err_0)
                } else if x2 is Err {
                    Err(x2->Err_0)
                } else if x3 is Err {
                    Err(x3->Err_0)
                } else if x4 is Err {
                    Err(x4->Err_0)
                } else if x5 is Err {
                    Err(x5->Err_0)
                } else if x6 is Err {
                    Err(x6->Err_0)
                } else if x7 is Err {
                    Err(x7->Err_0)
                } else if x8 is Err {
                    Err(x8->Err_0)
                } else if x9 is Err {
                    Err(x9->Err_0)
                } else {
                    Ok(
                        (
                            x0->Ok_0,
                            x1->Ok_0,
                            x2->Ok_0,
                            x3->Ok_0,
                            x4->Ok_0,
                            x5->Ok_0,
                            x6->Ok_0,
                            x7->Ok_0,
                            x8->Ok_0,
                            x9->Ok_0,
                        ),
                    )
                }
            },
        }
    }

    open spec fn made_from(&self, w: Wire) -> bool {
        match w {
            Wire::Collection(items) => {
                &&& self.0.made_from(items[0])
                &&& self.1.made_from(items[1])
                &&& self.2.made_from(items[2])
                &&& self.3.made_from(items[3])
                &&& self.4.made_from(items[4])
                &&& self.5.made_from(items[5])
                &&& self.6.made_from(items[6])
                &&& self.7.made_from(items[7])
                &&& self.8.made_from(items[8])
                &&& self.9.made_from(items[9])
            },
            _ => true,
        }
    }

    fn try_from(value: Value) -> (r: Result<Self, ConversionError>) {
        let mut items = match exact_items(value, 10, "tuple of 10") {
            Ok(items) => items,
            Err(e) => {
                return Err(e);
            },
        };
        let x0 = match A0::try_from(take_at(&mut items, 0)) {
            Ok(x) => x,
            Err(e) => {
                return Err(e);
            },
        };
        let x1 = match A1::try_from(take_at(&mut items, 1)) {
            Ok(x) => x,
            Err(e) => {
                return Err(e);
            },
        };
        let x2 = match A2::try_from(take_at(&mut items, 2)) {
            Ok(x) => x,
            Err(e) => {
                return Err(e);
            },
        };
        let x3 = match A3::try_from(take_at(&mut items, 3)) {
            Ok(x) => x,
            Err(e) => {
                return Err(e);
            },
        };
        let x4 = match A4::try_from(take_at(&mut items, 4)) {
            Ok(x) => x,
            Err(e) => {
                return Err(e);
            },
        };
        let x5 = match A5::try_from(take_at(&mut items, 5)) {
            Ok(x) => x,
            Err(e) => {
                return Err(e);
            },
        };
        let x6 = match A6::try_from(take_at(&mut items, 6)) {
            Ok(x) => x,
            Err(e) => {
                return Err(e);
            },
        };
        let x7 = match A7::try_from(take_at(&mut items, 7)) {
            Ok(x) => x,
            Err(e) => {
                return Err(e);
            },
        };
        let x8 = match A8::try_from(take_at(&mut items, 8)) {
            Ok(x) => x,
            Err(e) => {
                return Err(e);
            },
        };
        let x9 = match A9::try_from(take_at(&mut items, 9)) {
            Ok(x) => x,
            Err(e) => {
                return Err(e);
            },
        };
        Ok((x0, x1, x2, x3, x4, x5, x6, x7, x8, x9))
    }
}

impl<
    A0: TryFromValue,
    A1: TryFromValue,
    A2: TryFromValue,
    A3: TryFromValue,
    A4: TryFromValue,
    A5: TryFromValue,
    A6: TryFromValue,
    A7: TryFromValue,
    A8: TryFromValue,
    A9: TryFromValue,
    A10: TryFromValue,
> TryFromValue for (A0, A1, A2, A3, A4, A5, A6, A7, A8, A9, A10) {
    type Model = (
        A0::Model,
        A1::Model,
        A2::Model,
        A3::Model,
        A4::Model,
        A5::Model,
        A6::Model,
        A7::Model,
        A8::Model,
        A9::Model,
        A10::Model,
    );

    open spec fn model(&self) -> Self::Model {
        (
            self.0.model(),
            self.1.model(),
            self.2.model(),
            self.3.model(),
            self.4.model(),
            self.5.model(),
            self.6.model(),
            self.7.model(),
            self.8.model(),
            self.9.model(),
            self.10.model(),
        )
    }

    open spec fn decoded(w: Wire) -> Result<Self::Model, Failure> {
        match exact_items_of(w, 11) {
            Err(e) => Err(e),
            Ok(items) => {
                let x0 = A0::decoded(items[0]);
                let x1 = A1::decoded(items[1]);
                let x2 = A2::decoded(items[2]);
                let x3 = A3::decoded(items[3]);
                let x4 = A4::decoded(items[4]);
                let x5 = A5::decoded(items[5]);
                let x6 = A6::decoded(items[6]);
                let x7 = A7::decoded(items[7]);
                let x8 = A8::decoded(items[8]);
                let x9 = A9::decoded(items[9]);
                let x10 = A10::decoded(items[10]);
                if x0 is Err {
                    Err(x0->Err_0)
                } else if x1 is Err {
                    Err(x1->Err_0)
                } else if x2 is Err {
                    Err(x2->Err_0)
                } else if x3 is Err {
                    Err(x3->Err_0)
                } else if x4 is Err {
                    Err(x4->Err_0)
                } else if x5 is Err {
                    Err(x5->Err_0)
                } else if x6 is Err {
                    Err(x6->Err_0)
                } else if x7 is Err {
                    Err(x7->Err_0)
                } else if x8 is Err {
                    Err(x8->Err_0)
                } else if x9 is Err {
                    Err(x9->Err_0)
                } else if x10 is Err {
                    Err(x10->Err_0)
                } else {
                    Ok(
                        (
                            x0->Ok_0,
                            x1->Ok_0,
                            x2->Ok_0,
                            x3->Ok_0,
                            x4->Ok_0,
                            x5->Ok_0,
                            x6->Ok_0,
                            x7->Ok_0,
                            x8->Ok_0,
                            x9->Ok_0,
                            x10->Ok_0,
                        ),
                    )
                }
            },
        }
    }

    open spec fn made_from(&self, w: Wire) -> bool {
        match w {
            Wire::Collection(items) => {
                &&& self.0.made_from(items[0])
                &&& self.1.made_from(items[1])
                &&& self.2.made_from(items[2])
                &&& self.3.made_from(items[3])
                &&& self.4.made_from(items[4])
                &&& self.5.made_from(items[5])
                &&& self.6.made_from(items[6])
                &&& self.7.made_from(items[7])
                &&& self.8.made_from(items[8])
                &&& self.9.made_from(items[9])
                &&& self.10.made_from(items[10])
            },
            _ => true,
        }
    }

    fn try_from(value: Value) -> (r: Result<Self, ConversionError>) {
        let mut items = match exact_items(value, 11, "tuple of 11") {
            Ok(items) => items,
            Err(e) => {
                return Err(e);
            },
        };
        let x0 = match A0::try_from(take_at(&mut items, 0)) {
            Ok(x) => x,
            Err(e) => {
                return Err(e);
            },
        };
        let x1 = match A1::try_from(take_at(&mut items, 1)) {
            Ok(x) => x,
            Err(e) => {
                return Err(e);
            },
        };
        let x2 = match A2::try_from(take_at(&mut items, 2)) {
            Ok(x) => x,
            Err(e) => {
                return Err(e);
            },
        };
        let x3 = match A3::try_from(take_at(&mut items, 3)) {
            Ok(x) => x,
            Err(e) => {
                return Err(e);
            },
        };
        let x4 = match A4::try_from(take_at(&mut items, 4)) {
            Ok(x) => x,
            Err(e) => {
                return Err(e);
            },
        };
        let x5 = match A5::try_from(take_at(&mut items, 5)) {
            Ok(x) => x,
            Err(e) => {
                return Err(e);
            },
        };
        let x6 = match A6::try_from(take_at(&mut items, 6)) {
            Ok(x) => x,
            Err(e) => {
                return Err(e);
            },
        };
        let x7 = match A7::try_from(take_at(&mut items, 7)) {
            Ok(x) => x,
            Err(e) => {
                return Err(e);
            },
        };
        let x8 = match A8::try_from(take_at(&mut items, 8)) {
            Ok(x) => x,
            Err(e) => {
                return Err(e);
            },
        };
        let x9 = match A9::try_from(take_at(&mut items, 9)) {
            Ok(x) => x,
            Err(e) => {
                return Err(e);
            },
        };
        let x10 = match A10::try_from(take_at(&mut items, 10)) {
            Ok(x) => x,
            Err(e) => {
                return Err(e);
            },
        };
        Ok((x0, x1, x2, x3, x4, x5, x6, x7, x8, x9, x10))
    }
}

impl<
    A0: TryFromValue,
    A1: TryFromValue,
    A2: TryFromValue,
    A3: TryFromValue,
    A4: TryFromValue,
    A5: TryFromValue,
    A6: TryFromValue,
    A7: TryFromValue,
    A8: TryFromValue,
    A9: TryFromValue,
    A10: TryFromValue,
    A11: TryFromValue,
> TryFromValue for (A0, A1, A2, A3, A4, A5, A6, A7, A8, A9, A10, A11) {
    type Model = (
        A0::Model,
        A1::Model,
        A2::Model,
        A3::Model,
        A4::Model,
        A5::Model,
        A6::Model,
        A7::Model,
        A8::Model,
        A9::Model,
        A10::Model,
        A11::Model,
    );

    open spec fn model(&self) -> Self::Model {
        (
            self.0.model(),
            self.1.model(),
            self.2.model(),
            self.3.model(),
            self.4.model(),
            self.5.model(),
            self.6.model(),
            self.7.model(),
            self.8.model(),
            self.9.model(),
            self.10.model(),
            self.11.model(),
        )
    }

    open spec fn decoded(w: Wire) -> Result<Self::Model, Failure> {
        match exact_items_of(w, 12) {
            Err(e) => Err(e),
            Ok(items) => {
                let x0 = A0::decoded(items[0]);
                let x1 = A1::decoded(items[1]);
                let x2 = A2::decoded(items[2]);
                let x3 = A3::decoded(items[3]);
                let x4 = A4::decoded(items[4]);
                let x5 = A5::decoded(items[5]);
                let x6 = A6::decoded(items[6]);
                let x7 = A7::decoded(items[7]);
                let x8 = A8::decoded(items[8]);
                let x9 = A9::decoded(items[9]);
                let x10 = A10::decoded(items[10]);
                let x11 = A11::decoded(items[11]);
                if x0 is Err {
                    Err(x0->Err_0)
                } else if x1 is Err {
                    Err(x1->Err_0)
                } else if x2 is Err {
                    Err(x2->Err_0)
                } else if x3 is Err {
                    Err(x3->Err_0)
                } else if x4 is Err {
                    Err(x4->Err_0)
                } else if x5 is Err {
                    Err(x5->Err_0)
                } else if x6 is Err {
                    Err(x6->Err_0)
                } else if x7 is Err {
                    Err(x7->Err_0)
                } else if x8 is Err {
                    Err(x8->Err_0)
                } else if x9 is Err {
                    Err(x9->Err_0)
                } else if x10 is Err {
                    Err(x10->Err_0)
                } else if x11 is Err {
                    Err(x11->Err_0)
                } else {
                    Ok(
                        (
                            x0->Ok_0,
                            x1->Ok_0,
                            x2->Ok_0,
                            x3->Ok_0,
                            x4->Ok_0,
                            x5->Ok_0,
                            x6->Ok_0,
                            x7->Ok_0,
                            x8->Ok_0,
                            x9->Ok_0,
                            x10->Ok_0,
                            x11->Ok_0,
                        ),
                    )
                }
            },
        }
    }

    open spec fn made_from(&self, w: Wire) -> bool {
        match w {
            Wire::Collection(items) => {
                &&& self.0.made_from(items[0])
                &&& self.1.made_from(items[1])
                &&& self.2.made_from(items[2])
                &&& self.3.made_from(items[3])
                &&& self.4.made_from(items[4])
                &&& self.5.made_from(items[5])
                &&& self.6.made_from(items[6])
                &&& self.7.made_from(items[7])
                &&& self.8.made_from(items[8])
                &&& self.9.made_from(items[9])
                &&& self.10.made_from(items[10])
                &&& self.11.made_from(items[11])
            },
            _ => true,
        }
    }

    fn try_from(value: Value) -> (r: Result<Self, ConversionError>) {
        let mut items = match exact_items(value, 12, "tuple of 12") {
            Ok(items) => items,
            Err(e) => {
                return Err(e);
            },
        };
        let x0 = match A0::try_from(take_at(&mut items, 0)) {
            Ok(x) => x,
            Err(e) => {
                return Err(e);
            },
        };
        let x1 = match A1::try_from(take_at(&mut items, 1)) {
            Ok(x) => x,
            Err(e) => {
                return Err(e);
            },
        };
        let x2 = match A2::try_from(take_at(&mut items, 2)) {
            Ok(x) => x,
            Err(e) => {
                return Err(e);
            },
        };
        let x3 = match A3::try_from(take_at(&mut items, 3)) {
            Ok(x) => x,
            Err(e) => {
                return Err(e);
            },
        };
        let x4 = match A4::try_from(take_at(&mut items, 4)) {
            Ok(x) => x,
            Err(e) => {
                return Err(e);
            },
        };
        let x5 = match A5::try_from(take_at(&mut items, 5)) {
            Ok(x) => x,
            Err(e) => {
                return Err(e);
            },
        };
        let x6 = match A6::try_from(take_at(&mut items, 6)) {
            Ok(x) => x,
            Err(e) => {
                return Err(e);
            },
        };
        let x7 = match A7::try_from(take_at(&mut items, 7)) {
            Ok(x) => x,
            Err(e) => {
                return Err(e);
            },
        };
        let x8 = match A8::try_from(take_at(&mut items, 8)) {
            Ok(x) => x,
            Err(e) => {
                return Err(e);
            },
        };
        let x9 = match A9::try_from(take_at(&mut items, 9)) {
            Ok(x) => x,
            Err(e) => {
                return Err(e);
            },
        };
        let x10 = match A10::try_from(take_at(&mut items, 10)) {
            Ok(x) => x,
            Err(e) => {
                return Err(e);
            },
        };
        let x11 = match A11::try_from(take_at(&mut items, 11)) {
            Ok(x) => x,
            Err(e) => {
                return Err(e);
            },
        };
        Ok((x0, x1, x2, x3, x4, x5, x6, x7, x8, x9, x10, x11))
    }
}

impl<
    A0: TryFromValue,
    A1: TryFromValue,
    A2: TryFromValue,
    A3: TryFromValue,
    A4: TryFromValue,
    A5: TryFromValue,
    A6: TryFromValue,
    A7: TryFromValue,
    A8: TryFromValue,
    A9: TryFromValue,
    A10: TryFromValue,
    A11: TryFromValue,
    A12: TryFromValue,
> TryFromValue for (A0, A1, A2, A3, A4, A5, A6, A7, A8, A9, A10, A11, A12) {
    type Model = (
        A0::Model,
        A1::Model,
        A2::Model,
        A3::Model,
        A4::Model,
        A5::Model,
        A6::Model,
        A7::Model,
        A8::Model,
        A9::Model,
        A10::Model,
        A11::Model,
        A12::Model,
    );

    open spec fn model(&self) -> Self::Model {
        (
            self.0.model(),
            self.1.model(),
            self.2.model(),
            self.3.model(),
            self.4.model(),
            self.5.model(),
            self.6.model(),
            self.7.model(),
            self.8.model(),
            self.9.model(),
            self.10.model(),
            self.11.model(),
            self.12.model(),
        )
    }

    open spec fn decoded(w: Wire) -> Result<Self::Model, Failure> {
        match exact_items_of(w, 13) {
            Err(e) => Err(e),
            Ok(items) => {
                let x0 = A0::decoded(items[0]);
                let x1 = A1::decoded(items[1]);
                let x2 = A2::decoded(items[2]);
                let x3 = A3::decoded(items[3]);
                let x4 = A4::decoded(items[4]);
                let x5 = A5::decoded(items[5]);
                let x6 = A6::decoded(items[6]);
                let x7 = A7::decoded(items[7]);
                let x8 = A8::decoded(items[8]);
                let x9 = A9::decoded(items[9]);
                let x10 = A10::decoded(items[10]);
                let x11 = A11::decoded(items[11]);
                let x12 = A12::decoded(items[12]);
                if x0 is Err {
                    Err(x0->Err_0)
                } else if x1 is Err {
                    Err(x1->Err_0)
                } else if x2 is Err {
                    Err(x2->Err_0)
                } else if x3 is Err {
                    Err(x3->Err_0)
                } else if x4 is Err {
                    Err(x4->Err_0)
                } else if x5 is Err {
                    Err(x5->Err_0)
                } else if x6 is Err {
                    Err(x6->Err_0)
                } else if x7 is Err {
                    Err(x7->Err_0)
                } else if x8 is Err {
                    Err(x8->Err_0)
                } else if x9 is Err {
                    Err(x9->Err_0)
                } else if x10 is Err {
                    Err(x10->Err_0)
                } else if x11 is Err {
                    Err(x11->Err_0)
                } else if x12 is Err {
                    Err(x12->Err_0)
                } else {
                    Ok(
                        (
                            x0->Ok_0,
                            x1->Ok_0,
                            x2->Ok_0,
                            x3->Ok_0,
                            x4->Ok_0,
                            x5->Ok_0,
                            x6->Ok_0,
                            x7->Ok_0,
                            x8->Ok_0,
                            x9->Ok_0,
                            x10->Ok_0,
                            x11->Ok_0,
                            x12->Ok_0,
                        ),
                    )
                }
            },
        }
    }

    open spec fn made_from(&self, w: Wire) -> bool {
        match w {
            Wire::Collection(items) => {
                &&& self.0.made_from(items[0])
                &&& self.1.made_from(items[1])
                &&& self.2.made_from(items[2])
                &&& self.3.made_from(items[3])
                &&& self.4.made_from(items[4])
                &&& self.5.made_from(items[5])
                &&& self.6.made_from(items[6])
                &&& self.7.made_from(items[7])
                &&& self.8.made_from(items[8])
                &&& self.9.made_from(items[9])
                &&& self.10.made_from(items[10])
                &&& self.11.made_from(items[11])
                &&& self.12.made_from(items[12])
            },
            _ => true,
        }
    }

    fn try_from(value: Value) -> (r: Result<Self, ConversionError>) {
        let mut items = match exact_items(value, 13, "tuple of 13") {
            Ok(items) => items,
            Err(e) => {
                return Err(e);
            },
        };
        let x0 = match A0::try_from(take_at(&mut items, 0)) {
            Ok(x) => x,
            Err(e) => {
                return Err(e);
            },
        };
        let x1 = match A1::try_from(take_at(&mut items, 1)) {
            Ok(x) => x,
            Err(e) => {
                return Err(e);
            },
        };
        let x2 = match A2::try_from(take_at(&mut items, 2)) {
            Ok(x) => x,
            Err(e) => {
                return Err(e);
            },
        };
        let x3 = match A3::try_from(take_at(&mut items, 3)) {
            Ok(x) => x,
            Err(e) => {
                return Err(e);
            },
        };
        let x4 = match A4::try_from(take_at(&mut items, 4)) {
            Ok(x) => x,
            Err(e) => {
                return Err(e);
            },
        };
        let x5 = match A5::try_from(take_at(&mut items, 5)) {
            Ok(x) => x,
            Err(e) => {
                return Err(e);
            },
        };
        let x6 = match A6::try_from(take_at(&mut items, 6)) {
            Ok(x) => x,
            Err(e) => {
                return Err(e);
            },
        };
        let x7 = match A7::try_from(take_at(&mut items, 7)) {
            Ok(x) => x,
            Err(e) => {
                return Err(e);
            },
        };
        let x8 = match A8::try_from(take_at(&mut items, 8)) {
            Ok(x) => x,
            Err(e) => {
                return Err(e);
            },
        };
        let x9 = match A9::try_from(take_at(&mut items, 9)) {
            Ok(x) => x,
            Err(e) => {
                return Err(e);
            },
        };
        let x10 = match A10::try_from(take_at(&mut items, 10)) {
            Ok(x) => x,
            Err(e) => {
                return Err(e);
            },
        };
        let x11 = match A11::try_from(take_at(&mut items, 11)) {
            Ok(x) => x,
            Err(e) => {
                return Err(e);
            },
        };
        let x12 = match A12::try_from(take_at(&mut items, 12)) {
            Ok(x) => x,
            Err(e) => {
                return Err(e);
            },
        };
        Ok((x0, x1, x2, x3, x4, x5, x6, x7, x8, x9, x10, x11, x12))
    }
}

impl<
    A0: TryFromValue,
    A1: TryFromValue,
    A2: TryFromValue,
    A3: TryFromValue,
    A4: TryFromValue,
    A5: TryFromValue,
    A6: TryFromValue,
    A7: TryFromValue,
    A8: TryFromValue,
    A9: TryFromValue,
    A10: TryFromValue,
    A11: TryFromValue,
    A12: TryFromValue,
    A13: TryFromValue,
> TryFromValue for (A0, A1, A2, A3, A4, A5, A6, A7, A8, A9, A10, A11, A12, A13) {
    type Model = (
        A0::Model,
        A1::Model,
        A2::Model,
        A3::Model,
        A4::Model,
        A5::Model,
        A6::Model,
        A7::Model,
        A8::Model,
        A9::Model,
        A10::Model,
        A11::Model,
        A12::Model,
        A13::Model,
    );

    open spec fn model(&self) -> Self::Model {
        (
            self.0.model(),
            self.1.model(),
            self.2.model(),
            self.3.model(),
            self.4.model(),
            self.5.model(),
            self.6.model(),
            self.7.model(),
            self.8.model(),
            self.9.model(),
            self.10.model(),
            self.11.model(),
            self.12.model(),
            self.13.model(),
        )
    }

    open spec fn decoded(w: Wire) -> Result<Self::Model, Failure> {
        match exact_items_of(w, 14) {
            Err(e) => Err(e),
            Ok(items) => {
                let x0 = A0::decoded(items[0]);
                let x1 = A1::decoded(items[1]);
                let x2 = A2::decoded(items[2]);
                let x3 = A3::decoded(items[3]);
                let x4 = A4::decoded(items[4]);
                let x5 = A5::decoded(items[5]);
                let x6 = A6::decoded(items[6]);
                let x7 = A7::decoded(items[7]);
                let x8 = A8::decoded(items[8]);
                let x9 = A9::decoded(items[9]);
                let x10 = A10::decoded(items[10]);
                let x11 = A11::decoded(items[11]);
                let x12 = A12::decoded(items[12]);
                let x13 = A13::decoded(items[13]);
                if x0 is Err {
                    Err(x0->Err_0)
                } else if x1 is Err {
                    Err(x1->Err_0)
                } else if x2 is Err {
                    Err(x2->Err_0)
                } else if x3 is Err {
                    Err(x3->Err_0)
                } else if x4 is Err {
                    Err(x4->Err_0)
                } else if x5 is Err {
                    Err(x5->Err_0)
                } else if x6 is Err {
                    Err(x6->Err_0)
                } else if x7 is Err {
                    Err(x7->Err_0)
                } else if x8 is Err {
                    Err(x8->Err_0)
                } else if x9 is Err {
                    Err(x9->Err_0)
                } else if x10 is Err {
                    Err(x10->Err_0)
                } else if x11 is Err {
                    Err(x11->Err_0)
                } else if x12 is Err {
                    Err(x12->Err_0)
                } else if x13 is Err {
                    Err(x13->Err_0)
                } else {
                    Ok(
                        (
                            x0->Ok_0,
                            x1->Ok_0,
                            x2->Ok_0,
                            x3->Ok_0,
                            x4->Ok_0,
                            x5->Ok_0,
                            x6->Ok_0,
                            x7->Ok_0,
                            x8->Ok_0,
                            x9->Ok_0,
                            x10->Ok_0,
                            x11->Ok_0,
                            x12->Ok_0,
                            x13->Ok_0,
                        ),
                    )
                }
            },
        }
    }

    open spec fn made_from(&self, w: Wire) -> bool {
        match w {
            Wire::Collection(items) => {
                &&& self.0.made_from(items[0])
                &&& self.1.made_from(items[1])
                &&& self.2.made_from(items[2])
                &&& self.3.made_from(items[3])
                &&& self.4.made_from(items[4])
                &&& self.5.made_from(items[5])
                &&& self.6.made_from(items[6])
                &&& self.7.made_from(items[7])
                &&& self.8.made_from(items[8])
                &&& self.9.made_from(items[9])
                &&& self.10.made_from(items[10])
                &&& self.11.made_from(items[11])
                &&& self.12.made_from(items[12])
                &&& self.13.made_from(items[13])
            },
            _ => true,
        }
    }

    fn try_from(value: Value) -> (r: Result<Self, ConversionError>) {
        let mut items = match exact_items(value, 14, "tuple of 14") {
            Ok(items) => items,
            Err(e) => {
                return Err(e);
            },
        };
        let x0 = match A0::try_from(take_at(&mut items, 0)) {
            Ok(x) => x,
            Err(e) => {
                return Err(e);
            },
        };
        let x1 = match A1::try_from(take_at(&mut items, 1)) {
            Ok(x) => x,
            Err(e) => {
                return Err(e);
            },
        };
        let x2 = match A2::try_from(take_at(&mut items, 2)) {
            Ok(x) => x,
            Err(e) => {
                return Err(e);
            },
        };
        let x3 = match A3::try_from(take_at(&mut items, 3)) {
            Ok(x) => x,
            Err(e) => {
                return Err(e);
            },
        };
        let x4 = match A4::try_from(take_at(&mut items, 4)) {
            Ok(x) => x,
            Err(e) => {
                return Err(e);
            },
        };
        let x5 = match A5::try_from(take_at(&mut items, 5)) {
            Ok(x) => x,
            Err(e) => {
                return Err(e);
            },
        };
        let x6 = match A6::try_from(take_at(&mut items, 6)) {
            Ok(x) => x,
            Err(e) => {
                return Err(e);
            },
        };
        let x7 = match A7::try_from(take_at(&mut items, 7)) {
            Ok(x) => x,
            Err(e) => {
                return Err(e);
            },
        };
        let x8 = match A8::try_from(take_at(&mut items, 8)) {
            Ok(x) => x,
            Err(e) => {
                return Err(e);
            },
        };
        let x9 = match A9::try_from(take_at(&mut items, 9)) {
            Ok(x) => x,
            Err(e) => {
                return Err(e);
            },
        };
        let x10 = match A10::try_from(take_at(&mut items, 10)) {
            Ok(x) => x,
            Err(e) => {
                return Err(e);
            },
        };
        let x11 = match A11::try_from(take_at(&mut items, 11)) {
            Ok(x) => x,
            Err(e) => {
                return Err(e);
            },
        };
        let x12 = match A12::try_from(take_at(&mut items, 12)) {
            Ok(x) => x,
            Err(e) => {
                return Err(e);
            },
        };
        let x13 = match A13::try_from(take_at(&mut items, 13)) {
            Ok(x) => x,
            Err(e) => {
                return Err(e);
            },
        };
        Ok((x0, x1, x2, x3, x4, x5, x6, x7, x8, x9, x10, x11, x12, x13))
    }
}

impl<
    A0: TryFromValue,
    A1: TryFromValue,
    A2: TryFromValue,
    A3: TryFromValue,
    A4: TryFromValue,
    A5: TryFromValue,
    A6: TryFromValue,
    A7: TryFromValue,
    A8: TryFromValue,
    A9: TryFromValue,
    A10: TryFromValue,
    A11: TryFromValue,
    A12: TryFromValue,
    A13: TryFromValue,
    A14: TryFromValue,
> TryFromValue for (A0, A1, A2, A3, A4, A5, A6, A7, A8, A9, A10, A11, A12, A13, A14) {
    type Model = (
        A0::Model,
        A1::Model,
        A2::Model,
        A3::Model,
        A4::Model,
        A5::Model,
        A6::Model,
        A7::Model,
        A8::Model,
        A9::Model,
        A10::Model,
        A11::Model,
        A12::Model,
        A13::Model,
        A14::Model,
    );

    open spec fn model(&self) -> Self::Model {
        (
            self.0.model(),
            self.1.model(),
            self.2.model(),
            self.3.model(),
            self.4.model(),
            self.5.model(),
            self.6.model(),
            self.7.model(),
            self.8.model(),
            self.9.model(),
            self.10.model(),
            self.11.model(),
            self.12.model(),
            self.13.model(),
            self.14.model(),
        )
    }

    open spec fn decoded(w: Wire) -> Result<Self::Model, Failure> {
        match exact_items_of(w, 15) {
            Err(e) => Err(e),
            Ok(items) => {
                let x0 = A0::decoded(items[0]);
                let x1 = A1::decoded(items[1]);
                let x2 = A2::decoded(items[2]);
                let x3 = A3::decoded(items[3]);
                let x4 = A4::decoded(items[4]);
                let x5 = A5::decoded(items[5]);
                let x6 = A6::decoded(items[6]);
                let x7 = A7::decoded(items[7]);
                let x8 = A8::decoded(items[8]);
                let x9 = A9::decoded(items[9]);
                let x10 = A10::decoded(items[10]);
                let x11 = A11::decoded(items[11]);
                let x12 = A12::decoded(items[12]);
                let x13 = A13::decoded(items[13]);
                let x14 = A14::decoded(items[14]);
                if x0 is Err {
                    Err(x0->Err_0)
                } else if x1 is Err {
                    Err(x1->Err_0)
                } else if x2 is Err {
                    Err(x2->Err_0)
                } else if x3 is Err {
                    Err(x3->Err_0)
                } else if x4 is Err {
                    Err(x4->Err_0)
                } else if x5 is Err {
                    Err(x5->Err_0)
                } else if x6 is Err {
                    Err(x6->Err_0)
                } else if x7 is Err {
                    Err(x7->Err_0)
                } else if x8 is Err {
                    Err(x8->Err_0)
                } else if x9 is Err {
                    Err(x9->Err_0)
                } else if x10 is Err {
                    Err(x10->Err_0)
                } else if x11 is Err {
                    Err(x11->Err_0)
                } else if x12 is Err {
                    Err(x12->Err_0)
                } else if x13 is Err {
                    Err(x13->Err_0)
                } else if x14 is Err {
                    Err(x14->Err_0)
                } else {
                    Ok(
                        (
                            x0->Ok_0,
                            x1->Ok_0,
                            x2->Ok_0,
                            x3->Ok_0,
                            x4->Ok_0,
                            x5->Ok_0,
                            x6->Ok_0,
                            x7->Ok_0,
                            x8->Ok_0,
                            x9->Ok_0,
                            x10->Ok_0,
                            x11->Ok_0,
                            x12->Ok_0,
                            x13->Ok_0,
                            x14->Ok_0,
                        ),
                    )
                }
            },
        }
    }

    open spec fn made_from(&self, w: Wire) -> bool {
        match w {
            Wire::Collection(items) => {
                &&& self.0.made_from(items[0])
                &&& self.1.made_from(items[1])
                &&& self.2.made_from(items[2])
                &&& self.3.made_from(items[3])
                &&& self.4.made_from(items[4])
                &&& self.5.made_from(items[5])
                &&& self.6.made_from(items[6])
                &&& self.7.made_from(items[7])
                &&& self.8.made_from(items[8])
                &&& self.9.made_from(items[9])
                &&& self.10.made_from(items[10])
                &&& self.11.made_from(items[11])
                &&& self.12.made_from(items[12])
                &&& self.13.made_from(items[13])
                &&& self.14.made_from(items[14])
            },
            _ => true,
        }
    }

    fn try_from(value: Value) -> (r: Result<Self, ConversionError>) {
        let mut items = match exact_items(value, 15, "tuple of 15") {
            Ok(items) => items,
            Err(e) => {
                return Err(e);
            },
        };
        let x0 = match A0::try_from(take_at(&mut items, 0)) {
            Ok(x) => x,
            Err(e) => {
                return Err(e);
            },
        };
        let x1 = match A1::try_from(take_at(&mut items, 1)) {
            Ok(x) => x,
            Err(e) => {
                return Err(e);
            },
        };
        let x2 = match A2::try_from(take_at(&mut items, 2)) {
            Ok(x) => x,
            Err(e) => {
                return Err(e);
            },
        };
        let x3 = match A3::try_from(take_at(&mut items, 3)) {
            Ok(x) => x,
            Err(e) => {
                return Err(e);
            },
        };
        let x4 = match A4::try_from(take_at(&mut items, 4)) {
            Ok(x) => x,
            Err(e) => {
                return Err(e);
            },
        };
        let x5 = match A5::try_from(take_at(&mut items, 5)) {
            Ok(x) => x,
            Err(e) => {
                return Err(e);
            },
        };
        let x6 = match A6::try_from(take_at(&mut items, 6)) {
            Ok(x) => x,
            Err(e) => {
                return Err(e);
            },
        };
        let x7 = match A7::try_from(take_at(&mut items, 7)) {
            Ok(x) => x,
            Err(e) => {
                return Err(e);
            },
        };
        let x8 = match A8::try_from(take_at(&mut items, 8)) {
            Ok(x) => x,
            Err(e) => {
                return Err(e);
            },
        };
        let x9 = match A9::try_from(take_at(&mut items, 9)) {
            Ok(x) => x,
            Err(e) => {
                return Err(e);
            },
        };
        let x10 = match A10::try_from(take_at(&mut items, 10)) {
            Ok(x) => x,
            Err(e) => {
                return Err(e);
            },
        };
        let x11 = match A11::try_from(take_at(&mut items, 11)) {
            Ok(x) => x,
            Err(e) => {
                return Err(e);
            },
        };
        let x12 = match A12::try_from(take_at(&mut items, 12)) {
            Ok(x) => x,
            Err(e) => {
                return Err(e);
            },
        };
        let x13 = match A13::try_from(take_at(&mut items, 13)) {
            Ok(x) => x,
            Err(e) => {
                return Err(e);
            },
        };
        let x14 = match A14::try_from(take_at(&mut items, 14)) {
            Ok(x) => x,
            Err(e) => {
                return Err(e);
            },
        };
        Ok((x0, x1, x2, x3, x4, x5, x6, x7, x8, x9, x10, x11, x12, x13, x14))
    }
}

impl<
    A0: TryFromValue,
    A1: TryFromValue,
    A2: TryFromValue,
    A3: TryFromValue,
    A4: TryFromValue,
    A5: TryFromValue,
    A6: TryFromValue,
    A7: TryFromValue,
    A8: TryFromValue,
    A9: TryFromValue,
    A10: TryFromValue,
    A11: TryFromValue,
    A12: TryFromValue,
    A13: TryFromValue,
    A14: TryFromValue,
    A15: TryFromValue,
> TryFromValue for (A0, A1, A2, A3, A4, A5, A6, A7, A8, A9, A10, A11, A12, A13, A14, A15) {
    type Model = (
        A0::Model,
        A1::Model,
        A2::Model,
        A3::Model,
        A4::Model,
        A5::Model,
        A6::Model,
        A7::Model,
        A8::Model,
        A9::Model,
        A10::Model,
        A11::Model,
        A12::Model,
        A13::Model,
        A14::Model,
        A15::Model,
    );

    open spec fn model(&self) -> Self::Model {
        (
            self.0.model(),
            self.1.model(),
            self.2.model(),
            self.3.model(),
            self.4.model(),
            self.5.model(),
            self.6.model(),
            self.7.model(),
            self.8.model(),
            self.9.model(),
            self.10.model(),
            self.11.model(),
            self.12.model(),
            self.13.model(),
            self.14.model(),
            self.15.model(),
        )
    }

    open spec fn decoded(w: Wire) -> Result<Self::Model, Failure> {
        match exact_items_of(w, 16) {
            Err(e) => Err(e),
            Ok(items) => {
                let x0 = A0::decoded(items[0]);
                let x1 = A1::decoded(items[1]);
                let x2 = A2::decoded(items[2]);
                let x3 = A3::decoded(items[3]);
                let x4 = A4::decoded(items[4]);
                let x5 = A5::decoded(items[5]);
                let x6 = A6::decoded(items[6]);
                let x7 = A7::decoded(items[7]);
                let x8 = A8::decoded(items[8]);
                let x9 = A9::decoded(items[9]);
                let x10 = A10::decoded(items[10]);
                let x11 = A11::decoded(items[11]);
                let x12 = A12::decoded(items[12]);
                let x13 = A13::decoded(items[13]);
                let x14 = A14::decoded(items[14]);
                let x15 = A15::decoded(items[15]);
                if x0 is Err {
                    Err(x0->Err_0)
                } else if x1 is Err {
                    Err(x1->Err_0)
                } else if x2 is Err {
                    Err(x2->Err_0)
                } else if x3 is Err {
                    Err(x3->Err_0)
                } else if x4 is Err {
                    Err(x4->Err_0)
                } else if x5 is Err {
                    Err(x5->Err_0)
                } else if x6 is Err {
                    Err(x6->Err_0)
                } else if x7 is Err {
                    Err(x7->Err_0)
                } else if x8 is Err {
                    Err(x8->Err_0)
                } else if x9 is Err {
                    Err(x9->Err_0)
                } else if x10 is Err {
                    Err(x10->Err_0)
                } else if x11 is Err {
                    Err(x11->Err_0)
                } else if x12 is Err {
                    Err(x12->Err_0)
                } else if x13 is Err {
                    Err(x13->Err_0)
                } else if x14 is Err {
                    Err(x14->Err_0)
                } else if x15 is Err {
                    Err(x15->Err_0)
                } else {
                    Ok(
                        (
                            x0->Ok_0,
                            x1->Ok_0,
                            x2->Ok_0,
                            x3->Ok_0,
                            x4->Ok_0,
                            x5->Ok_0,
                            x6->Ok_0,
                            x7->Ok_0,
                            x8->Ok_0,
                            x9->Ok_0,
                            x10->Ok_0,
                            x11->Ok_0,
                            x12->Ok_0,
                            x13->Ok_0,
                            x14->Ok_0,
                            x15->Ok_0,
                        ),
                    )
                }
            },
        }
    }

    open spec fn made_from(&self, w: Wire) -> bool {
        match w {
            Wire::Collection(items) => {
                &&& self.0.made_from(items[0])
                &&& self.1.made_from(items[1])
                &&& self.2.made_from(items[2])
                &&& self.3.made_from(items[3])
                &&& self.4.made_from(items[4])
                &&& self.5.made_from(items[5])
                &&& self.6.made_from(items[6])
                &&& self.7.made_from(items[7])
                &&& self.8.made_from(items[8])
                &&& self.9.made_from(items[9])
                &&& self.10.made_from(items[10])
                &&& self.11.made_from(items[11])
                &&& self.12.made_from(items[12])
                &&& self.13.made_from(items[13])
                &&& self.14.made_from(items[14])
                &&& self.15.made_from(items[15])
            },
            _ => true,
        }
    }

    fn try_from(value: Value) -> (r: Result<Self, ConversionError>) {
        let mut items = match exact_items(value, 16, "tuple of 16") {
            Ok(items) => items,
            Err(e) => {
                return Err(e);
            },
        };
        let x0 = match A0::try_from(take_at(&mut items, 0)) {
            Ok(x) => x,
            Err(e) => {
                return Err(e);
            },
        };
        let x1 = match A1::try_from(take_at(&mut items, 1)) {
            Ok(x) => x,
            Err(e) => {
                return Err(e);
            },
        };
        let x2 = match A2::try_from(take_at(&mut items, 2)) {
            Ok(x) => x,
            Err(e) => {
                return Err(e);
            },
        };
        let x3 = match A3::try_from(take_at(&mut items, 3)) {
            Ok(x) => x,
            Err(e) => {
                return Err(e);
            },
        };
        let x4 = match A4::try_from(take_at(&mut items, 4)) {
            Ok(x) => x,
            Err(e) => {
                return Err(e);
            },
        };
        let x5 = match A5::try_from(take_at(&mut items, 5)) {
            Ok(x) => x,
            Err(e) => {
                return Err(e);
            },
        };
        let x6 = match A6::try_from(take_at(&mut items, 6)) {
            Ok(x) => x,
            Err(e) => {
                return Err(e);
            },
        };
        let x7 = match A7::try_from(take_at(&mut items, 7)) {
            Ok(x) => x,
            Err(e) => {
                return Err(e);
            },
        };
        let x8 = match A8::try_from(take_at(&mut items, 8)) {
            Ok(x) => x,
            Err(e) => {
                return Err(e);
            },
        };
        let x9 = match A9::try_from(take_at(&mut items, 9)) {
            Ok(x) => x,
            Err(e) => {
                return Err(e);
            },
        };
        let x10 = match A10::try_from(take_at(&mut items, 10)) {
            Ok(x) => x,
            Err(e) => {
                return Err(e);
            },
        };
        let x11 = match A11::try_from(take_at(&mut items, 11)) {
            Ok(x) => x,
            Err(e) => {
                return Err(e);
            },
        };
        let x12 = match A12::try_from(take_at(&mut items, 12)) {
            Ok(x) => x,
            Err(e) => {
                return Err(e);
            },
        };
        let x13 = match A13::try_from(take_at(&mut items, 13)) {
            Ok(x) => x,
            Err(e) => {
                return Err(e);
            },
        };
        let x14 = match A14::try_from(take_at(&mut items, 14)) {
            Ok(x) => x,
            Err(e) => {
                return Err(e);
            },
        };
        let x15 = match A15::try_from(take_at(&mut items, 15)) {
            Ok(x) => x,
            Err(e) => {
                return Err(e);
            },
        };
        Ok((x0, x1, x2, x3, x4, x5, x6, x7, x8, x9, x10, x11, x12, x13, x14, x15))
    }
}

} // verus!
