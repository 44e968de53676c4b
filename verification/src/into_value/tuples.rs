//! Conversions of tuples: a tuple becomes a collection of its components,
//! in their order.
use super::IntoValue;
use crate::proto::Value;
use crate::types;
use crate::wire::{wires_of, Wire};
use vstd::prelude::*;

verus! {

impl<R0: IntoValue<C0>, R1: IntoValue<C1>, C0, C1> IntoValue<(C0, C1)> for (R0, R1) {
    open spec fn encoded(&self) -> Wire {
        Wire::Collection(seq![self.0.encoded(), self.1.encoded()])
    }

    fn into_value(self) -> (v: Value) {
        let mut items: Vec<Value> = Vec::new();
        items.push(self.0.into_value());
        items.push(self.1.into_value());
        proof {
            assert(wires_of(items@) =~= seq![self.0.encoded(), self.1.encoded()]);
        }
        Value::raw_collection(items)
    }
}

impl<
    R0: IntoValue<types::Any>,
    R1: IntoValue<types::Any>,
> IntoValue<types::List<types::Any>> for (R0, R1) {
    open spec fn encoded(&self) -> Wire {
        Wire::Collection(seq![self.0.encoded(), self.1.encoded()])
    }

    fn into_value(self) -> (v: Value) {
        let mut items: Vec<Value> = Vec::new();
        items.push(self.0.into_value());
        items.push(self.1.into_value());
        proof {
            assert(wires_of(items@) =~= seq![self.0.encoded(), self.1.encoded()]);
        }
        Value::raw_collection(items)
    }
}

impl<
    R0: IntoValue<C0>,
    R1: IntoValue<C1>,
    R2: IntoValue<C2>,
    C0,
    C1,
    C2,
> IntoValue<(C0, C1, C2)> for (R0, R1, R2) {
    open spec fn encoded(&self) -> Wire {
        Wire::Collection(seq![self.0.encoded(), self.1.encoded(), self.2.encoded()])
    }

    fn into_value(self) -> (v: Value) {
        let mut items: Vec<Value> = Vec::new();
        items.push(self.0.into_value());
        items.push(self.1.into_value());
        items.push(self.2.into_value());
        proof {
            assert(wires_of(items@) =~= seq![self.0.encoded(), self.1.encoded(), self.2.encoded()]);
        }
        Value::raw_collection(items)
    }
}

impl<
    R0: IntoValue<types::Any>,
    R1: IntoValue<types::Any>,
    R2: IntoValue<types::Any>,
> IntoValue<types::List<types::Any>> for (R0, R1, R2) {
    open spec fn encoded(&self) -> Wire {
        Wire::Collection(seq![self.0.encoded(), self.1.encoded(), self.2.encoded()])
    }

    fn into_value(self) -> (v: Value) {
        let mut items: Vec<Value> = Vec::new();
        items.push(self.0.into_value());
        items.push(self.1.into_value());
        items.push(self.2.into_value());
        proof {
            assert(wires_of(items@) =~= seq![self.0.encoded(), self.1.encoded(), self.2.encoded()]);
        }
        Value::raw_collection(items)
    }
}

impl<
    R0: IntoValue<C0>,
    R1: IntoValue<C1>,
    R2: IntoValue<C2>,
    R3: IntoValue<C3>,
    C0,
    C1,
    C2,
    C3,
> IntoValue<(C0, C1, C2, C3)> for (R0, R1, R2, R3) {
    open spec fn encoded(&self) -> Wire {
        Wire::Collection(seq![
            self.0.encoded(),
            self.1.encoded(),
            self.2.encoded(),
            self.3.encoded(),
        ])
    }

    fn into_value(self) -> (v: Value) {
        let mut items: Vec<Value> = Vec::new();
        items.push(self.0.into_value());
        items.push(self.1.into_value());
        items.push(self.2.into_value());
        items.push(self.3.into_value());
        proof {
            assert(wires_of(items@) =~= seq![
                self.0.encoded(),
                self.1.encoded(),
                self.2.encoded(),
                self.3.encoded(),
            ]);
        }
        Value::raw_collection(items)
    }
}

impl<
    R0: IntoValue<types::Any>,
    R1: IntoValue<types::Any>,
    R2: IntoValue<types::Any>,
    R3: IntoValue<types::Any>,
> IntoValue<types::List<types::Any>> for (R0, R1, R2, R3) {
    open spec fn encoded(&self) -> Wire {
        Wire::Collection(seq![
            self.0.encoded(),
            self.1.encoded(),
            self.2.encoded(),
            self.3.encoded(),
        ])
    }

    fn into_value(self) -> (v: Value) {
        let mut items: Vec<Value> = Vec::new();
        items.push(self.0.into_value());
        items.push(self.1.into_value());
        items.push(self.2.into_value());
        items.push(self.3.into_value());
        proof {
            assert(wires_of(items@) =~= seq![
                self.0.encoded(),
                self.1.encoded(),
                self.2.encoded(),
                self.3.encoded(),
            ]);
        }
        Value::raw_collection(items)
    }
}

impl<
    R0: IntoValue<C0>,
    R1: IntoValue<C1>,
    R2: IntoValue<C2>,
    R3: IntoValue<C3>,
    R4: IntoValue<C4>,
    C0,
    C1,
    C2,
    C3,
    C4,
> IntoValue<(C0, C1, C2, C3, C4)> for (R0, R1, R2, R3, R4) {
    open spec fn encoded(&self) -> Wire {
        Wire::Collection(seq![
            self.0.encoded(),
            self.1.encoded(),
            self.2.encoded(),
            self.3.encoded(),
            self.4.encoded(),
        ])
    }

    fn into_value(self) -> (v: Value) {
        let mut items: Vec<Value> = Vec::new();
        items.push(self.0.into_value());
        items.push(self.1.into_value());
        items.push(self.2.into_value());
        items.push(self.3.into_value());
        items.push(self.4.into_value());
        proof {
            assert(wires_of(items@) =~= seq![
                self.0.encoded(),
                self.1.encoded(),
                self.2.encoded(),
                self.3.encoded(),
                self.4.encoded(),
            ]);
        }
        Value::raw_collection(items)
    }
}

impl<
    R0: IntoValue<types::Any>,
    R1: IntoValue<types::Any>,
    R2: IntoValue<types::Any>,
    R3: IntoValue<types::Any>,
    R4: IntoValue<types::Any>,
> IntoValue<types::List<types::Any>> for (R0, R1, R2, R3, R4) {
    open spec fn encoded(&self) -> Wire {
        Wire::Collection(seq![
            self.0.encoded(),
            self.1.encoded(),
            self.2.encoded(),
            self.3.encoded(),
            self.4.encoded(),
        ])
    }

    fn into_value(self) -> (v: Value) {
        let mut items: Vec<Value> = Vec::new();
        items.push(self.0.into_value());
        items.push(self.1.into_value());
        items.push(self.2.into_value());
        items.push(self.3.into_value());
        items.push(self.4.into_value());
        proof {
            assert(wires_of(items@) =~= seq![
                self.0.encoded(),
                self.1.encoded(),
                self.2.encoded(),
                self.3.encoded(),
                self.4.encoded(),
            ]);
        }
        Value::raw_collection(items)
    }
}

impl<
    R0: IntoValue<C0>,
    R1: IntoValue<C1>,
    R2: IntoValue<C2>,
    R3: IntoValue<C3>,
    R4: IntoValue<C4>,
    R5: IntoValue<C5>,
    C0,
    C1,
    C2,
    C3,
    C4,
    C5,
> IntoValue<(C0, C1, C2, C3, C4, C5)> for (R0, R1, R2, R3, R4, R5) {
    open spec fn encoded(&self) -> Wire {
        Wire::Collection(seq![
            self.0.encoded(),
            self.1.encoded(),
            self.2.encoded(),
            self.3.encoded(),
            self.4.encoded(),
            self.5.encoded(),
        ])
    }

    fn into_value(self) -> (v: Value) {
        let mut items: Vec<Value> = Vec::new();
        items.push(self.0.into_value());
        items.push(self.1.into_value());
        items.push(self.2.into_value());
        items.push(self.3.into_value());
        items.push(self.4.into_value());
        items.push(self.5.into_value());
        proof {
            assert(wires_of(items@) =~= seq![
                self.0.encoded(),
                self.1.encoded(),
                self.2.encoded(),
                self.3.encoded(),
                self.4.encoded(),
                self.5.encoded(),
            ]);
        }
        Value::raw_collection(items)
    }
}

impl<
    R0: IntoValue<types::Any>,
    R1: IntoValue<types::Any>,
    R2: IntoValue<types::Any>,
    R3: IntoValue<types::Any>,
    R4: IntoValue<types::Any>,
    R5: IntoValue<types::Any>,
> IntoValue<types::List<types::Any>> for (R0, R1, R2, R3, R4, R5) {
    open spec fn encoded(&self) -> Wire {
        Wire::Collection(seq![
            self.0.encoded(),
            self.1.encoded(),
            self.2.encoded(),
            self.3.encoded(),
            self.4.encoded(),
            self.5.encoded(),
        ])
    }

    fn into_value(self) -> (v: Value) {
        let mut items: Vec<Value> = Vec::new();
        items.push(self.0.into_value());
        items.push(self.1.into_value());
        items.push(self.2.into_value());
        items.push(self.3.into_value());
        items.push(self.4.into_value());
        items.push(self.5.into_value());
        proof {
            assert(wires_of(items@) =~= seq![
                self.0.encoded(),
                self.1.encoded(),
                self.2.encoded(),
                self.3.encoded(),
                self.4.encoded(),
                self.5.encoded(),
            ]);
        }
        Value::raw_collection(items)
    }
}

impl<
    R0: IntoValue<C0>,
    R1: IntoValue<C1>,
    R2: IntoValue<C2>,
    R3: IntoValue<C3>,
    R4: IntoValue<C4>,
    R5: IntoValue<C5>,
    R6: IntoValue<C6>,
    C0,
    C1,
    C2,
    C3,
    C4,
    C5,
    C6,
> IntoValue<(C0, C1, C2, C3, C4, C5, C6)> for (R0, R1, R2, R3, R4, R5, R6) {
    open spec fn encoded(&self) -> Wire {
        Wire::Collection(seq![
            self.0.encoded(),
            self.1.encoded(),
            self.2.encoded(),
            self.3.encoded(),
            self.4.encoded(),
            self.5.encoded(),
            self.6.encoded(),
        ])
    }

    fn into_value(self) -> (v: Value) {
        let mut items: Vec<Value> = Vec::new();
        items.push(self.0.into_value());
        items.push(self.1.into_value());
        items.push(self.2.into_value());
        items.push(self.3.into_value());
        items.push(self.4.into_value());
        items.push(self.5.into_value());
        items.push(self.6.into_value());
        proof {
            assert(wires_of(items@) =~= seq![
                self.0.encoded(),
                self.1.encoded(),
                self.2.encoded(),
                self.3.encoded(),
                self.4.encoded(),
                self.5.encoded(),
                self.6.encoded(),
            ]);
        }
        Value::raw_collection(items)
    }
}

impl<
    R0: IntoValue<types::Any>,
    R1: IntoValue<types::Any>,
    R2: IntoValue<types::Any>,
    R3: IntoValue<types::Any>,
    R4: IntoValue<types::Any>,
    R5: IntoValue<types::Any>,
    R6: IntoValue<types::Any>,
> IntoValue<types::List<types::Any>> for (R0, R1, R2, R3, R4, R5, R6) {
    open spec fn encoded(&self) -> Wire {
        Wire::Collection(seq![
            self.0.encoded(),
            self.1.encoded(),
            self.2.encoded(),
            self.3.encoded(),
            self.4.encoded(),
            self.5.encoded(),
            self.6.encoded(),
        ])
    }

    fn into_value(self) -> (v: Value) {
        let mut items: Vec<Value> = Vec::new();
        items.push(self.0.into_value());
        items.push(self.1.into_value());
        items.push(self.2.into_value());
        items.push(self.3.into_value());
        items.push(self.4.into_value());
        items.push(self.5.into_value());
        items.push(self.6.into_value());
        proof {
            assert(wires_of(items@) =~= seq![
                self.0.encoded(),
                self.1.encoded(),
                self.2.encoded(),
                self.3.encoded(),
                self.4.encoded(),
                self.5.encoded(),
                self.6.encoded(),
            ]);
        }
        Value::raw_collection(items)
    }
}

impl<
    R0: IntoValue<C0>,
    R1: IntoValue<C1>,
    R2: IntoValue<C2>,
    R3: IntoValue<C3>,
    R4: IntoValue<C4>,
    R5: IntoValue<C5>,
    R6: IntoValue<C6>,
    R7: IntoValue<C7>,
    C0,
    C1,
    C2,
    C3,
    C4,
    C5,
    C6,
    C7,
> IntoValue<(C0, C1, C2, C3, C4, C5, C6, C7)> for (R0, R1, R2, R3, R4, R5, R6, R7) {
    open spec fn encoded(&self) -> Wire {
        Wire::Collection(seq![
            self.0.encoded(),
            self.1.encoded(),
            self.2.encoded(),
            self.3.encoded(),
            self.4.encoded(),
            self.5.encoded(),
            self.6.encoded(),
            self.7.encoded(),
        ])
    }

    fn into_value(self) -> (v: Value) {
        let mut items: Vec<Value> = Vec::new();
        items.push(self.0.into_value());
        items.push(self.1.into_value());
        items.push(self.2.into_value());
        items.push(self.3.into_value());
        items.push(self.4.into_value());
        items.push(self.5.into_value());
        items.push(self.6.into_value());
        items.push(self.7.into_value());
        proof {
            assert(wires_of(items@) =~= seq![
                self.0.encoded(),
                self.1.encoded(),
                self.2.encoded(),
                self.3.encoded(),
                self.4.encoded(),
                self.5.encoded(),
                self.6.encoded(),
                self.7.encoded(),
            ]);
        }
        Value::raw_collection(items)
    }
}

impl<
    R0: IntoValue<types::Any>,
    R1: IntoValue<types::Any>,
    R2: IntoValue<types::Any>,
    R3: IntoValue<types::Any>,
    R4: IntoValue<types::Any>,
    R5: IntoValue<types::Any>,
    R6: IntoValue<types::Any>,
    R7: IntoValue<types::Any>,
> IntoValue<types::List<types::Any>> for (R0, R1, R2, R3, R4, R5, R6, R7) {
    open spec fn encoded(&self) -> Wire {
        Wire::Collection(seq![
            self.0.encoded(),
            self.1.encoded(),
            self.2.encoded(),
            self.3.encoded(),
            self.4.encoded(),
            self.5.encoded(),
            self.6.encoded(),
            self.7.encoded(),
        ])
    }

    fn into_value(self) -> (v: Value) {
        let mut items: Vec<Value> = Vec::new();
        items.push(self.0.into_value());
        items.push(self.1.into_value());
        items.push(self.2.into_value());
        items.push(self.3.into_value());
        items.push(self.4.into_value());
        items.push(self.5.into_value());
        items.push(self.6.into_value());
        items.push(self.7.into_value());
        proof {
            assert(wires_of(items@) =~= seq![
                self.0.encoded(),
                self.1.encoded(),
                self.2.encoded(),
                self.3.encoded(),
                self.4.encoded(),
                self.5.encoded(),
                self.6.encoded(),
                self.7.encoded(),
            ]);
        }
        Value::raw_collection(items)
    }
}

impl<
    R0: IntoValue<C0>,
    R1: IntoValue<C1>,
    R2: IntoValue<C2>,
    R3: IntoValue<C3>,
    R4: IntoValue<C4>,
    R5: IntoValue<C5>,
    R6: IntoValue<C6>,
    R7: IntoValue<C7>,
    R8: IntoValue<C8>,
    C0,
    C1,
    C2,
    C3,
    C4,
    C5,
    C6,
    C7,
    C8,
> IntoValue<(C0, C1, C2, C3, C4, C5, C6, C7, C8)> for (R0, R1, R2, R3, R4, R5, R6, R7, R8) {
    open spec fn encoded(&self) -> Wire {
        Wire::Collection(seq![
            self.0.encoded(),
            self.1.encoded(),
            self.2.encoded(),
            self.3.encoded(),
            self.4.encoded(),
            self.5.encoded(),
            self.6.encoded(),
            self.7.encoded(),
            self.8.encoded(),
        ])
    }

    fn into_value(self) -> (v: Value) {
        let mut items: Vec<Value> = Vec::new();
        items.push(self.0.into_value());
        items.push(self.1.into_value());
        items.push(self.2.into_value());
        items.push(self.3.into_value());
        items.push(self.4.into_value());
        items.push(self.5.into_value());
        items.push(self.6.into_value());
        items.push(self.7.into_value());
        items.push(self.8.into_value());
        proof {
            assert(wires_of(items@) =~= seq![
                self.0.encoded(),
                self.1.encoded(),
                self.2.encoded(),
                self.3.encoded(),
                self.4.encoded(),
                self.5.encoded(),
                self.6.encoded(),
                self.7.encoded(),
                self.8.encoded(),
            ]);
        }
        Value::raw_collection(items)
    }
}

impl<
    R0: IntoValue<types::Any>,
    R1: IntoValue<types::Any>,
    R2: IntoValue<types::Any>,
    R3: IntoValue<types::Any>,
    R4: IntoValue<types::Any>,
    R5: IntoValue<types::Any>,
    R6: IntoValue<types::Any>,
    R7: IntoValue<types::Any>,
    R8: IntoValue<types::Any>,
> IntoValue<types::List<types::Any>> for (R0, R1, R2, R3, R4, R5, R6, R7, R8) {
    open spec fn encoded(&self) -> Wire {
        Wire::Collection(seq![
            self.0.encoded(),
            self.1.encoded(),
            self.2.encoded(),
            self.3.encoded(),
            self.4.encoded(),
            self.5.encoded(),
            self.6.encoded(),
            self.7.encoded(),
            self.8.encoded(),
        ])
    }

    fn into_value(self) -> (v: Value) {
        let mut items: Vec<Value> = Vec::new();
        items.push(self.0.into_value());
        items.push(self.1.into_value());
        items.push(self.2.into_value());
        items.push(self.3.into_value());
        items.push(self.4.into_value());
        items.push(self.5.into_value());
        items.push(self.6.into_value());
        items.push(self.7.into_value());
        items.push(self.8.into_value());
        proof {
            assert(wires_of(items@) =~= seq![
                self.0.encoded(),
                self.1.encoded(),
                self.2.encoded(),
                self.3.encoded(),
                self.4.encoded(),
                self.5.encoded(),
                self.6.encoded(),
                self.7.encoded(),
                self.8.encoded(),
            ]);
        }
        Value::raw_collection(items)
    }
}

impl<
    R0: IntoValue<C0>,
    R1: IntoValue<C1>,
    R2: IntoValue<C2>,
    R3: IntoValue<C3>,
    R4: IntoValue<C4>,
    R5: IntoValue<C5>,
    R6: IntoValue<C6>,
    R7: IntoValue<C7>,
    R8: IntoValue<C8>,
    R9: IntoValue<C9>,
    C0,
    C1,
    C2,
    C3,
    C4,
    C5,
    C6,
    C7,
    C8,
    C9,
> IntoValue<(C0, C1, C2, C3, C4, C5, C6, C7, C8, C9)> for (R0, R1, R2, R3, R4, R5, R6, R7, R8, R9) {
    open spec fn encoded(&self) -> Wire {
        Wire::Collection(seq![
            self.0.encoded(),
            self.1.encoded(),
            self.2.encoded(),
            self.3.encoded(),
            self.4.encoded(),
            self.5.encoded(),
            self.6.encoded(),
            self.7.encoded(),
            self.8.encoded(),
            self.9.encoded(),
        ])
    }

    fn into_value(self) -> (v: Value) {
        let mut items: Vec<Value> = Vec::new();
        items.push(self.0.into_value());
        items.push(self.1.into_value());
        items.push(self.2.into_value());
        items.push(self.3.into_value());
        items.push(self.4.into_value());
        items.push(self.5.into_value());
        items.push(self.6.into_value());
        items.push(self.7.into_value());
        items.push(self.8.into_value());
        items.push(self.9.into_value());
        proof {
            assert(wires_of(items@) =~= seq![
                self.0.encoded(),
                self.1.encoded(),
                self.2.encoded(),
                self.3.encoded(),
                self.4.encoded(),
                self.5.encoded(),
                self.6.encoded(),
                self.7.encoded(),
                self.8.encoded(),
                self.9.encoded(),
            ]);
        }
        Value::raw_collection(items)
    }
}

impl<
    R0: IntoValue<types::Any>,
    R1: IntoValue<types::Any>,
    R2: IntoValue<types::Any>,
    R3: IntoValue<types::Any>,
    R4: IntoValue<types::Any>,
    R5: IntoValue<types::Any>,
    R6: IntoValue<types::Any>,
    R7: IntoValue<types::Any>,
    R8: IntoValue<types::Any>,
    R9: IntoValue<types::Any>,
> IntoValue<types::List<types::Any>> for (R0, R1, R2, R3, R4, R5, R6, R7, R8, R9) {
    open spec fn encoded(&self) -> Wire {
        Wire::Collection(seq![
            self.0.encoded(),
            self.1.encoded(),
            self.2.encoded(),
            self.3.encoded(),
            self.4.encoded(),
            self.5.encoded(),
            self.6.encoded(),
            self.7.encoded(),
            self.8.encoded(),
            self.9.encoded(),
        ])
    }

    fn into_value(self) -> (v: Value) {
        let mut items: Vec<Value> = Vec::new();
        items.push(self.0.into_value());
        items.push(self.1.into_value());
        items.push(self.2.into_value());
        items.push(self.3.into_value());
        items.push(self.4.into_value());
        items.push(self.5.into_value());
        items.push(self.6.into_value());
        items.push(self.7.into_value());
        items.push(self.8.into_value());
        items.push(self.9.into_value());
        proof {
            assert(wires_of(items@) =~= seq![
                self.0.encoded(),
                self.1.encoded(),
                self.2.encoded(),
                self.3.encoded(),
                self.4.encoded(),
                self.5.encoded(),
                self.6.encoded(),
                self.7.encoded(),
                self.8.encoded(),
                self.9.encoded(),
            ]);
        }
        Value::raw_collection(items)
    }
}

impl<
    R0: IntoValue<C0>,
    R1: IntoValue<C1>,
    R2: IntoValue<C2>,
    R3: IntoValue<C3>,
    R4: IntoValue<C4>,
    R5: IntoValue<C5>,
    R6: IntoValue<C6>,
    R7: IntoValue<C7>,
    R8: IntoValue<C8>,
    R9: IntoValue<C9>,
    R10: IntoValue<C10>,
    C0,
    C1,
    C2,
    C3,
    C4,
    C5,
    C6,
    C7,
    C8,
    C9,
    C10,
> IntoValue<(C0, C1, C2, C3, C4, C5, C6, C7, C8, C9, C10)> for (
    R0,
    R1,
    R2,
    R3,
    R4,
    R5,
    R6,
    R7,
    R8,
    R9,
    R10,
) {
    open spec fn encoded(&self) -> Wire {
        Wire::Collection(seq![
            self.0.encoded(),
            self.1.encoded(),
            self.2.encoded(),
            self.3.encoded(),
            self.4.encoded(),
            self.5.encoded(),
            self.6.encoded(),
            self.7.encoded(),
            self.8.encoded(),
            self.9.encoded(),
            self.10.encoded(),
        ])
    }

    fn into_value(self) -> (v: Value) {
        let mut items: Vec<Value> = Vec::new();
        items.push(self.0.into_value());
        items.push(self.1.into_value());
        items.push(self.2.into_value());
        items.push(self.3.into_value());
        items.push(self.4.into_value());
        items.push(self.5.into_value());
        items.push(self.6.into_value());
        items.push(self.7.into_value());
        items.push(self.8.into_value());
        items.push(self.9.into_value());
        items.push(self.10.into_value());
        proof {
            assert(wires_of(items@) =~= seq![
                self.0.encoded(),
                self.1.encoded(),
                self.2.encoded(),
                self.3.encoded(),
                self.4.encoded(),
                self.5.encoded(),
                self.6.encoded(),
                self.7.encoded(),
                self.8.encoded(),
                self.9.encoded(),
                self.10.encoded(),
            ]);
        }
        Value::raw_collection(items)
    }
}

impl<
    R0: IntoValue<types::Any>,
    R1: IntoValue<types::Any>,
    R2: IntoValue<types::Any>,
    R3: IntoValue<types::Any>,
    R4: IntoValue<types::Any>,
    R5: IntoValue<types::Any>,
    R6: IntoValue<types::Any>,
    R7: IntoValue<types::Any>,
    R8: IntoValue<types::Any>,
    R9: IntoValue<types::Any>,
    R10: IntoValue<types::Any>,
> IntoValue<types::List<types::Any>> for (R0, R1, R2, R3, R4, R5, R6, R7, R8, R9, R10) {
    open spec fn encoded(&self) -> Wire {
        Wire::Collection(seq![
            self.0.encoded(),
            self.1.encoded(),
            self.2.encoded(),
            self.3.encoded(),
            self.4.encoded(),
            self.5.encoded(),
            self.6.encoded(),
            self.7.encoded(),
            self.8.encoded(),
            self.9.encoded(),
            self.10.encoded(),
        ])
    }

    fn into_value(self) -> (v: Value) {
        let mut items: Vec<Value> = Vec::new();
        items.push(self.0.into_value());
        items.push(self.1.into_value());
        items.push(self.2.into_value());
        items.push(self.3.into_value());
        items.push(self.4.into_value());
        items.push(self.5.into_value());
        items.push(self.6.into_value());
        items.push(self.7.into_value());
        items.push(self.8.into_value());
        items.push(self.9.into_value());
        items.push(self.10.into_value());
        proof {
            assert(wires_of(items@) =~= seq![
                self.0.encoded(),
                self.1.encoded(),
                self.2.encoded(),
                self.3.encoded(),
                self.4.encoded(),
                self.5.encoded(),
                self.6.encoded(),
                self.7.encoded(),
                self.8.encoded(),
                self.9.encoded(),
                self.10.encoded(),
            ]);
        }
        Value::raw_collection(items)
    }
}

impl<
    R0: IntoValue<C0>,
    R1: IntoValue<C1>,
    R2: IntoValue<C2>,
    R3: IntoValue<C3>,
    R4: IntoValue<C4>,
    R5: IntoValue<C5>,
    R6: IntoValue<C6>,
    R7: IntoValue<C7>,
    R8: IntoValue<C8>,
    R9: IntoValue<C9>,
    R10: IntoValue<C10>,
    R11: IntoValue<C11>,
    C0,
    C1,
    C2,
    C3,
    C4,
    C5,
    C6,
    C7,
    C8,
    C9,
    C10,
    C11,
> IntoValue<
    (
        C0,
        C1,
        C2,
        C3,
        C4,
        C5,
        C6,
        C7,
        C8,
        C9,
        C10,
        C11,
    ),
> for (R0, R1, R2, R3, R4, R5, R6, R7, R8, R9, R10, R11) {
    open spec fn encoded(&self) -> Wire {
        Wire::Collection(seq![
            self.0.encoded(),
            self.1.encoded(),
            self.2.encoded(),
            self.3.encoded(),
            self.4.encoded(),
            self.5.encoded(),
            self.6.encoded(),
            self.7.encoded(),
            self.8.encoded(),
            self.9.encoded(),
            self.10.encoded(),
            self.11.encoded(),
        ])
    }

    fn into_value(self) -> (v: Value) {
        let mut items: Vec<Value> = Vec::new();
        items.push(self.0.into_value());
        items.push(self.1.into_value());
        items.push(self.2.into_value());
        items.push(self.3.into_value());
        items.push(self.4.into_value());
        items.push(self.5.into_value());
        items.push(self.6.into_value());
        items.push(self.7.into_value());
        items.push(self.8.into_value());
        items.push(self.9.into_value());
        items.push(self.10.into_value());
        items.push(self.11.into_value());
        proof {
            assert(wires_of(items@) =~= seq![
                self.0.encoded(),
                self.1.encoded(),
                self.2.encoded(),
                self.3.encoded(),
                self.4.encoded(),
                self.5.encoded(),
                self.6.encoded(),
                self.7.encoded(),
                self.8.encoded(),
                self.9.encoded(),
                self.10.encoded(),
                self.11.encoded(),
            ]);
        }
        Value::raw_collection(items)
    }
}

impl<
    R0: IntoValue<types::Any>,
    R1: IntoValue<types::Any>,
    R2: IntoValue<types::Any>,
    R3: IntoValue<types::Any>,
    R4: IntoValue<types::Any>,
    R5: IntoValue<types::Any>,
    R6: IntoValue<types::Any>,
    R7: IntoValue<types::Any>,
    R8: IntoValue<types::Any>,
    R9: IntoValue<types::Any>,
    R10: IntoValue<types::Any>,
    R11: IntoValue<types::Any>,
> IntoValue<types::List<types::Any>> for (R0, R1, R2, R3, R4, R5, R6, R7, R8, R9, R10, R11) {
    open spec fn encoded(&self) -> Wire {
        Wire::Collection(seq![
            self.0.encoded(),
            self.1.encoded(),
            self.2.encoded(),
            self.3.encoded(),
            self.4.encoded(),
            self.5.encoded(),
            self.6.encoded(),
            self.7.encoded(),
            self.8.encoded(),
            self.9.encoded(),
            self.10.encoded(),
            self.11.encoded(),
        ])
    }

    fn into_value(self) -> (v: Value) {
        let mut items: Vec<Value> = Vec::new();
        items.push(self.0.into_value());
        items.push(self.1.into_value());
        items.push(self.2.into_value());
        items.push(self.3.into_value());
        items.push(self.4.into_value());
        items.push(self.5.into_value());
        items.push(self.6.into_value());
        items.push(self.7.into_value());
        items.push(self.8.into_value());
        items.push(self.9.into_value());
        items.push(self.10.into_value());
        items.push(self.11.into_value());
        proof {
            assert(wires_of(items@) =~= seq![
                self.0.encoded(),
                self.1.encoded(),
                self.2.encoded(),
                self.3.encoded(),
                self.4.encoded(),
                self.5.encoded(),
                self.6.encoded(),
                self.7.encoded(),
                self.8.encoded(),
                self.9.encoded(),
                self.10.encoded(),
                self.11.encoded(),
            ]);
        }
        Value::raw_collection(items)
    }
}

impl<
    R0: IntoValue<C0>,
    R1: IntoValue<C1>,
    R2: IntoValue<C2>,
    R3: IntoValue<C3>,
    R4: IntoValue<C4>,
    R5: IntoValue<C5>,
    R6: IntoValue<C6>,
    R7: IntoValue<C7>,
    R8: IntoValue<C8>,
    R9: IntoValue<C9>,
    R10: IntoValue<C10>,
    R11: IntoValue<C11>,
    R12: IntoValue<C12>,
    C0,
    C1,
    C2,
    C3,
    C4,
    C5,
    C6,
    C7,
    C8,
    C9,
    C10,
    C11,
    C12,
> IntoValue<
    (
        C0,
        C1,
        C2,
        C3,
        C4,
        C5,
        C6,
        C7,
        C8,
        C9,
        C10,
        C11,
        C12,
    ),
> for (R0, R1, R2, R3, R4, R5, R6, R7, R8, R9, R10, R11, R12) {
    open spec fn encoded(&self) -> Wire {
        Wire::Collection(seq![
            self.0.encoded(),
            self.1.encoded(),
            self.2.encoded(),
            self.3.encoded(),
            self.4.encoded(),
            self.5.encoded(),
            self.6.encoded(),
            self.7.encoded(),
            self.8.encoded(),
            self.9.encoded(),
            self.10.encoded(),
            self.11.encoded(),
            self.12.encoded(),
        ])
    }

    fn into_value(self) -> (v: Value) {
        let mut items: Vec<Value> = Vec::new();
        items.push(self.0.into_value());
        items.push(self.1.into_value());
        items.push(self.2.into_value());
        items.push(self.3.into_value());
        items.push(self.4.into_value());
        items.push(self.5.into_value());
        items.push(self.6.into_value());
        items.push(self.7.into_value());
        items.push(self.8.into_value());
        items.push(self.9.into_value());
        items.push(self.10.into_value());
        items.push(self.11.into_value());
        items.push(self.12.into_value());
        proof {
            assert(wires_of(items@) =~= seq![
                self.0.encoded(),
                self.1.encoded(),
                self.2.encoded(),
                self.3.encoded(),
                self.4.encoded(),
                self.5.encoded(),
                self.6.encoded(),
                self.7.encoded(),
                self.8.encoded(),
                self.9.encoded(),
                self.10.encoded(),
                self.11.encoded(),
                self.12.encoded(),
            ]);
        }
        Value::raw_collection(items)
    }
}

impl<
    R0: IntoValue<types::Any>,
    R1: IntoValue<types::Any>,
    R2: IntoValue<types::Any>,
    R3: IntoValue<types::Any>,
    R4: IntoValue<types::Any>,
    R5: IntoValue<types::Any>,
    R6: IntoValue<types::Any>,
    R7: IntoValue<types::Any>,
    R8: IntoValue<types::Any>,
    R9: IntoValue<types::Any>,
    R10: IntoValue<types::Any>,
    R11: IntoValue<types::Any>,
    R12: IntoValue<types::Any>,
> IntoValue<types::List<types::Any>> for (R0, R1, R2, R3, R4, R5, R6, R7, R8, R9, R10, R11, R12) {
    open spec fn encoded(&self) -> Wire {
        Wire::Collection(seq![
            self.0.encoded(),
            self.1.encoded(),
            self.2.encoded(),
            self.3.encoded(),
            self.4.encoded(),
            self.5.encoded(),
            self.6.encoded(),
            self.7.encoded(),
            self.8.encoded(),
            self.9.encoded(),
            self.10.encoded(),
            self.11.encoded(),
            self.12.encoded(),
        ])
    }

    fn into_value(self) -> (v: Value) {
        let mut items: Vec<Value> = Vec::new();
        items.push(self.0.into_value());
        items.push(self.1.into_value());
        items.push(self.2.into_value());
        items.push(self.3.into_value());
        items.push(self.4.into_value());
        items.push(self.5.into_value());
        items.push(self.6.into_value());
        items.push(self.7.into_value());
        items.push(self.8.into_value());
        items.push(self.9.into_value());
        items.push(self.10.into_value());
        items.push(self.11.into_value());
        items.push(self.12.into_value());
        proof {
            assert(wires_of(items@) =~= seq![
                self.0.encoded(),
                self.1.encoded(),
                self.2.encoded(),
                self.3.encoded(),
                self.4.encoded(),
                self.5.encoded(),
                self.6.encoded(),
                self.7.encoded(),
                self.8.encoded(),
                self.9.encoded(),
                self.10.encoded(),
                self.11.encoded(),
                self.12.encoded(),
            ]);
        }
        Value::raw_collection(items)
    }
}

impl<
    R0: IntoValue<C0>,
    R1: IntoValue<C1>,
    R2: IntoValue<C2>,
    R3: IntoValue<C3>,
    R4: IntoValue<C4>,
    R5: IntoValue<C5>,
    R6: IntoValue<C6>,
    R7: IntoValue<C7>,
    R8: IntoValue<C8>,
    R9: IntoValue<C9>,
    R10: IntoValue<C10>,
    R11: IntoValue<C11>,
    R12: IntoValue<C12>,
    R13: IntoValue<C13>,
    C0,
    C1,
    C2,
    C3,
    C4,
    C5,
    C6,
    C7,
    C8,
    C9,
    C10,
    C11,
    C12,
    C13,
> IntoValue<
    (
        C0,
        C1,
        C2,
        C3,
        C4,
        C5,
        C6,
        C7,
        C8,
        C9,
        C10,
        C11,
        C12,
        C13,
    ),
> for (R0, R1, R2, R3, R4, R5, R6, R7, R8, R9, R10, R11, R12, R13) {
    open spec fn encoded(&self) -> Wire {
        Wire::Collection(seq![
            self.0.encoded(),
            self.1.encoded(),
            self.2.encoded(),
            self.3.encoded(),
            self.4.encoded(),
            self.5.encoded(),
            self.6.encoded(),
            self.7.encoded(),
            self.8.encoded(),
            self.9.encoded(),
            self.10.encoded(),
            self.11.encoded(),
            self.12.encoded(),
            self.13.encoded(),
        ])
    }

    fn into_value(self) -> (v: Value) {
        let mut items: Vec<Value> = Vec::new();
        items.push(self.0.into_value());
        items.push(self.1.into_value());
        items.push(self.2.into_value());
        items.push(self.3.into_value());
        items.push(self.4.into_value());
        items.push(self.5.into_value());
        items.push(self.6.into_value());
        items.push(self.7.into_value());
        items.push(self.8.into_value());
        items.push(self.9.into_value());
        items.push(self.10.into_value());
        items.push(self.11.into_value());
        items.push(self.12.into_value());
        items.push(self.13.into_value());
        proof {
            assert(wires_of(items@) =~= seq![
                self.0.encoded(),
                self.1.encoded(),
                self.2.encoded(),
                self.3.encoded(),
                self.4.encoded(),
                self.5.encoded(),
                self.6.encoded(),
                self.7.encoded(),
                self.8.encoded(),
                self.9.encoded(),
                self.10.encoded(),
                self.11.encoded(),
                self.12.encoded(),
                self.13.encoded(),
            ]);
        }
        Value::raw_collection(items)
    }
}

impl<
    R0: IntoValue<types::Any>,
    R1: IntoValue<types::Any>,
    R2: IntoValue<types::Any>,
    R3: IntoValue<types::Any>,
    R4: IntoValue<types::Any>,
    R5: IntoValue<types::Any>,
    R6: IntoValue<types::Any>,
    R7: IntoValue<types::Any>,
    R8: IntoValue<types::Any>,
    R9: IntoValue<types::Any>,
    R10: IntoValue<types::Any>,
    R11: IntoValue<types::Any>,
    R12: IntoValue<types::Any>,
    R13: IntoValue<types::Any>,
> IntoValue<types::List<types::Any>> for (
    R0,
    R1,
    R2,
    R3,
    R4,
    R5,
    R6,
    R7,
    R8,
    R9,
    R10,
    R11,
    R12,
    R13,
) {
    open spec fn encoded(&self) -> Wire {
        Wire::Collection(seq![
            self.0.encoded(),
            self.1.encoded(),
            self.2.encoded(),
            self.3.encoded(),
            self.4.encoded(),
            self.5.encoded(),
            self.6.encoded(),
            self.7.encoded(),
            self.8.encoded(),
            self.9.encoded(),
            self.10.encoded(),
            self.11.encoded(),
            self.12.encoded(),
            self.13.encoded(),
        ])
    }

    fn into_value(self) -> (v: Value) {
        let mut items: Vec<Value> = Vec::new();
        items.push(self.0.into_value());
        items.push(self.1.into_value());
        items.push(self.2.into_value());
        items.push(self.3.into_value());
        items.push(self.4.into_value());
        items.push(self.5.into_value());
        items.push(self.6.into_value());
        items.push(self.7.into_value());
        items.push(self.8.into_value());
        items.push(self.9.into_value());
        items.push(self.10.into_value());
        items.push(self.11.into_value());
        items.push(self.12.into_value());
        items.push(self.13.into_value());
        proof {
            assert(wires_of(items@) =~= seq![
                self.0.encoded(),
                self.1.encoded(),
                self.2.encoded(),
                self.3.encoded(),
                self.4.encoded(),
                self.5.encoded(),
                self.6.encoded(),
                self.7.encoded(),
                self.8.encoded(),
                self.9.encoded(),
                self.10.encoded(),
                self.11.encoded(),
                self.12.encoded(),
                self.13.encoded(),
            ]);
        }
        Value::raw_collection(items)
    }
}

impl<
    R0: IntoValue<C0>,
    R1: IntoValue<C1>,
    R2: IntoValue<C2>,
    R3: IntoValue<C3>,
    R4: IntoValue<C4>,
    R5: IntoValue<C5>,
    R6: IntoValue<C6>,
    R7: IntoValue<C7>,
    R8: IntoValue<C8>,
    R9: IntoValue<C9>,
    R10: IntoValue<C10>,
    R11: IntoValue<C11>,
    R12: IntoValue<C12>,
    R13: IntoValue<C13>,
    R14: IntoValue<C14>,
    C0,
    C1,
    C2,
    C3,
    C4,
    C5,
    C6,
    C7,
    C8,
    C9,
    C10,
    C11,
    C12,
    C13,
    C14,
> IntoValue<
    (
        C0,
        C1,
        C2,
        C3,
        C4,
        C5,
        C6,
        C7,
        C8,
        C9,
        C10,
        C11,
        C12,
        C13,
        C14,
    ),
> for (R0, R1, R2, R3, R4, R5, R6, R7, R8, R9, R10, R11, R12, R13, R14) {
    open spec fn encoded(&self) -> Wire {
        Wire::Collection(seq![
            self.0.encoded(),
            self.1.encoded(),
            self.2.encoded(),
            self.3.encoded(),
            self.4.encoded(),
            self.5.encoded(),
            self.6.encoded(),
            self.7.encoded(),
            self.8.encoded(),
            self.9.encoded(),
            self.10.encoded(),
            self.11.encoded(),
            self.12.encoded(),
            self.13.encoded(),
            self.14.encoded(),
        ])
    }

    fn into_value(self) -> (v: Value) {
        let mut items: Vec<Value> = Vec::new();
        items.push(self.0.into_value());
        items.push(self.1.into_value());
        items.push(self.2.into_value());
        items.push(self.3.into_value());
        items.push(self.4.into_value());
        items.push(self.5.into_value());
        items.push(self.6.into_value());
        items.push(self.7.into_value());
        items.push(self.8.into_value());
        items.push(self.9.into_value());
        items.push(self.10.into_value());
        items.push(self.11.into_value());
        items.push(self.12.into_value());
        items.push(self.13.into_value());
        items.push(self.14.into_value());
        proof {
            assert(wires_of(items@) =~= seq![
                self.0.encoded(),
                self.1.encoded(),
                self.2.encoded(),
                self.3.encoded(),
                self.4.encoded(),
                self.5.encoded(),
                self.6.encoded(),
                self.7.encoded(),
                self.8.encoded(),
                self.9.encoded(),
                self.10.encoded(),
                self.11.encoded(),
                self.12.encoded(),
                self.13.encoded(),
                self.14.encoded(),
            ]);
        }
        Value::raw_collection(items)
    }
}

impl<
    R0: IntoValue<types::Any>,
    R1: IntoValue<types::Any>,
    R2: IntoValue<types::Any>,
    R3: IntoValue<types::Any>,
    R4: IntoValue<types::Any>,
    R5: IntoValue<types::Any>,
    R6: IntoValue<types::Any>,
    R7: IntoValue<types::Any>,
    R8: IntoValue<types::Any>,
    R9: IntoValue<types::Any>,
    R10: IntoValue<types::Any>,
    R11: IntoValue<types::Any>,
    R12: IntoValue<types::Any>,
    R13: IntoValue<types::Any>,
    R14: IntoValue<types::Any>,
> IntoValue<types::List<types::Any>> for (
    R0,
    R1,
    R2,
    R3,
    R4,
    R5,
    R6,
    R7,
    R8,
    R9,
    R10,
    R11,
    R12,
    R13,
    R14,
) {
    open spec fn encoded(&self) -> Wire {
        Wire::Collection(seq![
            self.0.encoded(),
            self.1.encoded(),
            self.2.encoded(),
            self.3.encoded(),
            self.4.encoded(),
            self.5.encoded(),
            self.6.encoded(),
            self.7.encoded(),
            self.8.encoded(),
            self.9.encoded(),
            self.10.encoded(),
            self.11.encoded(),
            self.12.encoded(),
            self.13.encoded(),
            self.14.encoded(),
        ])
    }

    fn into_value(self) -> (v: Value) {
        let mut items: Vec<Value> = Vec::new();
        items.push(self.0.into_value());
        items.push(self.1.into_value());
        items.push(self.2.into_value());
        items.push(self.3.into_value());
        items.push(self.4.into_value());
        items.push(self.5.into_value());
        items.push(self.6.into_value());
        items.push(self.7.into_value());
        items.push(self.8.into_value());
        items.push(self.9.into_value());
        items.push(self.10.into_value());
        items.push(self.11.into_value());
        items.push(self.12.into_value());
        items.push(self.13.into_value());
        items.push(self.14.into_value());
        proof {
            assert(wires_of(items@) =~= seq![
                self.0.encoded(),
                self.1.encoded(),
                self.2.encoded(),
                self.3.encoded(),
                self.4.encoded(),
                self.5.encoded(),
                self.6.encoded(),
                self.7.encoded(),
                self.8.encoded(),
                self.9.encoded(),
                self.10.encoded(),
                self.11.encoded(),
                self.12.encoded(),
                self.13.encoded(),
                self.14.encoded(),
            ]);
        }
        Value::raw_collection(items)
    }
}

impl<
    R0: IntoValue<C0>,
    R1: IntoValue<C1>,
    R2: IntoValue<C2>,
    R3: IntoValue<C3>,
    R4: IntoValue<C4>,
    R5: IntoValue<C5>,
    R6: IntoValue<C6>,
    R7: IntoValue<C7>,
    R8: IntoValue<C8>,
    R9: IntoValue<C9>,
    R10: IntoValue<C10>,
    R11: IntoValue<C11>,
    R12: IntoValue<C12>,
    R13: IntoValue<C13>,
    R14: IntoValue<C14>,
    R15: IntoValue<C15>,
    C0,
    C1,
    C2,
    C3,
    C4,
    C5,
    C6,
    C7,
    C8,
    C9,
    C10,
    C11,
    C12,
    C13,
    C14,
    C15,
> IntoValue<
    (
        C0,
        C1,
        C2,
        C3,
        C4,
        C5,
        C6,
        C7,
        C8,
        C9,
        C10,
        C11,
        C12,
        C13,
        C14,
        C15,
    ),
> for (R0, R1, R2, R3, R4, R5, R6, R7, R8, R9, R10, R11, R12, R13, R14, R15) {
    open spec fn encoded(&self) -> Wire {
        Wire::Collection(seq![
            self.0.encoded(),
            self.1.encoded(),
            self.2.encoded(),
            self.3.encoded(),
            self.4.encoded(),
            self.5.encoded(),
            self.6.encoded(),
            self.7.encoded(),
            self.8.encoded(),
            self.9.encoded(),
            self.10.encoded(),
            self.11.encoded(),
            self.12.encoded(),
            self.13.encoded(),
            self.14.encoded(),
            self.15.encoded(),
        ])
    }

    fn into_value(self) -> (v: Value) {
        let mut items: Vec<Value> = Vec::new();
        items.push(self.0.into_value());
        items.push(self.1.into_value());
        items.push(self.2.into_value());
        items.push(self.3.into_value());
        items.push(self.4.into_value());
        items.push(self.5.into_value());
        items.push(self.6.into_value());
        items.push(self.7.into_value());
        items.push(self.8.into_value());
        items.push(self.9.into_value());
        items.push(self.10.into_value());
        items.push(self.11.into_value());
        items.push(self.12.into_value());
        items.push(self.13.into_value());
        items.push(self.14.into_value());
        items.push(self.15.into_value());
        proof {
            assert(wires_of(items@) =~= seq![
                self.0.encoded(),
                self.1.encoded(),
                self.2.encoded(),
                self.3.encoded(),
                self.4.encoded(),
                self.5.encoded(),
                self.6.encoded(),
                self.7.encoded(),
                self.8.encoded(),
                self.9.encoded(),
                self.10.encoded(),
                self.11.encoded(),
                self.12.encoded(),
                self.13.encoded(),
                self.14.encoded(),
                self.15.encoded(),
            ]);
        }
        Value::raw_collection(items)
    }
}

impl<
    R0: IntoValue<types::Any>,
    R1: IntoValue<types::Any>,
    R2: IntoValue<types::Any>,
    R3: IntoValue<types::Any>,
    R4: IntoValue<types::Any>,
    R5: IntoValue<types::Any>,
    R6: IntoValue<types::Any>,
    R7: IntoValue<types::Any>,
    R8: IntoValue<types::Any>,
    R9: IntoValue<types::Any>,
    R10: IntoValue<types::Any>,
    R11: IntoValue<types::Any>,
    R12: IntoValue<types::Any>,
    R13: IntoValue<types::Any>,
    R14: IntoValue<types::Any>,
    R15: IntoValue<types::Any>,
> IntoValue<types::List<types::Any>> for (
    R0,
    R1,
    R2,
    R3,
    R4,
    R5,
    R6,
    R7,
    R8,
    R9,
    R10,
    R11,
    R12,
    R13,
    R14,
    R15,
) {
    open spec fn encoded(&self) -> Wire {
        Wire::Collection(seq![
            self.0.encoded(),
            self.1.encoded(),
            self.2.encoded(),
            self.3.encoded(),
            self.4.encoded(),
            self.5.encoded(),
            self.6.encoded(),
            self.7.encoded(),
            self.8.encoded(),
            self.9.encoded(),
            self.10.encoded(),
            self.11.encoded(),
            self.12.encoded(),
            self.13.encoded(),
            self.14.encoded(),
            self.15.encoded(),
        ])
    }

    fn into_value(self) -> (v: Value) {
        let mut items: Vec<Value> = Vec::new();
        items.push(self.0.into_value());
        items.push(self.1.into_value());
        items.push(self.2.into_value());
        items.push(self.3.into_value());
        items.push(self.4.into_value());
        items.push(self.5.into_value());
        items.push(self.6.into_value());
        items.push(self.7.into_value());
        items.push(self.8.into_value());
        items.push(self.9.into_value());
        items.push(self.10.into_value());
        items.push(self.11.into_value());
        items.push(self.12.into_value());
        items.push(self.13.into_value());
        items.push(self.14.into_value());
        items.push(self.15.into_value());
        proof {
            assert(wires_of(items@) =~= seq![
                self.0.encoded(),
                self.1.encoded(),
                self.2.encoded(),
                self.3.encoded(),
                self.4.encoded(),
                self.5.encoded(),
                self.6.encoded(),
                self.7.encoded(),
                self.8.encoded(),
                self.9.encoded(),
                self.10.encoded(),
                self.11.encoded(),
                self.12.encoded(),
                self.13.encoded(),
                self.14.encoded(),
                self.15.encoded(),
            ]);
        }
        Value::raw_collection(items)
    }
}

} // verus!
