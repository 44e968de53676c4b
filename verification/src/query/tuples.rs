//! Tuples as parameters: the components are bound by position, in their
//! order, each as the default of its type.
use super::{Bound, IntoValues};
use crate::into_value::IntoValue;
use crate::proto::{Value, Values};
use crate::types;
use vstd::prelude::*;

verus! {

impl<R0: IntoValue<types::Any>, R1: IntoValue<types::Any>> IntoValues for (R0, R1) {
    open spec fn bound(&self) -> Bound {
        Bound {
            values: seq![self.0.encoded(), self.1.encoded()],
            names: Seq::empty(),
        }
    }

    fn into_values(self) -> (bound: Values) {
        let mut values: Vec<Value> = Vec::new();
        values.push(self.0.into_value());
        values.push(self.1.into_value());
        let bound = Values { values, value_names: Vec::new() };
        proof {
            assert(bound@.values =~= self.bound().values);
            assert(bound@.names =~= Seq::<Seq<char>>::empty());
        }
        bound
    }
}

impl<
    R0: IntoValue<types::Any>,
    R1: IntoValue<types::Any>,
    R2: IntoValue<types::Any>,
> IntoValues for (R0, R1, R2) {
    open spec fn bound(&self) -> Bound {
        Bound {
            values: seq![self.0.encoded(), self.1.encoded(), self.2.encoded()],
            names: Seq::empty(),
        }
    }

    fn into_values(self) -> (bound: Values) {
        let mut values: Vec<Value> = Vec::new();
        values.push(self.0.into_value());
        values.push(self.1.into_value());
        values.push(self.2.into_value());
        let bound = Values { values, value_names: Vec::new() };
        proof {
            assert(bound@.values =~= self.bound().values);
            assert(bound@.names =~= Seq::<Seq<char>>::empty());
        }
        bound
    }
}

impl<
    R0: IntoValue<types::Any>,
    R1: IntoValue<types::Any>,
    R2: IntoValue<types::Any>,
    R3: IntoValue<types::Any>,
> IntoValues for (R0, R1, R2, R3) {
    open spec fn bound(&self) -> Bound {
        Bound {
            values: seq![self.0.encoded(), self.1.encoded(), self.2.encoded(), self.3.encoded()],
            names: Seq::empty(),
        }
    }

    fn into_values(self) -> (bound: Values) {
        let mut values: Vec<Value> = Vec::new();
        values.push(self.0.into_value());
        values.push(self.1.into_value());
        values.push(self.2.into_value());
        values.push(self.3.into_value());
        let bound = Values { values, value_names: Vec::new() };
        proof {
            assert(bound@.values =~= self.bound().values);
            assert(bound@.names =~= Seq::<Seq<char>>::empty());
        }
        bound
    }
}

impl<
    R0: IntoValue<types::Any>,
    R1: IntoValue<types::Any>,
    R2: IntoValue<types::Any>,
    R3: IntoValue<types::Any>,
    R4: IntoValue<types::Any>,
> IntoValues for (R0, R1, R2, R3, R4) {
    open spec fn bound(&self) -> Bound {
        Bound {
            values: seq![
                self.0.encoded(),
                self.1.encoded(),
                self.2.encoded(),
                self.3.encoded(),
                self.4.encoded(),
            ],
            names: Seq::empty(),
        }
    }

    fn into_values(self) -> (bound: Values) {
        let mut values: Vec<Value> = Vec::new();
        values.push(self.0.into_value());
        values.push(self.1.into_value());
        values.push(self.2.into_value());
        values.push(self.3.into_value());
        values.push(self.4.into_value());
        let bound = Values { values, value_names: Vec::new() };
        proof {
            assert(bound@.values =~= self.bound().values);
            assert(bound@.names =~= Seq::<Seq<char>>::empty());
        }
        bound
    }
}

impl<
    R0: IntoValue<types::Any>,
    R1: IntoValue<types::Any>,
    R2: IntoValue<types::Any>,
    R3: IntoValue<types::Any>,
    R4: IntoValue<types::Any>,
    R5: IntoValue<types::Any>,
> IntoValues for (R0, R1, R2, R3, R4, R5) {
    open spec fn bound(&self) -> Bound {
        Bound {
            values: seq![
                self.0.encoded(),
                self.1.encoded(),
                self.2.encoded(),
                self.3.encoded(),
                self.4.encoded(),
                self.5.encoded(),
            ],
            names: Seq::empty(),
        }
    }

    fn into_values(self) -> (bound: Values) {
        let mut values: Vec<Value> = Vec::new();
        values.push(self.0.into_value());
        values.push(self.1.into_value());
        values.push(self.2.into_value());
        values.push(self.3.into_value());
        values.push(self.4.into_value());
        values.push(self.5.into_value());
        let bound = Values { values, value_names: Vec::new() };
        proof {
            assert(bound@.values =~= self.bound().values);
            assert(bound@.names =~= Seq::<Seq<char>>::empty());
        }
        bound
    }
}

impl<
    R0: IntoValue<types::Any>,
    R1: IntoValue<types::Any>,
    R2: IntoValue<types::Any>,
    R3: IntoValue<types::Any>,
    R4: IntoValue<types::Any>,
    R5: IntoValue<types::Any>,
    R6: IntoValue<types::Any>,
> IntoValues for (R0, R1, R2, R3, R4, R5, R6) {
    open spec fn bound(&self) -> Bound {
        Bound {
            values: seq![
                self.0.encoded(),
                self.1.encoded(),
                self.2.encoded(),
                self.3.encoded(),
                self.4.encoded(),
                self.5.encoded(),
                self.6.encoded(),
            ],
            names: Seq::empty(),
        }
    }

    fn into_values(self) -> (bound: Values) {
        let mut values: Vec<Value> = Vec::new();
        values.push(self.0.into_value());
        values.push(self.1.into_value());
        values.push(self.2.into_value());
        values.push(self.3.into_value());
        values.push(self.4.into_value());
        values.push(self.5.into_value());
        values.push(self.6.into_value());
        let bound = Values { values, value_names: Vec::new() };
        proof {
            assert(bound@.values =~= self.bound().values);
            assert(bound@.names =~= Seq::<Seq<char>>::empty());
        }
        bound
    }
}

impl<
    R0: IntoValue<types::Any>,
    R1: IntoValue<types::Any>,
    R2: IntoValue<types::Any>,
    R3: IntoValue<types::Any>,
    R4: IntoValue<types::Any>,
    R5: IntoValue<types::Any>,
    R6: IntoValue<types::Any>,
    R7: IntoValue<types::Any>,
> IntoValues for (R0, R1, R2, R3, R4, R5, R6, R7) {
    open spec fn bound(&self) -> Bound {
        Bound {
            values: seq![
                self.0.encoded(),
                self.1.encoded(),
                self.2.encoded(),
                self.3.encoded(),
                self.4.encoded(),
                self.5.encoded(),
                self.6.encoded(),
                self.7.encoded(),
            ],
            names: Seq::empty(),
        }
    }

    fn into_values(self) -> (bound: Values) {
        let mut values: Vec<Value> = Vec::new();
        values.push(self.0.into_value());
        values.push(self.1.into_value());
        values.push(self.2.into_value());
        values.push(self.3.into_value());
        values.push(self.4.into_value());
        values.push(self.5.into_value());
        values.push(self.6.into_value());
        values.push(self.7.into_value());
        let bound = Values { values, value_names: Vec::new() };
        proof {
            assert(bound@.values =~= self.bound().values);
            assert(bound@.names =~= Seq::<Seq<char>>::empty());
        }
        bound
    }
}

impl<
    R0: IntoValue<types::Any>,
    R1: IntoValue<types::Any>,
    R2: IntoValue<types::Any>,
    R3: IntoValue<types::Any>,
    R4: IntoValue<types::Any>,
    R5: IntoValue<types::Any>,
    R6: IntoValue<types::Any>,
    R7: IntoValue<types::Any>,
    R8: IntoValue<types::Any>,
> IntoValues for (R0, R1, R2, R3, R4, R5, R6, R7, R8) {
    open spec fn bound(&self) -> Bound {
        Bound {
            values: seq![
                self.0.encoded(),
                self.1.encoded(),
                self.2.encoded(),
                self.3.encoded(),
                self.4.encoded(),
                self.5.encoded(),
                self.6.encoded(),
                self.7.encoded(),
                self.8.encoded(),
            ],
            names: Seq::empty(),
        }
    }

    fn into_values(self) -> (bound: Values) {
        let mut values: Vec<Value> = Vec::new();
        values.push(self.0.into_value());
        values.push(self.1.into_value());
        values.push(self.2.into_value());
        values.push(self.3.into_value());
        values.push(self.4.into_value());
        values.push(self.5.into_value());
        values.push(self.6.into_value());
        values.push(self.7.into_value());
        values.push(self.8.into_value());
        let bound = Values { values, value_names: Vec::new() };
        proof {
            assert(bound@.values =~= self.bound().values);
            assert(bound@.names =~= Seq::<Seq<char>>::empty());
        }
        bound
    }
}

impl<
    R0: IntoValue<types::Any>,
    R1: IntoValue<types::Any>,
    R2: IntoValue<types::Any>,
    R3: IntoValue<types::Any>,
    R4: IntoValue<types::Any>,
    R5: IntoValue<types::Any>,
    R6: IntoValue<types::Any>,
    R7: IntoValue<types::Any>,
    R8: IntoValue<types::Any>,
    R9: IntoValue<types::Any>,
> IntoValues for (R0, R1, R2, R3, R4, R5, R6, R7, R8, R9) {
    open spec fn bound(&self) -> Bound {
        Bound {
            values: seq![
                self.0.encoded(),
                self.1.encoded(),
                self.2.encoded(),
                self.3.encoded(),
                self.4.encoded(),
                self.5.encoded(),
                self.6.encoded(),
                self.7.encoded(),
                self.8.encoded(),
                self.9.encoded(),
            ],
            names: Seq::empty(),
        }
    }

    fn into_values(self) -> (bound: Values) {
        let mut values: Vec<Value> = Vec::new();
        values.push(self.0.into_value());
        values.push(self.1.into_value());
        values.push(self.2.into_value());
        values.push(self.3.into_value());
        values.push(self.4.into_value());
        values.push(self.5.into_value());
        values.push(self.6.into_value());
        values.push(self.7.into_value());
        values.push(self.8.into_value());
        values.push(self.9.into_value());
        let bound = Values { values, value_names: Vec::new() };
        proof {
            assert(bound@.values =~= self.bound().values);
            assert(bound@.names =~= Seq::<Seq<char>>::empty());
        }
        bound
    }
}

impl<
    R0: IntoValue<types::Any>,
    R1: IntoValue<types::Any>,
    R2: IntoValue<types::Any>,
    R3: IntoValue<types::Any>,
    R4: IntoValue<types::Any>,
    R5: IntoValue<types::Any>,
    R6: IntoValue<types::Any>,
    R7: IntoValue<types::Any>,
    R8: IntoValue<types::Any>,
    R9: IntoValue<types::Any>,
    R10: IntoValue<types::Any>,
> IntoValues for (R0, R1, R2, R3, R4, R5, R6, R7, R8, R9, R10) {
    open spec fn bound(&self) -> Bound {
        Bound {
            values: seq![
                self.0.encoded(),
                self.1.encoded(),
                self.2.encoded(),
                self.3.encoded(),
                self.4.encoded(),
                self.5.encoded(),
                self.6.encoded(),
                self.7.encoded(),
                self.8.encoded(),
                self.9.encoded(),
                self.10.encoded(),
            ],
            names: Seq::empty(),
        }
    }

    fn into_values(self) -> (bound: Values) {
        let mut values: Vec<Value> = Vec::new();
        values.push(self.0.into_value());
        values.push(self.1.into_value());
        values.push(self.2.into_value());
        values.push(self.3.into_value());
        values.push(self.4.into_value());
        values.push(self.5.into_value());
        values.push(self.6.into_value());
        values.push(self.7.into_value());
        values.push(self.8.into_value());
        values.push(self.9.into_value());
        values.push(self.10.into_value());
        let bound = Values { values, value_names: Vec::new() };
        proof {
            assert(bound@.values =~= self.bound().values);
            assert(bound@.names =~= Seq::<Seq<char>>::empty());
        }
        bound
    }
}

impl<
    R0: IntoValue<types::Any>,
    R1: IntoValue<types::Any>,
    R2: IntoValue<types::Any>,
    R3: IntoValue<types::Any>,
    R4: IntoValue<types::Any>,
    R5: IntoValue<types::Any>,
    R6: IntoValue<types::Any>,
    R7: IntoValue<types::Any>,
    R8: IntoValue<types::Any>,
    R9: IntoValue<types::Any>,
    R10: IntoValue<types::Any>,
    R11: IntoValue<types::Any>,
> IntoValues for (R0, R1, R2, R3, R4, R5, R6, R7, R8, R9, R10, R11) {
    open spec fn bound(&self) -> Bound {
        Bound {
            values: seq![
                self.0.encoded(),
                self.1.encoded(),
                self.2.encoded(),
                self.3.encoded(),
                self.4.encoded(),
                self.5.encoded(),
                self.6.encoded(),
                self.7.encoded(),
                self.8.encoded(),
                self.9.encoded(),
                self.10.encoded(),
                self.11.encoded(),
            ],
            names: Seq::empty(),
        }
    }

    fn into_values(self) -> (bound: Values) {
        let mut values: Vec<Value> = Vec::new();
        values.push(self.0.into_value());
        values.push(self.1.into_value());
        values.push(self.2.into_value());
        values.push(self.3.into_value());
        values.push(self.4.into_value());
        values.push(self.5.into_value());
        values.push(self.6.into_value());
        values.push(self.7.into_value());
        values.push(self.8.into_value());
        values.push(self.9.into_value());
        values.push(self.10.into_value());
        values.push(self.11.into_value());
        let bound = Values { values, value_names: Vec::new() };
        proof {
            assert(bound@.values =~= self.bound().values);
            assert(bound@.names =~= Seq::<Seq<char>>::empty());
        }
        bound
    }
}

impl<
    R0: IntoValue<types::Any>,
    R1: IntoValue<types::Any>,
    R2: IntoValue<types::Any>,
    R3: IntoValue<types::Any>,
    R4: IntoValue<types::Any>,
    R5: IntoValue<types::Any>,
    R6: IntoValue<types::Any>,
    R7: IntoValue<types::Any>,
    R8: IntoValue<types::Any>,
    R9: IntoValue<types::Any>,
    R10: IntoValue<types::Any>,
    R11: IntoValue<types::Any>,
    R12: IntoValue<types::Any>,
> IntoValues for (R0, R1, R2, R3, R4, R5, R6, R7, R8, R9, R10, R11, R12) {
    open spec fn bound(&self) -> Bound {
        Bound {
            values: seq![
                self.0.encoded(),
                self.1.encoded(),
                self.2.encoded(),
                self.3.encoded(),
                self.4.encoded(),
                self.5.encoded(),
                self.6.encoded(),
                self.7.encoded(),
                self.8.encoded(),
                self.9.encoded(),
                self.10.encoded(),
                self.11.encoded(),
                self.12.encoded(),
            ],
            names: Seq::empty(),
        }
    }

    fn into_values(self) -> (bound: Values) {
        let mut values: Vec<Value> = Vec::new();
        values.push(self.0.into_value());
        values.push(self.1.into_value());
        values.push(self.2.into_value());
        values.push(self.3.into_value());
        values.push(self.4.into_value());
        values.push(self.5.into_value());
        values.push(self.6.into_value());
        values.push(self.7.into_value());
        values.push(self.8.into_value());
        values.push(self.9.into_value());
        values.push(self.10.into_value());
        values.push(self.11.into_value());
        values.push(self.12.into_value());
        let bound = Values { values, value_names: Vec::new() };
        proof {
            assert(bound@.values =~= self.bound().values);
            assert(bound@.names =~= Seq::<Seq<char>>::empty());
        }
        bound
    }
}

impl<
    R0: IntoValue<types::Any>,
    R1: IntoValue<types::Any>,
    R2: IntoValue<types::Any>,
    R3: IntoValue<types::Any>,
    R4: IntoValue<types::Any>,
    R5: IntoValue<types::Any>,
    R6: IntoValue<types::Any>,
    R7: IntoValue<types::Any>,
    R8: IntoValue<types::Any>,
    R9: IntoValue<types::Any>,
    R10: IntoValue<types::Any>,
    R11: IntoValue<types::Any>,
    R12: IntoValue<types::Any>,
    R13: IntoValue<types::Any>,
> IntoValues for (R0, R1, R2, R3, R4, R5, R6, R7, R8, R9, R10, R11, R12, R13) {
    open spec fn bound(&self) -> Bound {
        Bound {
            values: seq![
                self.0.encoded(),
                self.1.encoded(),
                self.2.encoded(),
                self.3.encoded(),
                self.4.encoded(),
                self.5.encoded(),
                self.6.encoded(),
                self.7.encoded(),
                self.8.encoded(),
                self.9.encoded(),
                self.10.encoded(),
                self.11.encoded(),
                self.12.encoded(),
                self.13.encoded(),
            ],
            names: Seq::empty(),
        }
    }

    fn into_values(self) -> (bound: Values) {
        let mut values: Vec<Value> = Vec::new();
        values.push(self.0.into_value());
        values.push(self.1.into_value());
        values.push(self.2.into_value());
        values.push(self.3.into_value());
        values.push(self.4.into_value());
        values.push(self.5.into_value());
        values.push(self.6.into_value());
        values.push(self.7.into_value());
        values.push(self.8.into_value());
        values.push(self.9.into_value());
        values.push(self.10.into_value());
        values.push(self.11.into_value());
        values.push(self.12.into_value());
        values.push(self.13.into_value());
        let bound = Values { values, value_names: Vec::new() };
        proof {
            assert(bound@.values =~= self.bound().values);
            assert(bound@.names =~= Seq::<Seq<char>>::empty());
        }
        bound
    }
}

impl<
    R0: IntoValue<types::Any>,
    R1: IntoValue<types::Any>,
    R2: IntoValue<types::Any>,
    R3: IntoValue<types::Any>,
    R4: IntoValue<types::Any>,
    R5: IntoValue<types::Any>,
    R6: IntoValue<types::Any>,
    R7: IntoValue<types::Any>,
    R8: IntoValue<types::Any>,
    R9: IntoValue<types::Any>,
    R10: IntoValue<types::Any>,
    R11: IntoValue<types::Any>,
    R12: IntoValue<types::Any>,
    R13: IntoValue<types::Any>,
    R14: IntoValue<types::Any>,
> IntoValues for (R0, R1, R2, R3, R4, R5, R6, R7, R8, R9, R10, R11, R12, R13, R14) {
    open spec fn bound(&self) -> Bound {
        Bound {
            values: seq![
                self.0.encoded(),
                self.1.encoded(),
                self.2.encoded(),
                self.3.encoded(),
                self.4.encoded(),
                self.5.encoded(),
                self.6.encoded(),
                self.7.encoded(),
                self.8.encoded(),
                self.9.encoded(),
                self.10.encoded(),
                self.11.encoded(),
                self.12.encoded(),
                self.13.encoded(),
                self.14.encoded(),
            ],
            names: Seq::empty(),
        }
    }

    fn into_values(self) -> (bound: Values) {
        let mut values: Vec<Value> = Vec::new();
        values.push(self.0.into_value());
        values.push(self.1.into_value());
        values.push(self.2.into_value());
        values.push(self.3.into_value());
        values.push(self.4.into_value());
        values.push(self.5.into_value());
        values.push(self.6.into_value());
        values.push(self.7.into_value());
        values.push(self.8.into_value());
        values.push(self.9.into_value());
        values.push(self.10.into_value());
        values.push(self.11.into_value());
        values.push(self.12.into_value());
        values.push(self.13.into_value());
        values.push(self.14.into_value());
        let bound = Values { values, value_names: Vec::new() };
        proof {
            assert(bound@.values =~= self.bound().values);
            assert(bound@.names =~= Seq::<Seq<char>>::empty());
        }
        bound
    }
}

impl<
    R0: IntoValue<types::Any>,
    R1: IntoValue<types::Any>,
    R2: IntoValue<types::Any>,
    R3: IntoValue<types::Any>,
    R4: IntoValue<types::Any>,
    R5: IntoValue<types::Any>,
    R6: IntoValue<types::Any>,
    R7: IntoValue<types::Any>,
    R8: IntoValue<types::Any>,
    R9: IntoValue<types::Any>,
    R10: IntoValue<types::Any>,
    R11: IntoValue<types::Any>,
    R12: IntoValue<types::Any>,
    R13: IntoValue<types::Any>,
    R14: IntoValue<types::Any>,
    R15: IntoValue<types::Any>,
> IntoValues for (R0, R1, R2, R3, R4, R5, R6, R7, R8, R9, R10, R11, R12, R13, R14, R15) {
    open spec fn bound(&self) -> Bound {
        Bound {
            values: seq![
                self.0.encoded(),
                self.1.encoded(),
                self.2.encoded(),
                self.3.encoded(),
                self.4.encoded(),
                self.5.encoded(),
                self.6.encoded(),
                self.7.encoded(),
                self.8.encoded(),
                self.9.encoded(),
                self.10.encoded(),
                self.11.encoded(),
                self.12.encoded(),
                self.13.encoded(),
                self.14.encoded(),
                self.15.encoded(),
            ],
            names: Seq::empty(),
        }
    }

    fn into_values(self) -> (bound: Values) {
        let mut values: Vec<Value> = Vec::new();
        values.push(self.0.into_value());
        values.push(self.1.into_value());
        values.push(self.2.into_value());
        values.push(self.3.into_value());
        values.push(self.4.into_value());
        values.push(self.5.into_value());
        values.push(self.6.into_value());
        values.push(self.7.into_value());
        values.push(self.8.into_value());
        values.push(self.9.into_value());
        values.push(self.10.into_value());
        values.push(self.11.into_value());
        values.push(self.12.into_value());
        values.push(self.13.into_value());
        values.push(self.14.into_value());
        values.push(self.15.into_value());
        let bound = Values { values, value_names: Vec::new() };
        proof {
            assert(bound@.values =~= self.bound().values);
            assert(bound@.names =~= Seq::<Seq<char>>::empty());
        }
        bound
    }
}

} // verus!
