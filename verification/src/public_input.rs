//! The public input of a proof: a sequence of scalars.

use vstd::prelude::*;

use crate::decimal::decimal_digits;
use crate::error::CodecError;
use crate::field::{decimal_element, FieldElement, FieldKind};
use crate::json::{collected, deserialize_f_seq, elements_result, serialize_f_seq};

verus! {

/// The public input of a Groth16 proof. Its wire form is the sequence of
/// the decimal tokens of its values.
#[derive(Clone, Debug, PartialEq, Eq)]
pub struct PublicInput(
    /// The values of the public input.
    pub Vec<FieldElement>,
);

/// The views inside the result of decoding a public input.
pub open spec fn input_result(r: Result<PublicInput, CodecError>) -> Result<Seq<nat>, CodecError> {
    match r {
        Ok(p) => elements_result(Ok::<Vec<FieldElement>, CodecError>(p.0)),
        Err(e) => Err(e),
    }
}

impl PublicInput {
    /// Validity: valid elements of one field.
    pub open spec fn wf(&self, kind: FieldKind) -> bool {
        forall|i: int| 0 <= i < self.0@.len() ==> (#[trigger] self.0@[i]).wf() && self.0@[i].kind() == kind
    }

    /// Consumes `self` and returns the inner values.
    pub fn into_inner(self) -> (r: Vec<FieldElement>)
        ensures
            r == self.0,
    {
        self.0
    }

    /// The inner values.
    pub fn as_ref(&self) -> (r: &[FieldElement])
        ensures
            r@ == self.0@,
    {
        self.0.as_slice()
    }

    /// The decimal tokens of the values, in order.
    pub fn to_tokens(&self, kind: FieldKind) -> (r: Vec<String>)
        requires
            self.wf(kind),
        ensures
            r.deep_view() == Seq::new(self.0@.len(), |i: int| decimal_digits(self.0@[i]@)),
    {
        serialize_f_seq(&self.0)
    }

    /// Decodes a public input over the field `kind` from the decimal tokens
    /// of its values. The first token that is no decimal token fails it.
    pub fn from_tokens(kind: FieldKind, tokens: &Vec<String>) -> (r: Result<PublicInput, CodecError>)
        ensures
            collected(
                Seq::new(tokens@.len(), |i: int| decimal_element(kind, tokens@[i]@)),
                input_result(r),
            ),
            r is Ok ==> r.unwrap().wf(kind),
    {
        match deserialize_f_seq(kind, tokens) {
            Ok(values) => Ok(PublicInput(values)),
            Err(e) => Err(e),
        }
    }
}

} // verus!
