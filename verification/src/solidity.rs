//! What the generator of the verifier contract and its caller need: the
//! settings of the contract, the formats that keys and proofs come in, and
//! the argument list of a call to the verifier.

use vstd::prelude::*;
use vstd::string::*;

use crate::compress::{uncompressed_proof, Groth16Proof};
use crate::curve::{G1Affine, G2Affine};
use crate::decimal::decimal_digits;
use crate::external::VerifyingKey;
use crate::field::FieldElement;

verus! {

/// Settings of the generated verifier contract.
#[derive(Clone, Debug, PartialEq, Eq, Hash)]
pub struct SolidityVerifierConfig {
    /// The Solidity pragma version of the generated contract. The default
    /// is "^0.8.0".
    pub pragma_version: String,
}

impl Default for SolidityVerifierConfig {
    fn default() -> (r: Self)
        ensures
            r.pragma_version@ == "^0.8.0"@,
    {
        SolidityVerifierConfig { pragma_version: "^0.8.0".to_string() }
    }
}

/// What the template of the verifier contract is rendered from.
#[derive(Clone, Debug, PartialEq, Eq)]
pub struct SolidityVerifierContext {
    /// The Groth16 verifying key.
    pub vk: VerifyingKey,
    /// The settings of the contract.
    pub config: SolidityVerifierConfig,
}

/// The provers whose keys and proofs can be read.
#[derive(Clone, Copy, Debug, PartialEq, Eq, Structural)]
pub enum Format {
    Circom,
    Bellman,
    Gnark,
}

impl Default for Format {
    fn default() -> (r: Self)
        ensures
            r == Format::Circom,
    {
        Format::Circom
    }
}

/// The name of a format.
pub open spec fn format_name(format: Format) -> Seq<char> {
    match format {
        Format::Circom => "circom"@,
        Format::Bellman => "bellman"@,
        Format::Gnark => "gnark"@,
    }
}

/// The format with the name `name`, if there is one.
pub open spec fn format_named(name: Seq<char>) -> Option<Format> {
    if name == "circom"@ {
        Some(Format::Circom)
    } else if name == "bellman"@ {
        Some(Format::Bellman)
    } else if name == "gnark"@ {
        Some(Format::Gnark)
    } else {
        None
    }
}

impl Format {
    /// The name of the format.
    pub fn name(self) -> (r: String)
        ensures
            r@ == format_name(self),
    {
        match self {
            Format::Circom => "circom".to_string(),
            Format::Bellman => "bellman".to_string(),
            Format::Gnark => "gnark".to_string(),
        }
    }

    /// The format with the name `s`: "circom", "bellman" or "gnark".
    pub fn from_name(s: &str) -> (r: Option<Format>)
        ensures
            r == format_named(s@),
    {
        let name = s.to_string();
        if name == "circom".to_string() {
            Some(Format::Circom)
        } else if name == "bellman".to_string() {
            Some(Format::Bellman)
        } else if name == "gnark".to_string() {
            Some(Format::Gnark)
        } else {
            None
        }
    }
}

/// `parts` one after the other, with a comma between any two.
pub open spec fn comma_joined(parts: Seq<Seq<char>>) -> Seq<char>
    decreases parts.len(),
{
    if parts.len() == 0 {
        Seq::empty()
    } else if parts.len() == 1 {
        parts[0]
    } else {
        comma_joined(parts.drop_last()) + seq![','] + parts.last()
    }
}

/// Joins `parts` with commas.
#[verifier::rlimit(50)]
pub fn join_with_commas(parts: &Vec<String>) -> (r: String)
    ensures
        r@ == comma_joined(parts.deep_view()),
{
    proof {
        reveal_strlit(",");
    }
    let ghost all = parts.deep_view();
    let mut r = String::new();
    let mut i: usize = 0;
    while i < parts.len()
        invariant
            i <= parts@.len(),
            all == parts.deep_view(),
            ","@ == seq![','],
            r@ == comma_joined(all.subrange(0, i as int)),
        decreases parts@.len() - i,
    {
        proof {
            let done = all.subrange(0, i as int);
            let next = all.subrange(0, i + 1);
            assert(next.drop_last() =~= done);
            assert(next.last() == parts@[i as int]@);
        }
        if i > 0 {
            r.append(",");
        }
        r.append(parts[i].as_str());
        i = i + 1;
    }
    assert(all.subrange(0, parts@.len() as int) =~= all);
    r
}

/// The decimal tokens of numbers.
pub open spec fn number_tokens(values: Seq<nat>) -> Seq<Seq<char>> {
    Seq::new(values.len(), |i: int| decimal_digits(values[i]))
}

/// The argument list of a call to the verifier: the eight words of the
/// uncompressed proof and the public inputs, all in decimal notation, as
/// `[w0,...,w7],[i0,...]`.
pub open spec fn call_arguments(proof: Groth16Proof, inputs: Seq<FieldElement>) -> Seq<char> {
    seq!['['] + comma_joined(number_tokens(uncompressed_proof(proof.a@, proof.b@, proof.c@)))
        + seq![']', ',', '['] + comma_joined(
        number_tokens(Seq::new(inputs.len(), |i: int| inputs[i]@)),
    ) + seq![']']
}

/// The two tokens of the coordinates of a point of G1.
fn g1_words(p: &G1Affine, out: &mut Vec<String>)
    requires
        p.wf(),
    ensures
        final(out)@.len() == old(out)@.len() + 2,
        forall|i: int| 0 <= i < old(out)@.len() ==> final(out)@[i] == old(out)@[i],
        final(out)@[old(out)@.len() as int]@ == decimal_digits(
            crate::compress::g1_coordinates(p@).0,
        ),
        final(out)@[old(out)@.len() as int + 1]@ == decimal_digits(
            crate::compress::g1_coordinates(p@).1,
        ),
{
    proof {
        reveal_strlit("0");
        assert(decimal_digits(0) =~= seq!['0']);
    }
    match p {
        G1Affine::Infinity => {
            out.push("0".to_string());
            out.push("0".to_string());
        },
        G1Affine::Point { x, y } => {
            out.push(x.to_decimal());
            out.push(y.to_decimal());
        },
    }
}

/// Writes the argument list of a call to the verifier for a proof and its
/// public inputs.
#[verifier::rlimit(50)]
pub fn generate_call(proof: &Groth16Proof, public_input: &Vec<FieldElement>) -> (r: String)
    requires
        proof.wf(),
        forall|i: int| 0 <= i < public_input@.len() ==> (#[trigger] public_input@[i]).wf(),
    ensures
        r@ == call_arguments(*proof, public_input@),
{
    proof {
        reveal_strlit("0");
        reveal_strlit("[");
        reveal_strlit("],[");
        reveal_strlit("]");
        assert(decimal_digits(0) =~= seq!['0']);
    }
    let mut words: Vec<String> = Vec::new();
    g1_words(&proof.a, &mut words);
    let ghost first = words@;
    match &proof.b {
        G2Affine::Infinity => {
            words.push("0".to_string());
            words.push("0".to_string());
            words.push("0".to_string());
            words.push("0".to_string());
        },
        G2Affine::Point { x, y } => {
            words.push(x.c1.to_decimal());
            words.push(x.c0.to_decimal());
            words.push(y.c1.to_decimal());
            words.push(y.c0.to_decimal());
        },
    }
    let ghost middle = words@;
    g1_words(&proof.c, &mut words);
    proof {
        let expected = uncompressed_proof(proof.a@, proof.b@, proof.c@);
        let tokens = words.deep_view();
        assert(tokens.len() == 8 && expected.len() == 8);
        assert forall|i: int| 0 <= i < 8 implies #[trigger] tokens[i] == decimal_digits(
            expected[i],
        ) by {
            if i < 6 {
                assert(words@[i] == middle[i]);
            }
            if i < 2 {
                assert(middle[i] == first[i]);
            }
        }
        assert(tokens =~= number_tokens(expected));
    }
    let inputs = crate::json::serialize_f_seq(public_input);
    assert(inputs.deep_view() =~= number_tokens(
        Seq::new(public_input@.len(), |i: int| public_input@[i]@),
    ));
    let mut r = "[".to_string();
    r.append(join_with_commas(&words).as_str());
    r.append("],[");
    r.append(join_with_commas(&inputs).as_str());
    r.append("]");
    r
}

} // verus!
