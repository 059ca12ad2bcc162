//! What a prover needs beside the codecs: how a proving key and a witness
//! graph are checked before they are loaded, and the functions that a
//! witness computation may call out to.

use vstd::prelude::*;

use crate::babyjubjub::EdwardsAffine;
use crate::backend;
use crate::compress::U256;
use crate::field::{mod_mul, mod_pow, FieldElement, FieldKind};
use crate::natbytes::{
    byte_weight, copy_range, is_zero_bytes, le_nat, le_nat_from, lemma_bound, lemma_split,
};

verus! {

/// Whether the points of a proving key are stored compressed.
#[derive(Clone, Copy, Debug, PartialEq, Eq, Structural)]
pub enum Compress {
    Yes,
    No,
}

/// Whether the points of a proving key are validated when it is loaded.
#[derive(Clone, Copy, Debug, PartialEq, Eq, Structural)]
pub enum Validate {
    Yes,
    No,
}

/// Errors that can occur while loading or parsing a proving key or a graph.
#[derive(Clone, Debug, PartialEq, Eq)]
pub enum ZkeyError {
    /// The SHA-256 fingerprint of the proving key is not the expected one;
    /// the variant holds the fingerprint that was found.
    ZkeyFingerprintMismatch(String),
    /// The SHA-256 fingerprint of the witness graph is not the expected
    /// one; the variant holds the fingerprint that was found.
    GraphFingerprintMismatch(String),
    /// The proving key could not be parsed.
    ZkeyInvalid,
    /// The graph could not be parsed.
    GraphInvalid,
    /// The proving key or the graph could not be read.
    IoError,
}

/// Errors that can occur during proof generation and verification.
#[derive(Clone, Copy, Debug, PartialEq, Eq, Structural)]
pub enum Groth16Error {
    /// No witness could be computed for the circuit.
    WitnessGeneration,
    /// No proof could be generated.
    ProofGeneration,
    /// The proof does not verify against the verification key.
    InvalidProof,
}

/// The SHA-256 digest of `data`.
pub uninterp spec fn sha256(data: Seq<u8>) -> Seq<u8>;

/// The lower-case hexadecimal digit for `n`, for `n` below sixteen.
pub open spec fn hex_digit(n: nat) -> char {
    if n == 0 {
        '0'
    } else if n == 1 {
        '1'
    } else if n == 2 {
        '2'
    } else if n == 3 {
        '3'
    } else if n == 4 {
        '4'
    } else if n == 5 {
        '5'
    } else if n == 6 {
        '6'
    } else if n == 7 {
        '7'
    } else if n == 8 {
        '8'
    } else if n == 9 {
        '9'
    } else if n == 10 {
        'a'
    } else if n == 11 {
        'b'
    } else if n == 12 {
        'c'
    } else if n == 13 {
        'd'
    } else if n == 14 {
        'e'
    } else {
        'f'
    }
}

/// The bytes of `data` in lower-case hexadecimal notation, two digits a
/// byte.
pub open spec fn hex_lower(data: Seq<u8>) -> Seq<char> {
    Seq::new(
        2 * data.len(),
        |i: int|
            if i % 2 == 0 {
                hex_digit((data[i / 2] / 16) as nat)
            } else {
                hex_digit((data[i / 2] % 16) as nat)
            },
    )
}

/// The fingerprint of `data`: its SHA-256 digest in hexadecimal notation.
pub open spec fn fingerprint(data: Seq<u8>) -> Seq<char> {
    hex_lower(sha256(data))
}

/// Computes the fingerprint of `data`.
pub fn fingerprint_of(data: &[u8]) -> (r: String)
    ensures
        r@ == fingerprint(data@),
{
    let digest = backend::sha256_digest(data);
    backend::hex_encode(digest.as_slice())
}

/// A function that a witness computation may call out to.
#[derive(Clone, Copy, Debug, PartialEq, Eq, Structural)]
pub enum BlackBoxFunction {
    /// `bbf_inv`: the inverse, or zero for zero.
    Inv,
    /// `bbf_legendre`: the Legendre symbol.
    Legendre,
    /// `bbf_sqrt_unchecked`: a square root, or zero where there is none.
    SqrtUnchecked,
    /// `bbf_sqrt_input`: one of two values, chosen by a Legendre symbol.
    SqrtInput,
    /// `bbf_num_2_bits_helper`: one bit of a number.
    Num2BitsHelper,
}

/// Collects how a proving key and a witness graph are to be loaded.
#[derive(Clone, Debug, PartialEq, Eq)]
pub struct CircomGroth16MaterialBuilder {
    pub compress: Compress,
    pub validate: Validate,
    pub fingerprint_zkey: Option<String>,
    pub fingerprint_graph: Option<String>,
    /// The functions that the witness computation may call out to, in the
    /// order in which they were added. A valid builder holds none twice.
    pub bbfs: Vec<BlackBoxFunction>,
}

/// Whether `list` holds `f`.
pub open spec fn holds(list: Seq<BlackBoxFunction>, f: BlackBoxFunction) -> bool {
    exists|i: int| 0 <= i < list.len() && list[i] == f
}

/// Whether no function occurs twice in `list`.
pub open spec fn distinct(list: Seq<BlackBoxFunction>) -> bool {
    forall|i: int, j: int| 0 <= i < j < list.len() ==> list[i] != list[j]
}

/// What checking a proving key against the builder's settings gives: with
/// an expected fingerprint, a key with that fingerprint is trusted and not
/// validated again, and any other key is refused; without one, the key is
/// validated as the builder says.
pub open spec fn zkey_decision(
    expected: Option<Seq<char>>,
    validate: Validate,
    zkey: Seq<u8>,
) -> Result<Validate, Seq<char>> {
    match expected {
        Some(should) => if fingerprint(zkey) == should {
            Ok(Validate::No)
        } else {
            Err(fingerprint(zkey))
        },
        None => Ok(validate),
    }
}

/// The view of an optional string.
pub open spec fn opt_view(s: Option<String>) -> Option<Seq<char>> {
    match s {
        Some(s) => Some(s@),
        None => None,
    }
}

impl Default for CircomGroth16MaterialBuilder {
    fn default() -> (r: Self)
        ensures
            r.compress == Compress::No,
            r.validate == Validate::Yes,
            r.fingerprint_zkey is None,
            r.fingerprint_graph is None,
            r.bbfs@.len() == 0,
            r.wf(),
    {
        CircomGroth16MaterialBuilder {
            compress: Compress::No,
            validate: Validate::Yes,
            fingerprint_zkey: None,
            fingerprint_graph: None,
            bbfs: Vec::new(),
        }
    }
}

impl CircomGroth16MaterialBuilder {
    /// Validity: the builder holds no function twice. The functions go by
    /// their names, and a name stands for one function.
    pub open spec fn wf(&self) -> bool {
        distinct(self.bbfs@)
    }

    /// A builder for an uncompressed proving key that is validated, without
    /// fingerprints and without functions to call out to.
    pub fn new() -> (r: Self)
        ensures
            r.compress == Compress::No,
            r.validate == Validate::Yes,
            r.fingerprint_zkey is None,
            r.fingerprint_graph is None,
            r.bbfs@.len() == 0,
            r.wf(),
    {
        CircomGroth16MaterialBuilder {
            compress: Compress::No,
            validate: Validate::Yes,
            fingerprint_zkey: None,
            fingerprint_graph: None,
            bbfs: Vec::new(),
        }
    }

    /// Says whether the points of the proving key are stored compressed.
    pub fn compress(self, compress: Compress) -> (r: Self)
        ensures
            r.compress == compress,
            r.validate == self.validate,
            r.fingerprint_zkey == self.fingerprint_zkey,
            r.fingerprint_graph == self.fingerprint_graph,
            r.bbfs == self.bbfs,
            self.wf() ==> r.wf(),
    {
        let mut r = self;
        r.compress = compress;
        r
    }

    /// Says whether the points of the proving key are validated.
    pub fn validate(self, validate: Validate) -> (r: Self)
        ensures
            r.compress == self.compress,
            r.validate == validate,
            r.fingerprint_zkey == self.fingerprint_zkey,
            r.fingerprint_graph == self.fingerprint_graph,
            r.bbfs == self.bbfs,
            self.wf() ==> r.wf(),
    {
        let mut r = self;
        r.validate = validate;
        r
    }

    /// Sets the fingerprint that the proving key has to have.
    pub fn fingerprint_zkey(self, fingerprint_zkey: String) -> (r: Self)
        ensures
            r.compress == self.compress,
            r.validate == self.validate,
            r.fingerprint_zkey == Some(fingerprint_zkey),
            r.fingerprint_graph == self.fingerprint_graph,
            r.bbfs == self.bbfs,
            self.wf() ==> r.wf(),
    {
        let mut r = self;
        r.fingerprint_zkey = Some(fingerprint_zkey);
        r
    }

    /// Sets the fingerprint that the witness graph has to have.
    pub fn fingerprint_graph(self, fingerprint_graph: String) -> (r: Self)
        ensures
            r.compress == self.compress,
            r.validate == self.validate,
            r.fingerprint_zkey == self.fingerprint_zkey,
            r.fingerprint_graph == Some(fingerprint_graph),
            r.bbfs == self.bbfs,
            self.wf() ==> r.wf(),
    {
        let mut r = self;
        r.fingerprint_graph = Some(fingerprint_graph);
        r
    }

    /// Whether the builder holds the function `f`.
    pub fn has_bbf(&self, f: BlackBoxFunction) -> (r: bool)
        ensures
            r == holds(self.bbfs@, f),
    {
        let mut i: usize = 0;
        while i < self.bbfs.len()
            invariant
                i <= self.bbfs@.len(),
                forall|k: int| 0 <= k < i ==> self.bbfs@[k] != f,
            decreases self.bbfs@.len() - i,
        {
            if self.bbfs[i] == f {
                return true;
            }
            i = i + 1;
        }
        false
    }

    /// Adds the function `f`, unless the builder holds it already.
    pub fn add_bbf(self, f: BlackBoxFunction) -> (r: Self)
        requires
            self.wf(),
        ensures
            r.wf(),
            r.compress == self.compress,
            r.validate == self.validate,
            r.fingerprint_zkey == self.fingerprint_zkey,
            r.fingerprint_graph == self.fingerprint_graph,
            holds(self.bbfs@, f) ==> r.bbfs@ == self.bbfs@,
            !holds(self.bbfs@, f) ==> r.bbfs@ == self.bbfs@.push(f),
    {
        if self.has_bbf(f) {
            self
        } else {
            let ghost before = self.bbfs@;
            let mut r = self;
            r.bbfs.push(f);
            proof {
                assert forall|i: int, j: int| 0 <= i < j < r.bbfs@.len() implies r.bbfs@[i]
                    != r.bbfs@[j] by {
                    if j == before.len() {
                        assert(before[i] != f);
                    }
                }
            }
            r
        }
    }

    /// Adds the functions of `bbfs`, in order, each unless the builder
    /// holds it already.
    #[verifier::rlimit(50)]
    pub fn add_bbfs(self, bbfs: &Vec<BlackBoxFunction>) -> (r: Self)
        requires
            self.wf(),
        ensures
            r.wf(),
            r.compress == self.compress,
            r.validate == self.validate,
            r.fingerprint_zkey == self.fingerprint_zkey,
            r.fingerprint_graph == self.fingerprint_graph,
            forall|f: BlackBoxFunction|
                holds(r.bbfs@, f) <==> holds(self.bbfs@, f) || holds(bbfs@, f),
    {
        let ghost before = self.bbfs@;
        let mut r = self;
        let mut i: usize = 0;
        while i < bbfs.len()
            invariant
                i <= bbfs@.len(),
                r.compress == self.compress,
                r.validate == self.validate,
                r.fingerprint_zkey == self.fingerprint_zkey,
                r.fingerprint_graph == self.fingerprint_graph,
                before == self.bbfs@,
                r.wf(),
                forall|f: BlackBoxFunction|
                    holds(r.bbfs@, f) <==> holds(before, f) || holds(bbfs@.subrange(0, i as int), f),
            decreases bbfs@.len() - i,
        {
            let ghost prev = r.bbfs@;
            let f = bbfs[i];
            r = r.add_bbf(f);
            proof {
                let done = bbfs@.subrange(0, i as int);
                let next = bbfs@.subrange(0, i + 1);
                assert(next =~= done.push(f));
                assert(holds(prev, f) <==> holds(before, f) || holds(done, f));
                assert forall|g: BlackBoxFunction|
                    holds(r.bbfs@, g) <==> holds(before, g) || holds(next, g) by {
                    assert(holds(prev, g) <==> holds(before, g) || holds(done, g));
                    lemma_holds_push(done, f, g);
                    lemma_holds_push(prev, f, g);
                }
            }
            i = i + 1;
        }
        assert(bbfs@.subrange(0, bbfs@.len() as int) =~= bbfs@);
        r
    }

    /// Adds `bbf_inv`.
    pub fn bbf_inv(self) -> (r: Self)
        requires
            self.wf(),
        ensures
            r.wf(),
            r.compress == self.compress,
            r.validate == self.validate,
            r.fingerprint_zkey == self.fingerprint_zkey,
            r.fingerprint_graph == self.fingerprint_graph,
            holds(self.bbfs@, BlackBoxFunction::Inv) ==> r.bbfs@ == self.bbfs@,
            !holds(self.bbfs@, BlackBoxFunction::Inv) ==> r.bbfs@ == self.bbfs@.push(
                BlackBoxFunction::Inv,
            ),
    {
        self.add_bbf(BlackBoxFunction::Inv)
    }

    /// Adds `bbf_legendre`.
    pub fn bbf_legendre(self) -> (r: Self)
        requires
            self.wf(),
        ensures
            r.wf(),
            r.compress == self.compress,
            r.validate == self.validate,
            r.fingerprint_zkey == self.fingerprint_zkey,
            r.fingerprint_graph == self.fingerprint_graph,
            holds(self.bbfs@, BlackBoxFunction::Legendre) ==> r.bbfs@ == self.bbfs@,
            !holds(self.bbfs@, BlackBoxFunction::Legendre) ==> r.bbfs@ == self.bbfs@.push(
                BlackBoxFunction::Legendre,
            ),
    {
        self.add_bbf(BlackBoxFunction::Legendre)
    }

    /// Adds `bbf_sqrt_unchecked`.
    pub fn bbf_sqrt_unchecked(self) -> (r: Self)
        requires
            self.wf(),
        ensures
            r.wf(),
            r.compress == self.compress,
            r.validate == self.validate,
            r.fingerprint_zkey == self.fingerprint_zkey,
            r.fingerprint_graph == self.fingerprint_graph,
            holds(self.bbfs@, BlackBoxFunction::SqrtUnchecked) ==> r.bbfs@ == self.bbfs@,
            !holds(self.bbfs@, BlackBoxFunction::SqrtUnchecked) ==> r.bbfs@ == self.bbfs@.push(
                BlackBoxFunction::SqrtUnchecked,
            ),
    {
        self.add_bbf(BlackBoxFunction::SqrtUnchecked)
    }

    /// Adds `bbf_sqrt_input`.
    pub fn bbf_sqrt_input(self) -> (r: Self)
        requires
            self.wf(),
        ensures
            r.wf(),
            r.compress == self.compress,
            r.validate == self.validate,
            r.fingerprint_zkey == self.fingerprint_zkey,
            r.fingerprint_graph == self.fingerprint_graph,
            holds(self.bbfs@, BlackBoxFunction::SqrtInput) ==> r.bbfs@ == self.bbfs@,
            !holds(self.bbfs@, BlackBoxFunction::SqrtInput) ==> r.bbfs@ == self.bbfs@.push(
                BlackBoxFunction::SqrtInput,
            ),
    {
        self.add_bbf(BlackBoxFunction::SqrtInput)
    }

    /// Adds `bbf_num_2_bits_helper`.
    pub fn bbf_num_2_bits_helper(self) -> (r: Self)
        requires
            self.wf(),
        ensures
            r.wf(),
            r.compress == self.compress,
            r.validate == self.validate,
            r.fingerprint_zkey == self.fingerprint_zkey,
            r.fingerprint_graph == self.fingerprint_graph,
            holds(self.bbfs@, BlackBoxFunction::Num2BitsHelper) ==> r.bbfs@ == self.bbfs@,
            !holds(self.bbfs@, BlackBoxFunction::Num2BitsHelper) ==> r.bbfs@ == self.bbfs@.push(
                BlackBoxFunction::Num2BitsHelper,
            ),
    {
        self.add_bbf(BlackBoxFunction::Num2BitsHelper)
    }

    /// Checks the bytes of a proving key against the expected fingerprint,
    /// if there is one, and says how the key is to be validated when it is
    /// parsed.
    pub fn check_zkey(&self, zkey_bytes: &[u8]) -> (r: Result<Validate, ZkeyError>)
        ensures
            r is Ok ==> zkey_decision(opt_view(self.fingerprint_zkey), self.validate, zkey_bytes@)
                == Ok::<Validate, Seq<char>>(r.unwrap()),
            r is Err ==> r.unwrap_err() is ZkeyFingerprintMismatch && zkey_decision(
                opt_view(self.fingerprint_zkey),
                self.validate,
                zkey_bytes@,
            ) == Err::<Validate, Seq<char>>(r.unwrap_err()->ZkeyFingerprintMismatch_0@),
    {
        match &self.fingerprint_zkey {
            Some(should) => {
                let is = fingerprint_of(zkey_bytes);
                if is != *should {
                    Err(ZkeyError::ZkeyFingerprintMismatch(is))
                } else {
                    Ok(Validate::No)
                }
            },
            None => Ok(self.validate),
        }
    }

    /// Checks the bytes of a witness graph against the expected
    /// fingerprint, if there is one.
    pub fn check_graph(&self, graph_bytes: &[u8]) -> (r: Result<(), ZkeyError>)
        ensures
            r is Ok <==> (self.fingerprint_graph is Some ==> self.fingerprint_graph.unwrap()@
                == fingerprint(graph_bytes@)),
            r is Err ==> r.unwrap_err() is GraphFingerprintMismatch
                && r.unwrap_err()->GraphFingerprintMismatch_0@ == fingerprint(graph_bytes@),
    {
        match &self.fingerprint_graph {
            Some(should) => {
                let is = fingerprint_of(graph_bytes);
                if is != *should {
                    Err(ZkeyError::GraphFingerprintMismatch(is))
                } else {
                    Ok(())
                }
            },
            None => Ok(()),
        }
    }
}

/// How a proving key and a witness graph that have passed the checks of a
/// builder are to be loaded.
#[derive(Clone, Debug, PartialEq, Eq)]
pub struct CheckedMaterial {
    /// Whether the points of the proving key are stored compressed.
    pub compress: Compress,
    /// Whether the points of the proving key are validated when it is
    /// parsed.
    pub validate: Validate,
    /// The functions that the witness computation may call out to: those
    /// of the builder, none twice if the builder was valid.
    pub bbfs: Vec<BlackBoxFunction>,
}

/// Whether `r` is what checking a proving key and a witness graph against
/// the settings of `builder` gives. The key is checked first: a key with
/// another fingerprint than the expected one is refused whatever the graph
/// is. Then the graph is checked in the same way. What passes is loaded as
/// the builder says, except that a key with the expected fingerprint is not
/// validated again.
pub open spec fn material_checked(
    builder: CircomGroth16MaterialBuilder,
    zkey: Seq<u8>,
    graph: Seq<u8>,
    r: Result<CheckedMaterial, ZkeyError>,
) -> bool {
    match zkey_decision(opt_view(builder.fingerprint_zkey), builder.validate, zkey) {
        Err(found) => r is Err && r.unwrap_err() is ZkeyFingerprintMismatch
            && r.unwrap_err()->ZkeyFingerprintMismatch_0@ == found,
        Ok(validate) => if builder.fingerprint_graph is Some && builder.fingerprint_graph.unwrap()@
            != fingerprint(graph) {
            r is Err && r.unwrap_err() is GraphFingerprintMismatch
                && r.unwrap_err()->GraphFingerprintMismatch_0@ == fingerprint(graph)
        } else {
            r is Ok && r.unwrap().validate == validate && r.unwrap().compress == builder.compress
                && r.unwrap().bbfs == builder.bbfs
        },
    }
}

impl CircomGroth16MaterialBuilder {
    /// Checks the bytes of a proving key and of a witness graph against the
    /// expected fingerprints, if there are any, and says how they are to be
    /// loaded.
    pub fn build_from_bytes(self, zkey_bytes: &[u8], graph_bytes: &[u8]) -> (r: Result<
        CheckedMaterial,
        ZkeyError,
    >)
        ensures
            material_checked(self, zkey_bytes@, graph_bytes@, r),
            self.wf() && r is Ok ==> distinct(r.unwrap().bbfs@),
    {
        let validate = match self.check_zkey(zkey_bytes) {
            Ok(v) => v,
            Err(e) => {
                return Err(e);
            },
        };
        match self.check_graph(graph_bytes) {
            Ok(_) => {},
            Err(e) => {
                return Err(e);
            },
        }
        Ok(CheckedMaterial { compress: self.compress, validate, bbfs: self.bbfs })
    }
}

/// A list with one more function holds what it held before and that
/// function.
pub proof fn lemma_holds_push(list: Seq<BlackBoxFunction>, f: BlackBoxFunction, g: BlackBoxFunction)
    ensures
        holds(list.push(f), g) <==> holds(list, g) || g == f,
{
    let longer = list.push(f);
    if holds(list, g) {
        let i = choose|i: int| 0 <= i < list.len() && list[i] == g;
        assert(longer[i] == g);
    }
    if g == f {
        assert(longer[list.len() as int] == g);
    }
    if holds(longer, g) {
        let i = choose|i: int| 0 <= i < longer.len() && longer[i] == g;
        if i < list.len() {
            assert(list[i] == g);
        }
    }
}

/// The order of the scalar field of BN254.
pub open spec fn bn254_fr_modulus() -> nat {
    FieldKind::Bn254Fr.modulus()
}

/// Half the order of the scalar field of BN254 less one.
pub open spec fn legendre_exponent() -> nat {
    10944121435919637611123202872628637544274182200208017171849102093287904247808nat
}

/// The Legendre symbol of `a` in the scalar field of BN254, as arkworks
/// tells it: `a` to the power of [`legendre_exponent`] is zero for zero and
/// one for a square. The outcomes are 0 for zero, 1 for a square and 2 for
/// anything else.
#[verifier::opaque]
pub open spec fn legendre_symbol(a: nat) -> u8 {
    let s = mod_pow(bn254_fr_modulus(), a, legendre_exponent());
    if s == 0 {
        0
    } else if s == 1 {
        1
    } else {
        2
    }
}

/// The square root that arkworks finds for `a` in the scalar field of
/// BN254, if `a` has one.
pub uninterp spec fn bn254_fr_root(a: nat) -> Option<nat>;

/// The `k`-th bit of `v`, counted from the lowest.
pub open spec fn nat_bit(v: nat, k: nat) -> nat
    decreases k,
{
    if k == 0 {
        v % 2
    } else {
        nat_bit(v / 2, (k - 1) as nat)
    }
}

/// Whether `args` are `n` or more valid elements of the scalar field of
/// BN254.
pub open spec fn scalars(args: Seq<FieldElement>, n: nat) -> bool {
    &&& args.len() >= n
    &&& forall|i: int|
        0 <= i < args.len() ==> (#[trigger] args[i]).wf() && args[i].kind() == FieldKind::Bn254Fr
}

/// `bbf_inv(in)`: the inverse of `in`, or zero for zero.
pub fn bbf_inv(args: &[FieldElement]) -> (r: FieldElement)
    requires
        scalars(args@, 1),
    ensures
        r.wf(),
        r.kind() == FieldKind::Bn254Fr,
        inverse_or_zero(args@[0]@, r@),
{
    let a = args[0].to_le_bytes();
    match backend::bn254_fr_inverse(a.as_slice()) {
        Some(bytes) => {
            assert(bytes@.subrange(0, 32) =~= bytes@);
            match FieldElement::from_le_bytes(FieldKind::Bn254Fr, bytes.as_slice()) {
                Ok(e) => e,
                Err(_) => FieldElement::zero(FieldKind::Bn254Fr),
            }
        },
        None => FieldElement::zero(FieldKind::Bn254Fr),
    }
}

/// `bbf_legendre(in)`: zero for zero, one for a square and minus one for
/// anything else.
pub fn bbf_legendre(args: &[FieldElement]) -> (r: FieldElement)
    requires
        scalars(args@, 1),
    ensures
        r.wf(),
        r.kind() == FieldKind::Bn254Fr,
        r@ == legendre_value(args@[0]@),
{
    let a = args[0].to_le_bytes();
    let symbol = backend::bn254_fr_legendre(a.as_slice());
    if symbol == 0 {
        FieldElement::zero(FieldKind::Bn254Fr)
    } else if symbol == 1 {
        FieldElement::one(FieldKind::Bn254Fr)
    } else {
        bbf_minus_one()
    }
}

/// `bbf_sqrt_unchecked(in)`: a square root of `in`, or zero where it has
/// none.
pub fn bbf_sqrt_unchecked(args: &[FieldElement]) -> (r: FieldElement)
    requires
        scalars(args@, 1),
    ensures
        r.wf(),
        r.kind() == FieldKind::Bn254Fr,
        r@ == root_or_zero(args@[0]@),
{
    let a = args[0].to_le_bytes();
    match backend::bn254_fr_sqrt(a.as_slice()) {
        Some(bytes) => {
            assert(bytes@.subrange(0, 32) =~= bytes@);
            match FieldElement::from_le_bytes(FieldKind::Bn254Fr, bytes.as_slice()) {
                Ok(e) => e,
                Err(_) => FieldElement::zero(FieldKind::Bn254Fr),
            }
        },
        None => FieldElement::zero(FieldKind::Bn254Fr),
    }
}

/// `bbf_sqrt_input(l, a, na)`: `na` where `l` is minus one, and `a`
/// otherwise.
pub fn bbf_sqrt_input(args: &[FieldElement]) -> (r: FieldElement)
    requires
        scalars(args@, 3),
    ensures
        r.wf(),
        r.kind() == FieldKind::Bn254Fr,
        r@ == chosen_input(args@[0]@, args@[1]@, args@[2]@),
{
    let minus_one = bbf_minus_one();
    if !args[0].equals(&minus_one) {
        args[1].duplicate()
    } else {
        args[2].duplicate()
    }
}

/// Two to the power of `e`.
pub open spec fn two_pow(e: nat) -> nat
    decreases e,
{
    if e == 0 {
        1
    } else {
        2 * two_pow((e - 1) as nat)
    }
}

/// A multiple of two to the power of `e` does not touch the bits below `e`.
proof fn lemma_nat_bit_above(v: nat, w: nat, e: nat, k: nat)
    requires
        k < e,
    ensures
        nat_bit(v + two_pow(e) * w, k) == nat_bit(v, k),
    decreases k,
{
    let m = two_pow((e - 1) as nat);
    assert(two_pow(e) * w == 2 * (m * w)) by (nonlinear_arith)
        requires
            two_pow(e) == 2 * m,
    ;
    if k > 0 {
        assert((v + 2 * (m * w)) / 2 == v / 2 + m * w);
        lemma_nat_bit_above(v / 2, w, (e - 1) as nat, (k - 1) as nat);
    }
}

/// The bit of a byte is the bit of any number that ends in that byte.
proof fn lemma_nat_bit_low(v: u8, w: nat, k: nat)
    requires
        k < 8,
    ensures
        nat_bit(v as nat + 256 * w, k) == nat_bit(v as nat, k),
{
    assert(two_pow(8) == 256) by {
        reveal_with_fuel(two_pow, 9);
    }
    lemma_nat_bit_above(v as nat, w, 8, k);
}

/// Eight bits up is one byte up.
proof fn lemma_nat_bit_skip(v: nat, k: nat)
    requires
        k >= 8,
    ensures
        nat_bit(v, k) == nat_bit(v / 256, (k - 8) as nat),
{
    reveal_with_fuel(nat_bit, 9);
}

/// The `k`-th bit of the number that bytes spell is a bit of the byte that
/// holds it.
proof fn lemma_nat_bit_bytes(s: Seq<u8>, i: int, k: nat)
    requires
        0 <= i,
        i + k / 8 < s.len(),
    ensures
        nat_bit(le_nat_from(s, i), k) == nat_bit(s[i + k / 8] as nat, k % 8),
    decreases k,
{
    if k >= 8 {
        lemma_nat_bit_skip(le_nat_from(s, i), k);
        lemma_nat_bit_bytes(s, i + 1, (k - 8) as nat);
    } else {
        lemma_nat_bit_low(s[i], le_nat_from(s, i + 1), k);
    }
}

/// The `k`-th bit of a byte.
fn bit_of_byte(byte: u8, k: u8) -> (r: u8)
    requires
        k < 8,
    ensures
        r == nat_bit(byte as nat, k as nat),
{
    let mut rest: u8 = byte;
    let mut j: u8 = 0;
    while j < k
        invariant
            j <= k,
            nat_bit(byte as nat, k as nat) == nat_bit(rest as nat, (k - j) as nat),
        decreases k - j,
    {
        rest = rest / 2;
        j = j + 1;
    }
    rest % 2
}

/// Two to the power of 64.
pub open spec fn limb_size() -> nat {
    0x1_0000_0000_0000_0000nat
}

/// The bit that `bbf_num_2_bits_helper(in, i)` gives: bit `i` of `in`,
/// where `i` is read from its lowest 64 bits alone and anything from 256 on
/// lies above all bits of `in`.
pub open spec fn helper_bit(v: nat, i: nat) -> nat {
    if i % limb_size() < 256 {
        nat_bit(v, i % limb_size())
    } else {
        0
    }
}

/// A number below two to the power of 64 is what is left of it, and of
/// anything that lies a multiple of that power above it, after division by
/// that power.
proof fn lemma_limb_remainder(small: int, high: int)
    requires
        0 <= small < 0x1_0000_0000_0000_0000,
        0 <= high,
    ensures
        (small + 0x1_0000_0000_0000_0000 * high) % 0x1_0000_0000_0000_0000 == small,
{
}

/// 256 to the power of seven.
proof fn lemma_weight_of_seven()
    ensures
        byte_weight(7) == 0x1_0000_0000_0000_00,
{
    reveal_with_fuel(byte_weight, 8);
}

/// The lowest 64 bits of the number that 32 bytes spell are its first
/// byte if the seven bytes after it are zero, and are 256 or more if not.
#[verifier::rlimit(50)]
proof fn lemma_low_limb(b: Seq<u8>)
    requires
        b.len() == 32,
    ensures
        le_nat(b.subrange(1, 8)) == 0 ==> le_nat(b) % limb_size() == b[0],
        le_nat(b.subrange(1, 8)) != 0 ==> le_nat(b) % limb_size() >= 256,
{
    let upper = b.subrange(1, 8);
    let low = le_nat(upper) as int;
    let high = le_nat_from(b, 8) as int;
    let first = b[0] as int;
    lemma_split(b, 1, 7);
    lemma_bound(upper, 0);
    lemma_weight_of_seven();
    assert(low < 0x1_0000_0000_0000_00);
    assert(le_nat(b) == first + 256 * le_nat_from(b, 1));
    assert(le_nat_from(b, 1) == low + byte_weight(7) * high);
    assert(byte_weight(7) * high == 0x1_0000_0000_0000_00 * high);
    let small = first + 256 * low;
    assert(le_nat(b) == small + 0x1_0000_0000_0000_0000 * high);
    lemma_limb_remainder(small, high);
}

/// `bbf_num_2_bits_helper(in, i)`: bit `i` of `in`.
#[verifier::rlimit(50)]
pub fn bbf_num_2_bits_helper(args: &[FieldElement]) -> (r: FieldElement)
    requires
        scalars(args@, 2),
    ensures
        r.wf(),
        r.kind() == FieldKind::Bn254Fr,
        r@ == helper_bit(args@[0]@, args@[1]@),
{
    let a = args[0].to_le_bytes();
    let b = args[1].to_le_bytes();
    let upper = copy_range(b.as_slice(), 1, 7);
    proof {
        lemma_low_limb(b@);
    }
    if !is_zero_bytes(upper.as_slice()) {
        return FieldElement::zero(FieldKind::Bn254Fr);
    }
    let k = b[0];
    proof {
        lemma_nat_bit_bytes(a@, 0, k as nat);
    }
    let bit = bit_of_byte(a[(k / 8) as usize], k % 8);
    FieldElement::from_u8(FieldKind::Bn254Fr, bit)
}

impl BlackBoxFunction {
    /// The name under which a circuit calls the function.
    pub fn name(self) -> (r: String)
        ensures
            self == BlackBoxFunction::Inv ==> r@ == "bbf_inv"@,
            self == BlackBoxFunction::Legendre ==> r@ == "bbf_legendre"@,
            self == BlackBoxFunction::SqrtUnchecked ==> r@ == "bbf_sqrt_unchecked"@,
            self == BlackBoxFunction::SqrtInput ==> r@ == "bbf_sqrt_input"@,
            self == BlackBoxFunction::Num2BitsHelper ==> r@ == "bbf_num_2_bits_helper"@,
    {
        match self {
            BlackBoxFunction::Inv => "bbf_inv".to_string(),
            BlackBoxFunction::Legendre => "bbf_legendre".to_string(),
            BlackBoxFunction::SqrtUnchecked => "bbf_sqrt_unchecked".to_string(),
            BlackBoxFunction::SqrtInput => "bbf_sqrt_input".to_string(),
            BlackBoxFunction::Num2BitsHelper => "bbf_num_2_bits_helper".to_string(),
        }
    }

    /// The number of arguments that the function reads.
    pub open spec fn arity(self) -> nat {
        match self {
            BlackBoxFunction::SqrtInput => 3,
            BlackBoxFunction::Num2BitsHelper => 2,
            _ => 1,
        }
    }

    /// The number of arguments that the function reads.
    pub fn argument_count(self) -> (n: usize)
        ensures
            n == self.arity(),
    {
        match self {
            BlackBoxFunction::SqrtInput => 3,
            BlackBoxFunction::Num2BitsHelper => 2,
            _ => 1,
        }
    }

    /// Whether `r` is what the function gives for the arguments `args`.
    pub open spec fn gives(self, args: Seq<FieldElement>, r: nat) -> bool {
        match self {
            BlackBoxFunction::Inv => inverse_or_zero(args[0]@, r),
            BlackBoxFunction::Legendre => r == legendre_value(args[0]@),
            BlackBoxFunction::SqrtUnchecked => r == root_or_zero(args[0]@),
            BlackBoxFunction::SqrtInput => r == chosen_input(args[0]@, args[1]@, args[2]@),
            BlackBoxFunction::Num2BitsHelper => r == helper_bit(args[0]@, args[1]@),
        }
    }

    /// Calls the function on `args`.
    pub fn apply(self, args: &[FieldElement]) -> (r: FieldElement)
        requires
            scalars(args@, self.arity()),
        ensures
            r.wf(),
            r.kind() == FieldKind::Bn254Fr,
            self.gives(args@, r@),
    {
        match self {
            BlackBoxFunction::Inv => bbf_inv(args),
            BlackBoxFunction::Legendre => bbf_legendre(args),
            BlackBoxFunction::SqrtUnchecked => bbf_sqrt_unchecked(args),
            BlackBoxFunction::SqrtInput => bbf_sqrt_input(args),
            BlackBoxFunction::Num2BitsHelper => bbf_num_2_bits_helper(args),
        }
    }
}

/// Whether `r` is the inverse of `a` in the scalar field of BN254, or zero
/// for `a = 0`.
pub open spec fn inverse_or_zero(a: nat, r: nat) -> bool {
    if a == 0 {
        r == 0
    } else {
        mod_mul(bn254_fr_modulus(), a, r) == 1
    }
}

/// The Legendre symbol of `a` as an element of the scalar field of BN254:
/// zero, one or minus one.
pub open spec fn legendre_value(a: nat) -> nat {
    if legendre_symbol(a) == 0 {
        0
    } else if legendre_symbol(a) == 1 {
        1
    } else {
        (bn254_fr_modulus() - 1) as nat
    }
}

/// The square root that is found for `a` in the scalar field of BN254, or
/// zero where there is none.
pub open spec fn root_or_zero(a: nat) -> nat {
    match bn254_fr_root(a) {
        Some(r) => r,
        None => 0,
    }
}

/// `na` where `l` is minus one in the scalar field of BN254, and `a`
/// otherwise.
pub open spec fn chosen_input(l: nat, a: nat, na: nat) -> nat {
    if l == bn254_fr_modulus() - 1 {
        na
    } else {
        a
    }
}

/// Minus one in the scalar field of BN254.
#[verifier::rlimit(50)]
fn bbf_minus_one() -> (r: FieldElement)
    ensures
        r.wf(),
        r.kind() == FieldKind::Bn254Fr,
        r@ == bn254_fr_modulus() - 1,
{
    let bytes: Vec<u8> = vec![
        0u8, 0, 0, 240, 147, 245, 225, 67, 145, 112, 185, 121, 72, 232, 51, 40,
        93, 88, 129, 129, 182, 69, 80, 184, 41, 160, 49, 225, 114, 78, 100, 48,
    ];
    proof {
        reveal_with_fuel(le_nat_from, 33);
        assert(bytes@.subrange(0, 32) =~= bytes@);
    }
    match FieldElement::from_le_bytes(FieldKind::Bn254Fr, bytes.as_slice()) {
        Ok(e) => e,
        Err(_) => FieldElement::zero(FieldKind::Bn254Fr),
    }
}

/// The residue of an element of the base field of Baby Jubjub as a word.
pub fn fq_to_u256_vec(f: &FieldElement) -> (r: Vec<U256>)
    requires
        f.wf(),
        f.kind() == FieldKind::Bn254Fr,
    ensures
        r@.len() == 1,
        r@[0].wf(),
        r@[0]@ == f@,
{
    vec![U256::from_field(f)]
}

/// The residue of an element of the scalar field of Baby Jubjub as a word.
pub fn fr_to_u256_vec(f: &FieldElement) -> (r: Vec<U256>)
    requires
        f.wf(),
        f.kind() == FieldKind::BabyJubJubFr,
    ensures
        r@.len() == 1,
        r@[0].wf(),
        r@[0]@ == f@,
{
    vec![U256::from_field(f)]
}

/// The residues of a sequence of elements of the base field of Baby Jubjub
/// as words, in order.
pub fn fq_seq_to_u256_vec(fs: &[FieldElement]) -> (r: Vec<U256>)
    requires
        forall|i: int|
            0 <= i < fs@.len() ==> (#[trigger] fs@[i]).wf() && fs@[i].kind() == FieldKind::Bn254Fr,
    ensures
        r@.len() == fs@.len(),
        forall|i: int| 0 <= i < fs@.len() ==> (#[trigger] r@[i]).wf() && r@[i]@ == fs@[i]@,
{
    let mut r: Vec<U256> = Vec::new();
    let mut i: usize = 0;
    while i < fs.len()
        invariant
            i <= fs@.len(),
            r@.len() == i,
            forall|k: int|
                0 <= k < fs@.len() ==> (#[trigger] fs@[k]).wf() && fs@[k].kind()
                    == FieldKind::Bn254Fr,
            forall|k: int| 0 <= k < i ==> (#[trigger] r@[k]).wf() && r@[k]@ == fs@[k]@,
        decreases fs@.len() - i,
    {
        r.push(U256::from_field(&fs[i]));
        i = i + 1;
    }
    r
}

/// The coordinates of a point of Baby Jubjub as two words, `x` then `y`.
pub fn affine_to_u256_vec(p: &EdwardsAffine) -> (r: Vec<U256>)
    requires
        p.wf(),
    ensures
        r@.len() == 2,
        r@[0].wf() && r@[0]@ == p@.0,
        r@[1].wf() && r@[1]@ == p@.1,
{
    vec![U256::from_field(&p.x), U256::from_field(&p.y)]
}

/// The `j`-th of the words of a sequence of points: `x` of the first point,
/// `y` of the first point, `x` of the second, and so on.
pub open spec fn coordinate_word(ps: Seq<EdwardsAffine>, j: int) -> nat {
    if j % 2 == 0 {
        ps[j / 2]@.0
    } else {
        ps[j / 2]@.1
    }
}

/// The coordinates of a sequence of points of Baby Jubjub as words, two for
/// each point, in order.
pub fn affine_seq_to_u256_vec(ps: &[EdwardsAffine]) -> (r: Vec<U256>)
    requires
        forall|i: int| 0 <= i < ps@.len() ==> (#[trigger] ps@[i]).wf(),
    ensures
        r@.len() == 2 * ps@.len(),
        forall|j: int| 0 <= j < r@.len() ==> (#[trigger] r@[j]).wf() && r@[j]@ == coordinate_word(ps@, j),
{
    let mut r: Vec<U256> = Vec::new();
    let mut i: usize = 0;
    while i < ps.len()
        invariant
            i <= ps@.len(),
            r@.len() == 2 * i,
            forall|k: int| 0 <= k < ps@.len() ==> (#[trigger] ps@[k]).wf(),
            forall|j: int|
                0 <= j < 2 * i ==> (#[trigger] r@[j]).wf() && r@[j]@ == coordinate_word(ps@, j),
        decreases ps@.len() - i,
    {
        r.push(U256::from_field(&ps[i].x));
        r.push(U256::from_field(&ps[i].y));
        i = i + 1;
    }
    r
}

} // verus!
