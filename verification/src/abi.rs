//! The typed parameter schema of a circuit, as far as the orchestrator reads
//! it, and the artifact bundle it arrives in.
//!
//! The ABI's types and encodings belong to the external ABI library. The
//! orchestrator reads just two things from a schema: whether it is empty, to
//! decide if an input file is required at all, and which parameters are
//! public, to address the verifier's subset of the inputs.
use vstd::prelude::*;

use crate::paths::clone_string;

verus! {

/// One named circuit parameter and its visibility.
pub struct AbiParam {
    pub name: String,
    pub is_public: bool,
}

impl View for AbiParam {
    type V = (Seq<char>, bool);

    open spec fn view(&self) -> (Seq<char>, bool) {
        (self.name@, self.is_public)
    }
}

/// The parameter schema: the named parameters in order, and whether the
/// circuit declares a return value.
pub struct Abi {
    pub params: Vec<AbiParam>,
    pub has_return: bool,
}

impl View for Abi {
    type V = (Seq<(Seq<char>, bool)>, bool);

    open spec fn view(&self) -> (Seq<(Seq<char>, bool)>, bool) {
        (Seq::new(self.params@.len(), |i: int| self.params@[i]@), self.has_return)
    }
}

impl Abi {
    /// An empty schema: no parameters and no return value. Only then can a
    /// missing input file be tolerated, since there is nothing to read.
    pub open spec fn spec_is_empty(&self) -> bool {
        self@.0.len() == 0 && !self@.1
    }

    /// Whether the schema is empty.
    pub fn is_empty(&self) -> (r: bool)
        ensures
            r == self.spec_is_empty(),
    {
        self.params.len() == 0 && !self.has_return
    }

    /// The verifier's view of the schema: the public parameters, in their
    /// original order, and the unchanged return-value declaration.
    pub fn public_abi(&self) -> (r: Abi)
        ensures
            r@.0 == self@.0.filter(|p: (Seq<char>, bool)| p.1),
            r@.1 == self@.1,
    {
        let mut params: Vec<AbiParam> = Vec::new();
        let mut i: usize = 0;
        while i < self.params.len()
            invariant
                i <= self.params@.len(),
                Seq::new(params@.len(), |k: int| params@[k]@) == self@.0.subrange(
                    0,
                    i as int,
                ).filter(|p: (Seq<char>, bool)| p.1),
            decreases self.params@.len() - i,
        {
            let ghost done = Seq::new(params@.len(), |k: int| params@[k]@);
            let ghost prefix = self@.0.subrange(0, i as int);
            let ghost next = self@.0.subrange(0, i as int + 1);
            if self.params[i].is_public {
                params.push(
                    AbiParam { name: clone_string(&self.params[i].name), is_public: true },
                );
            }
            proof {
                reveal_with_fuel(Seq::<(Seq<char>, bool)>::filter, 2);
                assert(next.drop_last() =~= prefix);
                assert(next.last() == self@.0[i as int]);
                if self@.0[i as int].1 {
                    assert(next.filter(|p: (Seq<char>, bool)| p.1) == prefix.filter(
                        |p: (Seq<char>, bool)| p.1,
                    ).push(next.last()));
                    assert(Seq::new(params@.len(), |k: int| params@[k]@) =~= done.push(
                        self@.0[i as int],
                    ));
                } else {
                    assert(next.filter(|p: (Seq<char>, bool)| p.1) == prefix.filter(
                        |p: (Seq<char>, bool)| p.1,
                    ));
                }
                assert(Seq::new(params@.len(), |k: int| params@[k]@) =~= next.filter(
                    |p: (Seq<char>, bool)| p.1,
                ));
            }
            i += 1;
        }
        proof {
            assert(self@.0.subrange(0, self@.0.len() as int) =~= self@.0);
        }
        let r = Abi { params, has_return: self.has_return };
        proof {
            assert(r@.0 =~= self@.0.filter(|p: (Seq<char>, bool)| p.1));
        }
        r
    }
}

/// Whether the verifier's view of a schema is empty: no public parameter
/// and no return value, so there is nothing to read from an input file.
pub open spec fn public_is_empty_spec(a: (Seq<(Seq<char>, bool)>, bool)) -> bool {
    a.0.filter(|p: (Seq<char>, bool)| p.1).len() == 0 && !a.1
}

/// The artifact bundle a circuit is built into: its schema and its two keys,
/// read together from one file and never modified. The circuit bytecode from
/// the same bundle is an opaque value of the proving backend: the runner
/// keeps it beside this bundle and it is never inspected here.
pub struct PreprocessedProgram {
    pub abi: Abi,
    pub proving_key: Vec<u8>,
    pub verification_key: Vec<u8>,
}

impl View for PreprocessedProgram {
    type V = ((Seq<(Seq<char>, bool)>, bool), Seq<u8>, Seq<u8>);

    open spec fn view(&self) -> ((Seq<(Seq<char>, bool)>, bool), Seq<u8>, Seq<u8>) {
        (self.abi@, self.proving_key@, self.verification_key@)
    }
}

} // verus!
