//! Pipeline stages and the tokens the compiler expects after `-stage`.

use vstd::prelude::*;

verus! {

/// -stage <stage>: the stage of an entry-point function.
#[derive(Clone, Copy, Debug, PartialEq, Eq, Structural)]
pub enum Stage {
    Vertex,
    Hull,
    Domain,
    Geometry,
    Fragment,
    Compute,
    RayGeneration,
    Intersection,
    AnyHit,
    ClosestHit,
    Miss,
    Callable,
    Mesh,
    Amplification,
}

/// Every character of `s` is a lowercase ASCII letter, and there is at least one.
pub open spec fn is_lowercase_word(s: Seq<char>) -> bool {
    s.len() > 0 && forall|i: int| 0 <= i < s.len() ==> 'a' <= #[trigger] s[i] <= 'z'
}

impl Stage {
    /// The stage name as the compiler spells it.
    pub open spec fn token(self) -> Seq<char> {
        match self {
            Stage::Vertex => "vertex"@,
            Stage::Hull => "hull"@,
            Stage::Domain => "domain"@,
            Stage::Geometry => "geometry"@,
            Stage::Fragment => "fragment"@,
            Stage::Compute => "compute"@,
            Stage::RayGeneration => "raygeneration"@,
            Stage::Intersection => "intersection"@,
            Stage::AnyHit => "anyhit"@,
            Stage::ClosestHit => "closesthit"@,
            Stage::Miss => "miss"@,
            Stage::Callable => "callable"@,
            Stage::Mesh => "mesh"@,
            Stage::Amplification => "amplification"@,
        }
    }

    pub fn to_str(&self) -> (r: &'static str)
        ensures
            r@ == self.token(),
    {
        match self {
            Stage::Vertex => "vertex",
            Stage::Hull => "hull",
            Stage::Domain => "domain",
            Stage::Geometry => "geometry",
            Stage::Fragment => "fragment",
            Stage::Compute => "compute",
            Stage::RayGeneration => "raygeneration",
            Stage::Intersection => "intersection",
            Stage::AnyHit => "anyhit",
            Stage::ClosestHit => "closesthit",
            Stage::Miss => "miss",
            Stage::Callable => "callable",
            Stage::Mesh => "mesh",
            Stage::Amplification => "amplification",
        }
    }
}

/// Every stage token is a non-empty word of lowercase ASCII letters.
pub proof fn lemma_stage_token_lowercase(s: Stage)
    ensures
        is_lowercase_word(s.token()),
{
    reveal_strlit("vertex");
    reveal_strlit("hull");
    reveal_strlit("domain");
    reveal_strlit("geometry");
    reveal_strlit("fragment");
    reveal_strlit("compute");
    reveal_strlit("raygeneration");
    reveal_strlit("intersection");
    reveal_strlit("anyhit");
    reveal_strlit("closesthit");
    reveal_strlit("miss");
    reveal_strlit("callable");
    reveal_strlit("mesh");
    reveal_strlit("amplification");
}

/// Distinct stages have distinct tokens, so a token names exactly one stage.
pub proof fn lemma_stage_token_injective(a: Stage, b: Stage)
    ensures
        a.token() == b.token() ==> a == b,
{
    reveal_strlit("vertex");
    reveal_strlit("hull");
    reveal_strlit("domain");
    reveal_strlit("geometry");
    reveal_strlit("fragment");
    reveal_strlit("compute");
    reveal_strlit("raygeneration");
    reveal_strlit("intersection");
    reveal_strlit("anyhit");
    reveal_strlit("closesthit");
    reveal_strlit("miss");
    reveal_strlit("callable");
    reveal_strlit("mesh");
    reveal_strlit("amplification");
    if a.token() == b.token() {
        assert(a.token().len() == b.token().len());
        assert(a.token()[0] == b.token()[0]);
        assert(a.token()[1] == b.token()[1]);
    }
}

} // verus!
