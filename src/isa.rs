//! Base ISAs and extensions, and which (base, extension) pairs an ISA
//! selection makes active.
use vstd::prelude::*;

verus! {

/// A base integer ISA.
#[derive(Debug, Clone, Copy, PartialEq, Eq, Structural)]
pub enum Base {
    RV32I,
    RV64I,
    RV128I,
}

/// A standard extension.
#[derive(Debug, Clone, Copy, PartialEq, Eq, Structural)]
pub enum Extension {
    M,
    F,
    Q,
    D,
    A,
    S,
    C,
}

/// The bases whose instructions a base includes, itself first and then
/// each narrower base in turn.
pub open spec fn inherited(base: Base) -> Seq<Base> {
    match base {
        Base::RV32I => seq![Base::RV32I],
        Base::RV64I => seq![Base::RV64I, Base::RV32I],
        Base::RV128I => seq![Base::RV128I, Base::RV64I, Base::RV32I],
    }
}

/// Every base of `bases` paired with every extension of `exts`, bases in
/// the outer order.
pub open spec fn pairs(bases: Seq<Base>, exts: Seq<Extension>) -> Seq<(Base, Extension)>
    decreases bases.len(),
{
    if bases.len() == 0 {
        Seq::empty()
    } else {
        pairs(bases.drop_last(), exts) + exts.map_values(|e: Extension| (bases.last(), e))
    }
}

/// The bases `base` builds on, itself first.
pub fn isa_inherits_from(base: Base) -> (r: Vec<Base>)
    ensures
        r@ == inherited(base),
{
    let r = match base {
        Base::RV32I => vec![Base::RV32I],
        Base::RV64I => vec![Base::RV64I, Base::RV32I],
        Base::RV128I => vec![Base::RV128I, Base::RV64I, Base::RV32I],
    };
    assert(r@ =~= inherited(base));
    r
}

/// Every (base, extension) pair that selecting `base` with `extensions`
/// makes active: each inherited base with each extension.
pub fn resolve_active_isas(base: Base, extensions: Vec<Extension>) -> (r: Vec<(Base, Extension)>)
    ensures
        r@ == pairs(inherited(base), extensions@),
{
    let bases = isa_inherits_from(base);
    let mut out: Vec<(Base, Extension)> = Vec::new();
    let mut i: usize = 0;
    while i < bases.len()
        invariant
            i <= bases@.len(),
            bases@ == inherited(base),
            out@ == pairs(bases@.subrange(0, i as int), extensions@),
        decreases bases.len() - i,
    {
        let b = bases[i];
        let mut j: usize = 0;
        while j < extensions.len()
            invariant
                i < bases@.len(),
                j <= extensions@.len(),
                b == bases@[i as int],
                out@ == pairs(bases@.subrange(0, i as int), extensions@) + extensions@.subrange(
                    0,
                    j as int,
                ).map_values(|e: Extension| (b, e)),
            decreases extensions.len() - j,
        {
            out.push((b, extensions[j]));
            j = j + 1;
            assert(extensions@.subrange(0, j as int).map_values(|e: Extension| (b, e))
                =~= extensions@.subrange(0, (j - 1) as int).map_values(|e: Extension| (b, e)).push(
                (b, extensions@[(j - 1) as int]),
            ));
        }
        assert(extensions@.subrange(0, j as int) =~= extensions@);
        assert(bases@.subrange(0, (i + 1) as int).drop_last() =~= bases@.subrange(0, i as int));
        i = i + 1;
    }
    assert(bases@.subrange(0, i as int) =~= bases@);
    out
}

} // verus!
