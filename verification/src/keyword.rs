//! The keywords of the DBC format.
use vstd::prelude::*;
use crate::lexer::{tag, tag_exec};

verus! {

/// A keyword or reserved name of the DBC format.
#[derive(Clone, Copy, Debug, PartialEq, Eq)]
pub enum Kw {
    /// `VERSION`
    Version,
    /// `NS_`
    Ns,
    /// `BS_`
    Bs,
    /// `BU_`
    Bu,
    /// `BO_`
    Bo,
    /// `SG_`
    Sg,
    /// `EV_`
    Ev,
    /// `ENVVAR_DATA_`
    EnvVarData,
    /// `CM_`
    Cm,
    /// `BA_DEF_`
    BaDef,
    /// `BA_DEF_DEF_`
    BaDefDef,
    /// `BA_`
    Ba,
    /// `VAL_`
    Val,
    /// `VAL_TABLE_`
    ValTable,
    /// `SGTYPE_`
    SgType,
    /// `SIG_TYPE_REF_`
    SigTypeRef,
    /// `SIG_GROUP_`
    SigGroup,
    /// `SIG_VALTYPE_`
    SigValType,
    /// `BO_TX_BU_`
    BoTxBu,
    /// `Vector__XXX`
    VectorXxx,
    /// `VECTOR__XXX`
    VectorXxxUpper,
    /// `DUMMY_NODE_VECTOR0`
    DummyNodeVector0,
    /// `DUMMY_NODE_VECTOR1`
    DummyNodeVector1,
    /// `DUMMY_NODE_VECTOR2`
    DummyNodeVector2,
    /// `DUMMY_NODE_VECTOR3`
    DummyNodeVector3,
}

/// The bytes of a keyword.
pub open spec fn kw(k: Kw) -> Seq<u8> {
    match k {
        Kw::Version => seq![86u8, 69u8, 82u8, 83u8, 73u8, 79u8, 78u8],
        Kw::Ns => seq![78u8, 83u8, 95u8],
        Kw::Bs => seq![66u8, 83u8, 95u8],
        Kw::Bu => seq![66u8, 85u8, 95u8],
        Kw::Bo => seq![66u8, 79u8, 95u8],
        Kw::Sg => seq![83u8, 71u8, 95u8],
        Kw::Ev => seq![69u8, 86u8, 95u8],
        Kw::EnvVarData => seq![69u8, 78u8, 86u8, 86u8, 65u8, 82u8, 95u8, 68u8, 65u8, 84u8, 65u8, 95u8],
        Kw::Cm => seq![67u8, 77u8, 95u8],
        Kw::BaDef => seq![66u8, 65u8, 95u8, 68u8, 69u8, 70u8, 95u8],
        Kw::BaDefDef => seq![66u8, 65u8, 95u8, 68u8, 69u8, 70u8, 95u8, 68u8, 69u8, 70u8, 95u8],
        Kw::Ba => seq![66u8, 65u8, 95u8],
        Kw::Val => seq![86u8, 65u8, 76u8, 95u8],
        Kw::ValTable => seq![86u8, 65u8, 76u8, 95u8, 84u8, 65u8, 66u8, 76u8, 69u8, 95u8],
        Kw::SgType => seq![83u8, 71u8, 84u8, 89u8, 80u8, 69u8, 95u8],
        Kw::SigTypeRef => seq![83u8, 73u8, 71u8, 95u8, 84u8, 89u8, 80u8, 69u8, 95u8, 82u8, 69u8, 70u8, 95u8],
        Kw::SigGroup => seq![83u8, 73u8, 71u8, 95u8, 71u8, 82u8, 79u8, 85u8, 80u8, 95u8],
        Kw::SigValType => seq![83u8, 73u8, 71u8, 95u8, 86u8, 65u8, 76u8, 84u8, 89u8, 80u8, 69u8, 95u8],
        Kw::BoTxBu => seq![66u8, 79u8, 95u8, 84u8, 88u8, 95u8, 66u8, 85u8, 95u8],
        Kw::VectorXxx => seq![86u8, 101u8, 99u8, 116u8, 111u8, 114u8, 95u8, 95u8, 88u8, 88u8, 88u8],
        Kw::VectorXxxUpper => seq![86u8, 69u8, 67u8, 84u8, 79u8, 82u8, 95u8, 95u8, 88u8, 88u8, 88u8],
        Kw::DummyNodeVector0 => seq![68u8, 85u8, 77u8, 77u8, 89u8, 95u8, 78u8, 79u8, 68u8, 69u8, 95u8, 86u8, 69u8, 67u8, 84u8, 79u8, 82u8, 48u8],
        Kw::DummyNodeVector1 => seq![68u8, 85u8, 77u8, 77u8, 89u8, 95u8, 78u8, 79u8, 68u8, 69u8, 95u8, 86u8, 69u8, 67u8, 84u8, 79u8, 82u8, 49u8],
        Kw::DummyNodeVector2 => seq![68u8, 85u8, 77u8, 77u8, 89u8, 95u8, 78u8, 79u8, 68u8, 69u8, 95u8, 86u8, 69u8, 67u8, 84u8, 79u8, 82u8, 50u8],
        Kw::DummyNodeVector3 => seq![68u8, 85u8, 77u8, 77u8, 89u8, 95u8, 78u8, 79u8, 68u8, 69u8, 95u8, 86u8, 69u8, 67u8, 84u8, 79u8, 82u8, 51u8],
    }
}

/// The keyword `k` stands at position `p`.
pub fn kw_exec(s: &[u8], p: usize, k: Kw) -> (r: Option<usize>)
    requires
        p <= s@.len(),
    ensures
        r matches Some(q) ==> tag(s@, p as int, kw(k)) == Some(q as int) && p < q <= s@.len(),
        r is None ==> tag(s@, p as int, kw(k)) is None,
{
    match k {
        Kw::Version => {
            let t: [u8; 7] = [86u8, 69u8, 82u8, 83u8, 73u8, 79u8, 78u8];
            assert(t@ == kw(k));
            tag_exec(s, p, &t)
        },
        Kw::Ns => {
            let t: [u8; 3] = [78u8, 83u8, 95u8];
            assert(t@ == kw(k));
            tag_exec(s, p, &t)
        },
        Kw::Bs => {
            let t: [u8; 3] = [66u8, 83u8, 95u8];
            assert(t@ == kw(k));
            tag_exec(s, p, &t)
        },
        Kw::Bu => {
            let t: [u8; 3] = [66u8, 85u8, 95u8];
            assert(t@ == kw(k));
            tag_exec(s, p, &t)
        },
        Kw::Bo => {
            let t: [u8; 3] = [66u8, 79u8, 95u8];
            assert(t@ == kw(k));
            tag_exec(s, p, &t)
        },
        Kw::Sg => {
            let t: [u8; 3] = [83u8, 71u8, 95u8];
            assert(t@ == kw(k));
            tag_exec(s, p, &t)
        },
        Kw::Ev => {
            let t: [u8; 3] = [69u8, 86u8, 95u8];
            assert(t@ == kw(k));
            tag_exec(s, p, &t)
        },
        Kw::EnvVarData => {
            let t: [u8; 12] = [69u8, 78u8, 86u8, 86u8, 65u8, 82u8, 95u8, 68u8, 65u8, 84u8, 65u8, 95u8];
            assert(t@ == kw(k));
            tag_exec(s, p, &t)
        },
        Kw::Cm => {
            let t: [u8; 3] = [67u8, 77u8, 95u8];
            assert(t@ == kw(k));
            tag_exec(s, p, &t)
        },
        Kw::BaDef => {
            let t: [u8; 7] = [66u8, 65u8, 95u8, 68u8, 69u8, 70u8, 95u8];
            assert(t@ == kw(k));
            tag_exec(s, p, &t)
        },
        Kw::BaDefDef => {
            let t: [u8; 11] = [66u8, 65u8, 95u8, 68u8, 69u8, 70u8, 95u8, 68u8, 69u8, 70u8, 95u8];
            assert(t@ == kw(k));
            tag_exec(s, p, &t)
        },
        Kw::Ba => {
            let t: [u8; 3] = [66u8, 65u8, 95u8];
            assert(t@ == kw(k));
            tag_exec(s, p, &t)
        },
        Kw::Val => {
            let t: [u8; 4] = [86u8, 65u8, 76u8, 95u8];
            assert(t@ == kw(k));
            tag_exec(s, p, &t)
        },
        Kw::ValTable => {
            let t: [u8; 10] = [86u8, 65u8, 76u8, 95u8, 84u8, 65u8, 66u8, 76u8, 69u8, 95u8];
            assert(t@ == kw(k));
            tag_exec(s, p, &t)
        },
        Kw::SgType => {
            let t: [u8; 7] = [83u8, 71u8, 84u8, 89u8, 80u8, 69u8, 95u8];
            assert(t@ == kw(k));
            tag_exec(s, p, &t)
        },
        Kw::SigTypeRef => {
            let t: [u8; 13] = [83u8, 73u8, 71u8, 95u8, 84u8, 89u8, 80u8, 69u8, 95u8, 82u8, 69u8, 70u8, 95u8];
            assert(t@ == kw(k));
            tag_exec(s, p, &t)
        },
        Kw::SigGroup => {
            let t: [u8; 10] = [83u8, 73u8, 71u8, 95u8, 71u8, 82u8, 79u8, 85u8, 80u8, 95u8];
            assert(t@ == kw(k));
            tag_exec(s, p, &t)
        },
        Kw::SigValType => {
            let t: [u8; 12] = [83u8, 73u8, 71u8, 95u8, 86u8, 65u8, 76u8, 84u8, 89u8, 80u8, 69u8, 95u8];
            assert(t@ == kw(k));
            tag_exec(s, p, &t)
        },
        Kw::BoTxBu => {
            let t: [u8; 9] = [66u8, 79u8, 95u8, 84u8, 88u8, 95u8, 66u8, 85u8, 95u8];
            assert(t@ == kw(k));
            tag_exec(s, p, &t)
        },
        Kw::VectorXxx => {
            let t: [u8; 11] = [86u8, 101u8, 99u8, 116u8, 111u8, 114u8, 95u8, 95u8, 88u8, 88u8, 88u8];
            assert(t@ == kw(k));
            tag_exec(s, p, &t)
        },
        Kw::VectorXxxUpper => {
            let t: [u8; 11] = [86u8, 69u8, 67u8, 84u8, 79u8, 82u8, 95u8, 95u8, 88u8, 88u8, 88u8];
            assert(t@ == kw(k));
            tag_exec(s, p, &t)
        },
        Kw::DummyNodeVector0 => {
            let t: [u8; 18] = [68u8, 85u8, 77u8, 77u8, 89u8, 95u8, 78u8, 79u8, 68u8, 69u8, 95u8, 86u8, 69u8, 67u8, 84u8, 79u8, 82u8, 48u8];
            assert(t@ == kw(k));
            tag_exec(s, p, &t)
        },
        Kw::DummyNodeVector1 => {
            let t: [u8; 18] = [68u8, 85u8, 77u8, 77u8, 89u8, 95u8, 78u8, 79u8, 68u8, 69u8, 95u8, 86u8, 69u8, 67u8, 84u8, 79u8, 82u8, 49u8];
            assert(t@ == kw(k));
            tag_exec(s, p, &t)
        },
        Kw::DummyNodeVector2 => {
            let t: [u8; 18] = [68u8, 85u8, 77u8, 77u8, 89u8, 95u8, 78u8, 79u8, 68u8, 69u8, 95u8, 86u8, 69u8, 67u8, 84u8, 79u8, 82u8, 50u8];
            assert(t@ == kw(k));
            tag_exec(s, p, &t)
        },
        Kw::DummyNodeVector3 => {
            let t: [u8; 18] = [68u8, 85u8, 77u8, 77u8, 89u8, 95u8, 78u8, 79u8, 68u8, 69u8, 95u8, 86u8, 69u8, 67u8, 84u8, 79u8, 82u8, 51u8];
            assert(t@ == kw(k));
            tag_exec(s, p, &t)
        },
    }
}

/// The bytes from `a` to `b` are the name `k`.
pub open spec fn is_word(s: Seq<u8>, a: int, b: int, k: Kw) -> bool {
    tag(s, a, kw(k)) == Some(b)
}

pub fn is_word_exec(s: &[u8], a: usize, b: usize, k: Kw) -> (r: bool)
    requires
        a <= s@.len(),
    ensures
        r == is_word(s@, a as int, b as int, k),
{
    match kw_exec(s, a, k) {
        Some(q) => q == b,
        None => false,
    }
}

} // verus!
