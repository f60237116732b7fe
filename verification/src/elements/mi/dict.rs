//! Identifiers that are often needed.

use vstd::prelude::*;
use crate::attributes::Attribute;
use super::Ident;

verus! {

impl Ident {
    /// Create the identifier U+2205.
    pub fn empty_set() -> (r: Ident)
        ensures
            r.ident@ == "\u{2205}"@,
            r.attributes@ == Seq::<Attribute>::empty(),
    {
        Ident::from("\u{2205}")
    }

    /// Create the identifier U+221E.
    pub fn infinity() -> (r: Ident)
        ensures
            r.ident@ == "\u{221E}"@,
            r.attributes@ == Seq::<Attribute>::empty(),
    {
        Ident::from("\u{221E}")
    }

    /// Create the identifier U+2135.
    pub fn aleph() -> (r: Ident)
        ensures
            r.ident@ == "\u{2135}"@,
            r.attributes@ == Seq::<Attribute>::empty(),
    {
        Ident::from("\u{2135}")
    }

    /// Create the identifier U+2115.
    pub fn set_natural() -> (r: Ident)
        ensures
            r.ident@ == "\u{2115}"@,
            r.attributes@ == Seq::<Attribute>::empty(),
    {
        Ident::from("\u{2115}")
    }

    /// Create the identifier U+2124.
    pub fn set_integer() -> (r: Ident)
        ensures
            r.ident@ == "\u{2124}"@,
            r.attributes@ == Seq::<Attribute>::empty(),
    {
        Ident::from("\u{2124}")
    }

    /// Create the identifier U+211A.
    pub fn set_rational() -> (r: Ident)
        ensures
            r.ident@ == "\u{211A}"@,
            r.attributes@ == Seq::<Attribute>::empty(),
    {
        Ident::from("\u{211A}")
    }

    /// Create the identifier U+211D.
    pub fn set_irrational() -> (r: Ident)
        ensures
            r.ident@ == "\u{211D}"@,
            r.attributes@ == Seq::<Attribute>::empty(),
    {
        Ident::from("\u{211D}")
    }

    /// Create the identifier U+2102.
    pub fn set_complex() -> (r: Ident)
        ensures
            r.ident@ == "\u{2102}"@,
            r.attributes@ == Seq::<Attribute>::empty(),
    {
        Ident::from("\u{2102}")
    }

    /// Create the identifier U+1D542.
    pub fn set_body() -> (r: Ident)
        ensures
            r.ident@ == "\u{1D542}"@,
            r.attributes@ == Seq::<Attribute>::empty(),
    {
        Ident::from("\u{1D542}")
    }

    /// Create the identifier U+1D6FC.
    pub fn alpha() -> (r: Ident)
        ensures
            r.ident@ == "\u{1D6FC}"@,
            r.attributes@ == Seq::<Attribute>::empty(),
    {
        Ident::from("\u{1D6FC}")
    }

    /// Create the identifier U+1D6FD.
    pub fn beta() -> (r: Ident)
        ensures
            r.ident@ == "\u{1D6FD}"@,
            r.attributes@ == Seq::<Attribute>::empty(),
    {
        Ident::from("\u{1D6FD}")
    }

    /// Create the identifier U+1D6FE.
    pub fn gamma() -> (r: Ident)
        ensures
            r.ident@ == "\u{1D6FE}"@,
            r.attributes@ == Seq::<Attribute>::empty(),
    {
        Ident::from("\u{1D6FE}")
    }

    /// Create the identifier U+0393.
    pub fn big_gamma() -> (r: Ident)
        ensures
            r.ident@ == "\u{0393}"@,
            r.attributes@ == Seq::<Attribute>::empty(),
    {
        Ident::from("\u{0393}")
    }

    /// Create the identifier U+1D6FF.
    pub fn delta() -> (r: Ident)
        ensures
            r.ident@ == "\u{1D6FF}"@,
            r.attributes@ == Seq::<Attribute>::empty(),
    {
        Ident::from("\u{1D6FF}")
    }

    /// Create the identifier U+0394.
    pub fn big_delta() -> (r: Ident)
        ensures
            r.ident@ == "\u{0394}"@,
            r.attributes@ == Seq::<Attribute>::empty(),
    {
        Ident::from("\u{0394}")
    }

    /// Create the identifier U+1D700.
    pub fn epsilon() -> (r: Ident)
        ensures
            r.ident@ == "\u{1D700}"@,
            r.attributes@ == Seq::<Attribute>::empty(),
    {
        Ident::from("\u{1D700}")
    }

    /// Create the identifier U+1D716.
    pub fn varepsilon() -> (r: Ident)
        ensures
            r.ident@ == "\u{1D716}"@,
            r.attributes@ == Seq::<Attribute>::empty(),
    {
        Ident::from("\u{1D716}")
    }

    /// Create the identifier U+1D701.
    pub fn zeta() -> (r: Ident)
        ensures
            r.ident@ == "\u{1D701}"@,
            r.attributes@ == Seq::<Attribute>::empty(),
    {
        Ident::from("\u{1D701}")
    }

    /// Create the identifier U+1D702.
    pub fn eta() -> (r: Ident)
        ensures
            r.ident@ == "\u{1D702}"@,
            r.attributes@ == Seq::<Attribute>::empty(),
    {
        Ident::from("\u{1D702}")
    }

    /// Create the identifier U+1D703.
    pub fn theta() -> (r: Ident)
        ensures
            r.ident@ == "\u{1D703}"@,
            r.attributes@ == Seq::<Attribute>::empty(),
    {
        Ident::from("\u{1D703}")
    }

    /// Create the identifier U+0398.
    pub fn big_theta() -> (r: Ident)
        ensures
            r.ident@ == "\u{0398}"@,
            r.attributes@ == Seq::<Attribute>::empty(),
    {
        Ident::from("\u{0398}")
    }

    /// Create the identifier U+1D717.
    pub fn vartheta() -> (r: Ident)
        ensures
            r.ident@ == "\u{1D717}"@,
            r.attributes@ == Seq::<Attribute>::empty(),
    {
        Ident::from("\u{1D717}")
    }

    /// Create the identifier U+1D704.
    pub fn iota() -> (r: Ident)
        ensures
            r.ident@ == "\u{1D704}"@,
            r.attributes@ == Seq::<Attribute>::empty(),
    {
        Ident::from("\u{1D704}")
    }

    /// Create the identifier U+1D705.
    pub fn kappa() -> (r: Ident)
        ensures
            r.ident@ == "\u{1D705}"@,
            r.attributes@ == Seq::<Attribute>::empty(),
    {
        Ident::from("\u{1D705}")
    }

    /// Create the identifier U+1D706.
    pub fn lambda() -> (r: Ident)
        ensures
            r.ident@ == "\u{1D706}"@,
            r.attributes@ == Seq::<Attribute>::empty(),
    {
        Ident::from("\u{1D706}")
    }

    /// Create the identifier U+039B.
    pub fn big_lambda() -> (r: Ident)
        ensures
            r.ident@ == "\u{039B}"@,
            r.attributes@ == Seq::<Attribute>::empty(),
    {
        Ident::from("\u{039B}")
    }

    /// Create the identifier U+1D707.
    pub fn mu() -> (r: Ident)
        ensures
            r.ident@ == "\u{1D707}"@,
            r.attributes@ == Seq::<Attribute>::empty(),
    {
        Ident::from("\u{1D707}")
    }

    /// Create the identifier U+1D708.
    pub fn nu() -> (r: Ident)
        ensures
            r.ident@ == "\u{1D708}"@,
            r.attributes@ == Seq::<Attribute>::empty(),
    {
        Ident::from("\u{1D708}")
    }

    /// Create the identifier U+1D709.
    pub fn xi() -> (r: Ident)
        ensures
            r.ident@ == "\u{1D709}"@,
            r.attributes@ == Seq::<Attribute>::empty(),
    {
        Ident::from("\u{1D709}")
    }

    /// Create the identifier U+039E.
    pub fn big_xi() -> (r: Ident)
        ensures
            r.ident@ == "\u{039E}"@,
            r.attributes@ == Seq::<Attribute>::empty(),
    {
        Ident::from("\u{039E}")
    }

    /// Create the identifier U+1D70B.
    pub fn pi() -> (r: Ident)
        ensures
            r.ident@ == "\u{1D70B}"@,
            r.attributes@ == Seq::<Attribute>::empty(),
    {
        Ident::from("\u{1D70B}")
    }

    /// Create the identifier U+03A0.
    pub fn big_pi() -> (r: Ident)
        ensures
            r.ident@ == "\u{03A0}"@,
            r.attributes@ == Seq::<Attribute>::empty(),
    {
        Ident::from("\u{03A0}")
    }

    /// Create the identifier U+1D70C.
    pub fn rho() -> (r: Ident)
        ensures
            r.ident@ == "\u{1D70C}"@,
            r.attributes@ == Seq::<Attribute>::empty(),
    {
        Ident::from("\u{1D70C}")
    }

    /// Create the identifier U+1D70E.
    pub fn sigma() -> (r: Ident)
        ensures
            r.ident@ == "\u{1D70E}"@,
            r.attributes@ == Seq::<Attribute>::empty(),
    {
        Ident::from("\u{1D70E}")
    }

    /// Create the identifier U+03A3.
    pub fn big_sigma() -> (r: Ident)
        ensures
            r.ident@ == "\u{03A3}"@,
            r.attributes@ == Seq::<Attribute>::empty(),
    {
        Ident::from("\u{03A3}")
    }

    /// Create the identifier U+1D70F.
    pub fn tau() -> (r: Ident)
        ensures
            r.ident@ == "\u{1D70F}"@,
            r.attributes@ == Seq::<Attribute>::empty(),
    {
        Ident::from("\u{1D70F}")
    }

    /// Create the identifier U+1D710.
    pub fn upsilon() -> (r: Ident)
        ensures
            r.ident@ == "\u{1D710}"@,
            r.attributes@ == Seq::<Attribute>::empty(),
    {
        Ident::from("\u{1D710}")
    }

    /// Create the identifier U+1D711.
    pub fn phi() -> (r: Ident)
        ensures
            r.ident@ == "\u{1D711}"@,
            r.attributes@ == Seq::<Attribute>::empty(),
    {
        Ident::from("\u{1D711}")
    }

    /// Create the identifier U+03A6.
    pub fn big_phi() -> (r: Ident)
        ensures
            r.ident@ == "\u{03A6}"@,
            r.attributes@ == Seq::<Attribute>::empty(),
    {
        Ident::from("\u{03A6}")
    }

    /// Create the identifier U+1D719.
    pub fn varphi() -> (r: Ident)
        ensures
            r.ident@ == "\u{1D719}"@,
            r.attributes@ == Seq::<Attribute>::empty(),
    {
        Ident::from("\u{1D719}")
    }

    /// Create the identifier U+1D713.
    pub fn chi() -> (r: Ident)
        ensures
            r.ident@ == "\u{1D713}"@,
            r.attributes@ == Seq::<Attribute>::empty(),
    {
        Ident::from("\u{1D713}")
    }

    /// Create the identifier U+03C8.
    pub fn psi() -> (r: Ident)
        ensures
            r.ident@ == "\u{03C8}"@,
            r.attributes@ == Seq::<Attribute>::empty(),
    {
        Ident::from("\u{03C8}")
    }

    /// Create the identifier U+03A8.
    pub fn big_psi() -> (r: Ident)
        ensures
            r.ident@ == "\u{03A8}"@,
            r.attributes@ == Seq::<Attribute>::empty(),
    {
        Ident::from("\u{03A8}")
    }

    /// Create the identifier U+03C9.
    pub fn omega() -> (r: Ident)
        ensures
            r.ident@ == "\u{03C9}"@,
            r.attributes@ == Seq::<Attribute>::empty(),
    {
        Ident::from("\u{03C9}")
    }

    /// Create the identifier U+03A9.
    pub fn big_omega() -> (r: Ident)
        ensures
            r.ident@ == "\u{03A9}"@,
            r.attributes@ == Seq::<Attribute>::empty(),
    {
        Ident::from("\u{03A9}")
    }
}

} // verus!
