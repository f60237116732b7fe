//! Operators that are often needed.

use vstd::prelude::*;
use super::{Operator, OperatorAttr};

verus! {

impl Operator {
    /// Create the operator U+002B.
    pub fn plus() -> (r: Operator)
        ensures
            r.op@ == "\u{002B}"@,
            r.attributes@ == Seq::<OperatorAttr>::empty(),
    {
        Operator::from("\u{002B}")
    }

    /// Create the operator U+002D.
    pub fn minus() -> (r: Operator)
        ensures
            r.op@ == "\u{002D}"@,
            r.attributes@ == Seq::<OperatorAttr>::empty(),
    {
        Operator::from("\u{002D}")
    }

    /// Create the operator U+22C5.
    pub fn dot() -> (r: Operator)
        ensures
            r.op@ == "\u{22C5}"@,
            r.attributes@ == Seq::<OperatorAttr>::empty(),
    {
        Operator::from("\u{22C5}")
    }

    /// Create the operator U+00A8.
    pub fn double_dot() -> (r: Operator)
        ensures
            r.op@ == "\u{00A8}"@,
            r.attributes@ == Seq::<OperatorAttr>::empty(),
    {
        Operator::from("\u{00A8}")
    }

    /// Create the operator U+2217.
    pub fn asterisk() -> (r: Operator)
        ensures
            r.op@ == "\u{2217}"@,
            r.attributes@ == Seq::<OperatorAttr>::empty(),
    {
        Operator::from("\u{2217}")
    }

    /// Create the operator U+22C6.
    pub fn star() -> (r: Operator)
        ensures
            r.op@ == "\u{22C6}"@,
            r.attributes@ == Seq::<OperatorAttr>::empty(),
    {
        Operator::from("\u{22C6}")
    }

    /// Create the operator U+002F.
    pub fn solidus() -> (r: Operator)
        ensures
            r.op@ == "\u{002F}"@,
            r.attributes@ == Seq::<OperatorAttr>::empty(),
    {
        Operator::from("\u{002F}")
    }

    /// Create the operator U+2216.
    pub fn set_minus() -> (r: Operator)
        ensures
            r.op@ == "\u{2216}"@,
            r.attributes@ == Seq::<OperatorAttr>::empty(),
    {
        Operator::from("\u{2216}")
    }

    /// Create the operator U+00D7.
    pub fn mult() -> (r: Operator)
        ensures
            r.op@ == "\u{00D7}"@,
            r.attributes@ == Seq::<OperatorAttr>::empty(),
    {
        Operator::from("\u{00D7}")
    }

    /// Create the operator U+00F7.
    pub fn div() -> (r: Operator)
        ensures
            r.op@ == "\u{00F7}"@,
            r.attributes@ == Seq::<OperatorAttr>::empty(),
    {
        Operator::from("\u{00F7}")
    }

    /// Create the operator U+22C9.
    pub fn lfactor() -> (r: Operator)
        ensures
            r.op@ == "\u{22C9}"@,
            r.attributes@ == Seq::<OperatorAttr>::empty(),
    {
        Operator::from("\u{22C9}")
    }

    /// Create the operator U+22CA.
    pub fn rfactor() -> (r: Operator)
        ensures
            r.op@ == "\u{22CA}"@,
            r.attributes@ == Seq::<OperatorAttr>::empty(),
    {
        Operator::from("\u{22CA}")
    }

    /// Create the operator U+22C8.
    pub fn bowtie() -> (r: Operator)
        ensures
            r.op@ == "\u{22C8}"@,
            r.attributes@ == Seq::<OperatorAttr>::empty(),
    {
        Operator::from("\u{22C8}")
    }

    /// Create the operator U+2218.
    pub fn ring() -> (r: Operator)
        ensures
            r.op@ == "\u{2218}"@,
            r.attributes@ == Seq::<OperatorAttr>::empty(),
    {
        Operator::from("\u{2218}")
    }

    /// Create the operator U+2295.
    pub fn circle_plus() -> (r: Operator)
        ensures
            r.op@ == "\u{2295}"@,
            r.attributes@ == Seq::<OperatorAttr>::empty(),
    {
        Operator::from("\u{2295}")
    }

    /// Create the operator U+2297.
    pub fn circle_times() -> (r: Operator)
        ensures
            r.op@ == "\u{2297}"@,
            r.attributes@ == Seq::<OperatorAttr>::empty(),
    {
        Operator::from("\u{2297}")
    }

    /// Create the operator U+2299.
    pub fn circle_dot() -> (r: Operator)
        ensures
            r.op@ == "\u{2299}"@,
            r.attributes@ == Seq::<OperatorAttr>::empty(),
    {
        Operator::from("\u{2299}")
    }

    /// Create the operator U+2211.
    pub fn sum() -> (r: Operator)
        ensures
            r.op@ == "\u{2211}"@,
            r.attributes@ == Seq::<OperatorAttr>::empty(),
    {
        Operator::from("\u{2211}")
    }

    /// Create the operator U+220F.
    pub fn prod() -> (r: Operator)
        ensures
            r.op@ == "\u{220F}"@,
            r.attributes@ == Seq::<OperatorAttr>::empty(),
    {
        Operator::from("\u{220F}")
    }

    /// Create the operator U+2227.
    pub fn wedge() -> (r: Operator)
        ensures
            r.op@ == "\u{2227}"@,
            r.attributes@ == Seq::<OperatorAttr>::empty(),
    {
        Operator::from("\u{2227}")
    }

    /// Create the operator U+22C0.
    pub fn big_wedge() -> (r: Operator)
        ensures
            r.op@ == "\u{22C0}"@,
            r.attributes@ == Seq::<OperatorAttr>::empty(),
    {
        Operator::from("\u{22C0}")
    }

    /// Create the operator U+2228.
    pub fn vee() -> (r: Operator)
        ensures
            r.op@ == "\u{2228}"@,
            r.attributes@ == Seq::<OperatorAttr>::empty(),
    {
        Operator::from("\u{2228}")
    }

    /// Create the operator U+22C1.
    pub fn big_vee() -> (r: Operator)
        ensures
            r.op@ == "\u{22C1}"@,
            r.attributes@ == Seq::<OperatorAttr>::empty(),
    {
        Operator::from("\u{22C1}")
    }

    /// Create the operator U+2229.
    pub fn cap() -> (r: Operator)
        ensures
            r.op@ == "\u{2229}"@,
            r.attributes@ == Seq::<OperatorAttr>::empty(),
    {
        Operator::from("\u{2229}")
    }

    /// Create the operator U+22C2.
    pub fn big_cap() -> (r: Operator)
        ensures
            r.op@ == "\u{22C2}"@,
            r.attributes@ == Seq::<OperatorAttr>::empty(),
    {
        Operator::from("\u{22C2}")
    }

    /// Create the operator U+222A.
    pub fn cup() -> (r: Operator)
        ensures
            r.op@ == "\u{222A}"@,
            r.attributes@ == Seq::<OperatorAttr>::empty(),
    {
        Operator::from("\u{222A}")
    }

    /// Create the operator U+22C3.
    pub fn big_cup() -> (r: Operator)
        ensures
            r.op@ == "\u{22C3}"@,
            r.attributes@ == Seq::<OperatorAttr>::empty(),
    {
        Operator::from("\u{22C3}")
    }

    /// Create the operator U+222B.
    pub fn integral() -> (r: Operator)
        ensures
            r.op@ == "\u{222B}"@,
            r.attributes@ == Seq::<OperatorAttr>::empty(),
    {
        Operator::from("\u{222B}")
    }

    /// Create the operator U+222E.
    pub fn circle_integral() -> (r: Operator)
        ensures
            r.op@ == "\u{222E}"@,
            r.attributes@ == Seq::<OperatorAttr>::empty(),
    {
        Operator::from("\u{222E}")
    }

    /// Create the operator U+2202.
    pub fn partial_diff() -> (r: Operator)
        ensures
            r.op@ == "\u{2202}"@,
            r.attributes@ == Seq::<OperatorAttr>::empty(),
    {
        Operator::from("\u{2202}")
    }

    /// Create the operator U+2207.
    pub fn nabla() -> (r: Operator)
        ensures
            r.op@ == "\u{2207}"@,
            r.attributes@ == Seq::<OperatorAttr>::empty(),
    {
        Operator::from("\u{2207}")
    }

    /// Create the operator U+00B1.
    pub fn plus_minus() -> (r: Operator)
        ensures
            r.op@ == "\u{00B1}"@,
            r.attributes@ == Seq::<OperatorAttr>::empty(),
    {
        Operator::from("\u{00B1}")
    }

    /// Create the operator U+2234.
    pub fn therefore() -> (r: Operator)
        ensures
            r.op@ == "\u{2234}"@,
            r.attributes@ == Seq::<OperatorAttr>::empty(),
    {
        Operator::from("\u{2234}")
    }

    /// Create the operator U+2235.
    pub fn because() -> (r: Operator)
        ensures
            r.op@ == "\u{2235}"@,
            r.attributes@ == Seq::<OperatorAttr>::empty(),
    {
        Operator::from("\u{2235}")
    }

    /// Create the operator U+2220.
    pub fn angle() -> (r: Operator)
        ensures
            r.op@ == "\u{2220}"@,
            r.attributes@ == Seq::<OperatorAttr>::empty(),
    {
        Operator::from("\u{2220}")
    }

    /// Create the operator U+230A.
    pub fn lfloor() -> (r: Operator)
        ensures
            r.op@ == "\u{230A}"@,
            r.attributes@ == Seq::<OperatorAttr>::empty(),
    {
        Operator::from("\u{230A}")
    }

    /// Create the operator U+230B.
    pub fn rfloor() -> (r: Operator)
        ensures
            r.op@ == "\u{230B}"@,
            r.attributes@ == Seq::<OperatorAttr>::empty(),
    {
        Operator::from("\u{230B}")
    }

    /// Create the operator U+2308.
    pub fn lceiling() -> (r: Operator)
        ensures
            r.op@ == "\u{2308}"@,
            r.attributes@ == Seq::<OperatorAttr>::empty(),
    {
        Operator::from("\u{2308}")
    }

    /// Create the operator U+2309.
    pub fn rceiling() -> (r: Operator)
        ensures
            r.op@ == "\u{2309}"@,
            r.attributes@ == Seq::<OperatorAttr>::empty(),
    {
        Operator::from("\u{2309}")
    }

    /// Create the operator U+2254.
    pub fn assign() -> (r: Operator)
        ensures
            r.op@ == "\u{2254}"@,
            r.attributes@ == Seq::<OperatorAttr>::empty(),
    {
        Operator::from("\u{2254}")
    }

    /// Create the operator U+003D.
    pub fn eq() -> (r: Operator)
        ensures
            r.op@ == "\u{003D}"@,
            r.attributes@ == Seq::<OperatorAttr>::empty(),
    {
        Operator::from("\u{003D}")
    }

    /// Create the operator U+2260.
    pub fn not_eq() -> (r: Operator)
        ensures
            r.op@ == "\u{2260}"@,
            r.attributes@ == Seq::<OperatorAttr>::empty(),
    {
        Operator::from("\u{2260}")
    }

    /// Create the operator U+003C.
    pub fn lt() -> (r: Operator)
        ensures
            r.op@ == "\u{003C}"@,
            r.attributes@ == Seq::<OperatorAttr>::empty(),
    {
        Operator::from("\u{003C}")
    }

    /// Create the operator U+003E.
    pub fn gt() -> (r: Operator)
        ensures
            r.op@ == "\u{003E}"@,
            r.attributes@ == Seq::<OperatorAttr>::empty(),
    {
        Operator::from("\u{003E}")
    }

    /// Create the operator U+2264.
    pub fn le() -> (r: Operator)
        ensures
            r.op@ == "\u{2264}"@,
            r.attributes@ == Seq::<OperatorAttr>::empty(),
    {
        Operator::from("\u{2264}")
    }

    /// Create the operator U+2265.
    pub fn ge() -> (r: Operator)
        ensures
            r.op@ == "\u{2265}"@,
            r.attributes@ == Seq::<OperatorAttr>::empty(),
    {
        Operator::from("\u{2265}")
    }

    /// Create the operator U+227A.
    pub fn prec() -> (r: Operator)
        ensures
            r.op@ == "\u{227A}"@,
            r.attributes@ == Seq::<OperatorAttr>::empty(),
    {
        Operator::from("\u{227A}")
    }

    /// Create the operator U+227B.
    pub fn succ() -> (r: Operator)
        ensures
            r.op@ == "\u{227B}"@,
            r.attributes@ == Seq::<OperatorAttr>::empty(),
    {
        Operator::from("\u{227B}")
    }

    /// Create the operator U+227C.
    pub fn preceq() -> (r: Operator)
        ensures
            r.op@ == "\u{227C}"@,
            r.attributes@ == Seq::<OperatorAttr>::empty(),
    {
        Operator::from("\u{227C}")
    }

    /// Create the operator U+227D.
    pub fn succeq() -> (r: Operator)
        ensures
            r.op@ == "\u{227D}"@,
            r.attributes@ == Seq::<OperatorAttr>::empty(),
    {
        Operator::from("\u{227D}")
    }

    /// Create the operator U+2208.
    pub fn in_set() -> (r: Operator)
        ensures
            r.op@ == "\u{2208}"@,
            r.attributes@ == Seq::<OperatorAttr>::empty(),
    {
        Operator::from("\u{2208}")
    }

    /// Create the operator U+2209.
    pub fn not_in_set() -> (r: Operator)
        ensures
            r.op@ == "\u{2209}"@,
            r.attributes@ == Seq::<OperatorAttr>::empty(),
    {
        Operator::from("\u{2209}")
    }

    /// Create the operator U+2282.
    pub fn subset() -> (r: Operator)
        ensures
            r.op@ == "\u{2282}"@,
            r.attributes@ == Seq::<OperatorAttr>::empty(),
    {
        Operator::from("\u{2282}")
    }

    /// Create the operator U+2283.
    pub fn supset() -> (r: Operator)
        ensures
            r.op@ == "\u{2283}"@,
            r.attributes@ == Seq::<OperatorAttr>::empty(),
    {
        Operator::from("\u{2283}")
    }

    /// Create the operator U+2286.
    pub fn subseteq() -> (r: Operator)
        ensures
            r.op@ == "\u{2286}"@,
            r.attributes@ == Seq::<OperatorAttr>::empty(),
    {
        Operator::from("\u{2286}")
    }

    /// Create the operator U+2287.
    pub fn supseteq() -> (r: Operator)
        ensures
            r.op@ == "\u{2287}"@,
            r.attributes@ == Seq::<OperatorAttr>::empty(),
    {
        Operator::from("\u{2287}")
    }

    /// Create the operator U+2261.
    pub fn equivalent() -> (r: Operator)
        ensures
            r.op@ == "\u{2261}"@,
            r.attributes@ == Seq::<OperatorAttr>::empty(),
    {
        Operator::from("\u{2261}")
    }

    /// Create the operator U+2245.
    pub fn congruent() -> (r: Operator)
        ensures
            r.op@ == "\u{2245}"@,
            r.attributes@ == Seq::<OperatorAttr>::empty(),
    {
        Operator::from("\u{2245}")
    }

    /// Create the operator U+2248.
    pub fn approx() -> (r: Operator)
        ensures
            r.op@ == "\u{2248}"@,
            r.attributes@ == Seq::<OperatorAttr>::empty(),
    {
        Operator::from("\u{2248}")
    }

    /// Create the operator U+221D.
    pub fn propto() -> (r: Operator)
        ensures
            r.op@ == "\u{221D}"@,
            r.attributes@ == Seq::<OperatorAttr>::empty(),
    {
        Operator::from("\u{221D}")
    }

    /// Create the operator U+00AC.
    pub fn not() -> (r: Operator)
        ensures
            r.op@ == "\u{00AC}"@,
            r.attributes@ == Seq::<OperatorAttr>::empty(),
    {
        Operator::from("\u{00AC}")
    }

    /// Create the operator U+21D2.
    pub fn implies() -> (r: Operator)
        ensures
            r.op@ == "\u{21D2}"@,
            r.attributes@ == Seq::<OperatorAttr>::empty(),
    {
        Operator::from("\u{21D2}")
    }

    /// Create the operator U+21D0.
    pub fn log_if() -> (r: Operator)
        ensures
            r.op@ == "\u{21D0}"@,
            r.attributes@ == Seq::<OperatorAttr>::empty(),
    {
        Operator::from("\u{21D0}")
    }

    /// Create the operator U+21D4.
    pub fn iff() -> (r: Operator)
        ensures
            r.op@ == "\u{21D4}"@,
            r.attributes@ == Seq::<OperatorAttr>::empty(),
    {
        Operator::from("\u{21D4}")
    }

    /// Create the operator U+2200.
    pub fn for_all() -> (r: Operator)
        ensures
            r.op@ == "\u{2200}"@,
            r.attributes@ == Seq::<OperatorAttr>::empty(),
    {
        Operator::from("\u{2200}")
    }

    /// Create the operator U+2203.
    pub fn there_exists() -> (r: Operator)
        ensures
            r.op@ == "\u{2203}"@,
            r.attributes@ == Seq::<OperatorAttr>::empty(),
    {
        Operator::from("\u{2203}")
    }

    /// Create the operator U+22A5.
    pub fn bottom() -> (r: Operator)
        ensures
            r.op@ == "\u{22A5}"@,
            r.attributes@ == Seq::<OperatorAttr>::empty(),
    {
        Operator::from("\u{22A5}")
    }

    /// Create the operator U+22A4.
    pub fn top() -> (r: Operator)
        ensures
            r.op@ == "\u{22A4}"@,
            r.attributes@ == Seq::<OperatorAttr>::empty(),
    {
        Operator::from("\u{22A4}")
    }

    /// Create the operator U+22A2.
    pub fn vdash() -> (r: Operator)
        ensures
            r.op@ == "\u{22A2}"@,
            r.attributes@ == Seq::<OperatorAttr>::empty(),
    {
        Operator::from("\u{22A2}")
    }

    /// Create the operator U+22A8.
    pub fn models() -> (r: Operator)
        ensures
            r.op@ == "\u{22A8}"@,
            r.attributes@ == Seq::<OperatorAttr>::empty(),
    {
        Operator::from("\u{22A8}")
    }

    /// Create the operator U+0028.
    pub fn lparens() -> (r: Operator)
        ensures
            r.op@ == "\u{0028}"@,
            r.attributes@ == Seq::<OperatorAttr>::empty(),
    {
        Operator::from("\u{0028}")
    }

    /// Create the operator U+0029.
    pub fn rparens() -> (r: Operator)
        ensures
            r.op@ == "\u{0029}"@,
            r.attributes@ == Seq::<OperatorAttr>::empty(),
    {
        Operator::from("\u{0029}")
    }

    /// Create the operator U+2322.
    pub fn oparens() -> (r: Operator)
        ensures
            r.op@ == "\u{2322}"@,
            r.attributes@ == Seq::<OperatorAttr>::empty(),
    {
        Operator::from("\u{2322}")
    }

    /// Create the operator U+2323.
    pub fn uparens() -> (r: Operator)
        ensures
            r.op@ == "\u{2323}"@,
            r.attributes@ == Seq::<OperatorAttr>::empty(),
    {
        Operator::from("\u{2323}")
    }

    /// Create the operator U+005B.
    pub fn lbracket() -> (r: Operator)
        ensures
            r.op@ == "\u{005B}"@,
            r.attributes@ == Seq::<OperatorAttr>::empty(),
    {
        Operator::from("\u{005B}")
    }

    /// Create the operator U+005D.
    pub fn rbracket() -> (r: Operator)
        ensures
            r.op@ == "\u{005D}"@,
            r.attributes@ == Seq::<OperatorAttr>::empty(),
    {
        Operator::from("\u{005D}")
    }

    /// Create the operator U+23B4.
    pub fn obracket() -> (r: Operator)
        ensures
            r.op@ == "\u{23B4}"@,
            r.attributes@ == Seq::<OperatorAttr>::empty(),
    {
        Operator::from("\u{23B4}")
    }

    /// Create the operator U+23B5.
    pub fn ubracket() -> (r: Operator)
        ensures
            r.op@ == "\u{23B5}"@,
            r.attributes@ == Seq::<OperatorAttr>::empty(),
    {
        Operator::from("\u{23B5}")
    }

    /// Create the operator U+007B.
    pub fn lbrace() -> (r: Operator)
        ensures
            r.op@ == "\u{007B}"@,
            r.attributes@ == Seq::<OperatorAttr>::empty(),
    {
        Operator::from("\u{007B}")
    }

    /// Create the operator U+007D.
    pub fn rbrace() -> (r: Operator)
        ensures
            r.op@ == "\u{007D}"@,
            r.attributes@ == Seq::<OperatorAttr>::empty(),
    {
        Operator::from("\u{007D}")
    }

    /// Create the operator U+23DE.
    pub fn obrace() -> (r: Operator)
        ensures
            r.op@ == "\u{23DE}"@,
            r.attributes@ == Seq::<OperatorAttr>::empty(),
    {
        Operator::from("\u{23DE}")
    }

    /// Create the operator U+23DF.
    pub fn ubrace() -> (r: Operator)
        ensures
            r.op@ == "\u{23DF}"@,
            r.attributes@ == Seq::<OperatorAttr>::empty(),
    {
        Operator::from("\u{23DF}")
    }

    /// Create the operator U+27E8.
    pub fn langle() -> (r: Operator)
        ensures
            r.op@ == "\u{27E8}"@,
            r.attributes@ == Seq::<OperatorAttr>::empty(),
    {
        Operator::from("\u{27E8}")
    }

    /// Create the operator U+27E9.
    pub fn rangle() -> (r: Operator)
        ensures
            r.op@ == "\u{27E9}"@,
            r.attributes@ == Seq::<OperatorAttr>::empty(),
    {
        Operator::from("\u{27E9}")
    }

    /// Create the operator U+007C.
    pub fn vert_bar() -> (r: Operator)
        ensures
            r.op@ == "\u{007C}"@,
            r.attributes@ == Seq::<OperatorAttr>::empty(),
    {
        Operator::from("\u{007C}")
    }

    /// Create the operator U+2225.
    pub fn norm() -> (r: Operator)
        ensures
            r.op@ == "\u{2225}"@,
            r.attributes@ == Seq::<OperatorAttr>::empty(),
    {
        Operator::from("\u{2225}")
    }

    /// Create the operator U+005E.
    pub fn hat() -> (r: Operator)
        ensures
            r.op@ == "\u{005E}"@,
            r.attributes@ == Seq::<OperatorAttr>::empty(),
    {
        Operator::from("\u{005E}")
    }

    /// Create the operator U+005E.
    pub fn circumflex() -> (r: Operator)
        ensures
            r.op@ == "\u{005E}"@,
            r.attributes@ == Seq::<OperatorAttr>::empty(),
    {
        Operator::hat()
    }

    /// Create the operator U+00AF.
    pub fn bar() -> (r: Operator)
        ensures
            r.op@ == "\u{00AF}"@,
            r.attributes@ == Seq::<OperatorAttr>::empty(),
    {
        Operator::from("\u{00AF}")
    }

    /// Create the operator U+00AF.
    pub fn macron() -> (r: Operator)
        ensures
            r.op@ == "\u{00AF}"@,
            r.attributes@ == Seq::<OperatorAttr>::empty(),
    {
        Operator::bar()
    }

    /// Create the operator U+2192.
    pub fn rarrow() -> (r: Operator)
        ensures
            r.op@ == "\u{2192}"@,
            r.attributes@ == Seq::<OperatorAttr>::empty(),
    {
        Operator::from("\u{2192}")
    }

    /// Create the operator U+2190.
    pub fn larrow() -> (r: Operator)
        ensures
            r.op@ == "\u{2190}"@,
            r.attributes@ == Seq::<OperatorAttr>::empty(),
    {
        Operator::from("\u{2190}")
    }

    /// Create the operator U+007E.
    pub fn tilde() -> (r: Operator)
        ensures
            r.op@ == "\u{007E}"@,
            r.attributes@ == Seq::<OperatorAttr>::empty(),
    {
        Operator::from("\u{007E}")
    }
}

} // verus!
