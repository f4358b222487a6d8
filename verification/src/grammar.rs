use vstd::prelude::*;
use vstd::string::StringExecFns;

verus! {

/// Conjugation class of a verb: consonant-stem ("u-verb"), vowel-stem
/// ("ru-verb"), or the irregular "suru" class.
#[derive(Copy, Clone, Eq, PartialEq, Structural, Debug)]
pub enum Kind {
    U,
    Ru,
    Suru,
}

/// Grammatical tense of a conjugated form.
#[derive(Copy, Clone, Eq, PartialEq, Structural, Debug)]
pub enum Tense {
    Present,
    Past,
}

/// Politeness register of a conjugated form.
#[derive(Copy, Clone, Eq, PartialEq, Structural, Debug)]
pub enum Audience {
    Plain,
    Polite,
}

/// Whether the form is the verb itself or its potential ("can do") derivation.
#[derive(Copy, Clone, Eq, PartialEq, Structural, Debug)]
pub enum Mode {
    Immediate,
    Potential,
}

/// Affirmative or negated form.
#[derive(Copy, Clone, Eq, PartialEq, Structural, Debug)]
pub enum Polarity {
    Affirmative,
    Negative,
}

/// One point in the product of the four grammatical axes.
#[derive(Copy, Clone, Eq, PartialEq, Structural, Debug)]
pub struct Form {
    pub tense: Tense,
    pub audience: Audience,
    pub polarity: Polarity,
    pub mode: Mode,
}

pub open spec fn tense_label(t: Tense) -> Seq<char> {
    match t {
        Tense::Present => "Present"@,
        Tense::Past => "Past"@,
    }
}

pub open spec fn audience_label(a: Audience) -> Seq<char> {
    match a {
        Audience::Plain => "Plain"@,
        Audience::Polite => "Polite"@,
    }
}

pub open spec fn polarity_label(p: Polarity) -> Seq<char> {
    match p {
        Polarity::Affirmative => "Affirmative"@,
        Polarity::Negative => "Negative"@,
    }
}

pub open spec fn mode_label(m: Mode) -> Seq<char> {
    match m {
        Mode::Immediate => "Immediate"@,
        Mode::Potential => "Potential"@,
    }
}

/// The canonical textual identifier of a form: the four axis labels in the
/// fixed order tense, audience, polarity, mode, joined by underscores.
pub open spec fn spec_form_name(f: Form) -> Seq<char> {
    tense_label(f.tense) + "_"@ + audience_label(f.audience) + "_"@ + polarity_label(f.polarity)
        + "_"@ + mode_label(f.mode)
}

impl Form {
    /// The underscore-joined canonical name, e.g. "Present_Plain_Affirmative_Immediate".
    pub fn name(&self) -> (r: String)
        ensures
            r@ == spec_form_name(*self),
    {
        let t: &str = match self.tense {
            Tense::Present => "Present",
            Tense::Past => "Past",
        };
        let a: &str = match self.audience {
            Audience::Plain => "Plain",
            Audience::Polite => "Polite",
        };
        let p: &str = match self.polarity {
            Polarity::Affirmative => "Affirmative",
            Polarity::Negative => "Negative",
        };
        let m: &str = match self.mode {
            Mode::Immediate => "Immediate",
            Mode::Potential => "Potential",
        };
        let mut s = String::from_str(t);
        s.append("_");
        s.append(a);
        s.append("_");
        s.append(p);
        s.append("_");
        s.append(m);
        proof {
            assert(s@ =~= spec_form_name(*self));
        }
        s
    }
}

} // verus!
