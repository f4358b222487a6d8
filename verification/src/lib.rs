use vstd::pervasive::unreached;
use vstd::prelude::*;
use vstd::string::{StrSliceExecFns, StringExecFns};

pub use crate::grammar::{
    Audience, Form, Kind, Mode, Polarity, Tense, audience_label, mode_label, polarity_label,
    spec_form_name, tense_label,
};
use crate::utils::{drop_last_char, seq_ends_with, str_ends_with, str_eq};

pub mod all;
mod grammar;
pub mod random;
pub mod utils;

verus! {

// ---------------------------------------------------------------------------
// Euphonic tables, keyed by the final kana of a consonant-stem verb.
// ---------------------------------------------------------------------------

/// The nine kana on which a consonant-stem verb may end.
pub open spec fn is_consonant_ending(c: char) -> bool {
    c == 'う' || c == 'つ' || c == 'る' || c == 'む' || c == 'ぶ' || c == 'ぬ' || c == 'く'
        || c == 'ぐ' || c == 'す'
}

/// The a-row counterpart of a consonant ending; builds the negative stem.
pub open spec fn a_row(c: char) -> Seq<char> {
    if c == 'う' {
        "わ"@
    } else if c == 'つ' {
        "た"@
    } else if c == 'る' {
        "ら"@
    } else if c == 'む' {
        "ま"@
    } else if c == 'ぶ' {
        "ば"@
    } else if c == 'ぬ' {
        "な"@
    } else if c == 'く' {
        "か"@
    } else if c == 'ぐ' {
        "が"@
    } else if c == 'す' {
        "さ"@
    } else {
        Seq::empty()
    }
}

/// The i-row counterpart of a consonant ending; builds the polite stem.
pub open spec fn i_row(c: char) -> Seq<char> {
    if c == 'う' {
        "い"@
    } else if c == 'つ' {
        "ち"@
    } else if c == 'る' {
        "り"@
    } else if c == 'む' {
        "み"@
    } else if c == 'ぶ' {
        "び"@
    } else if c == 'ぬ' {
        "に"@
    } else if c == 'く' {
        "き"@
    } else if c == 'ぐ' {
        "ぎ"@
    } else if c == 'す' {
        "し"@
    } else {
        Seq::empty()
    }
}

/// The plain-past cluster ending for a consonant ending.
pub open spec fn past_cluster(c: char) -> Seq<char> {
    if c == 'う' || c == 'つ' || c == 'る' {
        "った"@
    } else if c == 'む' || c == 'ぶ' || c == 'ぬ' {
        "んだ"@
    } else if c == 'く' {
        "いた"@
    } else if c == 'ぐ' {
        "いだ"@
    } else if c == 'す' {
        "した"@
    } else {
        Seq::empty()
    }
}

/// The potential ending for a consonant ending.
pub open spec fn potential_ending(c: char) -> Seq<char> {
    if c == 'う' {
        "える"@
    } else if c == 'つ' {
        "てる"@
    } else if c == 'る' {
        "れる"@
    } else if c == 'む' {
        "める"@
    } else if c == 'ぶ' {
        "べる"@
    } else if c == 'ぬ' {
        "ねる"@
    } else if c == 'く' {
        "ける"@
    } else if c == 'ぐ' {
        "げる"@
    } else if c == 'す' {
        "せる"@
    } else {
        Seq::empty()
    }
}

// ---------------------------------------------------------------------------
// The specification of stem derivation and conjugation.
// ---------------------------------------------------------------------------

/// Well-formedness of a verb's surface text with respect to its class:
/// vowel-stem verbs end in "る", consonant-stem verbs in one of the nine
/// recognized kana, and irregular verbs in "する".
pub open spec fn valid_verb_text(s: Seq<char>, kind: Kind) -> bool {
    match kind {
        Kind::Ru => s.len() >= 1 && s.last() == 'る',
        Kind::U => s.len() >= 1 && is_consonant_ending(s.last()),
        Kind::Suru => s.len() >= 2 && s[s.len() - 2] == 'す' && s.last() == 'る',
    }
}

/// The stem to which negative endings attach.
pub open spec fn spec_pre_nai(s: Seq<char>, kind: Kind) -> Seq<char> {
    match kind {
        Kind::Ru => s.drop_last(),
        Kind::U => s.drop_last() + a_row(s.last()),
        Kind::Suru => s.drop_last().drop_last() + "し"@,
    }
}

/// The stem to which polite endings attach.
pub open spec fn spec_pre_masu(s: Seq<char>, kind: Kind) -> Seq<char> {
    match kind {
        Kind::Ru => s.drop_last(),
        Kind::U => s.drop_last() + i_row(s.last()),
        Kind::Suru => s.drop_last().drop_last() + "し"@,
    }
}

/// The lexical exception for "行く" (go): written in kanji, as the bare
/// reading, or as a compound ending in "ていく", its plain past takes "った"
/// rather than the regular く-ending rule.
pub open spec fn is_iku(s: Seq<char>) -> bool {
    seq_ends_with(s, "行く"@) || s == "いく"@ || seq_ends_with(s, "ていく"@)
}

/// The plain-past surface form.
pub open spec fn spec_ta(s: Seq<char>, kind: Kind) -> Seq<char> {
    match kind {
        Kind::Ru => s.drop_last() + "た"@,
        Kind::U => if is_iku(s) {
            s.drop_last() + "った"@
        } else {
            s.drop_last() + past_cluster(s.last())
        },
        Kind::Suru => s.drop_last().drop_last() + "した"@,
    }
}

/// The potential-form verb text derived from a base verb; the result is
/// itself a vowel-stem verb text.
pub open spec fn spec_potential(s: Seq<char>, kind: Kind) -> Seq<char> {
    match kind {
        Kind::Ru => s.drop_last() + "られる"@,
        Kind::U => s.drop_last() + potential_ending(s.last()),
        Kind::Suru => s.drop_last().drop_last() + "できる"@,
    }
}

/// The eight immediate-mode surface forms, composed from the stems.
pub open spec fn spec_conjugate_verb(
    s: Seq<char>,
    kind: Kind,
    tense: Tense,
    audience: Audience,
    polarity: Polarity,
) -> Seq<char> {
    match (tense, audience, polarity) {
        (Tense::Present, Audience::Plain, Polarity::Affirmative) => s,
        (Tense::Present, Audience::Plain, Polarity::Negative) => spec_pre_nai(s, kind) + "ない"@,
        (Tense::Present, Audience::Polite, Polarity::Affirmative) => spec_pre_masu(s, kind)
            + "ます"@,
        (Tense::Present, Audience::Polite, Polarity::Negative) => spec_pre_masu(s, kind)
            + "ません"@,
        (Tense::Past, Audience::Plain, Polarity::Affirmative) => spec_ta(s, kind),
        (Tense::Past, Audience::Plain, Polarity::Negative) => spec_pre_nai(s, kind) + "なかった"@,
        (Tense::Past, Audience::Polite, Polarity::Affirmative) => spec_pre_masu(s, kind)
            + "ました"@,
        (Tense::Past, Audience::Polite, Polarity::Negative) => spec_pre_masu(s, kind)
            + "ませんでした"@,
    }
}

/// The surface form of a verb under a full parameter tuple: immediate mode
/// conjugates the verb itself, potential mode first derives the potential
/// form and conjugates it as a vowel-stem verb.
pub open spec fn spec_conjugate(
    v: Verb,
    tense: Tense,
    audience: Audience,
    polarity: Polarity,
    mode: Mode,
) -> Seq<char> {
    match mode {
        Mode::Immediate => spec_conjugate_verb(v.search@, v.kind, tense, audience, polarity),
        Mode::Potential => spec_conjugate_verb(
            spec_potential(v.search@, v.kind),
            Kind::Ru,
            tense,
            audience,
            polarity,
        ),
    }
}

/// The English auxiliary that opens a gloss, keyed by mode and tense.
pub open spec fn gloss_prefix(mode: Mode, tense: Tense) -> Seq<char> {
    match (mode, tense) {
        (Mode::Immediate, Tense::Present) => "will"@,
        (Mode::Immediate, Tense::Past) => "did"@,
        (Mode::Potential, Tense::Present) => "can"@,
        (Mode::Potential, Tense::Past) => "could"@,
    }
}

/// The separator between auxiliary and gloss; negation inserts " not ".
pub open spec fn gloss_separator(polarity: Polarity) -> Seq<char> {
    match polarity {
        Polarity::Affirmative => " "@,
        Polarity::Negative => " not "@,
    }
}

/// The English gloss of a verb under the given parameters.
pub open spec fn spec_translate(v: Verb, tense: Tense, polarity: Polarity, mode: Mode) -> Seq<
    char,
> {
    gloss_prefix(mode, tense) + gloss_separator(polarity) + v.english@
}

/// The decimal digit character sequence for a single digit.
pub open spec fn digit_label(d: nat) -> Seq<char> {
    if d == 0 {
        "0"@
    } else if d == 1 {
        "1"@
    } else if d == 2 {
        "2"@
    } else if d == 3 {
        "3"@
    } else if d == 4 {
        "4"@
    } else if d == 5 {
        "5"@
    } else if d == 6 {
        "6"@
    } else if d == 7 {
        "7"@
    } else if d == 8 {
        "8"@
    } else if d == 9 {
        "9"@
    } else {
        Seq::empty()
    }
}

/// The decimal representation of `n`, most significant digit first.
pub open spec fn spec_decimal(n: nat) -> Seq<char>
    decreases n,
{
    if n < 10 {
        digit_label(n)
    } else {
        spec_decimal(n / 10) + digit_label(n % 10)
    }
}

/// The identity string of a verb: its identifier in decimal, an underscore,
/// and its dictionary form.
pub open spec fn spec_verb_name(v: Verb) -> Seq<char> {
    spec_decimal(v.ch as nat) + "_"@ + v.search@
}

// ---------------------------------------------------------------------------
// The verb entity and the public conjugation surface.
// ---------------------------------------------------------------------------

/// A dictionary verb: identifier, conjugation class, dictionary-form surface
/// text, and English gloss. Verbs are pure value data; conjugation never
/// mutates them.
#[derive(Clone, PartialEq, Debug)]
pub struct Verb {
    pub ch: u32,
    pub kind: Kind,
    pub search: String,
    pub english: String,
}

impl Verb {
    /// A verb is well formed when its dictionary form ends as its class
    /// demands.
    pub open spec fn wf(&self) -> bool {
        valid_verb_text(self.search@, self.kind)
    }

    /// The identity string `identifier_dictionaryForm`.
    pub fn name(&self) -> (r: String)
        ensures
            r@ == spec_verb_name(*self),
    {
        let mut s = u32_to_string(self.ch);
        s.append("_");
        s.append(self.search.as_str());
        proof {
            assert(s@ =~= spec_verb_name(*self));
        }
        s
    }

    /// The surface form of this verb under the given parameter tuple.
    pub fn conjugate(&self, tense: Tense, audience: Audience, polarity: Polarity, mode: Mode) -> (r:
        String)
        requires
            self.wf(),
        ensures
            r@ == spec_conjugate(*self, tense, audience, polarity, mode),
    {
        match mode {
            Mode::Immediate => conjugate_verb(
                self.search.as_str(),
                self.kind,
                tense,
                audience,
                polarity,
            ),
            Mode::Potential => {
                proof {
                    lemma_potential_is_vowel_stem(self.search@, self.kind);
                }
                let p = potential(self.search.as_str(), self.kind);
                conjugate_verb(p.as_str(), Kind::Ru, tense, audience, polarity)
            },
        }
    }

    /// The English gloss of this verb under the given parameters, e.g.
    /// "will see" or "did not buy".
    pub fn translate(&self, tense: Tense, polarity: Polarity, mode: Mode) -> (r: String)
        ensures
            r@ == spec_translate(*self, tense, polarity, mode),
    {
        let prefix: &str = match (mode, tense) {
            (Mode::Immediate, Tense::Present) => "will",
            (Mode::Immediate, Tense::Past) => "did",
            (Mode::Potential, Tense::Present) => "can",
            (Mode::Potential, Tense::Past) => "could",
        };
        let middle: &str = match polarity {
            Polarity::Affirmative => " ",
            Polarity::Negative => " not ",
        };
        let mut s = String::from_str(prefix);
        s.append(middle);
        s.append(self.english.as_str());
        proof {
            assert(s@ =~= spec_translate(*self, tense, polarity, mode));
        }
        s
    }
}

// ---------------------------------------------------------------------------
// Stem derivation and the potential transformer.
// ---------------------------------------------------------------------------

/// The potential-form verb text: drop the ending and attach the class's
/// potential ending; the result conjugates as a vowel-stem verb.
fn potential(verb: &str, kind: Kind) -> (r: String)
    requires
        valid_verb_text(verb@, kind),
    ensures
        r@ == spec_potential(verb@, kind),
{
    match kind {
        Kind::Ru => drop_last_char(verb).concat("られる"),
        Kind::U => {
            let n = verb.unicode_len();
            let ending: &str = match verb.get_char(n - 1) {
                'う' => "える",
                'つ' => "てる",
                'る' => "れる",
                'む' => "める",
                'ぶ' => "べる",
                'ぬ' => "ねる",
                'く' => "ける",
                'ぐ' => "げる",
                'す' => "せる",
                _ => unreached(),
            };
            drop_last_char(verb).concat(ending)
        },
        Kind::Suru => drop_last_char(drop_last_char(verb).as_str()).concat("できる"),
    }
}

/// The eight immediate-mode surface forms, composed from the stems.
fn conjugate_verb(verb: &str, kind: Kind, tense: Tense, audience: Audience, polarity: Polarity) -> (
    r: String)
    requires
        valid_verb_text(verb@, kind),
    ensures
        r@ == spec_conjugate_verb(verb@, kind, tense, audience, polarity),
{
    match (tense, audience, polarity) {
        (Tense::Present, Audience::Plain, Polarity::Affirmative) => verb.to_owned(),
        (Tense::Present, Audience::Plain, Polarity::Negative) => pre_nai(verb, kind).concat(
            "ない",
        ),
        (Tense::Present, Audience::Polite, Polarity::Affirmative) => pre_masu(verb, kind).concat(
            "ます",
        ),
        (Tense::Present, Audience::Polite, Polarity::Negative) => pre_masu(verb, kind).concat(
            "ません",
        ),
        (Tense::Past, Audience::Plain, Polarity::Affirmative) => ta(verb, kind),
        (Tense::Past, Audience::Plain, Polarity::Negative) => pre_nai(verb, kind).concat(
            "なかった",
        ),
        (Tense::Past, Audience::Polite, Polarity::Affirmative) => pre_masu(verb, kind).concat(
            "ました",
        ),
        (Tense::Past, Audience::Polite, Polarity::Negative) => pre_masu(verb, kind).concat(
            "ませんでした",
        ),
    }
}

/// The plain-past surface form, honouring the "行く" lexical exception.
fn ta(verb: &str, kind: Kind) -> (r: String)
    requires
        valid_verb_text(verb@, kind),
    ensures
        r@ == spec_ta(verb@, kind),
{
    match kind {
        Kind::Ru => drop_last_char(verb).concat("た"),
        Kind::U => {
            if str_ends_with(verb, "行く") || str_eq(verb, "いく") || str_ends_with(
                verb,
                "ていく",
            ) {
                drop_last_char(verb).concat("った")
            } else {
                let n = verb.unicode_len();
                let ending: &str = match verb.get_char(n - 1) {
                    'う' | 'つ' | 'る' => "った",
                    'む' | 'ぶ' | 'ぬ' => "んだ",
                    'く' => "いた",
                    'ぐ' => "いだ",
                    'す' => "した",
                    _ => unreached(),
                };
                drop_last_char(verb).concat(ending)
            }
        },
        Kind::Suru => drop_last_char(drop_last_char(verb).as_str()).concat("した"),
    }
}

/// The stem to which negative endings attach.
fn pre_nai(verb: &str, kind: Kind) -> (r: String)
    requires
        valid_verb_text(verb@, kind),
    ensures
        r@ == spec_pre_nai(verb@, kind),
{
    match kind {
        Kind::Ru => drop_last_char(verb),
        Kind::U => {
            let n = verb.unicode_len();
            let row = a(verb.get_char(n - 1));
            drop_last_char(verb).concat(row)
        },
        Kind::Suru => drop_last_char(drop_last_char(verb).as_str()).concat("し"),
    }
}

/// The a-row counterpart of a consonant ending.
fn a(u: char) -> (r: &'static str)
    requires
        is_consonant_ending(u),
    ensures
        r@ == a_row(u),
{
    match u {
        'う' => "わ",
        'つ' => "た",
        'る' => "ら",
        'む' => "ま",
        'ぶ' => "ば",
        'ぬ' => "な",
        'く' => "か",
        'ぐ' => "が",
        'す' => "さ",
        _ => unreached(),
    }
}

/// The stem to which polite endings attach.
fn pre_masu(verb: &str, kind: Kind) -> (r: String)
    requires
        valid_verb_text(verb@, kind),
    ensures
        r@ == spec_pre_masu(verb@, kind),
{
    match kind {
        Kind::Ru => drop_last_char(verb),
        Kind::U => {
            let n = verb.unicode_len();
            let row = i(verb.get_char(n - 1));
            drop_last_char(verb).concat(row)
        },
        Kind::Suru => drop_last_char(drop_last_char(verb).as_str()).concat("し"),
    }
}

/// The i-row counterpart of a consonant ending.
fn i(u: char) -> (r: &'static str)
    requires
        is_consonant_ending(u),
    ensures
        r@ == i_row(u),
{
    match u {
        'う' => "い",
        'つ' => "ち",
        'る' => "り",
        'む' => "み",
        'ぶ' => "び",
        'ぬ' => "に",
        'く' => "き",
        'ぐ' => "ぎ",
        'す' => "し",
        _ => unreached(),
    }
}

/// The decimal digit string for a single digit.
fn digit_str(d: u32) -> (r: &'static str)
    requires
        d < 10,
    ensures
        r@ == digit_label(d as nat),
{
    match d {
        0 => "0",
        1 => "1",
        2 => "2",
        3 => "3",
        4 => "4",
        5 => "5",
        6 => "6",
        7 => "7",
        8 => "8",
        9 => "9",
        _ => unreached(),
    }
}

/// The decimal representation of `n`.
fn u32_to_string(n: u32) -> (r: String)
    ensures
        r@ == spec_decimal(n as nat),
    decreases n,
{
    if n < 10 {
        String::from_str(digit_str(n))
    } else {
        let mut s = u32_to_string(n / 10);
        s.append(digit_str(n % 10));
        s
    }
}

// ---------------------------------------------------------------------------
// Laws of the engine.
// ---------------------------------------------------------------------------

/// Appending a suffix yields a sequence that ends with that suffix.
proof fn lemma_concat_ends_with(s: Seq<char>, suf: Seq<char>)
    ensures
        seq_ends_with(s + suf, suf),
{
    assert((s + suf).skip(s.len() as int) =~= suf);
}

/// The potential form of any well-formed verb is a well-formed vowel-stem
/// verb text, and stays one under a repeated potential derivation: the
/// conjugation of a potential form never takes the consonant-stem or
/// irregular branches.
pub proof fn lemma_potential_is_vowel_stem(s: Seq<char>, kind: Kind)
    requires
        valid_verb_text(s, kind),
    ensures
        valid_verb_text(spec_potential(s, kind), Kind::Ru),
        valid_verb_text(spec_potential(spec_potential(s, kind), Kind::Ru), Kind::Ru),
{
    lemma_potential_valid_once(s, kind);
    lemma_potential_valid_once(spec_potential(s, kind), Kind::Ru);
}

/// One step of the previous law: a single potential derivation ends in "る".
proof fn lemma_potential_valid_once(s: Seq<char>, kind: Kind)
    requires
        valid_verb_text(s, kind),
    ensures
        valid_verb_text(spec_potential(s, kind), Kind::Ru),
{
    reveal_strlit("られる");
    reveal_strlit("できる");
    reveal_strlit("える");
    reveal_strlit("てる");
    reveal_strlit("れる");
    reveal_strlit("める");
    reveal_strlit("べる");
    reveal_strlit("ねる");
    reveal_strlit("ける");
    reveal_strlit("げる");
    reveal_strlit("せる");
    let r = spec_potential(s, kind);
    match kind {
        Kind::Ru => {
            assert(r.last() == 'る');
        },
        Kind::U => {
            assert(potential_ending(s.last()).len() == 2);
            assert(potential_ending(s.last()).last() == 'る');
            assert(r.last() == 'る');
        },
        Kind::Suru => {
            assert(r.last() == 'る');
        },
    }
}

/// A vowel-stem verb in the plain affirmative immediate form is the
/// dictionary form itself in the present tense, and the truncated stem
/// followed by "た" in the past tense.
pub proof fn lemma_vowel_stem_plain_affirmative(v: Verb)
    requires
        v.wf(),
        v.kind == Kind::Ru,
    ensures
        spec_conjugate(v, Tense::Present, Audience::Plain, Polarity::Affirmative, Mode::Immediate)
            == v.search@,
        spec_conjugate(v, Tense::Past, Audience::Plain, Polarity::Affirmative, Mode::Immediate)
            == v.search@.drop_last() + "た"@,
{
}

/// Negative forms carry their fixed endings, for every verb class and in
/// either mode: plain present negatives end in "ない", polite negatives end
/// in "ません" in the present tense and in "ませんでした" in the past.
pub proof fn lemma_negative_endings(v: Verb, mode: Mode)
    requires
        v.wf(),
    ensures
        seq_ends_with(
            spec_conjugate(v, Tense::Present, Audience::Plain, Polarity::Negative, mode),
            "ない"@,
        ),
        seq_ends_with(
            spec_conjugate(v, Tense::Present, Audience::Polite, Polarity::Negative, mode),
            "ません"@,
        ),
        seq_ends_with(
            spec_conjugate(v, Tense::Past, Audience::Polite, Polarity::Negative, mode),
            "ませんでした"@,
        ),
{
    match mode {
        Mode::Immediate => {
            lemma_concat_ends_with(spec_pre_nai(v.search@, v.kind), "ない"@);
            lemma_concat_ends_with(spec_pre_masu(v.search@, v.kind), "ません"@);
            lemma_concat_ends_with(spec_pre_masu(v.search@, v.kind), "ませんでした"@);
        },
        Mode::Potential => {
            let p = spec_potential(v.search@, v.kind);
            lemma_concat_ends_with(spec_pre_nai(p, Kind::Ru), "ない"@);
            lemma_concat_ends_with(spec_pre_masu(p, Kind::Ru), "ません"@);
            lemma_concat_ends_with(spec_pre_masu(p, Kind::Ru), "ませんでした"@);
        },
    }
}

// ---------------------------------------------------------------------------
// The sample verb list used by tests and demos.
// ---------------------------------------------------------------------------

/// The fixed sample verbs; every entry is well formed.
pub fn verbs() -> (r: Vec<Verb>)
    ensures
        r@.len() == 11,
        forall|k: int| 0 <= k < r@.len() ==> (#[trigger] r@[k]).wf(),
{
    let mut v: Vec<Verb> = Vec::new();
    v.push(miru());
    v.push(kau());
    v.push(matsu());
    v.push(kaeru());
    v.push(yomu());
    v.push(asobu());
    v.push(shinu());
    v.push(kaku());
    v.push(iku());
    v.push(nugu());
    v.push(sagasu());
    v
}

/// Sample vowel-stem verb "みる" (see).
pub fn miru() -> (v: Verb)
    ensures
        v.ch == 0,
        v.kind == Kind::Ru,
        v.search@ == "みる"@,
        v.english@ == "see"@,
        v.wf(),
{
    let v = Verb {
        ch: 0,
        kind: Kind::Ru,
        search: String::from_str("みる"),
        english: String::from_str("see"),
    };
    proof {
        reveal_strlit("みる");
    }
    v
}

/// Sample consonant-stem verb "かう" (buy).
pub fn kau() -> (v: Verb)
    ensures
        v.ch == 0,
        v.kind == Kind::U,
        v.search@ == "かう"@,
        v.english@ == "buy"@,
        v.wf(),
{
    let v = Verb {
        ch: 0,
        kind: Kind::U,
        search: String::from_str("かう"),
        english: String::from_str("buy"),
    };
    proof {
        reveal_strlit("かう");
    }
    v
}

/// Sample consonant-stem verb "まつ" (wait).
pub fn matsu() -> (v: Verb)
    ensures
        v.ch == 0,
        v.kind == Kind::U,
        v.search@ == "まつ"@,
        v.english@ == "wait"@,
        v.wf(),
{
    let v = Verb {
        ch: 0,
        kind: Kind::U,
        search: String::from_str("まつ"),
        english: String::from_str("wait"),
    };
    proof {
        reveal_strlit("まつ");
    }
    v
}

/// Sample consonant-stem verb "かえる" (go home).
pub fn kaeru() -> (v: Verb)
    ensures
        v.ch == 0,
        v.kind == Kind::U,
        v.search@ == "かえる"@,
        v.english@ == "go home"@,
        v.wf(),
{
    let v = Verb {
        ch: 0,
        kind: Kind::U,
        search: String::from_str("かえる"),
        english: String::from_str("go home"),
    };
    proof {
        reveal_strlit("かえる");
    }
    v
}

/// Sample consonant-stem verb "よむ" (read).
pub fn yomu() -> (v: Verb)
    ensures
        v.ch == 0,
        v.kind == Kind::U,
        v.search@ == "よむ"@,
        v.english@ == "read"@,
        v.wf(),
{
    let v = Verb {
        ch: 0,
        kind: Kind::U,
        search: String::from_str("よむ"),
        english: String::from_str("read"),
    };
    proof {
        reveal_strlit("よむ");
    }
    v
}

/// Sample consonant-stem verb "あそぶ" (play).
pub fn asobu() -> (v: Verb)
    ensures
        v.ch == 0,
        v.kind == Kind::U,
        v.search@ == "あそぶ"@,
        v.english@ == "play"@,
        v.wf(),
{
    let v = Verb {
        ch: 0,
        kind: Kind::U,
        search: String::from_str("あそぶ"),
        english: String::from_str("play"),
    };
    proof {
        reveal_strlit("あそぶ");
    }
    v
}

/// Sample consonant-stem verb "しぬ" (die).
pub fn shinu() -> (v: Verb)
    ensures
        v.ch == 0,
        v.kind == Kind::U,
        v.search@ == "しぬ"@,
        v.english@ == "die"@,
        v.wf(),
{
    let v = Verb {
        ch: 0,
        kind: Kind::U,
        search: String::from_str("しぬ"),
        english: String::from_str("die"),
    };
    proof {
        reveal_strlit("しぬ");
    }
    v
}

/// Sample consonant-stem verb "かく" (write).
pub fn kaku() -> (v: Verb)
    ensures
        v.ch == 0,
        v.kind == Kind::U,
        v.search@ == "かく"@,
        v.english@ == "write"@,
        v.wf(),
{
    let v = Verb {
        ch: 0,
        kind: Kind::U,
        search: String::from_str("かく"),
        english: String::from_str("write"),
    };
    proof {
        reveal_strlit("かく");
    }
    v
}

/// Sample consonant-stem verb "行く" (go), the lexical exception in the past
/// tense.
pub fn iku() -> (v: Verb)
    ensures
        v.ch == 0,
        v.kind == Kind::U,
        v.search@ == "行く"@,
        v.english@ == "go"@,
        v.wf(),
{
    let v = Verb {
        ch: 0,
        kind: Kind::U,
        search: String::from_str("行く"),
        english: String::from_str("go"),
    };
    proof {
        reveal_strlit("行く");
    }
    v
}

/// Sample consonant-stem verb "ぬぐ" (disrobe).
pub fn nugu() -> (v: Verb)
    ensures
        v.ch == 0,
        v.kind == Kind::U,
        v.search@ == "ぬぐ"@,
        v.english@ == "disrobe"@,
        v.wf(),
{
    let v = Verb {
        ch: 0,
        kind: Kind::U,
        search: String::from_str("ぬぐ"),
        english: String::from_str("disrobe"),
    };
    proof {
        reveal_strlit("ぬぐ");
    }
    v
}

/// Sample consonant-stem verb "さがす" (search).
pub fn sagasu() -> (v: Verb)
    ensures
        v.ch == 0,
        v.kind == Kind::U,
        v.search@ == "さがす"@,
        v.english@ == "search"@,
        v.wf(),
{
    let v = Verb {
        ch: 0,
        kind: Kind::U,
        search: String::from_str("さがす"),
        english: String::from_str("search"),
    };
    proof {
        reveal_strlit("さがす");
    }
    v
}

} // verus!
