use conjugator::Audience::{Plain, Polite};
use conjugator::Mode::{Immediate, Potential};
use conjugator::Polarity::{Affirmative, Negative};
use conjugator::Tense::{Past, Present};
use conjugator::{
    asobu, iku, kaeru, kaku, kau, matsu, miru, nugu, sagasu, shinu, yomu, Audience, Kind, Mode,
    Polarity, Tense, Verb,
};

fn assert_conjugations(
    tests: Vec<(Verb, &str)>,
    tense: Tense,
    audience: Audience,
    polariy: Polarity,
    mode: Mode,
) {
    tests.iter().for_each(|(verb, expected)| {
        let conjugation = verb.conjugate(tense, audience, polariy, mode);
        assert_eq!(conjugation, expected.to_string());
    })
}

#[test]
fn past_plain_affirmative_immediate() {
    let tests = vec![
        (miru(), "みた"),
        (kau(), "かった"),
        (matsu(), "まった"),
        (kaeru(), "かえった"),
        (yomu(), "よんだ"),
        (asobu(), "あそんだ"),
        (shinu(), "しんだ"),
        (kaku(), "かいた"),
        (iku(), "行った"),
        (nugu(), "ぬいだ"),
        (sagasu(), "さがした"),
    ];
    assert_conjugations(tests, Past, Plain, Affirmative, Immediate);
}

#[test]
fn past_plain_negative_immediate() {
    let tests = vec![
        (miru(), "みなかった"),
        (kau(), "かわなかった"),
        (matsu(), "またなかった"),
        (kaeru(), "かえらなかった"),
        (yomu(), "よまなかった"),
        (asobu(), "あそばなかった"),
        (shinu(), "しななかった"),
        (kaku(), "かかなかった"),
        (iku(), "行かなかった"),
        (nugu(), "ぬがなかった"),
        (sagasu(), "さがさなかった"),
    ];
    assert_conjugations(tests, Past, Plain, Negative, Immediate);
}

#[test]
fn present_polite_affirmative_immediate() {
    let tests = vec![
        (miru(), "みます"),
        (kau(), "かいます"),
        (matsu(), "まちます"),
        (kaeru(), "かえります"),
        (yomu(), "よみます"),
        (asobu(), "あそびます"),
        (shinu(), "しにます"),
        (kaku(), "かきます"),
        (iku(), "行きます"),
        (nugu(), "ぬぎます"),
        (sagasu(), "さがします"),
    ];
    assert_conjugations(tests, Present, Polite, Affirmative, Immediate);
}

#[test]
fn present_polite_negative_immediate() {
    let tests = vec![
        (miru(), "みません"),
        (kau(), "かいません"),
        (matsu(), "まちません"),
        (kaeru(), "かえりません"),
        (yomu(), "よみません"),
        (asobu(), "あそびません"),
        (shinu(), "しにません"),
        (kaku(), "かきません"),
        (iku(), "行きません"),
        (nugu(), "ぬぎません"),
        (sagasu(), "さがしません"),
    ];
    assert_conjugations(tests, Present, Polite, Negative, Immediate);
}

#[test]
fn past_polite_affirmative_potential() {
    let tests = vec![
        (miru(), "みられました"),
        (kau(), "かえました"),
        (matsu(), "まてました"),
        (kaeru(), "かえれました"),
        (yomu(), "よめました"),
        (asobu(), "あそべました"),
        (shinu(), "しねました"),
        (kaku(), "かけました"),
        (nugu(), "ぬげました"),
        (sagasu(), "さがせました"),
    ];
    assert_conjugations(tests, Past, Polite, Affirmative, Potential);
}

#[test]
fn past_polite_negative_potential() {
    let tests = vec![
        (miru(), "みられませんでした"),
        (kau(), "かえませんでした"),
        (matsu(), "まてませんでした"),
        (kaeru(), "かえれませんでした"),
        (yomu(), "よめませんでした"),
        (asobu(), "あそべませんでした"),
        (shinu(), "しねませんでした"),
        (kaku(), "かけませんでした"),
        (nugu(), "ぬげませんでした"),
        (sagasu(), "さがせませんでした"),
    ];
    assert_conjugations(tests, Past, Polite, Negative, Potential);
}

#[test]
fn ru_verb() {
    let verb = miru();
    assert_eq!(verb.conjugate(Present, Plain, Affirmative, Immediate), "みる");
    assert_eq!(verb.conjugate(Present, Polite, Affirmative, Immediate), "みます");
    assert_eq!(verb.conjugate(Past, Plain, Affirmative, Immediate), "みた");
    assert_eq!(verb.conjugate(Past, Polite, Affirmative, Immediate), "みました");
    assert_eq!(verb.conjugate(Present, Plain, Affirmative, Potential), "みられる");
    assert_eq!(verb.conjugate(Present, Polite, Affirmative, Potential), "みられます");
    assert_eq!(verb.conjugate(Past, Plain, Affirmative, Potential), "みられた");
    assert_eq!(verb.conjugate(Past, Polite, Affirmative, Potential), "みられました");

    assert_eq!(verb.conjugate(Present, Plain, Negative, Immediate), "みない");
    assert_eq!(verb.conjugate(Present, Polite, Negative, Immediate), "みません");
    assert_eq!(verb.conjugate(Past, Plain, Negative, Immediate), "みなかった");
    assert_eq!(verb.conjugate(Past, Polite, Negative, Immediate), "みませんでした");
    assert_eq!(verb.conjugate(Present, Plain, Negative, Potential), "みられない");
    assert_eq!(verb.conjugate(Present, Polite, Negative, Potential), "みられません");
    assert_eq!(verb.conjugate(Past, Plain, Negative, Potential), "みられなかった");
    assert_eq!(verb.conjugate(Past, Polite, Negative, Potential), "みられませんでした");
}

#[test]
fn u_verb() {
    let verb = kaeru();
    assert_eq!(verb.conjugate(Present, Plain, Affirmative, Immediate), "かえる");
    assert_eq!(verb.conjugate(Present, Polite, Affirmative, Immediate), "かえります");
    assert_eq!(verb.conjugate(Past, Plain, Affirmative, Immediate), "かえった");
    assert_eq!(verb.conjugate(Past, Polite, Affirmative, Immediate), "かえりました");
    assert_eq!(verb.conjugate(Present, Plain, Affirmative, Potential), "かえれる");
    assert_eq!(verb.conjugate(Present, Polite, Affirmative, Potential), "かえれます");
    assert_eq!(verb.conjugate(Past, Plain, Affirmative, Potential), "かえれた");
    assert_eq!(verb.conjugate(Past, Polite, Affirmative, Potential), "かえれました");

    assert_eq!(verb.conjugate(Present, Plain, Negative, Immediate), "かえらない");
    assert_eq!(verb.conjugate(Present, Polite, Negative, Immediate), "かえりません");
    assert_eq!(verb.conjugate(Past, Plain, Negative, Immediate), "かえらなかった");
    assert_eq!(verb.conjugate(Past, Polite, Negative, Immediate), "かえりませんでした");
    assert_eq!(verb.conjugate(Present, Plain, Negative, Potential), "かえれない");
    assert_eq!(verb.conjugate(Present, Polite, Negative, Potential), "かえれません");
    assert_eq!(verb.conjugate(Past, Plain, Negative, Potential), "かえれなかった");
    assert_eq!(verb.conjugate(Past, Polite, Negative, Potential), "かえれませんでした");
}

#[test]
fn suru_verb() {
    let verb = Verb {
        ch: 100,
        kind: Kind::Suru,
        search: "うんてんする".to_string(),
        english: "drive".to_string(),
    };
    assert_eq!(verb.conjugate(Present, Plain, Affirmative, Immediate), "うんてんする");
    assert_eq!(verb.conjugate(Present, Polite, Affirmative, Immediate), "うんてんします");
    assert_eq!(verb.conjugate(Past, Plain, Affirmative, Immediate), "うんてんした");
    assert_eq!(verb.conjugate(Past, Polite, Affirmative, Immediate), "うんてんしました");
    assert_eq!(verb.conjugate(Present, Plain, Affirmative, Potential), "うんてんできる");
    assert_eq!(verb.conjugate(Present, Polite, Affirmative, Potential), "うんてんできます");
    assert_eq!(verb.conjugate(Past, Plain, Affirmative, Potential), "うんてんできた");
    assert_eq!(verb.conjugate(Past, Polite, Affirmative, Potential), "うんてんできました");

    assert_eq!(verb.conjugate(Present, Plain, Negative, Immediate), "うんてんしない");
    assert_eq!(verb.conjugate(Present, Polite, Negative, Immediate), "うんてんしません");
    assert_eq!(verb.conjugate(Past, Plain, Negative, Immediate), "うんてんしなかった");
    assert_eq!(verb.conjugate(Past, Polite, Negative, Immediate), "うんてんしませんでした");
    assert_eq!(verb.conjugate(Present, Plain, Negative, Potential), "うんてんできない");
    assert_eq!(verb.conjugate(Present, Polite, Negative, Potential), "うんてんできません");
    assert_eq!(verb.conjugate(Past, Plain, Negative, Potential), "うんてんできなかった");
    assert_eq!(verb.conjugate(Past, Polite, Negative, Potential), "うんてんできませんでした");
}

#[test]
fn suru_base_verb() {
    let base_verb = Verb {
        ch: 100,
        kind: Kind::Suru,
        search: "する".to_string(),
        english: "do".to_string(),
    };
    assert_eq!(base_verb.conjugate(Present, Polite, Affirmative, Immediate), "します");
}

#[test]
fn translate() {
    let verb = miru();
    let tests = vec![
        (Present, Affirmative, Immediate, "will see"),
        (Present, Affirmative, Potential, "can see"),
        (Past, Affirmative, Immediate, "did see"),
        (Past, Affirmative, Potential, "could see"),
    ];
    tests.iter().for_each(|(tense, polarity, mode, expected)| {
        let translation = verb.translate(*tense, *polarity, *mode);
        assert_eq!(translation.as_str(), *expected);
    })
}

#[test]
fn verb_name() {
    let verb = miru();
    let name = verb.name();
    assert_eq!("0_みる", name);
}
