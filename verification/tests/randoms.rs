use conjugator::{random, Tense};

#[test]
fn randoms() {
    random::tense();
    random::audience();
    random::polarity();
    random::mode();
    random::form();
}

#[test]
fn random_tense_yields_both_values() {
    let mut present_seen = false;
    let mut past_seen = false;
    for _ in 0..500 {
        match random::tense() {
            Tense::Present => present_seen = true,
            Tense::Past => past_seen = true,
        }
        if present_seen && past_seen {
            return;
        }
    }
    panic!("500 draws produced only one of the two tenses");
}
