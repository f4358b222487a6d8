use vstd::prelude::*;

use crate::grammar::{Audience, Form, Mode, Polarity, Tense};

verus! {

/// All sixteen forms: the Cartesian product of the four axes, with tense
/// varying slowest and mode fastest, each axis in its stable order.
pub open spec fn spec_all_forms() -> Seq<Form> {
    seq![
        Form {
            tense: Tense::Present,
            audience: Audience::Plain,
            polarity: Polarity::Affirmative,
            mode: Mode::Immediate,
        },
        Form {
            tense: Tense::Present,
            audience: Audience::Plain,
            polarity: Polarity::Affirmative,
            mode: Mode::Potential,
        },
        Form {
            tense: Tense::Present,
            audience: Audience::Plain,
            polarity: Polarity::Negative,
            mode: Mode::Immediate,
        },
        Form {
            tense: Tense::Present,
            audience: Audience::Plain,
            polarity: Polarity::Negative,
            mode: Mode::Potential,
        },
        Form {
            tense: Tense::Present,
            audience: Audience::Polite,
            polarity: Polarity::Affirmative,
            mode: Mode::Immediate,
        },
        Form {
            tense: Tense::Present,
            audience: Audience::Polite,
            polarity: Polarity::Affirmative,
            mode: Mode::Potential,
        },
        Form {
            tense: Tense::Present,
            audience: Audience::Polite,
            polarity: Polarity::Negative,
            mode: Mode::Immediate,
        },
        Form {
            tense: Tense::Present,
            audience: Audience::Polite,
            polarity: Polarity::Negative,
            mode: Mode::Potential,
        },
        Form {
            tense: Tense::Past,
            audience: Audience::Plain,
            polarity: Polarity::Affirmative,
            mode: Mode::Immediate,
        },
        Form {
            tense: Tense::Past,
            audience: Audience::Plain,
            polarity: Polarity::Affirmative,
            mode: Mode::Potential,
        },
        Form {
            tense: Tense::Past,
            audience: Audience::Plain,
            polarity: Polarity::Negative,
            mode: Mode::Immediate,
        },
        Form {
            tense: Tense::Past,
            audience: Audience::Plain,
            polarity: Polarity::Negative,
            mode: Mode::Potential,
        },
        Form {
            tense: Tense::Past,
            audience: Audience::Polite,
            polarity: Polarity::Affirmative,
            mode: Mode::Immediate,
        },
        Form {
            tense: Tense::Past,
            audience: Audience::Polite,
            polarity: Polarity::Affirmative,
            mode: Mode::Potential,
        },
        Form {
            tense: Tense::Past,
            audience: Audience::Polite,
            polarity: Polarity::Negative,
            mode: Mode::Immediate,
        },
        Form {
            tense: Tense::Past,
            audience: Audience::Polite,
            polarity: Polarity::Negative,
            mode: Mode::Potential,
        },
    ]
}

/// The position a form takes in `spec_all_forms`.
spec fn form_index(f: Form) -> int {
    (match f.tense {
        Tense::Present => 0int,
        Tense::Past => 8int,
    }) + (match f.audience {
        Audience::Plain => 0int,
        Audience::Polite => 4int,
    }) + (match f.polarity {
        Polarity::Affirmative => 0int,
        Polarity::Negative => 2int,
    }) + (match f.mode {
        Mode::Immediate => 0int,
        Mode::Potential => 1int,
    })
}

/// The sixteen enumerated forms are exactly the product of the four
/// two-valued axes: every form occurs, and no two entries are equal.
pub proof fn lemma_forms_exhaustive_and_distinct()
    ensures
        spec_all_forms().len() == 16,
        forall|f: Form| spec_all_forms().contains(f),
        forall|m: int, n: int|
            0 <= m < n < spec_all_forms().len() ==> spec_all_forms()[m] != spec_all_forms()[n],
{
    assert forall|f: Form| spec_all_forms().contains(f) by {
        let k = form_index(f);
        assert(0 <= k < 16);
        assert(spec_all_forms()[k] == f);
    }
    assert forall|m: int, n: int|
        0 <= m < n < spec_all_forms().len() implies spec_all_forms()[m] != spec_all_forms()[n] by {
        assert(form_index(spec_all_forms()[m]) == m);
        assert(form_index(spec_all_forms()[n]) == n);
    }
}

/// Every combination of the four axes, in the stable enumeration order.
pub fn forms() -> (r: Vec<Form>)
    ensures
        r@ == spec_all_forms(),
{
    let mut all: Vec<Form> = Vec::new();
    let ts = tenses();
    let mut ti: usize = 0;
    while ti < ts.len()
        invariant
            ts@ == seq![Tense::Present, Tense::Past],
            ti <= 2,
            all@ == spec_all_forms().take(8 * ti),
        decreases ts@.len() - ti,
    {
        let aus = audiences();
        let mut ai: usize = 0;
        while ai < aus.len()
            invariant
                ts@ == seq![Tense::Present, Tense::Past],
                aus@ == seq![Audience::Plain, Audience::Polite],
                ti < 2,
                ai <= 2,
                all@ == spec_all_forms().take(8 * ti + 4 * ai),
            decreases aus@.len() - ai,
        {
            let ps = polarities();
            let mut pi: usize = 0;
            while pi < ps.len()
                invariant
                    ts@ == seq![Tense::Present, Tense::Past],
                    aus@ == seq![Audience::Plain, Audience::Polite],
                    ps@ == seq![Polarity::Affirmative, Polarity::Negative],
                    ti < 2,
                    ai < 2,
                    pi <= 2,
                    all@ == spec_all_forms().take(8 * ti + 4 * ai + 2 * pi),
                decreases ps@.len() - pi,
            {
                let ms = modes();
                let mut mi: usize = 0;
                while mi < ms.len()
                    invariant
                        ts@ == seq![Tense::Present, Tense::Past],
                        aus@ == seq![Audience::Plain, Audience::Polite],
                        ps@ == seq![Polarity::Affirmative, Polarity::Negative],
                        ms@ == seq![Mode::Immediate, Mode::Potential],
                        ti < 2,
                        ai < 2,
                        pi < 2,
                        mi <= 2,
                        all@ == spec_all_forms().take(8 * ti + 4 * ai + 2 * pi + mi),
                    decreases ms@.len() - mi,
                {
                    let f = Form {
                        tense: ts[ti],
                        audience: aus[ai],
                        polarity: ps[pi],
                        mode: ms[mi],
                    };
                    all.push(f);
                    proof {
                        let k = 8 * ti + 4 * ai + 2 * pi + mi;
                        assert(spec_all_forms()[k as int] == f);
                        assert(all@ =~= spec_all_forms().take(k + 1));
                    }
                    mi += 1;
                }
                pi += 1;
            }
            ai += 1;
        }
        ti += 1;
    }
    proof {
        assert(all@ =~= spec_all_forms());
    }
    all
}

/// The two tenses, present first.
pub fn tenses() -> (r: Vec<Tense>)
    ensures
        r@ == seq![Tense::Present, Tense::Past],
{
    let mut v: Vec<Tense> = Vec::new();
    v.push(Tense::Present);
    v.push(Tense::Past);
    proof {
        assert(v@ =~= seq![Tense::Present, Tense::Past]);
    }
    v
}

/// The two registers, plain first.
pub fn audiences() -> (r: Vec<Audience>)
    ensures
        r@ == seq![Audience::Plain, Audience::Polite],
{
    let mut v: Vec<Audience> = Vec::new();
    v.push(Audience::Plain);
    v.push(Audience::Polite);
    proof {
        assert(v@ =~= seq![Audience::Plain, Audience::Polite]);
    }
    v
}

/// The two polarities, affirmative first.
pub fn polarities() -> (r: Vec<Polarity>)
    ensures
        r@ == seq![Polarity::Affirmative, Polarity::Negative],
{
    let mut v: Vec<Polarity> = Vec::new();
    v.push(Polarity::Affirmative);
    v.push(Polarity::Negative);
    proof {
        assert(v@ =~= seq![Polarity::Affirmative, Polarity::Negative]);
    }
    v
}

/// The two modes, immediate first.
pub fn modes() -> (r: Vec<Mode>)
    ensures
        r@ == seq![Mode::Immediate, Mode::Potential],
{
    let mut v: Vec<Mode> = Vec::new();
    v.push(Mode::Immediate);
    v.push(Mode::Potential);
    proof {
        assert(v@ =~= seq![Mode::Immediate, Mode::Potential]);
    }
    v
}

} // verus!
