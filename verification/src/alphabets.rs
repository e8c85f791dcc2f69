//! Per-alphabet allow/disallow/unset flags for the text endpoint.
//!
//! Seven alphabets are recognized, each tracked by a tri-state flag: never
//! mentioned, explicitly allowed, or explicitly disallowed. Batch operations
//! are all-or-nothing: a call that names an unknown alphabet, or that would
//! leave every alphabet disallowed, changes nothing.

use crate::json::{JVal, JsonValue};
use crate::strutil::str_eq;
use vstd::prelude::*;
use vstd::string::StringExecFns;

verus! {

broadcast use vstd::string::group_string_axioms;

/// The tri-state of one alphabet: never mentioned, explicitly allowed, or
/// explicitly disallowed. Unset serializes as an explicit null, which the
/// service reads as "never mentioned", distinct from "explicitly false".
#[derive(Debug, Clone, Copy, PartialEq, Eq, Structural)]
pub enum AlphabetFlag {
    Unset,
    Allowed,
    Disallowed,
}

/// The seven alphabet codes the service recognizes:
/// en, hi, zh, ja, ko, ru, th.
#[derive(Debug, Clone, Copy, PartialEq, Eq, Structural)]
pub enum Alphabet {
    En,
    Hi,
    Zh,
    Ja,
    Ko,
    Ru,
    Th,
}

/// The code string of an alphabet.
pub open spec fn alphabet_code(a: Alphabet) -> Seq<char> {
    match a {
        Alphabet::En => "en"@,
        Alphabet::Hi => "hi"@,
        Alphabet::Zh => "zh"@,
        Alphabet::Ja => "ja"@,
        Alphabet::Ko => "ko"@,
        Alphabet::Ru => "ru"@,
        Alphabet::Th => "th"@,
    }
}

/// The alphabet a plain code string names, if any.
pub open spec fn plain_alphabet(s: Seq<char>) -> Option<Alphabet> {
    if s == "en"@ {
        Some(Alphabet::En)
    } else if s == "hi"@ {
        Some(Alphabet::Hi)
    } else if s == "zh"@ {
        Some(Alphabet::Zh)
    } else if s == "ja"@ {
        Some(Alphabet::Ja)
    } else if s == "ko"@ {
        Some(Alphabet::Ko)
    } else if s == "ru"@ {
        Some(Alphabet::Ru)
    } else if s == "th"@ {
        Some(Alphabet::Th)
    } else {
        None
    }
}

/// Parses a plain alphabet code.
pub fn parse_plain_alphabet(s: &String) -> (r: Option<Alphabet>)
    ensures
        r == plain_alphabet(s@),
{
    if str_eq(s, "en") {
        Some(Alphabet::En)
    } else if str_eq(s, "hi") {
        Some(Alphabet::Hi)
    } else if str_eq(s, "zh") {
        Some(Alphabet::Zh)
    } else if str_eq(s, "ja") {
        Some(Alphabet::Ja)
    } else if str_eq(s, "ko") {
        Some(Alphabet::Ko)
    } else if str_eq(s, "ru") {
        Some(Alphabet::Ru)
    } else if str_eq(s, "th") {
        Some(Alphabet::Th)
    } else {
        None
    }
}

/// One tri-state flag per recognized alphabet.
#[derive(Debug, Clone, Copy, PartialEq, Eq, Structural)]
pub struct AlphabetsAllowed {
    /// English
    pub en: AlphabetFlag,
    /// Hindi Devanagari
    pub hi: AlphabetFlag,
    /// Chinese
    pub zh: AlphabetFlag,
    /// Kana Hiragana or Katakana
    pub ja: AlphabetFlag,
    /// Hangul Jamo
    pub ko: AlphabetFlag,
    /// Russian
    pub ru: AlphabetFlag,
    /// Thai
    pub th: AlphabetFlag,
}

impl AlphabetsAllowed {
    /// The flag of one alphabet.
    pub open spec fn flag_of(self, a: Alphabet) -> AlphabetFlag {
        match a {
            Alphabet::En => self.en,
            Alphabet::Hi => self.hi,
            Alphabet::Zh => self.zh,
            Alphabet::Ja => self.ja,
            Alphabet::Ko => self.ko,
            Alphabet::Ru => self.ru,
            Alphabet::Th => self.th,
        }
    }

    /// This value with one alphabet's flag replaced.
    pub open spec fn with_flag(self, a: Alphabet, f: AlphabetFlag) -> AlphabetsAllowed {
        match a {
            Alphabet::En => AlphabetsAllowed { en: f, ..self },
            Alphabet::Hi => AlphabetsAllowed { hi: f, ..self },
            Alphabet::Zh => AlphabetsAllowed { zh: f, ..self },
            Alphabet::Ja => AlphabetsAllowed { ja: f, ..self },
            Alphabet::Ko => AlphabetsAllowed { ko: f, ..self },
            Alphabet::Ru => AlphabetsAllowed { ru: f, ..self },
            Alphabet::Th => AlphabetsAllowed { th: f, ..self },
        }
    }

    /// Every alphabet unset: the state of a fresh value.
    pub open spec fn spec_unset() -> AlphabetsAllowed {
        AlphabetsAllowed {
            en: AlphabetFlag::Unset,
            hi: AlphabetFlag::Unset,
            zh: AlphabetFlag::Unset,
            ja: AlphabetFlag::Unset,
            ko: AlphabetFlag::Unset,
            ru: AlphabetFlag::Unset,
            th: AlphabetFlag::Unset,
        }
    }

    /// Every alphabet explicitly disallowed: the degenerate state no call is
    /// allowed to produce.
    pub open spec fn all_disallowed(self) -> bool {
        &&& self.en is Disallowed
        &&& self.hi is Disallowed
        &&& self.zh is Disallowed
        &&& self.ja is Disallowed
        &&& self.ko is Disallowed
        &&& self.ru is Disallowed
        &&& self.th is Disallowed
    }

    /// A fresh value with every alphabet unset.
    pub fn new() -> (r: AlphabetsAllowed)
        ensures
            r == Self::spec_unset(),
    {
        AlphabetsAllowed {
            en: AlphabetFlag::Unset,
            hi: AlphabetFlag::Unset,
            zh: AlphabetFlag::Unset,
            ja: AlphabetFlag::Unset,
            ko: AlphabetFlag::Unset,
            ru: AlphabetFlag::Unset,
            th: AlphabetFlag::Unset,
        }
    }

    /// Sets every listed alphabet to Allowed. All-or-nothing: an unknown
    /// code string fails the whole call and changes nothing. Listing only
    /// known codes always succeeds.
    pub fn allow(&mut self, alphabets: Vec<String>) -> (r: Result<(), String>)
        ensures
            match r {
                Ok(_) => all_codes_known(alphabets.deep_view()) && *final(self) == apply_flags(
                    *old(self),
                    alphabets.deep_view(),
                    AlphabetFlag::Allowed,
                ),
                Err(e) => {
                    &&& *final(self) == *old(self)
                    &&& find_unknown(alphabets.deep_view()) is Some
                    &&& e@ == unknown_alphabet_msg(find_unknown(alphabets.deep_view())->0)
                },
            },
    {
        let mut updated = *self;
        let r = apply_to(&mut updated, &alphabets, AlphabetFlag::Allowed);
        match r {
            Ok(_) => {
                *self = updated;
                Ok(())
            },
            Err(e) => Err(e),
        }
    }

    /// Sets every listed alphabet to Disallowed. All-or-nothing: an unknown
    /// code string fails the whole call, and so does a call that would leave
    /// every alphabet disallowed; either way nothing changes. A call whose
    /// codes are all known and whose outcome leaves some alphabet allowed or
    /// unset always succeeds.
    pub fn disallow(&mut self, alphabets: Vec<String>) -> (r: Result<(), String>)
        ensures
            match r {
                Ok(_) => {
                    &&& all_codes_known(alphabets.deep_view())
                    &&& *final(self) == apply_flags(
                        *old(self),
                        alphabets.deep_view(),
                        AlphabetFlag::Disallowed,
                    )
                    &&& !final(self).all_disallowed()
                },
                Err(e) => {
                    &&& *final(self) == *old(self)
                    &&& {
                        ||| {
                            &&& find_unknown(alphabets.deep_view()) is Some
                            &&& e@ == unknown_alphabet_msg(find_unknown(alphabets.deep_view())->0)
                        }
                        ||| {
                            &&& all_codes_known(alphabets.deep_view())
                            &&& apply_flags(
                                *old(self),
                                alphabets.deep_view(),
                                AlphabetFlag::Disallowed,
                            ).all_disallowed()
                            &&& e@ == no_alphabets_allowed_msg()
                        }
                    }
                },
            },
    {
        let mut updated = *self;
        let r = apply_to(&mut updated, &alphabets, AlphabetFlag::Disallowed);
        match r {
            Ok(_) => {
                if updated.en.is_disallowed() && updated.hi.is_disallowed()
                    && updated.zh.is_disallowed() && updated.ja.is_disallowed()
                    && updated.ko.is_disallowed() && updated.ru.is_disallowed()
                    && updated.th.is_disallowed() {
                    return Err("NoAlphabetsAllowed: There should be atleast one alphabet allowed.".to_owned());
                }
                *self = updated;
                Ok(())
            },
            Err(e) => Err(e),
        }
    }

    /// The serialized form: one field per alphabet in a fixed key order,
    /// true for Allowed, false for Disallowed, null for Unset.
    pub open spec fn json_model(self) -> JVal {
        JVal::Obj(
            seq![
                ("en"@, flag_model(self.en)),
                ("hi"@, flag_model(self.hi)),
                ("zh"@, flag_model(self.zh)),
                ("ja"@, flag_model(self.ja)),
                ("ko"@, flag_model(self.ko)),
                ("ru"@, flag_model(self.ru)),
                ("th"@, flag_model(self.th)),
            ],
        )
    }

    /// Serializes the flags as a JSON object.
    pub fn to_json(&self) -> (r: JsonValue)
        ensures
            r@ == self.json_model(),
    {
        let mut fields: Vec<(String, JsonValue)> = Vec::new();
        fields.push(("en".to_owned(), flag_json(&self.en)));
        fields.push(("hi".to_owned(), flag_json(&self.hi)));
        fields.push(("zh".to_owned(), flag_json(&self.zh)));
        fields.push(("ja".to_owned(), flag_json(&self.ja)));
        fields.push(("ko".to_owned(), flag_json(&self.ko)));
        fields.push(("ru".to_owned(), flag_json(&self.ru)));
        fields.push(("th".to_owned(), flag_json(&self.th)));
        let r = JsonValue::Obj(fields);
        proof {
            crate::json::lemma_obj_view_pointwise(r->Obj_0@);
            assert(r@->Obj_0 =~~= self.json_model()->Obj_0);
        }
        r
    }
}

impl Default for AlphabetsAllowed {
    /// A fresh value with every alphabet unset.
    fn default() -> (r: Self)
        ensures
            r == Self::spec_unset(),
    {
        Self::new()
    }
}

impl AlphabetFlag {
    /// Whether the flag is Disallowed.
    pub fn is_disallowed(&self) -> (r: bool)
        ensures
            r == (*self is Disallowed),
    {
        match self {
            AlphabetFlag::Disallowed => true,
            _ => false,
        }
    }
}

/// The serialized form of one flag: true, false, or null.
pub open spec fn flag_model(f: AlphabetFlag) -> JVal {
    match f {
        AlphabetFlag::Unset => JVal::Null,
        AlphabetFlag::Allowed => JVal::Bool(true),
        AlphabetFlag::Disallowed => JVal::Bool(false),
    }
}

/// Serializes one flag.
pub fn flag_json(f: &AlphabetFlag) -> (r: JsonValue)
    ensures
        r@ == flag_model(*f),
{
    match f {
        AlphabetFlag::Unset => JsonValue::Null,
        AlphabetFlag::Allowed => JsonValue::Bool(true),
        AlphabetFlag::Disallowed => JsonValue::Bool(false),
    }
}

/// Every code string in the list names a recognized alphabet.
pub open spec fn all_codes_known(codes: Seq<Seq<char>>) -> bool {
    forall|i: int| 0 <= i < codes.len() ==> plain_alphabet(#[trigger] codes[i]) is Some
}

/// The first code string that names no recognized alphabet, if any.
pub open spec fn find_unknown(codes: Seq<Seq<char>>) -> Option<Seq<char>>
    decreases codes.len(),
{
    if codes.len() == 0 {
        None
    } else if plain_alphabet(codes.first()) is None {
        Some(codes.first())
    } else {
        find_unknown(codes.drop_first())
    }
}

/// The state after setting each listed alphabet, in list order, to f.
/// A code string naming no alphabet changes nothing.
pub open spec fn apply_flags(
    a: AlphabetsAllowed,
    codes: Seq<Seq<char>>,
    f: AlphabetFlag,
) -> AlphabetsAllowed
    decreases codes.len(),
{
    if codes.len() == 0 {
        a
    } else {
        let prev = apply_flags(a, codes.drop_last(), f);
        match plain_alphabet(codes.last()) {
            Some(al) => prev.with_flag(al, f),
            None => prev,
        }
    }
}

/// The message a call returns for an unknown alphabet code.
pub open spec fn unknown_alphabet_msg(code: Seq<char>) -> Seq<char> {
    "UnknownAlphabet: "@ + code + " is not in known alphabets (en, hi, zh, ja, ko, ru, th)"@
}

/// The message a call returns when it would leave every alphabet disallowed.
pub open spec fn no_alphabets_allowed_msg() -> Seq<char> {
    "NoAlphabetsAllowed: There should be atleast one alphabet allowed."@
}

/// There is an unknown code exactly when not all codes are known, and the
/// first unknown one is the first whose parse fails.
proof fn lemma_find_unknown(codes: Seq<Seq<char>>)
    ensures
        find_unknown(codes) is None <==> all_codes_known(codes),
        find_unknown(codes) is Some ==> {
            exists|i: int|
                {
                    &&& 0 <= i < codes.len()
                    &&& plain_alphabet(#[trigger] codes[i]) is None
                    &&& find_unknown(codes) == Some(codes[i])
                    &&& forall|k: int| 0 <= k < i ==> plain_alphabet(#[trigger] codes[k]) is Some
                }
        },
    decreases codes.len(),
{
    if codes.len() > 0 && plain_alphabet(codes.first()) is Some {
        lemma_find_unknown(codes.drop_first());
        if find_unknown(codes.drop_first()) is Some {
            let j = choose|j: int|
                {
                    &&& 0 <= j < codes.drop_first().len()
                    &&& plain_alphabet(#[trigger] codes.drop_first()[j]) is None
                    &&& find_unknown(codes.drop_first()) == Some(codes.drop_first()[j])
                    &&& forall|k: int|
                        0 <= k < j ==> plain_alphabet(#[trigger] codes.drop_first()[k]) is Some
                };
            assert(codes[j + 1] == codes.drop_first()[j]);
            assert(forall|k: int|
                0 <= k < j + 1 ==> plain_alphabet(#[trigger] codes[k]) is Some) by {
                assert(forall|k: int|
                    1 <= k < j + 1 ==> codes[k] == codes.drop_first()[k - 1]);
            }
        } else {
            assert(forall|i: int|
                0 <= i < codes.len() ==> plain_alphabet(#[trigger] codes[i]) is Some) by {
                assert(forall|i: int| 1 <= i < codes.len() ==> codes[i] == codes.drop_first()[i - 1]);
            }
        }
    }
}

/// Sets each listed alphabet in target to f, stopping at the first unknown
/// code. The caller commits the result only on success.
fn apply_to(target: &mut AlphabetsAllowed, alphabets: &Vec<String>, f: AlphabetFlag) -> (r: Result<
    (),
    String,
>)
    ensures
        match r {
            Ok(_) => all_codes_known(alphabets.deep_view()) && *final(target) == apply_flags(
                *old(target),
                alphabets.deep_view(),
                f,
            ),
            Err(e) => {
                &&& find_unknown(alphabets.deep_view()) is Some
                &&& e@ == unknown_alphabet_msg(find_unknown(alphabets.deep_view())->0)
            },
        },
{
    let ghost codes = alphabets.deep_view();
    let mut i: usize = 0;
    while i < alphabets.len()
        invariant
            i <= alphabets.len(),
            codes == alphabets.deep_view(),
            codes.len() == alphabets.len(),
            forall|k: int| 0 <= k < i ==> plain_alphabet(#[trigger] codes[k]) is Some,
            *target == apply_flags(*old(target), codes.take(i as int), f),
        decreases alphabets.len() - i,
    {
        match parse_plain_alphabet(&alphabets[i]) {
            Some(al) => {
                set_flag(target, al, f);
                proof {
                    assert(codes.take(i + 1).drop_last() =~= codes.take(i as int));
                    assert(codes.take(i + 1).last() == codes[i as int]);
                }
            },
            None => {
                proof {
                    lemma_find_unknown(codes);
                    assert(plain_alphabet(codes[i as int]) is None);
                    assert(find_unknown(codes) == Some(codes[i as int])) by {
                        if find_unknown(codes) is None {
                            assert(plain_alphabet(codes[i as int]) is Some);
                        } else {
                            let j = choose|j: int|
                                {
                                    &&& 0 <= j < codes.len()
                                    &&& plain_alphabet(#[trigger] codes[j]) is None
                                    &&& find_unknown(codes) == Some(codes[j])
                                    &&& forall|k: int|
                                        0 <= k < j ==> plain_alphabet(
                                            #[trigger] codes[k],
                                        ) is Some
                                };
                            if j < i {
                                assert(plain_alphabet(codes[j]) is Some);
                            } else if j > i {
                                assert(plain_alphabet(codes[i as int]) is Some);
                            }
                        }
                    }
                }
                let mut msg: String = "UnknownAlphabet: ".to_owned();
                msg.append(alphabets[i].as_str());
                msg.append(" is not in known alphabets (en, hi, zh, ja, ko, ru, th)");
                return Err(msg);
            },
        }
        i += 1;
    }
    proof {
        assert(codes.take(codes.len() as int) =~= codes);
    }
    Ok(())
}

/// Replaces one alphabet's flag.
fn set_flag(target: &mut AlphabetsAllowed, a: Alphabet, f: AlphabetFlag)
    ensures
        *final(target) == old(target).with_flag(a, f),
{
    match a {
        Alphabet::En => target.en = f,
        Alphabet::Hi => target.hi = f,
        Alphabet::Zh => target.zh = f,
        Alphabet::Ja => target.ja = f,
        Alphabet::Ko => target.ko = f,
        Alphabet::Ru => target.ru = f,
        Alphabet::Th => target.th = f,
    }
}

/// Setting the listed alphabets to f leaves exactly those flags at f and
/// every other alphabet's flag unchanged.
pub proof fn lemma_apply_flags_pointwise(
    a: AlphabetsAllowed,
    codes: Seq<Seq<char>>,
    f: AlphabetFlag,
    x: Alphabet,
)
    ensures
        apply_flags(a, codes, f).flag_of(x) == if codes.contains(alphabet_code(x)) {
            f
        } else {
            a.flag_of(x)
        },
    decreases codes.len(),
{
    if codes.len() > 0 {
        lemma_apply_flags_pointwise(a, codes.drop_last(), f, x);
        lemma_plain_alphabet_inverse(codes.last());
        lemma_alphabet_code_parses(x);
        let prev = apply_flags(a, codes.drop_last(), f);
        if codes.contains(alphabet_code(x)) {
            if codes.last() == alphabet_code(x) {
                assert(plain_alphabet(codes.last()) == Some(x));
                assert(apply_flags(a, codes, f) == prev.with_flag(x, f));
                assert(apply_flags(a, codes, f).flag_of(x) == f);
            } else {
                let i = choose|i: int| 0 <= i < codes.len() && codes[i] == alphabet_code(x);
                assert(codes.drop_last()[i] == alphabet_code(x));
                assert(codes.drop_last().contains(alphabet_code(x)));
                assert(prev.flag_of(x) == f);
                match plain_alphabet(codes.last()) {
                    Some(al) => {
                        assert(al != x);
                        assert(apply_flags(a, codes, f).flag_of(x) == prev.flag_of(x));
                    },
                    None => {},
                }
            }
        } else {
            assert(forall|i: int|
                0 <= i < codes.drop_last().len() ==> codes.drop_last()[i] == #[trigger] codes[i]);
            assert(!codes.drop_last().contains(alphabet_code(x)));
            match plain_alphabet(codes.last()) {
                Some(al) => {
                    assert(codes.last() == alphabet_code(al));
                    assert(al != x) by {
                        if al == x {
                            assert(codes.contains(alphabet_code(x)));
                        }
                    }
                    assert(apply_flags(a, codes, f).flag_of(x) == prev.flag_of(x));
                },
                None => {},
            }
        }
    }
}

/// A code string that parses to an alphabet is that alphabet's code.
proof fn lemma_plain_alphabet_inverse(s: Seq<char>)
    ensures
        plain_alphabet(s) is Some ==> alphabet_code(plain_alphabet(s)->0) == s,
{
}

/// Each alphabet's own code parses back to that alphabet.
proof fn lemma_alphabet_code_parses(x: Alphabet)
    ensures
        plain_alphabet(alphabet_code(x)) == Some(x),
{
    reveal_strlit("en");
    reveal_strlit("hi");
    reveal_strlit("zh");
    reveal_strlit("ja");
    reveal_strlit("ko");
    reveal_strlit("ru");
    reveal_strlit("th");
    assert("en"@[0] == 'e');
    assert("hi"@[0] == 'h');
    assert("zh"@[0] == 'z');
    assert("ja"@[0] == 'j');
    assert("ko"@[0] == 'k');
    assert("ru"@[0] == 'r');
    assert("th"@[0] == 't');
    match x {
        Alphabet::En => assert(plain_alphabet(alphabet_code(x)) == Some(Alphabet::En)),
        Alphabet::Hi => assert(plain_alphabet(alphabet_code(x)) == Some(Alphabet::Hi)),
        Alphabet::Zh => assert(plain_alphabet(alphabet_code(x)) == Some(Alphabet::Zh)),
        Alphabet::Ja => assert(plain_alphabet(alphabet_code(x)) == Some(Alphabet::Ja)),
        Alphabet::Ko => assert(plain_alphabet(alphabet_code(x)) == Some(Alphabet::Ko)),
        Alphabet::Ru => assert(plain_alphabet(alphabet_code(x)) == Some(Alphabet::Ru)),
        Alphabet::Th => assert(plain_alphabet(alphabet_code(x)) == Some(Alphabet::Th)),
    }
}

/// Applying the same allow or disallow list twice gives the same flags as
/// applying it once.
pub proof fn lemma_apply_flags_idempotent(
    a: AlphabetsAllowed,
    codes: Seq<Seq<char>>,
    f: AlphabetFlag,
)
    ensures
        apply_flags(apply_flags(a, codes, f), codes, f) == apply_flags(a, codes, f),
{
    let once = apply_flags(a, codes, f);
    let twice = apply_flags(once, codes, f);
    assert forall|x: Alphabet| twice.flag_of(x) == once.flag_of(x) by {
        lemma_apply_flags_pointwise(a, codes, f, x);
        lemma_apply_flags_pointwise(once, codes, f, x);
    }
    assert(twice.flag_of(Alphabet::En) == once.flag_of(Alphabet::En));
    assert(twice.flag_of(Alphabet::Hi) == once.flag_of(Alphabet::Hi));
    assert(twice.flag_of(Alphabet::Zh) == once.flag_of(Alphabet::Zh));
    assert(twice.flag_of(Alphabet::Ja) == once.flag_of(Alphabet::Ja));
    assert(twice.flag_of(Alphabet::Ko) == once.flag_of(Alphabet::Ko));
    assert(twice.flag_of(Alphabet::Ru) == once.flag_of(Alphabet::Ru));
    assert(twice.flag_of(Alphabet::Th) == once.flag_of(Alphabet::Th));
}


/// One parsed alphabet token of a combined call: set one alphabet's flag,
/// or allow every alphabet at once.
#[derive(Debug, Clone, Copy, PartialEq, Eq, Structural)]
pub enum AlphaToken {
    SetOne(Alphabet, bool),
    All,
}

/// The `!`-negated form of an alphabet's code.
pub open spec fn excl_code(a: Alphabet) -> Seq<char> {
    match a {
        Alphabet::En => "!en"@,
        Alphabet::Hi => "!hi"@,
        Alphabet::Zh => "!zh"@,
        Alphabet::Ja => "!ja"@,
        Alphabet::Ko => "!ko"@,
        Alphabet::Ru => "!ru"@,
        Alphabet::Th => "!th"@,
    }
}

/// The `no`-negated form of an alphabet's code.
pub open spec fn no_code(a: Alphabet) -> Seq<char> {
    match a {
        Alphabet::En => "noen"@,
        Alphabet::Hi => "nohi"@,
        Alphabet::Zh => "nozh"@,
        Alphabet::Ja => "noja"@,
        Alphabet::Ko => "noko"@,
        Alphabet::Ru => "noru"@,
        Alphabet::Th => "noth"@,
    }
}

/// Renders the `!`-negated form of an alphabet's code.
pub fn excl_lit(a: Alphabet) -> (r: &'static str)
    ensures
        r@ == excl_code(a),
{
    match a {
        Alphabet::En => "!en",
        Alphabet::Hi => "!hi",
        Alphabet::Zh => "!zh",
        Alphabet::Ja => "!ja",
        Alphabet::Ko => "!ko",
        Alphabet::Ru => "!ru",
        Alphabet::Th => "!th",
    }
}

/// Renders the `no`-negated form of an alphabet's code.
pub fn no_lit(a: Alphabet) -> (r: &'static str)
    ensures
        r@ == no_code(a),
{
    match a {
        Alphabet::En => "noen",
        Alphabet::Hi => "nohi",
        Alphabet::Zh => "nozh",
        Alphabet::Ja => "noja",
        Alphabet::Ko => "noko",
        Alphabet::Ru => "noru",
        Alphabet::Th => "noth",
    }
}

/// What an alphabet token of a combined call requests, if it is one: a
/// plain code allows that alphabet, a negated code (`no` or `!` prefix)
/// disallows it, and `all` allows every alphabet.
pub open spec fn alpha_token_of(s: Seq<char>) -> Option<AlphaToken> {
    if s == "all"@ {
        Some(AlphaToken::All)
    } else if plain_alphabet(s) is Some {
        Some(AlphaToken::SetOne(plain_alphabet(s)->0, true))
    } else if s == "noen"@ || s == "!en"@ {
        Some(AlphaToken::SetOne(Alphabet::En, false))
    } else if s == "nohi"@ || s == "!hi"@ {
        Some(AlphaToken::SetOne(Alphabet::Hi, false))
    } else if s == "nozh"@ || s == "!zh"@ {
        Some(AlphaToken::SetOne(Alphabet::Zh, false))
    } else if s == "noja"@ || s == "!ja"@ {
        Some(AlphaToken::SetOne(Alphabet::Ja, false))
    } else if s == "noko"@ || s == "!ko"@ {
        Some(AlphaToken::SetOne(Alphabet::Ko, false))
    } else if s == "noru"@ || s == "!ru"@ {
        Some(AlphaToken::SetOne(Alphabet::Ru, false))
    } else if s == "noth"@ || s == "!th"@ {
        Some(AlphaToken::SetOne(Alphabet::Th, false))
    } else {
        None
    }
}

/// Parses one alphabet token of a combined call.
pub fn parse_alpha_token(s: &String) -> (r: Option<AlphaToken>)
    ensures
        r == alpha_token_of(s@),
{
    if str_eq(s, "all") {
        Some(AlphaToken::All)
    } else {
        match parse_plain_alphabet(s) {
            Some(a) => Some(AlphaToken::SetOne(a, true)),
            None => {
                if str_eq(s, "noen") || str_eq(s, "!en") {
                    Some(AlphaToken::SetOne(Alphabet::En, false))
                } else if str_eq(s, "nohi") || str_eq(s, "!hi") {
                    Some(AlphaToken::SetOne(Alphabet::Hi, false))
                } else if str_eq(s, "nozh") || str_eq(s, "!zh") {
                    Some(AlphaToken::SetOne(Alphabet::Zh, false))
                } else if str_eq(s, "noja") || str_eq(s, "!ja") {
                    Some(AlphaToken::SetOne(Alphabet::Ja, false))
                } else if str_eq(s, "noko") || str_eq(s, "!ko") {
                    Some(AlphaToken::SetOne(Alphabet::Ko, false))
                } else if str_eq(s, "noru") || str_eq(s, "!ru") {
                    Some(AlphaToken::SetOne(Alphabet::Ru, false))
                } else if str_eq(s, "noth") || str_eq(s, "!th") {
                    Some(AlphaToken::SetOne(Alphabet::Th, false))
                } else {
                    None
                }
            },
        }
    }
}

/// Every alphabet explicitly allowed: what the `all` token produces.
pub open spec fn spec_all_allowed() -> AlphabetsAllowed {
    AlphabetsAllowed {
        en: AlphabetFlag::Allowed,
        hi: AlphabetFlag::Allowed,
        zh: AlphabetFlag::Allowed,
        ja: AlphabetFlag::Allowed,
        ko: AlphabetFlag::Allowed,
        ru: AlphabetFlag::Allowed,
        th: AlphabetFlag::Allowed,
    }
}

/// Every token of the list is an alphabet token.
pub open spec fn all_alpha_known(tokens: Seq<Seq<char>>) -> bool {
    forall|i: int| 0 <= i < tokens.len() ==> alpha_token_of(#[trigger] tokens[i]) is Some
}

/// The first token that is no alphabet token, if any.
pub open spec fn find_unknown_alpha(tokens: Seq<Seq<char>>) -> Option<Seq<char>>
    decreases tokens.len(),
{
    if tokens.len() == 0 {
        None
    } else if alpha_token_of(tokens.first()) is None {
        Some(tokens.first())
    } else {
        find_unknown_alpha(tokens.drop_first())
    }
}

/// The flags after applying each token in order; an unrecognized token
/// changes nothing.
pub open spec fn apply_alpha_tokens(a: AlphabetsAllowed, tokens: Seq<Seq<char>>) -> AlphabetsAllowed
    decreases tokens.len(),
{
    if tokens.len() == 0 {
        a
    } else {
        let prev = apply_alpha_tokens(a, tokens.drop_last());
        match alpha_token_of(tokens.last()) {
            Some(AlphaToken::SetOne(x, v)) => prev.with_flag(
                x,
                if v {
                    AlphabetFlag::Allowed
                } else {
                    AlphabetFlag::Disallowed
                },
            ),
            Some(AlphaToken::All) => spec_all_allowed(),
            None => prev,
        }
    }
}

/// Whether the token at position i is a plain code whose negation also
/// occurs somewhere in the list.
pub open spec fn is_conflict_at(tokens: Seq<Seq<char>>, i: int) -> bool {
    match plain_alphabet(tokens[i]) {
        Some(a) => tokens.contains(excl_code(a)) || tokens.contains(no_code(a)),
        None => false,
    }
}

/// The first conflicting pair, scanning from position i: the plain code
/// and its negated form, the `!` form preferred.
pub open spec fn find_conflict_from(tokens: Seq<Seq<char>>, i: int) -> Option<
    (Seq<char>, Seq<char>),
>
    decreases tokens.len() - i,
{
    if i < 0 || i >= tokens.len() {
        None
    } else if is_conflict_at(tokens, i) {
        let a = plain_alphabet(tokens[i])->0;
        Some(
            (
                tokens[i],
                if tokens.contains(excl_code(a)) {
                    excl_code(a)
                } else {
                    no_code(a)
                },
            ),
        )
    } else {
        find_conflict_from(tokens, i + 1)
    }
}

/// The first pair of one call's tokens that requests the same alphabet
/// both allowed and disallowed, if any.
pub open spec fn find_conflict(tokens: Seq<Seq<char>>) -> Option<(Seq<char>, Seq<char>)> {
    find_conflict_from(tokens, 0)
}

/// Finds the first conflicting pair of the list.
pub fn scan_conflict(alphabets: &Vec<String>) -> (r: Option<(String, String)>)
    ensures
        match r {
            Some(pair) => find_conflict(alphabets.deep_view()) == Some((pair.0@, pair.1@)),
            None => find_conflict(alphabets.deep_view()) is None,
        },
{
    let ghost tokens = alphabets.deep_view();
    let mut i: usize = 0;
    while i < alphabets.len()
        invariant
            i <= alphabets.len(),
            tokens == alphabets.deep_view(),
            tokens.len() == alphabets.len(),
            find_conflict(tokens) == find_conflict_from(tokens, i as int),
        decreases alphabets.len() - i,
    {
        match parse_plain_alphabet(&alphabets[i]) {
            Some(a) => {
                if crate::strutil::contains_str(alphabets, excl_lit(a)) {
                    return Some((alphabets[i].clone(), excl_lit(a).to_owned()));
                }
                if crate::strutil::contains_str(alphabets, no_lit(a)) {
                    return Some((alphabets[i].clone(), no_lit(a).to_owned()));
                }
            },
            None => {},
        }
        i += 1;
    }
    None
}


/// A conflict at some position is found by the scan from any position at
/// or before it.
proof fn lemma_conflict_from_some(tokens: Seq<Seq<char>>, j: int, i: int)
    requires
        0 <= j <= i < tokens.len(),
        is_conflict_at(tokens, i),
    ensures
        find_conflict_from(tokens, j) is Some,
    decreases i - j,
{
    if j < i && !is_conflict_at(tokens, j) {
        lemma_conflict_from_some(tokens, j + 1, i);
    }
}

/// Every token list that requests the same alphabet both allowed (its
/// plain code) and disallowed (a negated form) is detected as a
/// contradiction: the conflict scan finds a pair, so a combined call with
/// such a list is rejected and changes nothing.
pub proof fn lemma_conflicting_call_detected(tokens: Seq<Seq<char>>, a: Alphabet)
    requires
        tokens.contains(alphabet_code(a)),
        tokens.contains(excl_code(a)) || tokens.contains(no_code(a)),
    ensures
        find_conflict(tokens) is Some,
{
    let i = choose|i: int| 0 <= i < tokens.len() && tokens[i] == alphabet_code(a);
    lemma_alphabet_code_parses(a);
    assert(is_conflict_at(tokens, i));
    lemma_conflict_from_some(tokens, 0, i);
}

/// The flag the last token naming an alphabet requests for it, if any
/// token (including `all`) touches it.
pub open spec fn last_alpha_effect(tokens: Seq<Seq<char>>, x: Alphabet) -> Option<AlphabetFlag>
    decreases tokens.len(),
{
    if tokens.len() == 0 {
        None
    } else {
        match alpha_token_of(tokens.last()) {
            Some(AlphaToken::SetOne(y, v)) => if y == x {
                Some(
                    if v {
                        AlphabetFlag::Allowed
                    } else {
                        AlphabetFlag::Disallowed
                    },
                )
            } else {
                last_alpha_effect(tokens.drop_last(), x)
            },
            Some(AlphaToken::All) => Some(AlphabetFlag::Allowed),
            None => last_alpha_effect(tokens.drop_last(), x),
        }
    }
}

/// Applying alphabet tokens leaves each flag at the last value requested
/// for its alphabet, and untouched if no token names it.
pub proof fn lemma_apply_alpha_tokens_pointwise(
    a: AlphabetsAllowed,
    tokens: Seq<Seq<char>>,
    x: Alphabet,
)
    ensures
        apply_alpha_tokens(a, tokens).flag_of(x) == match last_alpha_effect(tokens, x) {
            Some(v) => v,
            None => a.flag_of(x),
        },
    decreases tokens.len(),
{
    if tokens.len() > 0 {
        lemma_apply_alpha_tokens_pointwise(a, tokens.drop_last(), x);
    }
}

/// Applying the same alphabet token list twice leaves exactly the flags
/// one application leaves.
pub proof fn lemma_apply_alpha_tokens_idempotent(a: AlphabetsAllowed, tokens: Seq<Seq<char>>)
    ensures
        apply_alpha_tokens(apply_alpha_tokens(a, tokens), tokens) == apply_alpha_tokens(a, tokens),
{
    let once = apply_alpha_tokens(a, tokens);
    let twice = apply_alpha_tokens(once, tokens);
    assert forall|x: Alphabet| twice.flag_of(x) == once.flag_of(x) by {
        lemma_apply_alpha_tokens_pointwise(a, tokens, x);
        lemma_apply_alpha_tokens_pointwise(once, tokens, x);
    }
    assert(twice.flag_of(Alphabet::En) == once.flag_of(Alphabet::En));
    assert(twice.flag_of(Alphabet::Hi) == once.flag_of(Alphabet::Hi));
    assert(twice.flag_of(Alphabet::Zh) == once.flag_of(Alphabet::Zh));
    assert(twice.flag_of(Alphabet::Ja) == once.flag_of(Alphabet::Ja));
    assert(twice.flag_of(Alphabet::Ko) == once.flag_of(Alphabet::Ko));
    assert(twice.flag_of(Alphabet::Ru) == once.flag_of(Alphabet::Ru));
    assert(twice.flag_of(Alphabet::Th) == once.flag_of(Alphabet::Th));
}
} // verus!
