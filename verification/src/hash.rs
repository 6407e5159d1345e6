//! FNV-1a hashing and the hash-driven choice of an answer.
use vstd::prelude::*;
use vstd::string::StringSliceAdditionalSpecFns;
use vstd::utf8::encode_utf8;

verus! {

pub const FNV_OFFSET_BASIS: u64 = 0xcbf29ce484222325;

pub const FNV_PRIME: u64 = 0x100000001b3;

/// 64-bit FNV-1a over a byte string: xor in each byte, then multiply by the
/// prime, modulo 2^64.
pub open spec fn fnv1a(bytes: Seq<u8>) -> u64
    decreases bytes.len(),
{
    if bytes.len() == 0 {
        FNV_OFFSET_BASIS
    } else {
        (fnv1a(bytes.drop_last()) ^ (bytes.last() as u64)).wrapping_mul(FNV_PRIME)
    }
}

/// The FNV-1a hash of the UTF-8 bytes of `s`.
pub fn fnv1a_hash(s: &str) -> (r: usize)
    ensures
        r == fnv1a(encode_utf8(s@)) as usize,
{
    let bytes = s.as_bytes();
    let n = bytes.len();
    let mut h: u64 = FNV_OFFSET_BASIS;
    let mut i: usize = 0;
    while i < n
        invariant
            n == bytes@.len(),
            bytes@ == s.spec_bytes(),
            i <= n,
            h == fnv1a(bytes@.take(i as int)),
        decreases n - i,
    {
        let b = bytes[i];
        proof {
            assert(bytes@.take(i + 1).drop_last() =~= bytes@.take(i as int));
        }
        h = (h ^ (b as u64)).wrapping_mul(FNV_PRIME);
        i = i + 1;
    }
    assert(bytes@.take(n as int) =~= bytes@);
    h as usize
}

/// The index that the text `seed` picks among `len` items.
pub open spec fn choice_index(seed: Seq<char>, len: nat) -> int {
    (fnv1a(encode_utf8(seed)) as usize as nat % len) as int
}

/// Picks an item of a nonempty slice, the same one for the same seed.
pub fn choice<'a, T>(items: &'a [T], seed: &str) -> (r: &'a T)
    requires
        items@.len() > 0,
    ensures
        *r == items@[choice_index(seed@, items@.len())],
{
    let h = fnv1a_hash(seed);
    &items[h % items.len()]
}

/// The text of each answer the bot may give to a question.
pub open spec fn response_text(i: int) -> Seq<char> {
    if i == 0 {
        "Yes"@
    } else if i == 1 {
        "Maybe"@
    } else if i == 2 {
        "No"@
    } else if i == 3 {
        "You're dumb to ask that question"@
    } else if i == 4 {
        "I think you already know the answer"@
    } else if i == 5 {
        "`Error: Response Too Dumb`"@
    } else if i == 6 {
        "Yup"@
    } else if i == 7 {
        "Nay"@
    } else if i == 8 {
        "I feel hurt hearing that..."@
    } else if i == 9 {
        "Yes but actually no."@
    } else if i == 10 {
        "Why is that a question? The answer is obviously YES!"@
    } else if i == 11 {
        "...so you're a Rake of culture as well!"@
    } else if i == 12 {
        "POGGERS"@
    } else if i == 13 {
        "That made me want to eat some wasabi out of an ice cream cone."@
    } else if i == 14 {
        "That's some bold question you're asking."@
    } else if i == 15 {
        "Yesn't"@
    } else if i == 16 {
        "Will you be mad if I say no?"@
    } else if i == 17 {
        "It's a tough question... hmm... I'll say yes."@
    } else if i == 18 {
        "Definitely!"@
    } else {
        "Nahhh"@
    }
}

/// Number of answers the bot knows.
pub const RESPONSE_COUNT: usize = 20;

/// All answers, in order.
pub fn responses() -> (r: [&'static str; 20])
    ensures
        forall|i: int| 0 <= i < 20 ==> #[trigger] r@[i]@ == response_text(i),
{
    [
        "Yes",
        "Maybe",
        "No",
        "You're dumb to ask that question",
        "I think you already know the answer",
        "`Error: Response Too Dumb`",
        "Yup",
        "Nay",
        "I feel hurt hearing that...",
        "Yes but actually no.",
        "Why is that a question? The answer is obviously YES!",
        "...so you're a Rake of culture as well!",
        "POGGERS",
        "That made me want to eat some wasabi out of an ice cream cone.",
        "That's some bold question you're asking.",
        "Yesn't",
        "Will you be mad if I say no?",
        "It's a tough question... hmm... I'll say yes.",
        "Definitely!",
        "Nahhh",
    ]
}

/// The answer the bot gives to `question`: the one its hash picks.
pub fn answer(question: &str) -> (r: &'static str)
    ensures
        r@ == response_text(choice_index(question@, 20)),
{
    let all = responses();
    let r = choice(&all, question);
    *r
}

/// Every question is answered from the same twenty answers in the same order
/// ("Yes", "Maybe", "No", ..., "Nahhh"), the one at the question's FNV-1a hash
/// modulo 20.
pub proof fn lemma_answers_in_order(question: Seq<char>)
    ensures
        0 <= choice_index(question, 20) < 20,
        response_text(choice_index(question, 20)) == seq![
            "Yes"@,
            "Maybe"@,
            "No"@,
            "You're dumb to ask that question"@,
            "I think you already know the answer"@,
            "`Error: Response Too Dumb`"@,
            "Yup"@,
            "Nay"@,
            "I feel hurt hearing that..."@,
            "Yes but actually no."@,
            "Why is that a question? The answer is obviously YES!"@,
            "...so you're a Rake of culture as well!"@,
            "POGGERS"@,
            "That made me want to eat some wasabi out of an ice cream cone."@,
            "That's some bold question you're asking."@,
            "Yesn't"@,
            "Will you be mad if I say no?"@,
            "It's a tough question... hmm... I'll say yes."@,
            "Definitely!"@,
            "Nahhh"@,
        ][choice_index(question, 20)],
{
    let l = seq![
            "Yes"@,
            "Maybe"@,
            "No"@,
            "You're dumb to ask that question"@,
            "I think you already know the answer"@,
            "`Error: Response Too Dumb`"@,
            "Yup"@,
            "Nay"@,
            "I feel hurt hearing that..."@,
            "Yes but actually no."@,
            "Why is that a question? The answer is obviously YES!"@,
            "...so you're a Rake of culture as well!"@,
            "POGGERS"@,
            "That made me want to eat some wasabi out of an ice cream cone."@,
            "That's some bold question you're asking."@,
            "Yesn't"@,
            "Will you be mad if I say no?"@,
            "It's a tough question... hmm... I'll say yes."@,
            "Definitely!"@,
            "Nahhh"@,
        ];
    let i = choice_index(question, 20);
    if i == 0 {
            assert(l[0] == "Yes"@);
        } else if i == 1 {
            assert(l[1] == "Maybe"@);
        } else if i == 2 {
            assert(l[2] == "No"@);
        } else if i == 3 {
            assert(l[3] == "You're dumb to ask that question"@);
        } else if i == 4 {
            assert(l[4] == "I think you already know the answer"@);
        } else if i == 5 {
            assert(l[5] == "`Error: Response Too Dumb`"@);
        } else if i == 6 {
            assert(l[6] == "Yup"@);
        } else if i == 7 {
            assert(l[7] == "Nay"@);
        } else if i == 8 {
            assert(l[8] == "I feel hurt hearing that..."@);
        } else if i == 9 {
            assert(l[9] == "Yes but actually no."@);
        } else if i == 10 {
            assert(l[10] == "Why is that a question? The answer is obviously YES!"@);
        } else if i == 11 {
            assert(l[11] == "...so you're a Rake of culture as well!"@);
        } else if i == 12 {
            assert(l[12] == "POGGERS"@);
        } else if i == 13 {
            assert(l[13] == "That made me want to eat some wasabi out of an ice cream cone."@);
        } else if i == 14 {
            assert(l[14] == "That's some bold question you're asking."@);
        } else if i == 15 {
            assert(l[15] == "Yesn't"@);
        } else if i == 16 {
            assert(l[16] == "Will you be mad if I say no?"@);
        } else if i == 17 {
            assert(l[17] == "It's a tough question... hmm... I'll say yes."@);
        } else if i == 18 {
            assert(l[18] == "Definitely!"@);
        } else if i == 19 {
            assert(l[19] == "Nahhh"@);
        }
}

} // verus!
