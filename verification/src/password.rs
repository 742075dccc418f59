//! Random password generation: the source of symmetric key material. Every
//! enabled character class contributes at least one character, the rest of
//! the password is drawn from the union of the enabled classes, and the
//! result is shuffled so the class witnesses sit at no fixed position.

use crate::error::SignError;
use vstd::prelude::*;
use vstd::string::StrSliceExecFns;

verus! {

/// The upper-case candidates; `I` and `O` are left out as too easy to confuse.
pub open spec fn upper_case_chars() -> Seq<char> {
    "ABCDEFGHJKLMNPQRSTUVWXYZ"@
}

/// The lower-case candidates; `l` is left out as too easy to confuse.
pub open spec fn lower_case_chars() -> Seq<char> {
    "abcdefghijkmnopqrstuvwxyz"@
}

/// The digit candidates; `0` and `1` are left out as too easy to confuse.
pub open spec fn number_chars() -> Seq<char> {
    "23456789"@
}

/// The symbol candidates.
pub open spec fn symbol_chars() -> Seq<char> {
    "!@#$%&*="@
}

/// The union of the enabled classes, in the order the pool is built.
pub open spec fn allowed_chars(
    no_uppercase: bool,
    no_lowercase: bool,
    no_number: bool,
    no_symbol: bool,
) -> Seq<char> {
    (if !no_uppercase {
        upper_case_chars()
    } else {
        Seq::empty()
    }) + (if !no_lowercase {
        lower_case_chars()
    } else {
        Seq::empty()
    }) + (if !no_number {
        number_chars()
    } else {
        Seq::empty()
    }) + (if !no_symbol {
        symbol_chars()
    } else {
        Seq::empty()
    })
}

/// How many character classes are enabled.
pub open spec fn enabled_class_count(
    no_uppercase: bool,
    no_lowercase: bool,
    no_number: bool,
    no_symbol: bool,
) -> int {
    (if !no_uppercase {
        1int
    } else {
        0int
    }) + (if !no_lowercase {
        1int
    } else {
        0int
    }) + (if !no_number {
        1int
    } else {
        0int
    }) + (if !no_symbol {
        1int
    } else {
        0int
    })
}

/// Whether some character of `p` comes from `class`.
pub open spec fn has_class_char(p: Seq<char>, class: Seq<char>) -> bool {
    exists|i: int| 0 <= i < p.len() && class.contains(#[trigger] p[i])
}

/// Whether every character of `p` comes from `pool`.
pub open spec fn all_from(p: Seq<char>, pool: Seq<char>) -> bool {
    forall|i: int| 0 <= i < p.len() ==> pool.contains(#[trigger] p[i])
}

/// Every candidate character is plain ascii.
pub proof fn lemma_allowed_chars_ascii(
    s: Seq<char>,
    no_uppercase: bool,
    no_lowercase: bool,
    no_number: bool,
    no_symbol: bool,
)
    requires
        all_from(s, allowed_chars(no_uppercase, no_lowercase, no_number, no_symbol)),
    ensures
        vstd::utf8::is_ascii_chars(s),
{
    reveal_strlit("ABCDEFGHJKLMNPQRSTUVWXYZ");
    reveal_strlit("abcdefghijkmnopqrstuvwxyz");
    reveal_strlit("23456789");
    reveal_strlit("!@#$%&*=");
    assert forall|i: int| 0 <= i < s.len() implies '\0' <= #[trigger] s[i] <= '\u{7f}' by {
        let a = allowed_chars(no_uppercase, no_lowercase, no_number, no_symbol);
        assert(a.contains(s[i]));
        let j = choose|j: int| 0 <= j < a.len() && a[j] == s[i];
        assert(a[j] == s[i]);
    }
}

/// Relies on rand's `SliceRandom::choose` with `thread_rng`: some element of
/// the non-empty slice; which one depends on the generator's state.
#[verifier::external_body]
fn pick_char(options: &[char]) -> (r: char)
    requires
        options@.len() > 0,
    ensures
        options@.contains(r),
{
    *rand::seq::SliceRandom::choose(options, &mut rand::thread_rng()).unwrap()
}

/// Relies on rand's `SliceRandom::shuffle` with `thread_rng`: an in-place
/// permutation; the order depends on the generator's state.
#[verifier::external_body]
fn shuffle_chars(v: &mut Vec<char>)
    ensures
        final(v)@.to_multiset() == old(v)@.to_multiset(),
{
    rand::seq::SliceRandom::shuffle(v.as_mut_slice(), &mut rand::thread_rng())
}

/// Relies on `String::push`: appends the one character.
#[verifier::external_body]
fn string_push(s: &mut String, c: char)
    ensures
        final(s)@ == old(s)@.push(c),
{
    s.push(c);
}

/// The characters of a string slice, in order.
fn str_chars(s: &str) -> (r: Vec<char>)
    ensures
        r@ == s@,
{
    let n = s.unicode_len();
    let mut r: Vec<char> = Vec::new();
    let mut i: usize = 0;
    while i < n
        invariant
            n == s@.len(),
            0 <= i <= n,
            r@ == s@.take(i as int),
        decreases n - i,
    {
        r.push(s.get_char(i));
        proof {
            assert(r@ =~= s@.take(i + 1));
        }
        i += 1;
    }
    proof {
        assert(r@ =~= s@);
    }
    r
}

/// A string holding exactly the given characters, in order.
fn chars_to_string(chars: &[char]) -> (r: String)
    ensures
        r@ == chars@,
{
    let n = chars.len();
    let mut s = String::new();
    let mut i: usize = 0;
    while i < n
        invariant
            n == chars@.len(),
            0 <= i <= n,
            s@ == chars@.take(i as int),
        decreases n - i,
    {
        string_push(&mut s, chars[i]);
        proof {
            assert(s@ =~= chars@.take(i + 1));
        }
        i += 1;
    }
    proof {
        assert(s@ =~= chars@);
    }
    s
}

/// A character found in either part is found in the concatenation.
proof fn lemma_concat_contains(a: Seq<char>, b: Seq<char>, c: char)
    requires
        a.contains(c) || b.contains(c),
    ensures
        (a + b).contains(c),
{
    if a.contains(c) {
        let i = choose|i: int| 0 <= i < a.len() && a[i] == c;
        assert((a + b)[i] == c);
    } else {
        let i = choose|i: int| 0 <= i < b.len() && b[i] == c;
        assert((a + b)[a.len() + i] == c);
    }
}

/// A character of any enabled class is among the allowed candidates.
proof fn lemma_allowed_contains(
    c: char,
    no_uppercase: bool,
    no_lowercase: bool,
    no_number: bool,
    no_symbol: bool,
)
    requires
        (!no_uppercase && upper_case_chars().contains(c)) || (!no_lowercase
            && lower_case_chars().contains(c)) || (!no_number && number_chars().contains(c)) || (
        !no_symbol && symbol_chars().contains(c)),
    ensures
        allowed_chars(no_uppercase, no_lowercase, no_number, no_symbol).contains(c),
{
    let u = if !no_uppercase {
        upper_case_chars()
    } else {
        Seq::empty()
    };
    let l = if !no_lowercase {
        lower_case_chars()
    } else {
        Seq::empty()
    };
    let n = if !no_number {
        number_chars()
    } else {
        Seq::empty()
    };
    let s = if !no_symbol {
        symbol_chars()
    } else {
        Seq::empty()
    };
    if !no_symbol && symbol_chars().contains(c) {
        lemma_concat_contains(u + l + n, s, c);
    } else if !no_number && number_chars().contains(c) {
        lemma_concat_contains(u + l, n, c);
        lemma_concat_contains(u + l + n, s, c);
    } else {
        lemma_concat_contains(u, l, c);
        lemma_concat_contains(u + l, n, c);
        lemma_concat_contains(u + l + n, s, c);
    }
}

/// Pushing a character from the pool keeps every password fact and adds a
/// witness for each class the character belongs to.
proof fn lemma_push_password_char(p: Seq<char>, c: char, pool: Seq<char>)
    requires
        all_from(p, pool),
        pool.contains(c),
    ensures
        all_from(p.push(c), pool),
        forall|class: Seq<char>|
            has_class_char(p, class) ==> #[trigger] has_class_char(p.push(c), class),
        forall|class: Seq<char>| class.contains(c) ==> #[trigger] has_class_char(p.push(c), class),
{
    assert forall|i: int| 0 <= i < p.push(c).len() implies pool.contains(
        #[trigger] p.push(c)[i],
    ) by {
        if i < p.len() {
            assert(p.push(c)[i] == p[i]);
            assert(pool.contains(p[i]));
        } else {
            assert(p.push(c)[i] == c);
        }
    }
    assert forall|class: Seq<char>|
        has_class_char(p, class) implies #[trigger] has_class_char(p.push(c), class) by {
        let i = choose|i: int| 0 <= i < p.len() && class.contains(#[trigger] p[i]);
        assert(p.push(c)[i] == p[i]);
        assert(class.contains(p.push(c)[i]));
    }
    assert forall|class: Seq<char>| class.contains(c) implies #[trigger] has_class_char(
        p.push(c),
        class,
    ) by {
        assert(p.push(c)[p.len() as int] == c);
        assert(class.contains(p.push(c)[p.len() as int]));
    }
}

/// A permutation keeps the length, the candidate-set bound, and each class
/// witness of a password.
proof fn lemma_shuffle_preserves(before: Seq<char>, after: Seq<char>, pool: Seq<char>)
    requires
        after.to_multiset() == before.to_multiset(),
        all_from(before, pool),
    ensures
        after.len() == before.len(),
        all_from(after, pool),
        forall|class: Seq<char>|
            has_class_char(before, class) ==> #[trigger] has_class_char(after, class),
{
    broadcast use vstd::seq_lib::group_to_multiset_ensures;

    assert(after.len() == after.to_multiset().len());
    assert(before.len() == before.to_multiset().len());
    assert forall|i: int| 0 <= i < after.len() implies pool.contains(#[trigger] after[i]) by {
        assert(after.contains(after[i]));
        assert(after.to_multiset().count(after[i]) > 0);
        assert(before.contains(after[i]));
        let j = choose|j: int| 0 <= j < before.len() && before[j] == after[i];
        assert(pool.contains(before[j]));
    }
    assert forall|class: Seq<char>|
        has_class_char(before, class) implies #[trigger] has_class_char(after, class) by {
        let i = choose|i: int| 0 <= i < before.len() && class.contains(#[trigger] before[i]);
        assert(before.contains(before[i]));
        assert(before.to_multiset().count(before[i]) > 0);
        assert(after.contains(before[i]));
        let k = choose|k: int| 0 <= k < after.len() && after[k] == before[i];
        assert(class.contains(after[k]));
    }
}

/// Generate a random password of exactly `length` characters. Each enabled
/// class contributes at least one character, every character comes from the
/// union of the enabled classes, and the order is shuffled. Disabling all
/// classes only permits the empty password, and the password can never be
/// shorter than the number of enabled classes.
pub fn gen_pass(
    length: u8,
    no_uppercase: bool,
    no_lowercase: bool,
    no_number: bool,
    no_symbol: bool,
) -> (r: Result<String, SignError>)
    requires
        enabled_class_count(no_uppercase, no_lowercase, no_number, no_symbol) <= length as int,
        (no_uppercase && no_lowercase && no_number && no_symbol) ==> length == 0,
    ensures
        r matches Ok(p) && p@.len() == length as int,
        r matches Ok(p) && all_from(
            p@,
            allowed_chars(no_uppercase, no_lowercase, no_number, no_symbol),
        ),
        !no_uppercase ==> (r matches Ok(p) && has_class_char(p@, upper_case_chars())),
        !no_lowercase ==> (r matches Ok(p) && has_class_char(p@, lower_case_chars())),
        !no_number ==> (r matches Ok(p) && has_class_char(p@, number_chars())),
        !no_symbol ==> (r matches Ok(p) && has_class_char(p@, symbol_chars())),
{
    let ghost all = allowed_chars(no_uppercase, no_lowercase, no_number, no_symbol);
    let mut pool: Vec<char> = Vec::new();
    let mut password: Vec<char> = Vec::new();

    if !no_uppercase {
        let mut class = str_chars("ABCDEFGHJKLMNPQRSTUVWXYZ");
        proof {
            reveal_strlit("ABCDEFGHJKLMNPQRSTUVWXYZ");
        }
        let c = pick_char(class.as_slice());
        let ghost pre = password@;
        password.push(c);
        proof {
            lemma_allowed_contains(c, no_uppercase, no_lowercase, no_number, no_symbol);
            lemma_push_password_char(pre, c, all);
        }
        pool.append(&mut class);
    }
    if !no_lowercase {
        let mut class = str_chars("abcdefghijkmnopqrstuvwxyz");
        proof {
            reveal_strlit("abcdefghijkmnopqrstuvwxyz");
        }
        let c = pick_char(class.as_slice());
        let ghost pre = password@;
        password.push(c);
        proof {
            lemma_allowed_contains(c, no_uppercase, no_lowercase, no_number, no_symbol);
            lemma_push_password_char(pre, c, all);
        }
        pool.append(&mut class);
    }
    if !no_number {
        let mut class = str_chars("23456789");
        proof {
            reveal_strlit("23456789");
        }
        let c = pick_char(class.as_slice());
        let ghost pre = password@;
        password.push(c);
        proof {
            lemma_allowed_contains(c, no_uppercase, no_lowercase, no_number, no_symbol);
            lemma_push_password_char(pre, c, all);
        }
        pool.append(&mut class);
    }
    if !no_symbol {
        let mut class = str_chars("!@#$%&*=");
        proof {
            reveal_strlit("!@#$%&*=");
        }
        let c = pick_char(class.as_slice());
        let ghost pre = password@;
        password.push(c);
        proof {
            lemma_allowed_contains(c, no_uppercase, no_lowercase, no_number, no_symbol);
            lemma_push_password_char(pre, c, all);
        }
        pool.append(&mut class);
    }
    proof {
        assert(pool@ =~= all);
        assert(password@.len() == enabled_class_count(
            no_uppercase,
            no_lowercase,
            no_number,
            no_symbol,
        ));
        if length > 0 {
            reveal_strlit("ABCDEFGHJKLMNPQRSTUVWXYZ");
            reveal_strlit("abcdefghijkmnopqrstuvwxyz");
            reveal_strlit("23456789");
            reveal_strlit("!@#$%&*=");
            assert(pool@.len() > 0);
        }
    }

    let target = length as usize;
    while password.len() < target
        invariant
            pool@ == all,
            password@.len() <= target,
            target > 0 ==> pool@.len() > 0,
            all_from(password@, all),
            !no_uppercase ==> has_class_char(password@, upper_case_chars()),
            !no_lowercase ==> has_class_char(password@, lower_case_chars()),
            !no_number ==> has_class_char(password@, number_chars()),
            !no_symbol ==> has_class_char(password@, symbol_chars()),
        decreases target - password@.len(),
    {
        let c = pick_char(pool.as_slice());
        let ghost pre = password@;
        password.push(c);
        proof {
            lemma_push_password_char(pre, c, all);
        }
    }

    let ghost before = password@;
    shuffle_chars(&mut password);
    proof {
        lemma_shuffle_preserves(before, password@, all);
    }

    let out = chars_to_string(password.as_slice());
    Ok(out)
}

} // verus!
