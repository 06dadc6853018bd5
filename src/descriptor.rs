//! Conventions of the handler descriptors that wrap user functions: the
//! type name a function gets, and how a bare argument is read as JSON.
use vstd::prelude::*;

verus! {

/// The upper-case form of `c` (one or more characters).
pub uninterp spec fn upper_of(c: char) -> Seq<char>;

/// Relies on `char::to_uppercase`: the characters of the upper-case mapping.
/// An ASCII letter `a`..`z` maps to the one letter 32 code points lower; any
/// other ASCII character maps to itself.
#[verifier::external_body]
fn uppercase(c: char) -> (r: String)
    ensures
        r@ == upper_of(c),
        ('a' <= c <= 'z') ==> r@ == seq![((c as u32) - 32) as char],
        ((c as u32) < 128 && !('a' <= c <= 'z')) ==> r@ == seq![c],
{
    c.to_uppercase().collect::<String>()
}

/// The name of a descriptor: underscores dropped, and the first character
/// and each one after an underscore in upper case.
pub open spec fn camel_from(s: Seq<char>, capitalize: bool) -> Seq<char>
    decreases s.len(),
{
    if s.len() == 0 {
        seq![]
    } else if s[0] == '_' {
        camel_from(s.drop_first(), true)
    } else if capitalize {
        upper_of(s[0]) + camel_from(s.drop_first(), false)
    } else {
        seq![s[0]] + camel_from(s.drop_first(), false)
    }
}

/// The ASCII upper case of `c`: `a`..`z` become `A`..`Z`, the rest stays.
pub open spec fn ascii_upper(c: char) -> char {
    if 'a' <= c <= 'z' {
        ((c as u32) - 32) as char
    } else {
        c
    }
}

/// `camel_from` for an ASCII name: each segment's first character in ASCII
/// upper case, underscores dropped.
pub open spec fn ascii_camel(s: Seq<char>, capitalize: bool) -> Seq<char>
    decreases s.len(),
{
    if s.len() == 0 {
        seq![]
    } else if s[0] == '_' {
        ascii_camel(s.drop_first(), true)
    } else if capitalize {
        seq![ascii_upper(s[0])] + ascii_camel(s.drop_first(), false)
    } else {
        seq![s[0]] + ascii_camel(s.drop_first(), false)
    }
}

proof fn lemma_ascii_camel_step(s: Seq<char>, i: int, capitalize: bool)
    requires
        0 <= i < s.len(),
    ensures
        ascii_camel(s.subrange(i, s.len() as int), capitalize) == if s[i] == '_' {
            ascii_camel(s.subrange(i + 1, s.len() as int), true)
        } else if capitalize {
            seq![ascii_upper(s[i])] + ascii_camel(s.subrange(i + 1, s.len() as int), false)
        } else {
            seq![s[i]] + ascii_camel(s.subrange(i + 1, s.len() as int), false)
        },
{
    let t = s.subrange(i, s.len() as int);
    assert(t[0] == s[i]);
    assert(t.drop_first() =~= s.subrange(i + 1, s.len() as int));
}

proof fn lemma_camel_step(s: Seq<char>, i: int, capitalize: bool)
    requires
        0 <= i < s.len(),
    ensures
        camel_from(s.subrange(i, s.len() as int), capitalize) == if s[i] == '_' {
            camel_from(s.subrange(i + 1, s.len() as int), true)
        } else if capitalize {
            upper_of(s[i]) + camel_from(s.subrange(i + 1, s.len() as int), false)
        } else {
            seq![s[i]] + camel_from(s.subrange(i + 1, s.len() as int), false)
        },
{
    let t = s.subrange(i, s.len() as int);
    assert(t[0] == s[i]);
    assert(t.drop_first() =~= s.subrange(i + 1, s.len() as int));
}

/// Turns a function name in snake case into the name of its descriptor type.
/// For an ASCII name, each segment starts in ASCII upper case and the
/// result drops exactly the underscores.
pub fn adapt_name(name_string: &String) -> (r: String)
    ensures
        r@ == camel_from(name_string@, true),
        all_ascii(name_string@) ==> r@ == ascii_camel(name_string@, true),
        all_ascii(name_string@) ==> r@.len() == name_string@.len() - underscores(name_string@),
        all_ascii(name_string@) ==> forall|i: int| 0 <= i < r@.len() ==> #[trigger] r@[i] != '_',
{
    let s = name_string.as_str();
    let n = s.unicode_len();
    let mut name = String::new();
    let mut capitalize_next = true;
    let mut i: usize = 0;
    proof {
        assert(name_string@.subrange(0, n as int) =~= name_string@);
    }
    while i < n
        invariant
            n == name_string@.len(),
            s@ == name_string@,
            i <= n,
            name@ + camel_from(name_string@.subrange(i as int, n as int), capitalize_next)
                == camel_from(name_string@, true),
            all_ascii(name_string@) ==> name@ + ascii_camel(
                name_string@.subrange(i as int, n as int),
                capitalize_next,
            ) == ascii_camel(name_string@, true),
            all_ascii(name_string@) ==> name@.len() == i - underscores(
                name_string@.subrange(0, i as int),
            ),
            all_ascii(name_string@) ==> forall|k: int| 0 <= k < name@.len() ==> #[trigger] name@[k] != '_',
        decreases n - i,
    {
        let ch = s.get_char(i);
        proof {
            lemma_camel_step(name_string@, i as int, capitalize_next);
            lemma_ascii_camel_step(name_string@, i as int, capitalize_next);
        }
        let ghost before = name@;
        proof {
            assert(name_string@.subrange(0, i + 1).drop_last() =~= name_string@.subrange(0, i as int));
            assert(name_string@.subrange(0, i + 1).last() == ch);
        }
        if ch == '_' {
            capitalize_next = true;
        } else if capitalize_next {
            let up = uppercase(ch);
            name.append(up.as_str());
            capitalize_next = false;
            proof {
                if all_ascii(name_string@) {
                    assert((name_string@[i as int] as u32) < 128);
                    assert(up@ == seq![ascii_upper(ch)]);
                    assert(up@.len() == 1 && up@[0] != '_');
                    assert(before + (seq![ascii_upper(ch)] + ascii_camel(
                        name_string@.subrange(i + 1, n as int),
                        false,
                    )) =~= name@ + ascii_camel(name_string@.subrange(i + 1, n as int), false));
                    assert forall|k: int| 0 <= k < name@.len() implies #[trigger] name@[k] != '_' by {
                        if k >= before.len() {
                            assert(name@[k] == up@[k - before.len()]);
                        } else {
                            assert(name@[k] == before[k]);
                        }
                    }
                }
                assert(before + (upper_of(ch) + camel_from(
                    name_string@.subrange(i + 1, n as int),
                    false,
                )) =~= name@ + camel_from(name_string@.subrange(i + 1, n as int), false));
            }
        } else {
            let one = s.substring_char(i, i + 1);
            name.append(one);
            proof {
                assert(one@ =~= seq![ch]);
                assert forall|k: int| 0 <= k < name@.len() implies #[trigger] name@[k] != '_' || !all_ascii(name_string@) by {
                    if k >= before.len() {
                        assert(name@[k] == ch);
                    } else {
                        assert(name@[k] == before[k]);
                    }
                }
                assert(before + (seq![ch] + camel_from(name_string@.subrange(i + 1, n as int), false))
                    =~= name@ + camel_from(name_string@.subrange(i + 1, n as int), false));
                assert(before + (seq![ch] + ascii_camel(name_string@.subrange(i + 1, n as int), false))
                    =~= name@ + ascii_camel(name_string@.subrange(i + 1, n as int), false));
            }
        }
        i = i + 1;
    }
    proof {
        assert(name_string@.subrange(0, n as int) =~= name_string@);
        assert(name_string@.subrange(n as int, n as int) =~= Seq::<char>::empty());
        assert(name@ + Seq::<char>::empty() =~= name@);
    }
    name
}

/// The number of underscores in `s`.
pub open spec fn underscores(s: Seq<char>) -> nat
    decreases s.len(),
{
    if s.len() == 0 {
        0
    } else {
        underscores(s.drop_last()) + (if s.last() == '_' {
            1nat
        } else {
            0nat
        })
    }
}

/// Whether every character of `s` is ASCII.
pub open spec fn all_ascii(s: Seq<char>) -> bool {
    forall|i: int| 0 <= i < s.len() ==> (#[trigger] s[i] as u32) < 128
}

/// The JSON text a descriptor tries for an argument that is not itself JSON:
/// the argument between double quotes, as a JSON string.
pub fn quoted_argument(arg: &String) -> (r: String)
    ensures
        r@ == seq!['"'] + arg@ + seq!['"'],
{
    proof {
        reveal_strlit("\"");
    }
    String::from_str("\"").concat(arg.as_str()).concat("\"")
}

} // verus!
