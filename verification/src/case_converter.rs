use vstd::prelude::*;

verus! {

/// Whether `c` is an ASCII capital letter.
pub open spec fn is_capital(c: char) -> bool {
    65 <= c as u32 <= 90
}

/// Whether `c` is an ASCII small letter.
pub open spec fn is_small(c: char) -> bool {
    97 <= c as u32 <= 122
}

/// The lower-case form of an ASCII capital letter; any other character
/// is left unchanged.
pub open spec fn lower(c: char) -> char {
    if is_capital(c) {
        ((c as u32) + 32) as char
    } else {
        c
    }
}

/// The canonical key of the name's tail from position `i` on.
///
/// A capital letter is lower-cased; a separator is placed before it only
/// when output has already been produced (`started`) and the character
/// right after it is a small letter, so runs of consecutive capitals are
/// kept as one word. Every other character passes through unchanged.
pub open spec fn snake_from(s: Seq<char>, i: int, started: bool) -> Seq<char>
    decreases s.len() - i,
{
    if i < 0 || i >= s.len() {
        Seq::empty()
    } else {
        let c = s[i];
        let rest = snake_from(s, i + 1, true);
        if is_capital(c) {
            if started && i + 1 < s.len() && is_small(s[i + 1]) {
                seq!['_', lower(c)] + rest
            } else {
                seq![lower(c)] + rest
            }
        } else {
            seq![c] + rest
        }
    }
}

/// The canonical lower-case, underscore-separated key of a name.
pub open spec fn snake_case(s: Seq<char>) -> Seq<char> {
    snake_from(s, 0, false)
}

/// Relies on char::to_ascii_lowercase: maps 'A'..='Z' to 'a'..='z' and
/// leaves every other character unchanged.
#[verifier::external_body]
fn ascii_lower_char(c: char) -> (r: char)
    ensures
        r == lower(c),
{
    c.to_ascii_lowercase()
}

/// Turns a capitalized multi-word name into its canonical lower-case,
/// underscore-separated key.
pub fn to_snake_case(name: &str) -> (r: String)
    ensures
        r@ == snake_case(name@),
{
    let n = name.unicode_len();
    let mut out = String::new();
    let mut i: usize = 0;
    while i < n
        invariant
            n == name@.len(),
            i <= n,
            out@ + snake_from(name@, i as int, i > 0) == snake_case(name@),
            out@.len() == 0 <==> i == 0,
        decreases n - i,
    {
        let c = name.get_char(i);
        let capital = {
            let u = c as u32;
            65 <= u && u <= 90
        };
        if capital {
            if i > 0 && i + 1 < n {
                let next = name.get_char(i + 1);
                let u2 = next as u32;
                if 97 <= u2 && u2 <= 122 {
                    crate::strutil::push_char(&mut out, '_');
                }
            }
            crate::strutil::push_char(&mut out, ascii_lower_char(c));
        } else {
            crate::strutil::push_char(&mut out, c);
        }
        proof {
            assert(out@ + snake_from(name@, i + 1, true) =~= snake_case(name@));
        }
        i = i + 1;
    }
    out
}

/// No character of a converted name is a capital letter.
proof fn lemma_snake_from_no_capitals(s: Seq<char>, i: int, started: bool)
    ensures
        forall|k: int|
            0 <= k < snake_from(s, i, started).len() ==> !is_capital(
                #[trigger] snake_from(s, i, started)[k],
            ),
    decreases s.len() - i,
{
    if 0 <= i < s.len() {
        lemma_snake_from_no_capitals(s, i + 1, true);
        let c = s[i];
        let rest = snake_from(s, i + 1, true);
        let whole = snake_from(s, i, started);
        let head: Seq<char> = if is_capital(c) {
            if started && i + 1 < s.len() && is_small(s[i + 1]) {
                seq!['_', lower(c)]
            } else {
                seq![lower(c)]
            }
        } else {
            seq![c]
        };
        assert(whole == head + rest);
        if is_capital(c) {
            assert((((c as u32) + 32) as char) as u32 == (c as u32) + 32);
        }
        assert forall|k: int| 0 <= k < whole.len() implies !is_capital(whole[k]) by {
            if k < head.len() {
                assert(whole[k] == head[k]);
            } else {
                assert(whole[k] == rest[k - head.len()]);
            }
        }
    }
}

/// On a name without capital letters the converter changes nothing.
proof fn lemma_snake_from_identity(s: Seq<char>, i: int, started: bool)
    requires
        0 <= i <= s.len(),
        forall|k: int| 0 <= k < s.len() ==> !is_capital(#[trigger] s[k]),
    ensures
        snake_from(s, i, started) =~= s.subrange(i, s.len() as int),
    decreases s.len() - i,
{
    if i < s.len() {
        lemma_snake_from_identity(s, i + 1, true);
    }
}

/// Converting a name twice gives the same key as converting it once:
/// the conversion is idempotent.
pub proof fn lemma_snake_case_idempotent(s: Seq<char>)
    ensures
        snake_case(snake_case(s)) == snake_case(s),
{
    let t = snake_case(s);
    lemma_snake_from_no_capitals(s, 0, false);
    lemma_snake_from_identity(t, 0, false);
    assert(t.subrange(0, t.len() as int) =~= t);
}

} // verus!


