//! Pure helpers behind the status endpoint: JSON string escaping and
//! recording-file name validation. The sockets and the file system live
//! outside the library; it hands strings in and takes the verdicts back.

use vstd::prelude::*;
use vstd::std_specs::iter::IteratorSpec;

verus! {

/// How one character is written inside a JSON string literal.
pub open spec fn escape_char(c: char) -> Seq<char> {
    if c == '\\' {
        seq!['\\', '\\']
    } else if c == '"' {
        seq!['\\', '"']
    } else if c == '\n' {
        seq!['\\', 'n']
    } else if c == '\r' {
        seq!['\\', 'r']
    } else {
        seq![c]
    }
}

/// A string escaped for a JSON string literal, character by character.
pub open spec fn escape_json_spec(s: Seq<char>) -> Seq<char>
    decreases s.len(),
{
    if s.len() == 0 {
        Seq::empty()
    } else {
        escape_char(s[0]) + escape_json_spec(s.drop_first())
    }
}

/// Escaping one more character appends its escape.
proof fn lemma_escape_push(s: Seq<char>, c: char)
    ensures
        escape_json_spec(s.push(c)) == escape_json_spec(s) + escape_char(c),
    decreases s.len(),
{
    if s.len() == 0 {
        assert(s.push(c).drop_first() =~= Seq::<char>::empty());
        assert(s.push(c)[0] == c);
        assert(escape_json_spec(s.push(c)) == escape_char(c) + escape_json_spec(
            Seq::<char>::empty(),
        ));
        assert(escape_char(c) + Seq::<char>::empty() =~= escape_char(c));
        assert(escape_json_spec(s) + escape_char(c) =~= escape_char(c));
    } else {
        assert(s.push(c).drop_first() =~= s.drop_first().push(c));
        lemma_escape_push(s.drop_first(), c);
        assert(s.push(c)[0] == s[0]);
        assert(escape_json_spec(s.push(c)) == escape_char(s[0]) + escape_json_spec(
            s.drop_first().push(c),
        ));
        assert(escape_char(s[0]) + (escape_json_spec(s.drop_first()) + escape_char(c)) =~= (
        escape_char(s[0]) + escape_json_spec(s.drop_first())) + escape_char(c));
    }
}

/// Relies on String::push: appends exactly one character.
#[verifier::external_body]
fn push_char(s: &mut String, c: char)
    ensures
        final(s)@ == old(s)@.push(c),
{
    s.push(c);
}

/// Escape a string for embedding in a JSON string literal: backslashes,
/// double quotes, newlines and carriage returns are escaped; everything else
/// passes through unchanged.
pub fn escape_json_string(input: &str) -> (r: String)
    ensures
        r@ == escape_json_spec(input@),
{
    broadcast use vstd::string::next_postcondition;
    broadcast use vstd::string::axiom_spec_iter;

    let ghost all: Seq<char> = input@;
    let mut it = input.chars();
    let mut out = String::new();
    let ghost mut k: int = 0;

    proof {
        assert(all.subrange(0, 0) =~= Seq::<char>::empty());
    }

    loop
        invariant
            all == input@,
            0 <= k <= all.len(),
            it.obeys_prophetic_iter_laws(),
            it.remaining() == all.skip(k),
            out@ == escape_json_spec(all.subrange(0, k)),
        decreases all.len() - k,
    {
        let next_char = it.next();
        match next_char {
            None => {
                proof {
                    assert(all.skip(k).len() == 0);
                    assert(all.subrange(0, k) =~= all);
                }
                return out;
            },
            Some(c) => {
                proof {
                    assert(all.skip(k).len() > 0);
                    assert(all.skip(k)[0] == all[k]);
                    assert(c == all[k]);
                    assert(all.skip(k).drop_first() =~= all.skip(k + 1));
                }
                let ghost prev = out@;
                if c == '\\' {
                    push_char(&mut out, '\\');
                    push_char(&mut out, '\\');
                } else if c == '"' {
                    push_char(&mut out, '\\');
                    push_char(&mut out, '"');
                } else if c == '\n' {
                    push_char(&mut out, '\\');
                    push_char(&mut out, 'n');
                } else if c == '\r' {
                    push_char(&mut out, '\\');
                    push_char(&mut out, 'r');
                } else {
                    push_char(&mut out, c);
                }
                proof {
                    assert(out@ =~= prev + escape_char(c));
                    lemma_escape_push(all.subrange(0, k), c);
                    assert(all.subrange(0, k + 1) =~= all.subrange(0, k).push(c));
                    k = k + 1;
                }
            },
        }
    }
}

/// A recording file name the status endpoint will serve: non-empty, with no
/// path separator and no parent-directory step anywhere in it.
pub open spec fn valid_wav_filename(s: Seq<char>) -> bool {
    &&& s.len() > 0
    &&& forall|i: int| 0 <= i < s.len() ==> (#[trigger] s[i]) != '/' && s[i] != '\\'
    &&& forall|i: int| 0 <= i < s.len() - 1 ==> !((#[trigger] s[i]) == '.' && s[i + 1] == '.')
}

/// Whether a requested recording file name is safe to serve.
pub fn wav_filename_is_valid(name: &str) -> (r: bool)
    ensures
        r == valid_wav_filename(name@),
{
    broadcast use vstd::string::next_postcondition;
    broadcast use vstd::string::axiom_spec_iter;

    if name.is_empty() {
        return false;
    }

    let ghost all: Seq<char> = name@;
    let mut it = name.chars();
    let mut prev_is_dot: bool = false;
    let ghost mut k: int = 0;

    loop
        invariant
            all == name@,
            all.len() > 0,
            0 <= k <= all.len(),
            it.obeys_prophetic_iter_laws(),
            it.remaining() == all.skip(k),
            forall|i: int| 0 <= i < k ==> (#[trigger] all[i]) != '/' && all[i] != '\\',
            forall|i: int| 0 <= i < k - 1 ==> !((#[trigger] all[i]) == '.' && all[i + 1] == '.'),
            k > 0 ==> (prev_is_dot <==> all[k - 1] == '.'),
            k == 0 ==> !prev_is_dot,
        decreases all.len() - k,
    {
        let next_char = it.next();
        match next_char {
            None => {
                proof {
                    assert(all.skip(k).len() == 0);
                }
                return true;
            },
            Some(c) => {
                proof {
                    assert(all.skip(k).len() > 0);
                    assert(all.skip(k)[0] == all[k]);
                    assert(c == all[k]);
                    assert(all.skip(k).drop_first() =~= all.skip(k + 1));
                }
                if c == '/' || c == '\\' {
                    return false;
                }
                if c == '.' && prev_is_dot {
                    proof {
                        assert(all[k - 1] == '.' && all[k] == '.');
                    }
                    return false;
                }
                prev_is_dot = c == '.';
                proof {
                    k = k + 1;
                }
            },
        }
    }
}

} // verus!
