//! The opening prompt's parsing. The binary reads one line and hands its
//! bytes here; the choice is the keyword "lifetimes" or "threads",
//! case-insensitive and surrounded by any amount of whitespace, and anything
//! else is invalid, after which the demo falls back to the lifetimes path.

use vstd::prelude::*;

verus! {

/// What the opening prompt accepted.
#[derive(Clone, Copy, Debug, PartialEq, Eq, Structural)]
pub enum MenuChoice {
    /// The reference-and-lifetime walkthrough.
    Lifetimes,
    /// The concurrency walkthrough.
    Threads,
    /// Anything else; the demo says so and falls back to lifetimes.
    Invalid,
}

/// An ASCII whitespace byte: space, tab, line feed, vertical tab, form feed
/// or carriage return.
pub open spec fn is_ws(b: u8) -> bool {
    b == 32 || 9 <= b && b <= 13
}

/// The byte, lower-cased if it is an ASCII upper-case letter.
pub open spec fn lower(b: u8) -> u8 {
    if 65 <= b && b <= 90 {
        (b + 32) as u8
    } else {
        b
    }
}

/// The line lower-cased byte for byte.
pub open spec fn lower_all(s: Seq<u8>) -> Seq<u8> {
    s.map_values(|b: u8| lower(b))
}

/// The line with its leading ASCII whitespace removed.
pub open spec fn trim_front(s: Seq<u8>) -> Seq<u8>
    decreases s.len(),
{
    if s.len() > 0 && is_ws(s[0]) {
        trim_front(s.drop_first())
    } else {
        s
    }
}

/// The line with its trailing ASCII whitespace removed.
pub open spec fn trim_back(s: Seq<u8>) -> Seq<u8>
    decreases s.len(),
{
    if s.len() > 0 && is_ws(s.last()) {
        trim_back(s.drop_last())
    } else {
        s
    }
}

/// The prompt's normalization of one input line: lower-cased, then trimmed of
/// surrounding whitespace.
pub open spec fn normalized(s: Seq<u8>) -> Seq<u8> {
    trim_back(trim_front(lower_all(s)))
}

/// The bytes of "lifetimes".
pub open spec fn lifetimes_keyword() -> Seq<u8> {
    seq![108u8, 105u8, 102u8, 101u8, 116u8, 105u8, 109u8, 101u8, 115u8]
}

/// The bytes of "threads".
pub open spec fn threads_keyword() -> Seq<u8> {
    seq![116u8, 104u8, 114u8, 101u8, 97u8, 100u8, 115u8]
}

/// The choice each input line maps to.
pub open spec fn choice_of(s: Seq<u8>) -> MenuChoice {
    if normalized(s) == lifetimes_keyword() {
        MenuChoice::Lifetimes
    } else if normalized(s) == threads_keyword() {
        MenuChoice::Threads
    } else {
        MenuChoice::Invalid
    }
}

fn byte_is_ws(b: u8) -> (r: bool)
    ensures
        r == is_ws(b),
{
    b == 32 || 9 <= b && b <= 13
}

fn lower_byte(b: u8) -> (r: u8)
    ensures
        r == lower(b),
{
    if 65 <= b && b <= 90 {
        b + 32
    } else {
        b
    }
}

/// Normalizes one input line as the prompt does.
pub fn normalize_line(input: &Vec<u8>) -> (r: Vec<u8>)
    ensures
        r@ == normalized(input@),
{
    let n: usize = input.len();
    let mut v: Vec<u8> = Vec::new();
    let mut k: usize = 0;
    while k < n
        invariant
            k <= n,
            n == input@.len(),
            v@ == lower_all(input@.take(k as int)),
        decreases n - k,
    {
        v.push(lower_byte(input[k]));
        proof {
            assert(lower_all(input@.take(k + 1 as int)) =~= lower_all(
                input@.take(k as int),
            ).push(lower(input@[k as int])));
        }
        k = k + 1;
    }
    proof {
        assert(input@.take(n as int) =~= input@);
    }
    while v.len() > 0 && byte_is_ws(v[0])
        invariant
            trim_front(v@) == trim_front(lower_all(input@)),
        decreases v@.len(),
    {
        proof {
            assert(v@.remove(0) =~= v@.drop_first());
        }
        v.remove(0);
    }
    while v.len() > 0 && byte_is_ws(v[v.len() - 1])
        invariant
            trim_back(v@) == trim_back(trim_front(lower_all(input@))),
        decreases v@.len(),
    {
        proof {
            assert(v@.subrange(0, v@.len() - 1) =~= v@.drop_last());
        }
        let _ = v.pop();
    }
    v
}

fn bytes_eq(a: &Vec<u8>, b: &Vec<u8>) -> (r: bool)
    ensures
        r == (a@ == b@),
{
    if a.len() != b.len() {
        return false;
    }
    let n: usize = a.len();
    let mut k: usize = 0;
    while k < n
        invariant
            k <= n,
            n == a@.len(),
            n == b@.len(),
            forall|j: int| 0 <= j < k ==> a@[j] == b@[j],
        decreases n - k,
    {
        if a[k] != b[k] {
            return false;
        }
        k = k + 1;
    }
    proof {
        assert(a@ =~= b@);
    }
    true
}

fn lifetimes_keyword_bytes() -> (v: Vec<u8>)
    ensures
        v@ == lifetimes_keyword(),
{
    let mut v: Vec<u8> = Vec::new();
    v.push(108);
    v.push(105);
    v.push(102);
    v.push(101);
    v.push(116);
    v.push(105);
    v.push(109);
    v.push(101);
    v.push(115);
    proof {
        assert(v@ =~= lifetimes_keyword());
    }
    v
}

fn threads_keyword_bytes() -> (v: Vec<u8>)
    ensures
        v@ == threads_keyword(),
{
    let mut v: Vec<u8> = Vec::new();
    v.push(116);
    v.push(104);
    v.push(114);
    v.push(101);
    v.push(97);
    v.push(100);
    v.push(115);
    proof {
        assert(v@ =~= threads_keyword());
    }
    v
}

/// Maps one input line from the opening prompt to the demo it selects.
pub fn parse_choice(input: &Vec<u8>) -> (c: MenuChoice)
    ensures
        c == choice_of(input@),
{
    let line = normalize_line(input);
    if bytes_eq(&line, &lifetimes_keyword_bytes()) {
        MenuChoice::Lifetimes
    } else if bytes_eq(&line, &threads_keyword_bytes()) {
        MenuChoice::Threads
    } else {
        MenuChoice::Invalid
    }
}

} // verus!
