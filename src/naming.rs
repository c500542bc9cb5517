use vstd::prelude::*;

verus! {

/// The lowercase mapping of `c`: one or more characters.
pub uninterp spec fn lower_of(c: char) -> Seq<char>;

/// `c`, where it is an ASCII capital, as the small letter.
pub open spec fn ascii_small(c: char) -> char {
    if 'A' <= c <= 'Z' {
        ((c as u32) + 32) as char
    } else {
        c
    }
}

/// Relies on `char::to_lowercase`: it yields the lowercase mapping of `c`,
/// which for an ASCII character is its small letter, or itself where it is
/// no capital.
#[verifier::external_body]
fn lowercase_char(c: char) -> (r: String)
    ensures
        r@ == lower_of(c),
        (c as u32) < 128 ==> r@ == seq![ascii_small(c)],
{
    c.to_lowercase().collect::<String>()
}

/// The wire name of a command: its name with the first character replaced
/// by that character's lowercase mapping; the empty name stays empty.
pub open spec fn wire_name(name: Seq<char>) -> Seq<char> {
    if name.len() == 0 {
        Seq::empty()
    } else {
        lower_of(name[0]) + name.drop_first()
    }
}

/// Derives the name of a remote method from the name of a command: only
/// the first character is lowercased.
pub fn lowercase_first_letter(s: String) -> (r: String)
    ensures
        r@ == wire_name(s@),
        s@.len() > 0 && (s@[0] as u32) < 128 ==> r@ == seq![ascii_small(s@[0])]
            + s@.drop_first(),
{
    let n = s.as_str().unicode_len();
    if n == 0 {
        return String::new();
    }
    let first = s.as_str().get_char(0);
    let rest = s.as_str().substring_char(1, n);
    let low = lowercase_char(first);
    assert(rest@ == s@.drop_first());
    low.concat(rest)
}

/// A name whose first character is already its own lowercase mapping is
/// its own wire name.
pub proof fn lemma_wire_name_keeps_lowercase(name: Seq<char>)
    requires
        name.len() > 0,
        lower_of(name[0]) == seq![name[0]],
    ensures
        wire_name(name) == name,
{
    assert(seq![name[0]] + name.drop_first() =~= name);
}

/// Deriving the wire name twice gives what deriving it once gave, where the
/// first character's mapping is a single character that maps to itself.
pub proof fn lemma_wire_name_idempotent(name: Seq<char>)
    requires
        name.len() > 0,
        lower_of(name[0]).len() == 1,
        lower_of(lower_of(name[0])[0]) == lower_of(name[0]),
    ensures
        wire_name(wire_name(name)) == wire_name(name),
{
    let w = wire_name(name);
    assert(w[0] == lower_of(name[0])[0]);
    assert(w.drop_first() =~= name.drop_first());
    assert(lower_of(w[0]) + w.drop_first() =~= w);
}

} // verus!
