//! Symbol names as the loader takes them: ending in a NUL character.
use vstd::prelude::*;
use vstd::string::*;

verus! {

/// Whether a name already ends in the NUL character that the loader needs.
pub open spec fn is_nul_terminated(s: Seq<char>) -> bool {
    s.len() > 0 && s.last() == '\0'
}

/// The name that the loader is given for `s`: `s` itself when it ends in
/// NUL, otherwise `s` with a NUL added.
pub open spec fn lookup_name(s: Seq<char>) -> Seq<char> {
    if is_nul_terminated(s) {
        s
    } else {
        s.push('\0')
    }
}

/// Makes a symbol name ready for the loader. A name that already ends in NUL
/// is not copied: the result is `None` and the caller's text is used as it
/// stands. Any other name comes back as a copy with a NUL added.
pub fn null_terminate(symbol: &str) -> (r: Option<String>)
    ensures
        r is None <==> is_nul_terminated(symbol@),
        r matches Some(t) ==> t@ == symbol@.push('\0'),
        match r {
            Some(t) => t@ == lookup_name(symbol@),
            None => symbol@ == lookup_name(symbol@),
        },
{
    let n = symbol.unicode_len();
    if n > 0 && symbol.get_char(n - 1) == '\0' {
        None
    } else {
        let mut t = String::from_str(symbol);
        proof {
            reveal_strlit("\0");
        }
        t.append("\0");
        assert(t@ =~= symbol@.push('\0'));
        Some(t)
    }
}

/// A name and the same name with a NUL added reach the loader as one and the
/// same name, so both lookups find the same export.
pub proof fn lemma_lookup_name_terminator_idempotent(s: Seq<char>)
    requires
        !is_nul_terminated(s),
    ensures
        lookup_name(s.push('\0')) == lookup_name(s),
        is_nul_terminated(lookup_name(s)),
{
}

} // verus!
