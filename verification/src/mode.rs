use vstd::prelude::*;

verus! {

/// Operating mode of the terminal interface.
#[derive(Clone, Copy, Debug, PartialEq, Eq, Structural)]
pub enum Mode {
    /// Normal mode.
    Normal,
    /// Visual mode (disables the mouse capture).
    Visual,
    /// Copy mode (makes it easier to copy values).
    Copy,
}

/// Two characters are equal up to ASCII case.
pub open spec fn chars_eq_ci(a: char, b: char) -> bool {
    a == b
    || (65 <= a as int && a as int <= 90 && a as int + 32 == b as int)
    || (65 <= b as int && b as int <= 90 && b as int + 32 == a as int)
}

/// Two character sequences are equal up to ASCII case.
pub open spec fn seq_eq_ci(s: Seq<char>, t: Seq<char>) -> bool {
    s.len() == t.len() && (forall|i: int| 0 <= i < s.len() ==> chars_eq_ci(s[i], t[i]))
}

/// The mode that a string denotes: the full name or its first letter,
/// ASCII case ignored; anything else denotes no mode.
pub open spec fn spec_parse_mode(s: Seq<char>) -> Option<Mode> {
    if seq_eq_ci(s, "normal"@) || seq_eq_ci(s, "n"@) {
        Some(Mode::Normal)
    } else if seq_eq_ci(s, "visual"@) || seq_eq_ci(s, "v"@) {
        Some(Mode::Visual)
    } else if seq_eq_ci(s, "copy"@) || seq_eq_ci(s, "c"@) {
        Some(Mode::Copy)
    } else {
        None
    }
}

/// The lowercase name of a mode.
pub open spec fn spec_mode_name(m: Mode) -> Seq<char> {
    match m {
        Mode::Normal => "normal"@,
        Mode::Visual => "visual"@,
        Mode::Copy => "copy"@,
    }
}

/// The rendered form of a mode: `-- <name> --`.
pub open spec fn spec_mode_display(m: Mode) -> Seq<char> {
    "-- "@ + spec_mode_name(m) + " --"@
}

/// Compares two strings for equality up to ASCII case.
fn str_eq_ci(s: &str, t: &str) -> (r: bool)
    ensures
        r == seq_eq_ci(s@, t@),
{
    let n = s.unicode_len();
    if n != t.unicode_len() {
        return false;
    }
    let mut i: usize = 0;
    while i < n
        invariant
            n == s@.len(),
            n == t@.len(),
            i <= n,
            forall|j: int| 0 <= j < i ==> chars_eq_ci(s@[j], t@[j]),
        decreases n - i,
    {
        let a = s.get_char(i);
        let b = t.get_char(i);
        let au = a as u32;
        let bu = b as u32;
        let ok = a == b
            || (65 <= au && au <= 90 && au + 32 == bu)
            || (65 <= bu && bu <= 90 && bu + 32 == au);
        if !ok {
            assert(!chars_eq_ci(s@[i as int], t@[i as int]));
            return false;
        }
        i += 1;
    }
    true
}

impl Mode {
    /// Parses a mode from its full name or its first letter, ignoring
    /// ASCII case; any other input is rejected.
    pub fn from_str(s: &str) -> (r: Result<Mode, ()>)
        ensures
            match spec_parse_mode(s@) {
                Some(m) => r == Ok::<Mode, ()>(m),
                None => r == Err::<Mode, ()>(()),
            },
    {
        if str_eq_ci(s, "normal") || str_eq_ci(s, "n") {
            Ok(Mode::Normal)
        } else if str_eq_ci(s, "visual") || str_eq_ci(s, "v") {
            Ok(Mode::Visual)
        } else if str_eq_ci(s, "copy") || str_eq_ci(s, "c") {
            Ok(Mode::Copy)
        } else {
            Err(())
        }
    }

    /// Renders the mode as `-- <name> --`.
    pub fn display(&self) -> (r: String)
        ensures
            r@ == spec_mode_display(*self),
    {
        proof {
            reveal_strlit("-- ");
            reveal_strlit(" --");
            reveal_strlit("normal");
            reveal_strlit("visual");
            reveal_strlit("copy");
            reveal_strlit("-- normal --");
            reveal_strlit("-- visual --");
            reveal_strlit("-- copy --");
        }
        match self {
            Mode::Normal => {
                let r = String::from_str("-- normal --");
                assert(r@ =~= spec_mode_display(Mode::Normal));
                r
            }
            Mode::Visual => {
                let r = String::from_str("-- visual --");
                assert(r@ =~= spec_mode_display(Mode::Visual));
                r
            }
            Mode::Copy => {
                let r = String::from_str("-- copy --");
                assert(r@ =~= spec_mode_display(Mode::Copy));
                r
            }
        }
    }
}

/// Parsing inverts rendering: the name inside a mode's rendered form parses
/// back to the mode, so does the name's first letter, and these are exactly
/// the strings (up to ASCII case) that parse to it.
pub proof fn lemma_mode_round_trip(m: Mode)
    ensures
        spec_mode_display(m) == "-- "@ + spec_mode_name(m) + " --"@,
        spec_parse_mode(spec_mode_name(m)) == Some(m),
        spec_parse_mode(spec_mode_name(m).subrange(0, 1)) == Some(m),
        forall|s: Seq<char>|
            spec_parse_mode(s) == Some(m) <==> (seq_eq_ci(s, spec_mode_name(m))
                || seq_eq_ci(s, spec_mode_name(m).subrange(0, 1))),
{
    reveal_strlit("normal");
    reveal_strlit("visual");
    reveal_strlit("copy");
    reveal_strlit("n");
    reveal_strlit("v");
    reveal_strlit("c");
    assert("normal"@.subrange(0, 1) =~= "n"@);
    assert("visual"@.subrange(0, 1) =~= "v"@);
    assert("copy"@.subrange(0, 1) =~= "c"@);
    assert(seq_eq_ci("normal"@, "normal"@));
    assert(seq_eq_ci("visual"@, "visual"@));
    assert(seq_eq_ci("copy"@, "copy"@));
    assert(seq_eq_ci("n"@, "n"@));
    assert(seq_eq_ci("v"@, "v"@));
    assert(seq_eq_ci("c"@, "c"@));
    assert forall|s: Seq<char>| seq_eq_ci(s, "visual"@) implies spec_parse_mode(s)
        == Some(Mode::Visual) by {
        if seq_eq_ci(s, "normal"@) {
            assert(chars_eq_ci(s[0], "visual"@[0]));
            assert(chars_eq_ci(s[0], "normal"@[0]));
            assert(false);
        }
    }
    assert forall|s: Seq<char>| seq_eq_ci(s, "v"@) implies spec_parse_mode(s)
        == Some(Mode::Visual) by {
        if seq_eq_ci(s, "n"@) {
            assert(chars_eq_ci(s[0], "v"@[0]));
            assert(chars_eq_ci(s[0], "n"@[0]));
            assert(false);
        }
    }
    assert forall|s: Seq<char>| seq_eq_ci(s, "c"@) implies spec_parse_mode(s)
        == Some(Mode::Copy) by {
        if seq_eq_ci(s, "n"@) {
            assert(chars_eq_ci(s[0], "c"@[0]));
            assert(chars_eq_ci(s[0], "n"@[0]));
            assert(false);
        }
        if seq_eq_ci(s, "v"@) {
            assert(chars_eq_ci(s[0], "c"@[0]));
            assert(chars_eq_ci(s[0], "v"@[0]));
            assert(false);
        }
    }
}

} // verus!
