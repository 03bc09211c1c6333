//! The store's fixed file names and the quarantine name.
//!
//! The layout on disk is fixed: one storage directory holding the committed
//! file, the transient staging file beside it, and, after each detected
//! corruption, one quarantine file whose name carries the Unix timestamp of
//! the detection. The timestamp's decimal rendering is verified here.

use vstd::prelude::*;

verus! {

/// The decimal digit character for `d`, which must be below ten.
pub open spec fn decimal_digit(d: nat) -> char {
    if d == 0 {
        '0'
    } else if d == 1 {
        '1'
    } else if d == 2 {
        '2'
    } else if d == 3 {
        '3'
    } else if d == 4 {
        '4'
    } else if d == 5 {
        '5'
    } else if d == 6 {
        '6'
    } else if d == 7 {
        '7'
    } else if d == 8 {
        '8'
    } else {
        '9'
    }
}

/// The decimal rendering of `n`, most significant digit first, with no
/// leading zero except for zero itself.
pub open spec fn decimal_view(n: nat) -> Seq<char>
    decreases n,
{
    if n < 10 {
        seq![decimal_digit(n)]
    } else {
        decimal_view(n / 10).push(decimal_digit(n % 10))
    }
}

/// Appends the decimal rendering of `n` to `out`.
fn push_decimal(n: u64, out: &mut String)
    ensures
        final(out)@ == old(out)@ + decimal_view(n as nat),
    decreases n,
{
    if n >= 10 {
        push_decimal(n / 10, out);
    }
    let d: u64 = n % 10;
    let digit: &str = if d == 0 {
        "0"
    } else if d == 1 {
        "1"
    } else if d == 2 {
        "2"
    } else if d == 3 {
        "3"
    } else if d == 4 {
        "4"
    } else if d == 5 {
        "5"
    } else if d == 6 {
        "6"
    } else if d == 7 {
        "7"
    } else if d == 8 {
        "8"
    } else {
        "9"
    };
    proof {
        reveal_strlit("0");
        reveal_strlit("1");
        reveal_strlit("2");
        reveal_strlit("3");
        reveal_strlit("4");
        reveal_strlit("5");
        reveal_strlit("6");
        reveal_strlit("7");
        reveal_strlit("8");
        reveal_strlit("9");
        assert(digit@ =~= seq![decimal_digit(d as nat)]);
    }
    out.append(digit);
    proof {
        assert(out@ =~= old(out)@ + decimal_view(n as nat));
    }
}

/// Renders `n` in decimal, most significant digit first.
pub fn decimal_string(n: u64) -> (s: String)
    ensures
        s@ == decimal_view(n as nat),
{
    let mut s = String::new();
    push_decimal(n, &mut s);
    proof {
        assert(s@ =~= decimal_view(n as nat));
    }
    s
}

/// The name of the directory that holds the store's files.
pub fn storage_dir_name() -> (s: String)
    ensures
        s@ == "project-boards"@,
{
    String::from_str("project-boards")
}

/// The name of the committed file: the last known-good document.
pub fn primary_file_name() -> (s: String)
    ensures
        s@ == "boards.json"@,
{
    String::from_str("boards.json")
}

/// The name of the staging file; it exists only while a save is in flight.
pub fn staging_file_name() -> (s: String)
    ensures
        s@ == "boards.json.tmp"@,
{
    String::from_str("boards.json.tmp")
}

/// The name a corrupt committed document is quarantined under, for the
/// corruption detected at Unix time `secs`.
pub open spec fn quarantine_name_view(secs: nat) -> Seq<char> {
    "boards_corrupted_"@ + decimal_view(secs) + ".json"@
}

/// Builds the quarantine file name for a corruption detected at Unix time
/// `secs`.
pub fn quarantine_file_name(secs: u64) -> (s: String)
    ensures
        s@ == quarantine_name_view(secs as nat),
{
    let mut s = String::from_str("boards_corrupted_");
    push_decimal(secs, &mut s);
    s.append(".json");
    proof {
        assert(s@ =~= quarantine_name_view(secs as nat));
    }
    s
}

} // verus!
