//! Selection of the memory unit from the invocation arguments.
//!
//! Arguments are scanned case-insensitively: any argument reading `"gb"`
//! selects gigabytes; otherwise any argument reading `"mb"` selects
//! megabytes; otherwise kilobytes is the default.  All other arguments are
//! ignored.

use vstd::prelude::*;

verus! {

/// The magnitude applied to every memory figure of one report.
#[derive(Clone, Copy, PartialEq, Eq, Structural, Debug)]
pub enum UnitSelection {
    Kilobytes,
    Megabytes,
    Gigabytes,
}

/// A token selects gigabytes when it reads `"gb"` in any mix of ASCII case.
pub open spec fn is_gb_token(s: Seq<char>) -> bool {
    &&& s.len() == 2
    &&& (s[0] == 'g' || s[0] == 'G')
    &&& (s[1] == 'b' || s[1] == 'B')
}

/// A token selects megabytes when it reads `"mb"` in any mix of ASCII case.
pub open spec fn is_mb_token(s: Seq<char>) -> bool {
    &&& s.len() == 2
    &&& (s[0] == 'm' || s[0] == 'M')
    &&& (s[1] == 'b' || s[1] == 'B')
}

pub open spec fn some_gb_token(args: Seq<Seq<char>>) -> bool {
    exists|i: int| 0 <= i < args.len() && #[trigger] is_gb_token(args[i])
}

pub open spec fn some_mb_token(args: Seq<Seq<char>>) -> bool {
    exists|i: int| 0 <= i < args.len() && #[trigger] is_mb_token(args[i])
}

/// The unit that an argument list selects: gigabytes take precedence over
/// megabytes; with neither token present, kilobytes is the default.
pub open spec fn unit_of_args(args: Seq<Seq<char>>) -> UnitSelection {
    if some_gb_token(args) {
        UnitSelection::Gigabytes
    } else if some_mb_token(args) {
        UnitSelection::Megabytes
    } else {
        UnitSelection::Kilobytes
    }
}

fn arg_is_gb(s: &str) -> (r: bool)
    ensures
        r == is_gb_token(s@),
{
    if s.unicode_len() != 2 {
        return false;
    }
    let c0 = s.get_char(0);
    let c1 = s.get_char(1);
    (c0 == 'g' || c0 == 'G') && (c1 == 'b' || c1 == 'B')
}

fn arg_is_mb(s: &str) -> (r: bool)
    ensures
        r == is_mb_token(s@),
{
    if s.unicode_len() != 2 {
        return false;
    }
    let c0 = s.get_char(0);
    let c1 = s.get_char(1);
    (c0 == 'm' || c0 == 'M') && (c1 == 'b' || c1 == 'B')
}

/// Scans all invocation arguments and returns the selected memory unit.
pub fn select_unit(args: &Vec<String>) -> (u: UnitSelection)
    ensures
        u == unit_of_args(args.deep_view()),
{
    let ghost all: Seq<Seq<char>> = args.deep_view();
    let mut found_gb = false;
    let mut found_mb = false;
    let n = args.len();
    for k in 0..n
        invariant
            n == args.len(),
            all == args.deep_view(),
            found_gb == some_gb_token(all.take(k as int)),
            found_mb == some_mb_token(all.take(k as int)),
    {
        if arg_is_gb(args[k].as_str()) {
            found_gb = true;
        }
        if arg_is_mb(args[k].as_str()) {
            found_mb = true;
        }
        proof {
            lemma_some_token_push(all.take(k as int), all[k as int]);
            assert(all.take(k as int).push(all[k as int]) =~= all.take(k + 1));
        }
    }
    proof {
        assert(all.take(n as int) =~= all);
    }
    if found_gb {
        UnitSelection::Gigabytes
    } else if found_mb {
        UnitSelection::Megabytes
    } else {
        UnitSelection::Kilobytes
    }
}

proof fn lemma_some_token_push(args: Seq<Seq<char>>, t: Seq<char>)
    ensures
        some_gb_token(args.push(t)) == (some_gb_token(args) || is_gb_token(t)),
        some_mb_token(args.push(t)) == (some_mb_token(args) || is_mb_token(t)),
{
    let ext = args.push(t);
    assert(ext[args.len() as int] == t);
    assert forall|i: int| 0 <= i < args.len() implies ext[i] == args[i] by {}
    if some_gb_token(args) {
        let i = choose|i: int| 0 <= i < args.len() && #[trigger] is_gb_token(args[i]);
        assert(is_gb_token(ext[i]));
    }
    if some_mb_token(args) {
        let i = choose|i: int| 0 <= i < args.len() && #[trigger] is_mb_token(args[i]);
        assert(is_mb_token(ext[i]));
    }
    if some_gb_token(ext) {
        let i = choose|i: int| 0 <= i < ext.len() && #[trigger] is_gb_token(ext[i]);
        if i < args.len() {
            assert(is_gb_token(args[i]));
        }
    }
    if some_mb_token(ext) {
        let i = choose|i: int| 0 <= i < ext.len() && #[trigger] is_mb_token(ext[i]);
        if i < args.len() {
            assert(is_mb_token(args[i]));
        }
    }
}

/// Two characters are equal up to ASCII case when they are the same, or one
/// is an ASCII capital letter and the other its lower-case form.
pub open spec fn eq_ignore_ascii_case(a: char, b: char) -> bool {
    ||| a == b
    ||| (65 <= a as u32 <= 90 && b as u32 == a as u32 + 32)
    ||| (65 <= b as u32 <= 90 && a as u32 == b as u32 + 32)
}

proof fn lemma_char_case(a: char, b: char)
    requires
        eq_ignore_ascii_case(a, b),
    ensures
        (a == 'g' || a == 'G') == (b == 'g' || b == 'G'),
        (a == 'm' || a == 'M') == (b == 'm' || b == 'M'),
        (a == 'b' || a == 'B') == (b == 'b' || b == 'B'),
{
    assert('g' as u32 == 103 && 'G' as u32 == 71);
    assert('m' as u32 == 109 && 'M' as u32 == 77);
    assert('b' as u32 == 98 && 'B' as u32 == 66);
}

/// Changing the ASCII case of any characters of a token never changes
/// whether it selects megabytes or gigabytes.
pub proof fn lemma_token_case_insensitive(s: Seq<char>, t: Seq<char>)
    requires
        s.len() == t.len(),
        forall|i: int| 0 <= i < s.len() ==> eq_ignore_ascii_case(s[i], t[i]),
    ensures
        is_gb_token(s) == is_gb_token(t),
        is_mb_token(s) == is_mb_token(t),
{
    if s.len() == 2 {
        assert(eq_ignore_ascii_case(s[0], t[0]));
        assert(eq_ignore_ascii_case(s[1], t[1]));
        lemma_char_case(s[0], t[0]);
        lemma_char_case(s[1], t[1]);
    }
}

/// Changing the ASCII case of any characters of any arguments never changes
/// the selected unit.
pub proof fn lemma_unit_case_insensitive(args1: Seq<Seq<char>>, args2: Seq<Seq<char>>)
    requires
        args1.len() == args2.len(),
        forall|i: int| 0 <= i < args1.len() ==> #[trigger] args1[i].len() == args2[i].len(),
        forall|i: int, j: int|
            0 <= i < args1.len() && 0 <= j < args1[i].len() ==> eq_ignore_ascii_case(
                #[trigger] args1[i][j],
                args2[i][j],
            ),
    ensures
        unit_of_args(args1) == unit_of_args(args2),
{
    if some_gb_token(args1) {
        let i = choose|i: int| 0 <= i < args1.len() && #[trigger] is_gb_token(args1[i]);
        lemma_arg_tokens_agree(args1, args2, i);
        assert(is_gb_token(args2[i]));
    }
    if some_gb_token(args2) {
        let i = choose|i: int| 0 <= i < args2.len() && #[trigger] is_gb_token(args2[i]);
        lemma_arg_tokens_agree(args1, args2, i);
        assert(is_gb_token(args1[i]));
    }
    if some_mb_token(args1) {
        let i = choose|i: int| 0 <= i < args1.len() && #[trigger] is_mb_token(args1[i]);
        lemma_arg_tokens_agree(args1, args2, i);
        assert(is_mb_token(args2[i]));
    }
    if some_mb_token(args2) {
        let i = choose|i: int| 0 <= i < args2.len() && #[trigger] is_mb_token(args2[i]);
        lemma_arg_tokens_agree(args1, args2, i);
        assert(is_mb_token(args1[i]));
    }
}

proof fn lemma_arg_tokens_agree(args1: Seq<Seq<char>>, args2: Seq<Seq<char>>, i: int)
    requires
        args1.len() == args2.len(),
        forall|i: int| 0 <= i < args1.len() ==> #[trigger] args1[i].len() == args2[i].len(),
        forall|i: int, j: int|
            0 <= i < args1.len() && 0 <= j < args1[i].len() ==> eq_ignore_ascii_case(
                #[trigger] args1[i][j],
                args2[i][j],
            ),
        0 <= i < args1.len(),
    ensures
        is_gb_token(args1[i]) == is_gb_token(args2[i]),
        is_mb_token(args1[i]) == is_mb_token(args2[i]),
{
    assert forall|j: int|
        0 <= j < args1[i].len() implies eq_ignore_ascii_case(
        #[trigger] args1[i][j],
        args2[i][j],
    ) by {}
    lemma_token_case_insensitive(args1[i], args2[i]);
}

/// An argument that is neither a `"gb"` nor an `"mb"` token is silently
/// ignored: adding one anywhere never changes the selected unit.
pub proof fn lemma_unrecognized_argument_ignored(args: Seq<Seq<char>>, k: int, t: Seq<char>)
    requires
        0 <= k <= args.len(),
        !is_gb_token(t),
        !is_mb_token(t),
    ensures
        unit_of_args(args.insert(k, t)) == unit_of_args(args),
{
    let ext = args.insert(k, t);
    if some_gb_token(args) {
        let i = choose|i: int| 0 <= i < args.len() && #[trigger] is_gb_token(args[i]);
        let j: int = if i < k {
            i
        } else {
            i + 1
        };
        assert(is_gb_token(ext[j]));
    }
    if some_mb_token(args) {
        let i = choose|i: int| 0 <= i < args.len() && #[trigger] is_mb_token(args[i]);
        let j: int = if i < k {
            i
        } else {
            i + 1
        };
        assert(is_mb_token(ext[j]));
    }
    if some_gb_token(ext) {
        let i = choose|i: int| 0 <= i < ext.len() && #[trigger] is_gb_token(ext[i]);
        let j: int = if i < k {
            i
        } else {
            i - 1
        };
        assert(i != k);
        assert(is_gb_token(args[j]));
    }
    if some_mb_token(ext) {
        let i = choose|i: int| 0 <= i < ext.len() && #[trigger] is_mb_token(ext[i]);
        let j: int = if i < k {
            i
        } else {
            i - 1
        };
        assert(i != k);
        assert(is_mb_token(args[j]));
    }
}

/// Gigabytes take precedence: when both a `"gb"` and an `"mb"` token stand
/// anywhere among the arguments, gigabytes is selected.
pub proof fn lemma_gb_precedence(args: Seq<Seq<char>>, i: int, j: int)
    requires
        0 <= i < args.len(),
        0 <= j < args.len(),
        is_gb_token(args[i]),
        is_mb_token(args[j]),
    ensures
        unit_of_args(args) == UnitSelection::Gigabytes,
{
}

} // verus!
