//! Checks on strings that are handed to the instrumentation toolkit.

use crate::error::{failure_view, ServiceError, ServiceErrorView};
use vstd::prelude::*;
use vstd::string::*;

verus! {

/// Whether the text holds a NUL character, which the toolkit's C strings
/// cannot carry.
pub open spec fn has_nul(text: Seq<char>) -> bool {
    exists|i: int| 0 <= i < text.len() && text[i] == '\0'
}

/// Scans `value` for a NUL character.
pub fn contains_nul(value: &str) -> (found: bool)
    ensures
        found == has_nul(value@),
{
    let mut found = false;
    for c in it: value.chars()
        invariant
            it.seq() == value@,
            found == (exists|i: int| 0 <= i < it.index() && value@[i] == '\0'),
    {
        if c == '\0' {
            found = true;
        }
    }
    found
}

/// What [`validate_no_nul`] answers for the argument called `label` with
/// the content `value`.
pub open spec fn nul_verdict(label: Seq<char>, value: Seq<char>) -> Result<(), ServiceErrorView> {
    if has_nul(value) {
        Err(ServiceErrorView::InputValidation { label })
    } else {
        Ok(())
    }
}

/// Rejects a string that holds a NUL character, naming the argument in the
/// failure.
pub fn validate_no_nul(label: &str, value: &str) -> (verdict: Result<(), ServiceError>)
    ensures
        failure_view(verdict) == nul_verdict(label@, value@),
{
    if contains_nul(value) {
        Err(ServiceError::InputValidation { label: String::from_str(label) })
    } else {
        Ok(())
    }
}

/// The name of the `index`-th spawn argument in a failure.
pub open spec fn argv_label(index: nat) -> Seq<char> {
    "argv["@ + decimal(index) + "]"@
}

/// The decimal digit for `d`.
pub open spec fn digit(d: nat) -> char {
    seq!['0', '1', '2', '3', '4', '5', '6', '7', '8', '9'][d as int]
}

/// `n` in decimal notation.
pub open spec fn decimal(n: nat) -> Seq<char>
    decreases n,
{
    if n < 10 {
        seq![digit(n)]
    } else {
        decimal(n / 10).push(digit(n % 10))
    }
}

/// Whether `index` is the first argument that holds a NUL character.
pub open spec fn first_nul_arg(argv: Seq<Seq<char>>, index: int) -> bool {
    &&& 0 <= index < argv.len()
    &&& has_nul(argv[index])
    &&& forall|j: int| 0 <= j < index ==> !has_nul(#[trigger] argv[j])
}

/// Whether some argument holds a NUL character.
pub open spec fn some_nul_arg(argv: Option<Seq<Seq<char>>>) -> bool {
    argv matches Some(args) && exists|index: int| first_nul_arg(args, index)
}

/// The first argument that holds a NUL character.
pub open spec fn the_nul_arg(argv: Option<Seq<Seq<char>>>) -> nat {
    (choose|index: int| first_nul_arg(argv->0, index)) as nat
}

/// The text of a decimal digit.
fn digit_text(d: usize) -> (text: &'static str)
    requires
        d < 10,
    ensures
        text@ == seq![digit(d as nat)],
{
    proof {
        reveal_strlit("0");
        reveal_strlit("1");
        reveal_strlit("2");
        reveal_strlit("3");
        reveal_strlit("4");
        reveal_strlit("5");
        reveal_strlit("6");
        reveal_strlit("7");
        reveal_strlit("8");
        reveal_strlit("9");
    }
    let text = match d {
        0 => "0",
        1 => "1",
        2 => "2",
        3 => "3",
        4 => "4",
        5 => "5",
        6 => "6",
        7 => "7",
        8 => "8",
        _ => "9",
    };
    assert(text@ =~= seq![digit(d as nat)]);
    text
}

/// Writes `n` in decimal notation.
pub fn decimal_text(n: usize) -> (text: String)
    ensures
        text@ == decimal(n as nat),
    decreases n,
{
    if n < 10 {
        String::from_str(digit_text(n))
    } else {
        let head = decimal_text(n / 10);
        let text = head.concat(digit_text(n % 10));
        assert(text@ =~= decimal((n / 10) as nat).push(digit((n % 10) as nat)));
        text
    }
}

/// Names the `index`-th spawn argument for a failure.
pub fn argv_label_text(index: usize) -> (label: String)
    ensures
        label@ == argv_label(index as nat),
{
    let number = decimal_text(index);
    String::from_str("argv[").concat(number.as_str()).concat("]")
}

/// Looks for the first spawn argument that holds a NUL character.
pub fn find_nul_arg(argv: &Option<Vec<String>>) -> (found: Option<usize>)
    ensures
        match found {
            Some(index) => some_nul_arg(argv.deep_view()) && the_nul_arg(argv.deep_view())
                == index,
            None => !some_nul_arg(argv.deep_view()),
        },
{
    match argv {
        None => None,
        Some(args) => {
            let ghost view = args.deep_view();
            let mut i: usize = 0;
            while i < args.len()
                invariant
                    i <= args.len(),
                    view == args.deep_view(),
                    argv.deep_view() == Some(view),
                    forall|j: int| 0 <= j < i ==> !has_nul(#[trigger] view[j]),
                decreases args.len() - i,
            {
                if contains_nul(args[i].as_str()) {
                    proof {
                        // `i` is the first offender, and there is only one first.
                        assert(view[i as int] == args@[i as int]@);
                        assert(first_nul_arg(view, i as int));
                        let chosen = choose|index: int| first_nul_arg(view, index);
                        assert(chosen == i) by {
                            if chosen < i {
                                assert(!has_nul(view[chosen]));
                            }
                        }
                        assert(the_nul_arg(argv.deep_view()) == i);
                    }
                    return Some(i);
                }
                i += 1;
            }
            proof {
                assert forall|index: int| !first_nul_arg(view, index) by {
                    if 0 <= index < view.len() {
                        assert(!has_nul(view[index]));
                    }
                }
            }
            None
        },
    }
}

/// Compares two strings character by character.
pub fn same_text(left: &str, right: &str) -> (same: bool)
    ensures
        same == (left@ == right@),
{
    let a = left.as_bytes();
    let b = right.as_bytes();
    if a.len() != b.len() {
        return false;
    }
    let mut i: usize = 0;
    while i < a.len()
        invariant
            i <= a.len(),
            a.len() == b.len(),
            a@ == left.spec_bytes(),
            b@ == right.spec_bytes(),
            a@.subrange(0, i as int) == b@.subrange(0, i as int),
        decreases a.len() - i,
    {
        if a[i] != b[i] {
            return false;
        }
        proof {
            assert(a@.subrange(0, i + 1) =~= a@.subrange(0, i as int).push(a@[i as int]));
            assert(b@.subrange(0, i + 1) =~= b@.subrange(0, i as int).push(b@[i as int]));
        }
        i += 1;
    }
    proof {
        assert(a@ =~= a@.subrange(0, i as int));
        assert(b@ =~= b@.subrange(0, i as int));
        vstd::utf8::encode_utf8_decode_utf8(left@);
        vstd::utf8::encode_utf8_decode_utf8(right@);
    }
    true
}

} // verus!
