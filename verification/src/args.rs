//! Assembly of argument vectors from fixed and caller-supplied parts.

use vstd::prelude::*;

verus! {

/// The argument vector for one invocation: the fixed arguments, then the
/// caller's, then the one argument that has to come last, if there is one.
pub open spec fn assembled(
    default_args: Seq<Seq<char>>,
    user_args: Seq<Seq<char>>,
    trailing_required: Option<Seq<char>>,
) -> Seq<Seq<char>> {
    match trailing_required {
        Some(last) => (default_args + user_args).push(last),
        None => default_args + user_args,
    }
}

/// Appends one argument to `dst`.
pub fn push_arg(dst: &mut Vec<String>, arg: &str)
    ensures
        final(dst).deep_view() == old(dst).deep_view().push(arg@),
{
    let ghost before = dst.deep_view();
    dst.push(arg.to_owned());
    assert(dst.deep_view() =~= before.push(arg@));
}

/// Appends a copy of every string of `src` to `dst`, in order.
pub fn extend_cloned(dst: &mut Vec<String>, src: &[String])
    ensures
        final(dst).deep_view() == old(dst).deep_view() + src.deep_view(),
{
    let ghost before = dst.deep_view();
    let mut i: usize = 0;
    while i < src.len()
        invariant
            i <= src.len(),
            dst.deep_view() == before + src.deep_view().take(i as int),
        decreases src.len() - i,
    {
        let ghost prev = dst.deep_view();
        dst.push(src[i].clone());
        i += 1;
        assert(dst.deep_view() =~= prev.push(src[i - 1]@));
        assert(src.deep_view().take(i as int) =~= src.deep_view().take(i - 1).push(src[i - 1]@));
    }
    assert(src.deep_view().take(src.len() as int) =~= src.deep_view());
}

/// A copy of a list of arguments.
pub fn clone_args(args: &[String]) -> (copy: Vec<String>)
    ensures
        copy.deep_view() == args.deep_view(),
{
    let mut copy: Vec<String> = Vec::new();
    assert(copy.deep_view() =~= Seq::<Seq<char>>::empty());
    extend_cloned(&mut copy, args);
    assert(copy.deep_view() =~= args.deep_view());
    copy
}

/// Merges the fixed arguments of an operation with the caller's. The content
/// of the arguments is not looked at: a malformed flag is the invoked
/// program's concern.
pub fn assemble(
    default_args: &[String],
    user_args: &[String],
    trailing_required: Option<&str>,
) -> (argv: Vec<String>)
    ensures
        argv.deep_view() == assembled(
            default_args.deep_view(),
            user_args.deep_view(),
            match trailing_required {
                Some(last) => Some(last@),
                None => None,
            },
        ),
        trailing_required is None ==> argv.deep_view() == default_args.deep_view()
            + user_args.deep_view(),
        trailing_required matches Some(last) ==> argv.deep_view().last() == last@,
{
    let mut argv: Vec<String> = Vec::new();
    assert(argv.deep_view() =~= Seq::<Seq<char>>::empty());
    extend_cloned(&mut argv, default_args);
    extend_cloned(&mut argv, user_args);
    if let Some(last) = trailing_required {
        push_arg(&mut argv, last);
    }
    argv
}

/// Without a trailing argument the assembled vector is the fixed arguments
/// followed by the caller's: every element keeps its place within its list,
/// and nothing is dropped or added.
pub proof fn lemma_assembled_keeps_order(default_args: Seq<Seq<char>>, user_args: Seq<Seq<char>>)
    ensures
        assembled(default_args, user_args, None).len() == default_args.len() + user_args.len(),
        forall|i: int|
            0 <= i < default_args.len() ==> assembled(default_args, user_args, None)[i]
                == default_args[i],
        forall|j: int|
            0 <= j < user_args.len() ==> assembled(
                default_args,
                user_args,
                None,
            )[default_args.len() + j] == user_args[j],
{
}

/// A trailing argument always ends the assembled vector, after every
/// argument of the two lists.
pub proof fn lemma_trailing_is_last(
    default_args: Seq<Seq<char>>,
    user_args: Seq<Seq<char>>,
    last: Seq<char>,
)
    ensures
        assembled(default_args, user_args, Some(last)).len() == default_args.len()
            + user_args.len() + 1,
        assembled(default_args, user_args, Some(last)).last() == last,
        assembled(default_args, user_args, Some(last)).drop_last() == assembled(
            default_args,
            user_args,
            None,
        ),
{
    assert(assembled(default_args, user_args, Some(last)).drop_last() =~= assembled(
        default_args,
        user_args,
        None,
    ));
}

/// The trailing argument stands at no place but the last exactly when
/// neither list holds it already: assembly copies the lists as they are and
/// removes nothing from them.
pub proof fn lemma_trailing_occurs_once(
    default_args: Seq<Seq<char>>,
    user_args: Seq<Seq<char>>,
    last: Seq<char>,
)
    ensures
        (!default_args.contains(last) && !user_args.contains(last)) <==> (forall|i: int|
            0 <= i < default_args.len() + user_args.len() ==> assembled(
                default_args,
                user_args,
                Some(last),
            )[i] != last),
{
    let argv = assembled(default_args, user_args, Some(last));
    if default_args.contains(last) {
        let i = choose|i: int| 0 <= i < default_args.len() && default_args[i] == last;
        assert(argv[i] == last);
    }
    if user_args.contains(last) {
        let j = choose|j: int| 0 <= j < user_args.len() && user_args[j] == last;
        assert(argv[default_args.len() + j] == last);
    }
    if !default_args.contains(last) && !user_args.contains(last) {
        assert forall|i: int| 0 <= i < default_args.len() + user_args.len() implies argv[i]
            != last by {
            if i < default_args.len() {
                assert(default_args[i] != last);
            } else {
                assert(user_args[i - default_args.len()] != last);
            }
        }
    }
}

/// The character that writes one decimal digit.
pub open spec fn digit(d: nat) -> char {
    if d == 0 {
        '0'
    } else if d == 1 {
        '1'
    } else if d == 2 {
        '2'
    } else if d == 3 {
        '3'
    } else if d == 4 {
        '4'
    } else if d == 5 {
        '5'
    } else if d == 6 {
        '6'
    } else if d == 7 {
        '7'
    } else if d == 8 {
        '8'
    } else {
        '9'
    }
}

/// A number written in base ten, without sign or leading zeros.
pub open spec fn decimal(n: nat) -> Seq<char>
    decreases n,
{
    if n < 10 {
        seq![digit(n)]
    } else {
        decimal(n / 10).push(digit(n % 10))
    }
}

fn digit_str(d: u8) -> (s: &'static str)
    requires
        d < 10,
    ensures
        s@ == seq![digit(d as nat)],
{
    proof {
        reveal_strlit("0");
        reveal_strlit("1");
        reveal_strlit("2");
        reveal_strlit("3");
        reveal_strlit("4");
        reveal_strlit("5");
        reveal_strlit("6");
        reveal_strlit("7");
        reveal_strlit("8");
        reveal_strlit("9");
    }
    let s = if d == 0 {
        "0"
    } else if d == 1 {
        "1"
    } else if d == 2 {
        "2"
    } else if d == 3 {
        "3"
    } else if d == 4 {
        "4"
    } else if d == 5 {
        "5"
    } else if d == 6 {
        "6"
    } else if d == 7 {
        "7"
    } else if d == 8 {
        "8"
    } else {
        "9"
    };
    assert(s@ =~= seq![digit(d as nat)]);
    s
}

/// Writes a count in base ten.
pub fn decimal_string(n: u8) -> (s: String)
    ensures
        s@ == decimal(n as nat),
{
    let mut s = String::new();
    if n >= 100 {
        s.append(digit_str(n / 100));
    }
    if n >= 10 {
        s.append(digit_str((n / 10) % 10));
    }
    s.append(digit_str(n % 10));
    proof {
        reveal_with_fuel(decimal, 3);
        assert(s@ =~= decimal(n as nat));
    }
    s
}

/// The flag that limits a listing to `count` commits.
pub open spec fn max_count(count: u8) -> Seq<char> {
    "--max-count="@ + decimal(count as nat)
}

/// Builds the flag that limits a listing to `count` commits.
pub fn max_count_arg(count: u8) -> (flag: String)
    ensures
        flag@ == max_count(count),
{
    let mut flag = "--max-count=".to_owned();
    let digits = decimal_string(count);
    flag.append(digits.as_str());
    flag
}

} // verus!
