use vstd::prelude::*;
use vstd::string::StringExecFns;
use crate::invocation::Invocation;

verus! {

/// The arguments joined by single spaces: `a1 a2 ... an`. Arguments that
/// themselves contain spaces are left as they are, so the joined form can be
/// ambiguous; that is the record's format by design.
pub open spec fn joined_args(args: Seq<Seq<char>>) -> Seq<char>
    decreases args.len(),
{
    if args.len() == 0 {
        Seq::empty()
    } else if args.len() == 1 {
        args[0]
    } else {
        joined_args(args.drop_last()) + seq![' '] + args.last()
    }
}

/// One audit record: the resolved identity, the program name and the
/// space-joined arguments, as `<user>: <program> <a1 a2 ...>`. When there
/// are no arguments the single space after the program name remains.
pub open spec fn audit_line(user: Seq<char>, program: Seq<char>, args: Seq<Seq<char>>) -> Seq<char> {
    user + seq![':', ' '] + program + seq![' '] + joined_args(args)
}

/// Formats the audit record for `user` running `inv`, without the
/// terminating newline.
pub fn format_audit_line(user: &String, inv: &Invocation) -> (r: String)
    ensures
        r@ == audit_line(user@, inv.program@, inv.args.deep_view()),
{
    proof {
        reveal_strlit(": ");
        reveal_strlit(" ");
    }
    let mut line = user.clone();
    line.append(": ");
    line.append(inv.program.as_str());
    line.append(" ");
    assert(": "@ =~= seq![':', ' ']);
    assert(" "@ =~= seq![' ']);
    let ghost head: Seq<char> = user@ + seq![':', ' '] + inv.program@ + seq![' '];
    assert(line@ =~= head);
    let ghost dv: Seq<Seq<char>> = inv.args.deep_view();
    let n = inv.args.len();
    let mut i: usize = 0;
    while i < n
        invariant
            n == inv.args@.len(),
            i <= n,
            dv == inv.args.deep_view(),
            dv.len() == n,
            line@ == head + joined_args(dv.take(i as int)),
        decreases n - i,
    {
        if i > 0 {
            line.append(" ");
        }
        line.append(inv.args[i].as_str());
        proof {
            reveal_strlit(" ");
            assert(" "@ =~= seq![' ']);
            assert(dv[i as int] == inv.args@[i as int]@);
            let t1 = dv.take(i + 1 as int);
            assert(t1.len() == i + 1);
            if i == 0 {
                assert(t1[0] == dv[0]);
                assert(joined_args(t1) == dv[0]);
                assert(line@ =~= head + joined_args(t1));
            } else {
                assert(t1.drop_last() =~= dv.take(i as int));
                assert(t1.last() == dv[i as int]);
                assert(joined_args(t1) == joined_args(dv.take(i as int)) + seq![' '] + dv[i as int]);
                assert(line@ =~= head + joined_args(t1));
            }
        }
        i += 1;
    }
    assert(dv.take(n as int) =~= dv);
    line
}

/// What a denied caller is told, naming the rejected user.
pub open spec fn denial_text(user: Seq<char>) -> Seq<char> {
    "You ("@ + user
        + ") are not in the superusers list. Contact your system administrator if this is a mistake."@
}

/// Builds the denial message for `user`.
pub fn denial_message(user: &String) -> (r: String)
    ensures
        r@ == denial_text(user@),
{
    let mut m = "You (".to_owned();
    m.append(user.as_str());
    m.append(") are not in the superusers list. Contact your system administrator if this is a mistake.");
    m
}

} // verus!
