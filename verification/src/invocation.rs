use vstd::prelude::*;

verus! {

/// The requested command: the target program and its ordered argument
/// sequence. Built only from a non-empty token list, so a request always
/// names a program.
pub struct Invocation {
    pub program: String,
    pub args: Vec<String>,
}

/// Splits the raw invocation tokens (everything after the launcher's own
/// name) into the target program and its arguments. Zero tokens is a usage
/// error: no request is produced and nothing may proceed to authorization
/// or execution.
pub fn parse_invocation(tokens: Vec<String>) -> (r: Option<Invocation>)
    ensures
        r is None <==> tokens@.len() == 0,
        r matches Some(inv) ==> {
            &&& inv.program@ == tokens.deep_view()[0]
            &&& inv.args.deep_view() =~= tokens.deep_view().skip(1)
        },
{
    if tokens.len() == 0 {
        None
    } else {
        let mut rest = tokens;
        let program = rest.remove(0);
        assert(rest.deep_view() =~= tokens.deep_view().skip(1));
        Some(Invocation { program, args: rest })
    }
}

} // verus!
